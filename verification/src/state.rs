//! Plain values that the editing operations pass around.

use vstd::prelude::*;

verus! {

/// The editing modes. Every operation of this crate behaves as in `Insert`;
/// none of them looks at the mode.
#[derive(Clone, Copy, Debug, PartialEq, Eq, Structural)]
pub enum State {
    Normal,
    Replace,
    Insert,
    Prompt,
}

/// A place in a document: `x` is a grapheme column, `y` a row. A row equal to
/// the number of rows is the place where a new row is appended.
#[derive(Clone, Copy, Debug, PartialEq, Eq, Structural)]
pub struct Position {
    pub x: usize,
    pub y: usize,
}

/// A key as the editing operations see it. `Other` stands for every key that
/// none of them acts on.
#[derive(Clone, Copy, Debug, PartialEq, Eq, Structural)]
pub enum Key {
    Backspace,
    Left,
    Right,
    Up,
    Down,
    Home,
    End,
    PageUp,
    PageDown,
    Delete,
    Char(char),
    Ctrl(char),
    Esc,
    Other,
}

/// Which way a search runs from where it starts.
#[derive(Clone, Copy, Debug, PartialEq, Eq, Structural)]
pub enum SearchDirection {
    Forward,
    Backward,
}

impl Default for Position {
    /// The top left corner.
    fn default() -> (origin: Position)
        ensures
            origin == (Position { x: 0, y: 0 }),
    {
        Position { x: 0, y: 0 }
    }
}

} // verus!
