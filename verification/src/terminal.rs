//! What the buffer has to know of the terminal: how large its window is.

use vstd::prelude::*;

verus! {

/// The size of the text window, in rows and columns.
#[derive(Clone, Copy, Debug, PartialEq, Eq, Structural)]
pub struct Size {
    pub height: u16,
    pub width: u16,
}

impl Size {
    /// The size of the text window in a terminal of `columns` columns and
    /// `rows` rows: the last two rows are kept for the status bar and the
    /// message bar.
    pub fn of_terminal(columns: u16, rows: u16) -> (size: Size)
        ensures
            size.width == columns,
            size.height == if rows >= 2 {
                rows - 2
            } else {
                0
            },
    {
        Size { height: rows.saturating_sub(2), width: columns }
    }
}

} // verus!
