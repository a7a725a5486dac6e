//! Cursor movement over a document.

use crate::document::Document;
use crate::grapheme::grapheme_clusters;
use crate::state::Position;
use crate::terminal::Size;
use vstd::prelude::*;

verus! {

/// The ways in which the cursor moves.
#[derive(Clone, Copy, Debug, PartialEq, Eq, Structural)]
pub enum Direction {
    Up,
    Down,
    Left,
    Right,
    PageUp,
    PageDown,
    Home,
    End,
}

/// The number of columns of row `y`; none for a row that is not there.
pub open spec fn columns(rows: Seq<Seq<char>>, y: nat) -> nat {
    if y < rows.len() {
        grapheme_clusters(rows[y as int]).len()
    } else {
        0
    }
}

/// The column one past `column`, as far as a `usize` goes.
pub open spec fn column_after(column: nat) -> nat {
    if column < usize::MAX {
        column + 1
    } else {
        column
    }
}

/// Where the cursor goes before its column is cut down to the row it has
/// reached: the column, then the row.
///
/// Up and down move by one row, a page up or down by `page` rows; none of
/// them leaves the rows from the first to the place of appending. Left at
/// the first column goes to the end of the row above, right at the end of a
/// row to the first column of the row below. Home goes to column 1, end to
/// the column behind the last of the row.
pub open spec fn stepped(cursor: Position, direction: Direction, rows: Seq<Seq<char>>, page: nat) -> (
    nat,
    nat,
) {
    let x = cursor.x as nat;
    let y = cursor.y as nat;
    match direction {
        Direction::Up => (
            x,
            if y > 0 {
                (y - 1) as nat
            } else {
                y
            },
        ),
        Direction::Down => (
            x,
            if y < rows.len() {
                y + 1
            } else {
                y
            },
        ),
        Direction::Left => if x > 0 {
            ((x - 1) as nat, y)
        } else if y > 0 {
            (columns(rows, (y - 1) as nat), (y - 1) as nat)
        } else {
            (x, y)
        },
        Direction::Right => if x < columns(rows, y) {
            (x + 1, y)
        } else if y < rows.len() {
            (0, y + 1)
        } else {
            (x, y)
        },
        Direction::PageUp => (
            x,
            if y > page {
                (y - page) as nat
            } else {
                0
            },
        ),
        Direction::PageDown => (
            x,
            if y + page < rows.len() {
                y + page
            } else {
                rows.len()
            },
        ),
        Direction::Home => (1, y),
        Direction::End => (
            if y < rows.len() {
                column_after(columns(rows, y))
            } else {
                0
            },
            y,
        ),
    }
}

/// Where the cursor stands after a move: as `stepped` says, with the column
/// cut down to the column behind the last of the row reached.
pub open spec fn moved(cursor: Position, direction: Direction, rows: Seq<Seq<char>>, page: nat) -> (
    nat,
    nat,
) {
    let (x, y) = stepped(cursor, direction, rows, page);
    if x > columns(rows, y) + 1 {
        (columns(rows, y) + 1, y)
    } else {
        (x, y)
    }
}

/// The number of columns of row `y` of the document, none where it has no
/// such row.
fn columns_of(document: &Document, y: usize) -> (count: usize)
    requires
        document.wf(),
    ensures
        count == columns(document@, y as nat),
{
    match document.line(y) {
        Some(line) => line.len(),
        None => 0,
    }
}

/// Moves the cursor over `document` in a window of `window.height` rows and
/// gives its new place. See [`moved`].
///
/// A cursor that stands on a row of the document, or at the place of
/// appending, stays on one; and its column is never more than one past the
/// last column of its row.
pub fn move_cursor(cursor: &Position, direction: Direction, document: &Document, window: &Size) -> (place:
    Position)
    requires
        document.wf(),
    ensures
        (place.x as nat, place.y as nat) == moved(
            *cursor,
            direction,
            document@,
            window.height as nat,
        ),
        cursor.y <= document@.len() ==> place.y <= document@.len(),
        place.x <= columns(document@, place.y as nat) + 1,
{
    let page = window.height as usize;
    let height = document.len();
    let mut x: usize = cursor.x;
    let mut y: usize = cursor.y;
    match direction {
        Direction::Up => {
            y = y.saturating_sub(1);
        },
        Direction::Down => {
            if y < height {
                y = y + 1;
            }
        },
        Direction::Left => {
            if x > 0 {
                x = x - 1;
            } else if y > 0 {
                y = y - 1;
                x = columns_of(document, y);
            }
        },
        Direction::Right => {
            if x < columns_of(document, y) {
                x = x + 1;
            } else if y < height {
                y = y + 1;
                x = 0;
            }
        },
        Direction::PageUp => {
            y = if y > page {
                y - page
            } else {
                0
            };
        },
        Direction::PageDown => {
            y = if y.saturating_add(page) < height {
                y + page
            } else {
                height
            };
        },
        Direction::Home => {
            x = 1;
        },
        Direction::End => {
            x = if y < height {
                columns_of(document, y).saturating_add(1)
            } else {
                0
            };
        },
    }
    let width = columns_of(document, y);
    if x > width && x - width > 1 {
        x = width + 1;
    }
    Position { x, y }
}

} // verus!
