//! The viewport: which part of the document the window shows.

use crate::state::Position;
use crate::terminal::Size;
use vstd::prelude::*;

verus! {

/// Where a window of `span` cells that began at `offset` begins once it has
/// followed the cursor to `at`, along one axis.
///
/// A cursor before the window pulls the window's start onto itself. A cursor
/// behind the window pushes the window on by as much as the cursor is
/// beyond it, so that the cursor stands in the last cell. A cursor inside
/// the window leaves it alone. Only a window without cells under a cursor at
/// `usize::MAX` would have to begin beyond `usize::MAX`; it begins there.
pub open spec fn aligned(at: nat, span: nat, offset: nat) -> nat {
    if at < offset {
        at
    } else if at >= offset + span {
        if at + 1 - span <= usize::MAX {
            (at + 1 - span) as nat
        } else {
            usize::MAX as nat
        }
    } else {
        offset
    }
}

/// The top left corner of the window after it has followed `cursor`.
pub open spec fn scrolled(cursor: Position, window: Size, offset: Position) -> Position {
    Position {
        x: aligned(cursor.x as nat, window.width as nat, offset.x as nat) as usize,
        y: aligned(cursor.y as nat, window.height as nat, offset.y as nat) as usize,
    }
}

/// `at` lies inside the window of `span` cells that begins at `offset`.
pub open spec fn shows(at: nat, span: nat, offset: nat) -> bool {
    offset <= at < offset + span
}

/// Along one axis, a window that has followed the cursor shows it, and
/// following the same cursor again does not move it, as long as the window
/// has a cell at all.
pub proof fn lemma_aligned_settles(at: nat, span: nat, offset: nat)
    requires
        span > 0,
        at <= usize::MAX,
    ensures
        shows(at, span, aligned(at, span, offset)),
        aligned(at, span, aligned(at, span, offset)) == aligned(at, span, offset),
{
}

/// Scrolling twice with the same cursor and window gives what scrolling
/// once gives, as long as the window has a row and a column.
pub proof fn lemma_scroll_twice(cursor: Position, window: Size, offset: Position)
    requires
        window.width > 0,
        window.height > 0,
    ensures
        scrolled(cursor, window, scrolled(cursor, window, offset)) == scrolled(
            cursor,
            window,
            offset,
        ),
{
    lemma_aligned_settles(cursor.x as nat, window.width as nat, offset.x as nat);
    lemma_aligned_settles(cursor.y as nat, window.height as nat, offset.y as nat);
}

/// One axis of [`scroll`].
fn align(at: usize, span: usize, offset: usize) -> (start: usize)
    ensures
        start == aligned(at as nat, span as nat, offset as nat),
{
    if at < offset {
        at
    } else if at - offset >= span {
        (at - span).saturating_add(1)
    } else {
        offset
    }
}

/// Moves the window so that it shows the cursor: gives the window's new top
/// left corner, `offset` being the old one. A window with at least one row
/// and one column shows the cursor afterwards.
pub fn scroll(cursor: &Position, window: &Size, offset: &Position) -> (corner: Position)
    ensures
        corner == scrolled(*cursor, *window, *offset),
        window.width > 0 ==> shows(cursor.x as nat, window.width as nat, corner.x as nat),
        window.height > 0 ==> shows(cursor.y as nat, window.height as nat, corner.y as nat),
{
    proof {
        if window.width > 0 {
            lemma_aligned_settles(cursor.x as nat, window.width as nat, offset.x as nat);
        }
        if window.height > 0 {
            lemma_aligned_settles(cursor.y as nat, window.height as nat, offset.y as nat);
        }
    }
    Position {
        x: align(cursor.x, window.width as usize, offset.x),
        y: align(cursor.y, window.height as usize, offset.y),
    }
}

} // verus!
