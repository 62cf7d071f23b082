//! The cursor of a list or a table, which the drawing keeps within the rows.
use vstd::prelude::*;

use crate::components::home::mainscreen::selectplaylistpopup::{select_next, select_previous};

verus! {

/// A move of the cursor.
#[derive(Clone, Copy, Debug, PartialEq, Eq, Structural)]
pub enum CursorMove {
    Up,
    Down,
    Top,
    Bottom,
}

/// The cursor after `m`: one up or down, or the first or the last row (the largest position,
/// which the drawing brings back to the last row).
pub open spec fn cursor_after(c: Option<usize>, m: CursorMove) -> Option<usize> {
    match m {
        CursorMove::Up => select_previous(c),
        CursorMove::Down => select_next(c),
        CursorMove::Top => Some(0usize),
        CursorMove::Bottom => Some(usize::MAX),
    }
}

/// Moves the cursor `c` by `m`.
pub fn move_cursor(c: Option<usize>, m: CursorMove) -> (r: Option<usize>)
    ensures
        r == cursor_after(c, m),
{
    match m {
        CursorMove::Up => match c {
            Some(i) => Some(if i == 0 { 0 } else { i - 1 }),
            None => Some(usize::MAX),
        },
        CursorMove::Down => match c {
            Some(i) => Some(if i == usize::MAX { i } else { i + 1 }),
            None => Some(0),
        },
        CursorMove::Top => Some(0),
        CursorMove::Bottom => Some(usize::MAX),
    }
}

} // verus!
