//! Lyrics without time stamps, shown as a list of lines.
use vstd::prelude::*;

use crate::action::localaction::LyricsAction;
use crate::components::cursor::{cursor_after, move_cursor, CursorMove};
use crate::text::{lines_of, text_lines};

verus! {

/// Lyrics as lines.
pub struct Unsynced {
    pub lines: Vec<String>,
    /// The line under the cursor.
    pub cursor: Option<usize>,
}

impl Unsynced {
    /// The lines of `found`.
    pub fn new(found: String) -> (r: Self)
        ensures
            r.lines@.map_values(|l: String| l@) == text_lines(found@),
            r.cursor == Some(0usize),
    {
        Self { lines: lines_of(found.as_str()), cursor: Some(0) }
    }

    /// Moves the cursor.
    pub fn handle_local_action(&mut self, action: LyricsAction)
        ensures
            final(self).lines == old(self).lines,
            final(self).cursor == match action {
                LyricsAction::Up => cursor_after(old(self).cursor, CursorMove::Up),
                LyricsAction::Down => cursor_after(old(self).cursor, CursorMove::Down),
                LyricsAction::Top => cursor_after(old(self).cursor, CursorMove::Top),
                LyricsAction::Bottom => cursor_after(old(self).cursor, CursorMove::Bottom),
            },
    {
        let m = match action {
            LyricsAction::Up => CursorMove::Up,
            LyricsAction::Down => CursorMove::Down,
            LyricsAction::Top => CursorMove::Top,
            LyricsAction::Bottom => CursorMove::Bottom,
        };
        self.cursor = move_cursor(self.cursor, m);
    }
}

} // verus!
