//! The popup with the details of one playlist.
use vstd::prelude::*;

use crate::action::getplaylists::SimplePlaylist;
use crate::action::localaction::ListAction;
use crate::components::cursor::{cursor_after, move_cursor, CursorMove};
use crate::components::home::mainscreen::mediainfo::{push_row, rows_text};
use crate::strings::{dec, dec_string, pad2, push_pad2, push_str};

verus! {

/// The playlist's length: `hh:mm:ss` over an hour, `mm:ss` otherwise. Over an hour the middle
/// field is the total number of minutes, not the minutes past the hour.
pub open spec fn playlist_duration(secs: nat) -> Seq<char> {
    if secs > 3600 {
        pad2(secs / 3600) + ":"@ + pad2(secs / 60) + ":"@ + pad2(secs % 60)
    } else {
        pad2(secs / 60) + ":"@ + pad2(secs % 60)
    }
}

/// The rows of the popup for `p`: a label and a value each.
pub open spec fn playlist_rows(p: SimplePlaylist) -> Seq<(Seq<char>, Seq<char>)> {
    seq![
        ("Name"@, p.name@),
        ("Owner"@, p.owner@),
        ("Public"@, if p.public { "Yes"@ } else { "No"@ }),
        ("Song Count"@, dec(p.song_count as nat)),
        ("Duration"@, playlist_duration(p.duration as nat)),
        ("Created At"@, p.created@),
        ("Last Modified"@, p.changed@),
    ]
}

/// The details popup of a playlist.
pub struct PlaylistInfo {
    pub rows: Vec<(String, String)>,
    /// The row under the cursor.
    pub cursor: Option<usize>,
}

impl PlaylistInfo {
    /// The popup for `playlist`.
    pub fn new(playlist: SimplePlaylist) -> (r: Self)
        ensures
            rows_text(r.rows@) == playlist_rows(playlist),
            r.cursor == Some(0usize),
    {
        let mut rows: Vec<(String, String)> = Vec::new();
        proof { assert(rows_text(rows@) =~= Seq::empty()); }
        push_row(&mut rows, "Name", playlist.name.clone());
        push_row(&mut rows, "Owner", playlist.owner.clone());
        push_row(&mut rows, "Public", String::from_str(if playlist.public { "Yes" } else { "No" }));
        push_row(&mut rows, "Song Count", dec_string(playlist.song_count as u64));
        let secs = playlist.duration as u64;
        let mut d = String::new();
        if secs > 3600 {
            push_pad2(&mut d, secs / 3600);
            push_str(&mut d, ":");
            push_pad2(&mut d, secs / 60);
            push_str(&mut d, ":");
            push_pad2(&mut d, secs % 60);
        } else {
            push_pad2(&mut d, secs / 60);
            push_str(&mut d, ":");
            push_pad2(&mut d, secs % 60);
        }
        push_row(&mut rows, "Duration", d);
        push_row(&mut rows, "Created At", playlist.created.clone());
        push_row(&mut rows, "Last Modified", playlist.changed.clone());
        proof {
            assert(rows_text(rows@) =~= playlist_rows(playlist));
        }
        Self { rows, cursor: Some(0) }
    }

    /// Moves the cursor on a move action; the other list actions change nothing.
    pub fn handle_local_action(&mut self, action: ListAction)
        ensures
            final(self).rows == old(self).rows,
            final(self).cursor == match action {
                ListAction::Up => cursor_after(old(self).cursor, CursorMove::Up),
                ListAction::Down => cursor_after(old(self).cursor, CursorMove::Down),
                ListAction::Top => cursor_after(old(self).cursor, CursorMove::Top),
                ListAction::Bottom => cursor_after(old(self).cursor, CursorMove::Bottom),
                _ => old(self).cursor,
            },
    {
        match action {
            ListAction::Up => self.cursor = move_cursor(self.cursor, CursorMove::Up),
            ListAction::Down => self.cursor = move_cursor(self.cursor, CursorMove::Down),
            ListAction::Top => self.cursor = move_cursor(self.cursor, CursorMove::Top),
            ListAction::Bottom => self.cursor = move_cursor(self.cursor, CursorMove::Bottom),
            _ => {},
        }
    }
}

} // verus!
