//! The popup with the details of one media item.
use vstd::prelude::*;

use crate::action::localaction::PopupAction;
use crate::components::cursor::{cursor_after, move_cursor, CursorMove};
use crate::media::{opt_text, clone_opt, Media};
use crate::strings::{file_size, file_size_string, hms, hms_string, opt_dec, opt_dec_string};

verus! {

/// The rows of the popup for `m`: a label and a value each.
pub open spec fn media_rows(m: Media) -> Seq<(Seq<char>, Seq<char>)> {
    seq![
        ("Title"@, m.title@),
        ("ID"@, m.id@),
        ("Album"@, opt_text(m.album)),
        ("Artist"@, opt_text(m.artist)),
        ("Track"@, opt_dec(m.track)),
        ("Year"@, opt_dec(m.year)),
        ("Play Count"@, opt_dec(m.play_count)),
        ("BPM"@, opt_dec(m.bpm)),
        ("Genre"@, opt_text(m.genre)),
        ("Duration"@, match m.duration { Some(secs) => hms(secs as nat), None => Seq::empty() }),
        ("Content Type"@, opt_text(m.content_type)),
        ("Path"@, opt_text(m.path)),
        ("Bit Rate"@, opt_dec(m.bit_rate)),
        ("Sampling Rate"@, opt_dec(m.sampling_rate)),
        ("File Size"@, match m.size { Some(s) => file_size(s as nat), None => Seq::empty() }),
        ("User Rating"@, opt_dec(m.user_rating)),
        ("Average Rating"@, opt_text(m.average_rating)),
        ("Play Count"@, opt_dec(m.play_count)),
        ("Starred At"@, opt_text(m.starred)),
    ]
}

/// The text of rows of strings.
pub open spec fn rows_text(rows: Seq<(String, String)>) -> Seq<(Seq<char>, Seq<char>)> {
    rows.map_values(|r: (String, String)| (r.0@, r.1@))
}

/// Appends a row.
pub fn push_row(rows: &mut Vec<(String, String)>, label: &str, value: String)
    ensures
        rows_text(final(rows)@) == rows_text(old(rows)@).push((label@, value@)),
{
    rows.push((String::from_str(label), value));
    assert(rows_text(rows@) =~= rows_text(old(rows)@).push((label@, value@)));
}

/// The text of an optional string, empty when absent.
pub fn opt_string(o: &Option<String>) -> (s: String)
    ensures
        s@ == opt_text(*o),
{
    match clone_opt(o) {
        Some(s) => s,
        None => String::new(),
    }
}

/// The details popup of a media item.
pub struct MediaInfo {
    pub rows: Vec<(String, String)>,
    /// The row under the cursor.
    pub cursor: Option<usize>,
}

impl MediaInfo {
    /// The popup for `media`.
    pub fn new(media: Media) -> (r: Self)
        ensures
            rows_text(r.rows@) == media_rows(media),
            r.cursor == Some(0usize),
    {
        let mut rows: Vec<(String, String)> = Vec::new();
        proof { assert(rows_text(rows@) =~= Seq::empty()); }
        push_row(&mut rows, "Title", media.title.clone());
        push_row(&mut rows, "ID", media.id.clone());
        push_row(&mut rows, "Album", opt_string(&media.album));
        push_row(&mut rows, "Artist", opt_string(&media.artist));
        push_row(&mut rows, "Track", opt_dec_string(media.track));
        push_row(&mut rows, "Year", opt_dec_string(media.year));
        push_row(&mut rows, "Play Count", opt_dec_string(media.play_count));
        push_row(&mut rows, "BPM", opt_dec_string(media.bpm));
        push_row(&mut rows, "Genre", opt_string(&media.genre));
        push_row(&mut rows, "Duration", match media.duration {
            Some(secs) => hms_string(secs as u64),
            None => String::new(),
        });
        push_row(&mut rows, "Content Type", opt_string(&media.content_type));
        push_row(&mut rows, "Path", opt_string(&media.path));
        push_row(&mut rows, "Bit Rate", opt_dec_string(media.bit_rate));
        push_row(&mut rows, "Sampling Rate", opt_dec_string(media.sampling_rate));
        push_row(&mut rows, "File Size", match media.size {
            Some(s) => file_size_string(s),
            None => String::new(),
        });
        push_row(&mut rows, "User Rating", opt_dec_string(media.user_rating));
        push_row(&mut rows, "Average Rating", opt_string(&media.average_rating));
        push_row(&mut rows, "Play Count", opt_dec_string(media.play_count));
        push_row(&mut rows, "Starred At", opt_string(&media.starred));
        proof {
            assert(rows_text(rows@) =~= media_rows(media));
        }
        Self { rows, cursor: Some(0) }
    }

    /// Moves the cursor, or asks to close the popup (`true`).
    pub fn handle_local_action(&mut self, action: PopupAction) -> (close: bool)
        ensures
            close == (action == PopupAction::Close),
            final(self).rows == old(self).rows,
            final(self).cursor == match action {
                PopupAction::Up => cursor_after(old(self).cursor, CursorMove::Up),
                PopupAction::Down => cursor_after(old(self).cursor, CursorMove::Down),
                PopupAction::Top => cursor_after(old(self).cursor, CursorMove::Top),
                PopupAction::Bottom => cursor_after(old(self).cursor, CursorMove::Bottom),
                PopupAction::Close => old(self).cursor,
            },
    {
        match action {
            PopupAction::Up => {
                self.cursor = move_cursor(self.cursor, CursorMove::Up);
                false
            },
            PopupAction::Down => {
                self.cursor = move_cursor(self.cursor, CursorMove::Down);
                false
            },
            PopupAction::Top => {
                self.cursor = move_cursor(self.cursor, CursorMove::Top);
                false
            },
            PopupAction::Bottom => {
                self.cursor = move_cursor(self.cursor, CursorMove::Bottom);
                false
            },
            PopupAction::Close => true,
        }
    }
}

} // verus!
