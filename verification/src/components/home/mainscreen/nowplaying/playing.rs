//! The now-playing panel while a track plays: position, cover and lyrics.
use vstd::prelude::*;

use crate::media::Media;
use crate::query::ToQueryWorker;
use crate::strings::{pad2, push_pad2, push_str};

pub mod imagecomp;
pub mod lyrics;
pub mod synced;
pub mod unsynced;

use imagecomp::{cover_after, ImageComp};
use lyrics::{lyrics_after, lyrics_query, GetLyricsResponse, Lyrics};

verus! {

/// The label of the progress line: the position, the play state (▶ playing, ⏸ paused) and the
/// track's length (`??:??` when unknown).
pub open spec fn progress_label(pos_secs: nat, playing: bool, duration: Option<u32>) -> Seq<char> {
    pad2(pos_secs / 60) + ":"@ + pad2(pos_secs % 60) + " "@ + (if playing { "▶"@ } else { "⏸"@ })
        + " "@ + match duration {
        None => "??:??"@,
        Some(len) => if len == 0 {
            "00:00"@
        } else {
            pad2(len as nat / 60) + ":"@ + pad2(len as nat % 60)
        },
    }
}

/// The filled part of the progress gauge, in percent, when the length is known and not zero:
/// the position over the length, kept to the 16 bits it is shown with, and at most 100.
pub open spec fn gauge_percent(pos_secs: nat, duration: Option<u32>) -> Option<u16> {
    match duration {
        Some(len) => if len == 0 {
            None
        } else {
            let p = ((pos_secs * 100) / (len as nat)) % 65536;
            Some(if p > 100 { 100u16 } else { p as u16 })
        },
        None => None,
    }
}

/// Renders the progress label.
pub fn gen_label(pos_secs: u64, playing: bool, duration: Option<u32>) -> (s: String)
    ensures
        s@ == progress_label(pos_secs as nat, playing, duration),
{
    let mut s = String::new();
    push_pad2(&mut s, pos_secs / 60);
    push_str(&mut s, ":");
    push_pad2(&mut s, pos_secs % 60);
    push_str(&mut s, " ");
    push_str(&mut s, if playing { "▶" } else { "⏸" });
    push_str(&mut s, " ");
    match duration {
        None => push_str(&mut s, "??:??"),
        Some(len) => if len == 0 {
            push_str(&mut s, "00:00");
        } else {
            push_pad2(&mut s, len as u64 / 60);
            push_str(&mut s, ":");
            push_pad2(&mut s, len as u64 % 60);
        },
    }
    s
}

/// Computes the filled part of the progress gauge.
pub fn gen_percent(pos_secs: u64, duration: Option<u32>) -> (p: Option<u16>)
    requires
        pos_secs * 100 <= i32::MAX,
        duration matches Some(len) ==> len <= i32::MAX,
    ensures
        p == gauge_percent(pos_secs as nat, duration),
{
    match duration {
        Some(len) => if len == 0 {
            None
        } else {
            let percent: u64 = ((pos_secs * 100) / (len as u64)) % 65536;
            Some(if percent > 100 { 100u16 } else { percent as u16 })
        },
        None => None,
    }
}

/// `reqs` are the requests for a new track `music`: its cover first, when the cover view is
/// enabled and the track has one, under `cover_ticket`; then its lyrics, when the lyrics view
/// is enabled, under `lyrics_ticket`.
pub open spec fn track_requests(
    reqs: Seq<ToQueryWorker>,
    music: Media,
    cover_enabled: bool,
    lyrics_enabled: bool,
    cover_ticket: usize,
    lyrics_ticket: usize,
) -> bool {
    &&& reqs.len() == (if cover_enabled && music.cover_art is Some { 1int } else { 0 }) + (if lyrics_enabled { 1int } else { 0 })
    &&& forall|i: int| 0 <= i < reqs.len() ==> {
        let q = #[trigger] reqs[i];
        if cover_enabled && music.cover_art is Some && i == 0 {
            q.ticket == cover_ticket && q.query == crate::query::HighLevelQuery::GetCover(music.cover_art->0)
        } else {
            q.ticket == lyrics_ticket && q.query == lyrics_query(music)
        }
    }
}

/// A track being played.
pub struct Playing<P> {
    /// The play position, in milliseconds.
    pub pos: u64,
    pub playing: bool,
    pub music: Media,
    pub lyrics: Option<Lyrics>,
    pub cover: Option<ImageComp<P>>,
}

impl<P> Playing<P> {
    /// The panel for `music`, with the cover and the lyrics views that are enabled, and the
    /// requests they make (the cover's first), under the given tickets.
    pub fn new(
        playing: bool,
        music: Media,
        cover_enabled: bool,
        lyrics_enabled: bool,
        cover_ticket: usize,
        lyrics_ticket: usize,
    ) -> (r: (Self, Vec<ToQueryWorker>))
        ensures
            r.0.pos == 0,
            r.0.playing == playing,
            r.0.music == music,
            r.0.cover is Some == cover_enabled,
            r.0.lyrics is Some == lyrics_enabled,
            track_requests(r.1@, music, cover_enabled, lyrics_enabled, cover_ticket, lyrics_ticket),
    {
        let mut actions: Vec<ToQueryWorker> = Vec::new();
        let cover = if cover_enabled {
            let (comp, action) = ImageComp::new(crate::media::clone_opt(&music.cover_art), cover_ticket);
            if let Some(a) = action {
                actions.push(a);
            }
            Some(comp)
        } else {
            None
        };
        let lyrics = if lyrics_enabled {
            let (comp, action) = Lyrics::new(music.clone_media(), lyrics_ticket);
            actions.push(action);
            Some(comp)
        } else {
            None
        };
        (Self { playing, pos: 0, music, lyrics, cover }, actions)
    }

    /// Follows the play position (milliseconds), in the lyrics too.
    pub fn set_pos(&mut self, pos: u64)
        ensures
            final(self).pos == pos,
            final(self).music == old(self).music,
            final(self).playing == old(self).playing,
    {
        self.pos = pos;
        if let Some(l) = &mut self.lyrics {
            l.set_pos(pos);
        }
    }

    /// Another track plays, from its start.
    pub fn set_music(&mut self, media: Media)
        ensures
            final(self).pos == 0,
            final(self).music == media,
            final(self).playing == old(self).playing,
    {
        self.pos = 0;
        self.music = media;
    }

    /// The player plays or pauses.
    pub fn set_playing(&mut self, p: bool)
        ensures
            final(self).playing == p,
            final(self).pos == old(self).pos,
            final(self).music == old(self).music,
    {
        self.playing = p;
    }

    /// Hands the cover response to the cover view, if shown.
    pub fn handle_cover(&mut self, ticket: usize, d: Result<P, String>)
        ensures
            final(self).pos == old(self).pos,
            final(self).playing == old(self).playing,
            final(self).music == old(self).music,
            final(self).lyrics == old(self).lyrics,
            match old(self).cover {
                Some(c) => final(self).cover matches Some(c2) && cover_after(c.state, c2.state, ticket, d),
                None => final(self).cover is None,
            },
    {
        if let Some(cover) = &mut self.cover {
            cover.set_image(ticket, d);
        }
    }

    /// Hands the lyrics response to the lyrics view, if shown.
    pub fn handle_lyrics(&mut self, ticket: usize, lyrics: Result<Option<GetLyricsResponse>, String>)
        ensures
            final(self).pos == old(self).pos,
            final(self).playing == old(self).playing,
            final(self).music == old(self).music,
            final(self).cover == old(self).cover,
            match old(self).lyrics {
                Some(l) => final(self).lyrics matches Some(l2) && lyrics_after(l.state, l2.state, ticket, lyrics),
                None => final(self).lyrics is None,
            },
    {
        if let Some(c) = &mut self.lyrics {
            c.handle_lyrics(ticket, lyrics);
        }
    }

    /// The first line of the panel, before it is cut to the panel's width: the artist (or
    /// "Unknown") and the title.
    pub fn headline(&self) -> (s: String)
        ensures
            s@ == (match self.music.artist { Some(a) => a@, None => "Unknown"@ }) + " - "@ + self.music.title@,
    {
        let mut s = match &self.music.artist {
            Some(a) => a.clone(),
            None => String::from_str("Unknown"),
        };
        push_str(&mut s, " - ");
        push_str(&mut s, self.music.title.as_str());
        s
    }

    /// The second line of the panel: the album, or "Unknown".
    pub fn album_line(&self) -> (s: String)
        ensures
            s@ == match self.music.album { Some(a) => a@, None => "Unknown"@ },
    {
        match &self.music.album {
            Some(a) => a.clone(),
            None => String::from_str("Unknown"),
        }
    }

    /// The progress label of the panel.
    pub fn label(&self) -> (s: String)
        ensures
            s@ == progress_label((self.pos / 1000) as nat, self.playing, self.music.duration),
    {
        gen_label(self.pos / 1000, self.playing, self.music.duration)
    }
}

} // verus!
