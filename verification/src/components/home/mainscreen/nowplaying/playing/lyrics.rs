//! The lyrics of the track being played: fetched once per track, then shown.
use vstd::prelude::*;

use crate::compid::CompID;
use crate::components::centered::{one_line, Centered};
use crate::media::Media;
use crate::query::{GetLyricsParams, HighLevelQuery, ToQueryWorker};
use crate::strings::push_str;
use crate::text::text_lines;

use super::synced::Synced;
use super::unsynced::Unsynced;

verus! {

/// What the lyrics service found for a track.
#[derive(Clone, Debug)]
pub struct GetLyricsResponse {
    pub synced_lyrics: Option<String>,
    pub plain_lyrics: Option<String>,
}

/// The state of the lyrics.
pub enum LyricsState {
    Found(Synced),
    /// Waiting for the response to the request with this ticket.
    Fetching(usize, Centered),
    NotFound(Centered),
    Error(Centered),
    Plain(Unsynced),
}

/// The lyrics view.
pub struct Lyrics {
    pub state: LyricsState,
}

/// The message shown while searching for the lyrics of `title`.
pub open spec fn searching_text(title: Seq<char>) -> Seq<char> {
    "Searching for lyrics for "@ + title + "..."@
}

fn searching(title: &String) -> (c: Centered)
    ensures
        c.lines@.len() == 1,
        c.lines@[0]@ == searching_text(title@),
{
    let mut s = String::from_str("Searching for lyrics for ");
    push_str(&mut s, title.as_str());
    push_str(&mut s, "...");
    let mut v: Vec<String> = Vec::new();
    v.push(s);
    Centered::new(v)
}

/// The state once the response `lyrics` arrives: time-stamped lyrics if any, else plain ones
/// if any, else none found; an error with its reason.
pub open spec fn lyrics_outcome(state: LyricsState, lyrics: Result<Option<GetLyricsResponse>, String>) -> bool {
    match lyrics {
        Ok(Some(found)) => match found.synced_lyrics {
            Some(synced) => state matches LyricsState::Found(s) && s.lyrics == synced && s.current_time == 0,
            None => match found.plain_lyrics {
                Some(plain) => state matches LyricsState::Plain(u)
                    && u.lines@.map_values(|l: String| l@) == text_lines(plain@),
                None => state matches LyricsState::NotFound(c) && c.lines@.len() == 1
                    && c.lines@[0]@ == "Lyrics not found!"@,
            },
        },
        Ok(None) => state matches LyricsState::NotFound(c) && c.lines@.len() == 1
            && c.lines@[0]@ == "Lyrics not found!"@,
        Err(e) => state matches LyricsState::Error(c) && c.lines@.len() == 1
            && c.lines@[0]@ == "Failed to find lyrics! Reason: "@ + e@,
    }
}

/// `after` is the state that follows `before` when the response `lyrics` to the request
/// `ticket` arrives: its outcome when that response was awaited; else nothing changes.
pub open spec fn lyrics_after(
    before: LyricsState,
    after: LyricsState,
    ticket: usize,
    lyrics: Result<Option<GetLyricsResponse>, String>,
) -> bool {
    if before matches LyricsState::Fetching(t, _) && t == ticket {
        lyrics_outcome(after, lyrics)
    } else {
        after == before
    }
}

/// The search for the lyrics of `music`: by its title, artist, album and length.
pub open spec fn lyrics_query(music: Media) -> HighLevelQuery {
    HighLevelQuery::GetLyrics(GetLyricsParams {
        track_name: music.title,
        artist_name: music.artist,
        album_name: music.album,
        length: music.duration,
    })
}

impl Lyrics {
    /// The request for the lyrics of `music`, with the given ticket.
    pub fn make_query(ticket: usize, music: Media) -> (q: ToQueryWorker)
        ensures
            q.ticket == ticket,
            q.query == lyrics_query(music),
    {
        let mut dest: Vec<CompID> = Vec::new();
        dest.push(CompID::NowPlaying);
        ToQueryWorker::new(
            ticket,
            dest,
            HighLevelQuery::GetLyrics(GetLyricsParams {
                track_name: music.title,
                artist_name: music.artist,
                album_name: music.album,
                length: music.duration,
            }),
        )
    }

    /// The lyrics view of `music`, searching with a request under `ticket`.
    pub fn new(music: Media, ticket: usize) -> (r: (Self, ToQueryWorker))
        ensures
            r.0.state matches LyricsState::Fetching(t, c) && t == ticket && c.lines@.len() == 1
                && c.lines@[0]@ == searching_text(music.title@),
            r.1.ticket == ticket,
            r.1.query == lyrics_query(music),
    {
        let title = music.title.clone();
        let query = Self::make_query(ticket, music);
        (Self { state: LyricsState::Fetching(ticket, searching(&title)) }, query)
    }

    /// Takes the response to the request `ticket`: only the awaited response changes the view.
    pub fn handle_lyrics(&mut self, ticket: usize, lyrics: Result<Option<GetLyricsResponse>, String>)
        ensures
            lyrics_after(old(self).state, final(self).state, ticket, lyrics),
    {
        let awaited = match &self.state {
            LyricsState::Fetching(t, _) => *t == ticket,
            _ => false,
        };
        if awaited {
            self.state = match lyrics {
                Ok(content) => match content {
                    Some(found) => {
                        if let Some(synced) = found.synced_lyrics {
                            LyricsState::Found(Synced::new(synced))
                        } else if let Some(plain) = found.plain_lyrics {
                            LyricsState::Plain(Unsynced::new(plain))
                        } else {
                            LyricsState::NotFound(Centered::new(one_line("Lyrics not found!")))
                        }
                    },
                    None => LyricsState::NotFound(Centered::new(one_line("Lyrics not found!"))),
                },
                Err(e) => {
                    let mut s = String::from_str("Failed to find lyrics! Reason: ");
                    push_str(&mut s, e.as_str());
                    let mut v: Vec<String> = Vec::new();
                    v.push(s);
                    LyricsState::Error(Centered::new(v))
                },
            };
        }
    }

    /// Follows the play position (milliseconds) when showing time-stamped lyrics.
    pub fn set_pos(&mut self, pos: u64)
        ensures
            old(self).state is Found ==> (final(self).state matches LyricsState::Found(s) && s.current_time == pos),
            !(old(self).state is Found) ==> final(self).state == old(self).state,
    {
        if let LyricsState::Found(s) = &mut self.state {
            s.set_pos(pos);
        }
    }

    /// Waits for the lyrics of `title` from the request `ticket`.
    pub fn wait_for(&mut self, ticket: usize, title: String)
        ensures
            final(self).state matches LyricsState::Fetching(t, c) && t == ticket && c.lines@.len() == 1
                && c.lines@[0]@ == searching_text(title@),
    {
        self.state = LyricsState::Fetching(ticket, searching(&title));
    }
}

/// Once the awaited response has been taken, further responses change nothing: each search
/// is answered at most once.
pub proof fn lemma_answered_once(
    before: LyricsState,
    mid: LyricsState,
    after: LyricsState,
    ticket: usize,
    first: Result<Option<GetLyricsResponse>, String>,
    later_ticket: usize,
    later: Result<Option<GetLyricsResponse>, String>,
)
    requires
        before matches LyricsState::Fetching(t, _) && t == ticket,
        lyrics_after(before, mid, ticket, first),
        lyrics_after(mid, after, later_ticket, later),
    ensures
        after == mid,
{
}

} // verus!
