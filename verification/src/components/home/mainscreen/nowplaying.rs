//! The now-playing panel: a track being played, or nothing.
use vstd::prelude::*;

use crate::media::Media;
use crate::query::ToQueryWorker;

pub mod playing;
pub mod stopped;

use playing::{track_requests, Playing};
use stopped::Stopped;

verus! {

/// What the panel shows.
pub enum Comp<P> {
    Playing(Playing<P>),
    Stopped(Stopped),
}

/// The now-playing panel, `P` being the displayable cover image.
pub struct NowPlaying<P> {
    pub comp: Comp<P>,
    pub enabled: bool,
}

impl<P> NowPlaying<P> {
    /// The panel with nothing playing.
    pub fn new(enabled: bool) -> (r: Self)
        ensures
            r.enabled == enabled,
            r.comp is Stopped,
    {
        Self { comp: Comp::Stopped(Stopped::new()), enabled }
    }

    /// The player moved to `media`, or stopped: shows the track, asking for its cover and
    /// lyrics as enabled, or shows that nothing plays.
    pub fn handle_now_playing(
        &mut self,
        media: Option<Media>,
        playing: bool,
        cover_enabled: bool,
        lyrics_enabled: bool,
        cover_ticket: usize,
        lyrics_ticket: usize,
    ) -> (requests: Vec<ToQueryWorker>)
        ensures
            final(self).enabled == old(self).enabled,
            match media {
                Some(m) => (final(self).comp matches Comp::Playing(p) && p.music == m && p.pos == 0
                    && p.playing == playing && p.cover is Some == cover_enabled && p.lyrics is Some == lyrics_enabled)
                    && track_requests(requests@, m, cover_enabled, lyrics_enabled, cover_ticket, lyrics_ticket),
                None => final(self).comp is Stopped && requests@.len() == 0,
            },
    {
        match media {
            Some(n) => {
                let (comp, requests) = Playing::new(
                    playing,
                    n,
                    cover_enabled,
                    lyrics_enabled,
                    cover_ticket,
                    lyrics_ticket,
                );
                self.comp = Comp::Playing(comp);
                requests
            },
            None => {
                self.comp = Comp::Stopped(Stopped::new());
                Vec::new()
            },
        }
    }

    /// Shows the panel as focused or not.
    pub fn set_enabled(&mut self, enable: bool)
        ensures
            final(self).enabled == enable,
            final(self).comp == old(self).comp,
    {
        self.enabled = enable;
    }
}

} // verus!
