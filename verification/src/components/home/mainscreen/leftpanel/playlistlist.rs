//! The playlist list of the left panel: loading, the list, or the error that prevented it.
use vstd::prelude::*;

use crate::action::getplaylists::SimplePlaylist;
use crate::compid::CompID;
use crate::components::centered::{one_line, shows, Centered};
use crate::query::{HighLevelQuery, ToQueryWorker};
use crate::strings::push_str;

pub mod loaded;

use loaded::{pair_text, playlist_rows, Loaded};

verus! {

/// What the list shows.
pub enum Comp {
    Error(Centered),
    Loaded(Loaded),
    Loading(Centered),
}

/// The playlist list.
pub struct PlaylistList {
    pub comp: Comp,
    pub enabled: bool,
    /// Opening a playlist also moves the focus to the playlist queue.
    pub autofocus: bool,
}

/// The lines shown when fetching the playlists failed with `error`, mentioning the key that
/// reloads them when one is bound.
pub open spec fn error_lines(error: Seq<char>, reload_key: Option<String>) -> Seq<Seq<char>> {
    match reload_key {
        Some(k) => seq!["Error!"@, error, "Reload with "@ + k@],
        None => seq!["Error!"@, error],
    }
}

impl PlaylistList {
    /// The list, loading, and the request for the playlists under `ticket`.
    pub fn new(enabled: bool, autofocus: bool, ticket: usize) -> (r: (Self, ToQueryWorker))
        ensures
            r.0.comp matches Comp::Loading(c) && shows(c, "Loading..."@),
            r.0.enabled == enabled,
            r.0.autofocus == autofocus,
            r.1.ticket == ticket,
            r.1.query is ListPlaylists,
    {
        let mut dest: Vec<CompID> = Vec::new();
        dest.push(CompID::PlaylistList);
        let query = ToQueryWorker::new(ticket, dest, HighLevelQuery::ListPlaylists);
        (Self { comp: Comp::Loading(Centered::new(one_line("Loading..."))), enabled, autofocus }, query)
    }

    /// Takes the list of playlists, or the reason it could not be had.
    pub fn handle_playlists(&mut self, res: Result<Vec<SimplePlaylist>, String>, reload_key: Option<String>)
        ensures
            final(self).enabled == old(self).enabled,
            match res {
                Ok(list) => final(self).comp matches Comp::Loaded(l) && pair_text(l.rows@) == playlist_rows(list@)
                    && (!(old(self).comp is Loaded) ==> l.list@ == list@),
                Err(e) => final(self).comp matches Comp::Error(c)
                    && c.lines@.map_values(|l: String| l@) == error_lines(e@, reload_key),
            },
    {
        match res {
            Ok(simple_playlists) => {
                if let Comp::Loaded(c) = &mut self.comp {
                    c.set_rows(&simple_playlists);
                } else {
                    self.comp = Comp::Loaded(Loaded::new(simple_playlists, self.autofocus));
                }
            },
            Err(error) => {
                let mut msg: Vec<String> = Vec::new();
                msg.push(String::from_str("Error!"));
                msg.push(error);
                if let Some(keyseq) = reload_key {
                    let mut line = String::from_str("Reload with ");
                    push_str(&mut line, keyseq.as_str());
                    msg.push(line);
                }
                assert(msg@.map_values(|l: String| l@) =~= error_lines(error@, reload_key));
                self.comp = Comp::Error(Centered::new(msg));
            },
        }
    }

    /// Shows the list as focused or not.
    pub fn set_enabled(&mut self, enable: bool)
        ensures
            final(self).enabled == enable,
            final(self).comp == old(self).comp,
            final(self).autofocus == old(self).autofocus,
    {
        self.enabled = enable;
    }
}

} // verus!
