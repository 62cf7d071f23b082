//! The playlist queue panel: the entries of the chosen playlist.
use vstd::prelude::*;

use crate::compid::CompID;
use crate::components::centered::shows;
use crate::query::{GetPlaylistResponse, HighLevelQuery, ToQueryWorker};

pub mod empty;
pub mod error;
pub mod loaded;
pub mod loading;
pub mod notselected;

use empty::Empty;
use error::Error;
use loaded::Loaded;
use loading::Loading;
use notselected::NotSelected;

verus! {

/// What the panel shows.
pub enum Comp {
    Error(Error),
    Loaded(Loaded),
    Loading(Loading),
    NotSelected(NotSelected),
    Empty(Empty),
}

/// Whether the view shown draws itself as focused.
pub open spec fn shown_enabled(c: Comp) -> bool {
    match c {
        Comp::Error(e) => e.enabled,
        Comp::Loaded(l) => l.enabled,
        Comp::Loading(l) => l.enabled,
        Comp::NotSelected(n) => n.enabled,
        Comp::Empty(e) => e.enabled,
    }
}

/// The playlist queue panel.
pub struct PlaylistQueue {
    pub comp: Comp,
    pub enabled: bool,
}

/// Whether `dest` names the playlist queue.
fn names_playlist_queue(dest: &Vec<CompID>) -> (r: bool)
    ensures
        r == dest@.contains(CompID::PlaylistQueue),
{
    let mut i: usize = 0;
    while i < dest.len()
        invariant
            i <= dest@.len(),
            forall|j: int| 0 <= j < i ==> dest@[j] != CompID::PlaylistQueue,
        decreases dest@.len() - i,
    {
        if dest[i] == CompID::PlaylistQueue {
            assert(dest@[i as int] == CompID::PlaylistQueue);
            return true;
        }
        i = i + 1;
    }
    false
}

impl PlaylistQueue {
    /// The panel before a playlist is chosen.
    pub fn new(enabled: bool) -> (r: Self)
        ensures
            r.enabled == enabled,
            r.comp matches Comp::NotSelected(n) && n.enabled == enabled,
    {
        Self { comp: Comp::NotSelected(NotSelected::new(enabled)), enabled }
    }

    /// A request was sent: a playlist chosen for this panel is shown as loading.
    pub fn on_request(&mut self, qw: &ToQueryWorker)
        ensures
            final(self).enabled == old(self).enabled,
            (qw.dest@.contains(CompID::PlaylistQueue) && qw.query is SelectPlaylist) ==> (final(self).comp matches Comp::Loading(l)
                && l.id == qw.query->SelectPlaylist_0.id && l.name == qw.query->SelectPlaylist_0.name && l.enabled
                == old(self).enabled && shows(l.comp, "Loading..."@)),
            !(qw.dest@.contains(CompID::PlaylistQueue) && qw.query is SelectPlaylist) ==> final(self).comp == old(self).comp,
    {
        if names_playlist_queue(&qw.dest) {
            if let HighLevelQuery::SelectPlaylist(params) = &qw.query {
                self.comp = Comp::Loading(Loading::new(params.id.clone(), params.name.clone(), self.enabled));
            }
        }
    }

    /// A playlist arrived: its entries, its failure, or its emptiness are shown.
    pub fn on_playlist(&mut self, res: GetPlaylistResponse)
        ensures
            final(self).enabled == old(self).enabled,
            match res {
                GetPlaylistResponse::Success { id, name, entry } => final(self).comp matches Comp::Loaded(l)
                    && l.id == id && l.name == name && l.entries@ == entry@ && l.filter is None && l.search is None
                    && l.enabled == old(self).enabled,
                GetPlaylistResponse::Failure { id, name, msg } => final(self).comp matches Comp::Error(e)
                    && e.id == id && e.name == name && e.enabled == old(self).enabled && e.comp.lines@.len() == 3
                    && e.comp.lines@[0]@ == "Error!"@ && e.comp.lines@[1] == msg && e.comp.lines@[2]@ == "Reload with 'R'"@,
                GetPlaylistResponse::Partial { id, name } => final(self).comp matches Comp::Empty(e) && e.name == name
                    && e.enabled == old(self).enabled && shows(e.comp, "Playlist is empty!"@),
            },
    {
        match res {
            GetPlaylistResponse::Success { id, name, entry } => {
                self.comp = Comp::Loaded(Loaded::new(name, id, entry, self.enabled));
            },
            GetPlaylistResponse::Failure { id, name, msg } => {
                self.comp = Comp::Error(Error::new(id, name, msg, self.enabled));
            },
            GetPlaylistResponse::Partial { id: _, name } => {
                self.comp = Comp::Empty(Empty::new(name, self.enabled));
            },
        }
    }

    /// Shows the panel, and what it shows, as focused or not.
    pub fn set_enabled(&mut self, enable: bool)
        ensures
            final(self).enabled == enable,
            old(self).enabled == enable ==> final(self).comp == old(self).comp,
            old(self).enabled != enable ==> shown_enabled(final(self).comp) == enable,
            final(self).comp is Error == old(self).comp is Error,
            final(self).comp is Loaded == old(self).comp is Loaded,
            final(self).comp is Loading == old(self).comp is Loading,
            final(self).comp is NotSelected == old(self).comp is NotSelected,
            final(self).comp is Empty == old(self).comp is Empty,
    {
        if self.enabled != enable {
            self.enabled = enable;
            match &mut self.comp {
                Comp::Error(error) => error.set_enabled(enable),
                Comp::Loaded(loaded) => loaded.enabled = enable,
                Comp::Loading(loading) => loading.set_enabled(enable),
                Comp::NotSelected(not_selected) => not_selected.set_enabled(enable),
                Comp::Empty(empty) => empty.set_enabled(enable),
            }
        }
    }
}

} // verus!
