//! The left panel.
use vstd::prelude::*;

use crate::components::centered::shows;
use crate::query::ToQueryWorker;

pub mod playlistlist;

use playlistlist::{Comp as ListComp, PlaylistList};

verus! {

/// What the left panel shows.
pub enum Comp {
    PlaylistList(PlaylistList),
}

/// The left panel.
pub struct LeftPanel {
    pub comp: Comp,
    pub enabled: bool,
}

impl LeftPanel {
    /// The panel with the playlist list, loading, and its request for the playlists under
    /// `ticket`.
    pub fn new(enabled: bool, autofocus: bool, ticket: usize) -> (r: (Self, ToQueryWorker))
        ensures
            r.0.enabled == enabled,
            r.0.comp matches Comp::PlaylistList(pl) && pl.enabled == enabled && pl.autofocus == autofocus
                && (pl.comp matches ListComp::Loading(c) && shows(c, "Loading..."@)),
            r.1.ticket == ticket,
            r.1.query is ListPlaylists,
    {
        let (comp, query) = PlaylistList::new(enabled, autofocus, ticket);
        (Self { comp: Comp::PlaylistList(comp), enabled }, query)
    }

    /// The title of the panel's border.
    pub fn title(&self) -> (r: String)
        ensures
            r@ == "Playlist View"@,
    {
        match &self.comp {
            Comp::PlaylistList(_) => String::from_str("Playlist View"),
        }
    }

    /// Shows the panel as focused or not.
    pub fn set_enabled(&mut self, enable: bool)
        ensures
            final(self).enabled == enable,
            final(self).comp == old(self).comp,
    {
        self.enabled = enable;
    }
}

} // verus!
