//! The playlist list panel of the main screen.
use vstd::prelude::*;

use crate::action::getplaylists::SimplePlaylist;
use crate::components::home::mainscreen::leftpanel::playlistlist::loaded::{pair_text, playlist_rows, Loaded};

pub mod error;
pub mod loading;

use error::Error;
use loading::Loading;

verus! {

/// What the panel shows.
pub enum Comp {
    Error(Error),
    Loaded(Loaded),
    Loading(Loading),
}

/// The playlist list panel.
pub struct PlaylistList {
    pub comp: Comp,
    pub enabled: bool,
    pub autofocus: bool,
}

impl PlaylistList {
    /// The panel, loading.
    pub fn new(enabled: bool, autofocus: bool) -> (r: Self)
        ensures
            r.comp is Loading,
            r.enabled == enabled,
            r.autofocus == autofocus,
    {
        Self { comp: Comp::Loading(Loading::new()), enabled, autofocus }
    }

    /// Takes the list of playlists, or the reason it could not be had.
    pub fn handle_playlists(&mut self, res: Result<Vec<SimplePlaylist>, String>)
        ensures
            final(self).enabled == old(self).enabled,
            final(self).autofocus == old(self).autofocus,
            match res {
                Ok(list) => final(self).comp matches Comp::Loaded(l) && pair_text(l.rows@) == playlist_rows(list@)
                    && (!(old(self).comp is Loaded) ==> l.list@ == list@),
                Err(e) => final(self).comp matches Comp::Error(x) && x.error == e,
            },
    {
        match res {
            Ok(simple_playlists) => {
                if let Comp::Loaded(c) = &mut self.comp {
                    c.set_rows(&simple_playlists);
                } else {
                    self.comp = Comp::Loaded(Loaded::new(simple_playlists, self.autofocus));
                }
            },
            Err(error) => {
                self.comp = Comp::Error(Error::new(error));
            },
        }
    }

    /// Shows the panel as focused or not.
    pub fn set_enabled(&mut self, enable: bool)
        ensures
            final(self).enabled == enable,
            final(self).comp == old(self).comp,
            final(self).autofocus == old(self).autofocus,
    {
        if self.enabled != enable {
            self.enabled = enable;
        }
    }
}

} // verus!
