//! The playlist queue while a playlist is fetched.
use vstd::prelude::*;

use crate::components::centered::{one_line, shows, Centered};
use crate::media::PlaylistID;

verus! {

/// A playlist being fetched.
pub struct Loading {
    pub id: PlaylistID,
    pub name: String,
    pub enabled: bool,
    pub comp: Centered,
}

impl Loading {
    /// The panel while playlist `id` named `name` is fetched.
    pub fn new(id: PlaylistID, name: String, enabled: bool) -> (r: Self)
        ensures
            r.id == id,
            r.name == name,
            r.enabled == enabled,
            shows(r.comp, "Loading..."@),
    {
        Self { id, name, comp: Centered::new(one_line("Loading...")), enabled }
    }

    /// Shows the panel as focused or not.
    pub fn set_enabled(&mut self, enable: bool)
        ensures
            final(self).enabled == enable,
            final(self).name == old(self).name,
    {
        self.enabled = enable;
    }
}

} // verus!
