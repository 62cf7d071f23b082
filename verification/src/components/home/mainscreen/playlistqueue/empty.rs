//! The playlist queue showing an empty playlist.
use vstd::prelude::*;

use crate::components::centered::{one_line, shows, Centered};

verus! {

/// An empty playlist.
pub struct Empty {
    pub name: String,
    pub comp: Centered,
    pub enabled: bool,
}

impl Empty {
    /// The panel for the empty playlist `name`.
    pub fn new(name: String, enabled: bool) -> (r: Self)
        ensures
            r.name == name,
            r.enabled == enabled,
            shows(r.comp, "Playlist is empty!"@),
    {
        Self { name, comp: Centered::new(one_line("Playlist is empty!")), enabled }
    }

    /// Shows the panel as focused or not.
    pub fn set_enabled(&mut self, enable: bool)
        ensures
            final(self).enabled == enable,
            final(self).name == old(self).name,
    {
        self.enabled = enable;
    }
}

} // verus!
