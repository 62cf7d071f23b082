//! The playlist queue before a playlist is chosen.
use vstd::prelude::*;

verus! {

/// No playlist chosen yet.
pub struct NotSelected {
    pub enabled: bool,
}

impl NotSelected {
    /// The panel inviting to choose a playlist.
    pub fn new(enabled: bool) -> (r: Self)
        ensures
            r.enabled == enabled,
    {
        Self { enabled }
    }

    /// Shows the panel as focused or not.
    pub fn set_enabled(&mut self, enable: bool)
        ensures
            final(self).enabled == enable,
    {
        self.enabled = enable;
    }
}

} // verus!
