//! The play queue when it is empty.
use vstd::prelude::*;

use crate::components::centered::{one_line, Centered};

verus! {

/// The empty play queue.
pub struct Nothing {
    pub comp: Centered,
    pub enabled: bool,
}

impl Nothing {
    /// The empty queue, saying so.
    pub fn new(enabled: bool) -> (r: Self)
        ensures
            r.enabled == enabled,
            r.comp.lines@.len() == 1,
            r.comp.lines@[0]@ == "Nothing in the queue"@,
    {
        Self { comp: Centered::new(one_line("Nothing in the queue")), enabled }
    }

    /// Shows the panel as focused or not.
    pub fn set_enabled(&mut self, enable: bool)
        ensures
            final(self).enabled == enable,
            final(self).comp == old(self).comp,
    {
        self.enabled = enable;
    }
}

} // verus!
