//! The queue list when it is empty.
use vstd::prelude::*;

use crate::components::centered::{one_line, shows, Centered};

verus! {

/// The empty queue list.
pub struct Nothing {
    pub comp: Centered,
}

impl Nothing {
    /// The empty list, saying so.
    pub fn new() -> (r: Self)
        ensures
            shows(r.comp, "Nothing in the queue"@),
    {
        Self { comp: Centered::new(one_line("Nothing in the queue")) }
    }
}

} // verus!
