//! The now-playing panel when nothing plays.
use vstd::prelude::*;

use crate::components::centered::{one_line, Centered};

verus! {

/// Nothing plays.
pub struct Stopped {
    pub comp: Centered,
}

impl Stopped {
    /// The panel, inviting to pick something.
    pub fn new() -> (r: Self)
        ensures
            r.comp.lines@.len() == 1,
            r.comp.lines@[0]@ == "Select a music!"@,
    {
        Self { comp: Centered::new(one_line("Select a music!")) }
    }
}

} // verus!
