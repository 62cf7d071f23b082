//! The playlist list while the playlists are fetched.
use vstd::prelude::*;

verus! {

/// The playlists are being fetched.
pub struct Loading {}

impl Loading {
    /// The loading view.
    pub fn new() -> (r: Self) {
        Self {}
    }
}

} // verus!
