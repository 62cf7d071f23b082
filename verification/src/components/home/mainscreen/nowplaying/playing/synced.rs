//! Lyrics with time stamps, following the play position.
use vstd::prelude::*;

verus! {

/// Time-stamped lyrics and the play position they follow.
pub struct Synced {
    /// The lyrics as the lyrics service gives them.
    pub lyrics: String,
    /// The play position, in milliseconds.
    pub current_time: u64,
}

impl Synced {
    /// Lyrics `found`, at the start of the track.
    pub fn new(found: String) -> (r: Self)
        ensures
            r.lyrics == found,
            r.current_time == 0,
    {
        Self { lyrics: found, current_time: 0 }
    }

    /// Follows the play position `pos` (milliseconds).
    pub fn set_pos(&mut self, pos: u64)
        ensures
            final(self).current_time == pos,
            final(self).lyrics == old(self).lyrics,
    {
        self.current_time = pos;
    }
}

} // verus!
