//! The playlist list when the playlists could not be fetched.
use vstd::prelude::*;

verus! {

/// Why the playlists could not be fetched.
pub struct Error {
    pub error: String,
}

impl Error {
    /// The error `error`.
    pub fn new(error: String) -> (r: Self)
        ensures
            r.error == error,
    {
        Self { error }
    }

    /// The lines shown: the error, and how to reload.
    pub fn lines(&self) -> (v: Vec<String>)
        ensures
            v@.len() == 3,
            v@[0]@ == "Error!"@,
            v@[1]@ == self.error@,
            v@[2]@ == "Reload with 'R'"@,
    {
        let mut v: Vec<String> = Vec::new();
        v.push(String::from_str("Error!"));
        v.push(self.error.clone());
        v.push(String::from_str("Reload with 'R'"));
        v
    }
}

} // verus!
