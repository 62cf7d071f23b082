//! The screen shown while logging in with the configured credentials.
use vstd::prelude::*;

use crate::components::centered::Centered;
use crate::strings::push_str;

verus! {

/// The logging-in screen.
pub struct Loading {
    pub comp: Centered,
}

impl Loading {
    /// The screen for logging in to `url` as `username`.
    pub fn new(url: String, username: String) -> (r: Self)
        ensures
            r.comp.lines@.len() == 3,
            r.comp.lines@[0]@ == "Logging in with the credentials in the configuration..."@,
            r.comp.lines@[1]@ == "URL: "@ + url@,
            r.comp.lines@[2]@ == "Username: "@ + username@,
    {
        let mut lines: Vec<String> = Vec::new();
        lines.push(String::from_str("Logging in with the credentials in the configuration..."));
        let mut u = String::from_str("URL: ");
        push_str(&mut u, url.as_str());
        lines.push(u);
        let mut n = String::from_str("Username: ");
        push_str(&mut n, username.as_str());
        lines.push(n);
        Self { comp: Centered::new(lines) }
    }
}

} // verus!
