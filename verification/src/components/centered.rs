//! A block of text lines shown centred in its area.
use vstd::prelude::*;

verus! {

/// Lines of text shown centred.
#[derive(Clone, Debug)]
pub struct Centered {
    pub lines: Vec<String>,
}

impl Centered {
    /// Holds `lines`.
    pub fn new(lines: Vec<String>) -> (c: Self)
        ensures
            c.lines@ == lines@,
    {
        Self { lines }
    }
}

/// The block shows exactly the one line `line`.
pub open spec fn shows(c: Centered, line: Seq<char>) -> bool {
    c.lines@.len() == 1 && c.lines@[0]@ == line
}

/// A single line as a one-element vector.
pub fn one_line(s: &str) -> (v: Vec<String>)
    ensures
        v@.len() == 1,
        v@[0]@ == s@,
{
    let mut v: Vec<String> = Vec::new();
    v.push(String::from_str(s));
    v
}

} // verus!
