//! The actions that flow between the user, the components and the workers.
use vstd::prelude::*;

pub mod action;
pub mod getplaylist;
pub mod getplaylists;
pub mod globalaction;
pub mod localaction;
pub mod login;
pub mod useraction;

verus! {

/// The order in which a list of media is played.
#[derive(Clone, Copy, Debug, PartialEq, Eq, Structural)]
pub enum PlayOrder {
    Normal,
    Random,
    Reverse,
}

/// A set of positions in a list.
#[derive(Clone, Debug, PartialEq)]
pub enum Selection {
    /// One position.
    Single(usize),
    /// The positions from the first bound to the second, both included.
    Range(usize, usize),
    /// The positions whose flag is set; positions past the end of the flags are not selected.
    Multiple(Vec<bool>),
}

} // verus!
