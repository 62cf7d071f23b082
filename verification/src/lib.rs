use vstd::prelude::*;

pub mod action;
pub mod app;
pub mod cli;
pub mod client;
pub mod compid;
pub mod keyhelp;
pub mod keys;
pub mod components;
pub mod media;
pub mod query;
pub mod random;
pub mod selection;
pub mod strings;
pub mod text;

verus! {
} // verus!
