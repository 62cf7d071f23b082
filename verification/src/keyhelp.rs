//! Descriptions of key bindings for the help menu.
use vstd::prelude::*;

verus! {

/// One key binding: the key sequence and what it does.
#[derive(Clone, Debug)]
pub struct KeyHelp {
    pub keyseq: String,
    pub desc: String,
}

/// The key bindings of one component.
#[derive(Clone, Debug)]
pub struct ComponentKeyHelp {
    pub name: String,
    pub bindings: Vec<KeyHelp>,
}

} // verus!
