//! Actions that are available regardless of the focused component.
use vstd::prelude::*;

use crate::media::{Media, QueueLocation};

verus! {

/// The editing mode of the interface.
#[derive(Clone, Copy, Debug, PartialEq, Eq, Hash, Structural)]
pub enum Mode {
    Normal,
    Visual,
    Insert,
}

impl Mode {
    /// The label of the mode in the status line.
    pub fn to_string(&self) -> (s: String)
        ensures
            s@ == match *self {
                Mode::Normal => "NORMAL"@,
                Mode::Visual => "VISUAL"@,
                Mode::Insert => "INSERT"@,
            },
    {
        match self {
            Mode::Normal => "NORMAL".to_string(),
            Mode::Visual => "VISUAL".to_string(),
            Mode::Insert => "INSERT".to_string(),
        }
    }
}

/// A request to put media into the play queue.
#[derive(Clone, Debug)]
pub enum QueueAction {
    Add(Vec<Media>, QueueLocation),
}

/// Actions associated with the whole program rather than one component.
#[derive(Clone, Debug)]
pub enum GlobalAction {
    Play,
    Pause,
    Queue(QueueAction),
    Suspend,
    Resume,
    Quit,
}

} // verus!
