//! Actions the user triggers, grouped by when they are available.
use vstd::prelude::*;

use crate::media::QueueLocation;

verus! {

/// Actions that are always available and have the same effect whatever is focused.
#[derive(Clone, Copy, Debug, PartialEq, Eq, Structural)]
pub enum Global {
    /// Drop every key sequence stored so far, like escape in Vim and Ctrl+G in Emacs.
    EndKeySeq,
    Skip,
    Previous,
}

impl Global {
    /// The description of the action in the help menu.
    pub fn to_string(&self) -> (s: String)
        ensures
            s@ == match *self {
                Global::EndKeySeq => "Cancel command"@,
                Global::Skip => "Skip to next music"@,
                Global::Previous => "Go back to previous music"@,
            },
    {
        match self {
            Global::EndKeySeq => "Cancel command".to_string(),
            Global::Skip => "Skip to next music".to_string(),
            Global::Previous => "Go back to previous music".to_string(),
        }
    }
}

/// Actions available in any mode whose effect depends on what is focused.
#[derive(Clone, Copy, Debug, PartialEq, Eq, Structural)]
pub enum Common {
    Up,
    Down,
    Left,
    Right,
    Confirm,
    Cancel,
    Top,
    Bottom,
    Refresh,
    ResetState,
    Help,
    /// Add to the queue
    Add(QueueLocation),
    /// Delete a selected region
    Delete,
    /// Add or remove a song from the favourites
    ToggleStar,
}

impl Common {
    /// The description of the action in the help menu.
    pub fn to_string(&self) -> (s: String)
        ensures
            s@ == match *self {
                Common::Up => "Move up"@,
                Common::Down => "Move down"@,
                Common::Left => "Move left"@,
                Common::Right => "Move right"@,
                Common::Confirm => "Confirm selection"@,
                Common::Cancel => "Cancel action"@,
                Common::Top => "Go to top"@,
                Common::Bottom => "Go to bottom"@,
                Common::Refresh => "Refresh content"@,
                Common::ResetState => "Reset to default state"@,
                Common::Help => "Display help"@,
                Common::Add(l) => match l {
                    QueueLocation::Front => "Play items"@,
                    QueueLocation::Next => "Play items next"@,
                    QueueLocation::Last => "Add items to the end of queue"@,
                },
                Common::Delete => "Delete selected elements"@,
                Common::ToggleStar => "Toggle favourite"@,
            },
    {
        match self {
            Common::Up => "Move up",
            Common::Down => "Move down",
            Common::Left => "Move left",
            Common::Right => "Move right",
            Common::Confirm => "Confirm selection",
            Common::Cancel => "Cancel action",
            Common::Top => "Go to top",
            Common::Bottom => "Go to bottom",
            Common::Refresh => "Refresh content",
            Common::ResetState => "Reset to default state",
            Common::Help => "Display help",
            Common::Add(l) => match l {
                QueueLocation::Front => "Play items",
                QueueLocation::Next => "Play items next",
                QueueLocation::Last => "Add items to the end of queue",
            },
            Common::Delete => "Delete selected elements",
            Common::ToggleStar => "Toggle favourite",
        }.to_string()
    }
}

/// Actions relevant only in visual mode.
#[derive(Clone, Copy, Debug, PartialEq, Eq, Structural)]
pub enum Visual {
    /// Exit visual mode after applying changes
    ExitSave,
    /// Exit visual mode after discarding changes
    ExitDiscard,
}

impl Visual {
    /// The description of the action in the help menu.
    pub fn to_string(&self) -> (s: String)
        ensures
            s@ == match *self {
                Visual::ExitSave => "Exit visual mode, saving selection"@,
                Visual::ExitDiscard => "Exit visual mode, discarding selection"@,
            },
    {
        match self {
            Visual::ExitSave => "Exit visual mode, saving selection".to_string(),
            Visual::ExitDiscard => "Exit visual mode, discarding selection".to_string(),
        }
    }
}

/// Actions the user triggers, limited to the focused component.
#[derive(Clone, Copy, Debug, PartialEq, Eq, Structural)]
pub enum UserAction {
    Common(Common),
    Visual(Visual),
    Global(Global),
}

} // verus!
