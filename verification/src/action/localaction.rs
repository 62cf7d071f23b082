//! Actions local to one kind of component, as bound in the key maps.
use vstd::prelude::*;

use crate::media::QueueLocation;

verus! {

/// Actions of the information popups.
#[derive(Clone, Copy, Debug, PartialEq, Eq, Structural)]
pub enum PopupAction {
    /// Move one row up
    Up,
    /// Move one row down
    Down,
    /// Move to the first row
    Top,
    /// Move to the last row
    Bottom,
    /// Close the popup
    Close,
}

/// Actions of the lists where items can be selected.
#[derive(Clone, Copy, Debug, PartialEq, Eq, Structural)]
pub enum ListAction {
    /// Exit visual mode, applying the selection
    ExitSave,
    /// Exit visual mode, discarding the selection
    ExitDiscard,
    /// Move one up in the list
    Up,
    /// Move one down in the list
    Down,
    /// Move to the top of the list
    Top,
    /// Move to the bottom of the list
    Bottom,
    /// Unselect everything
    ResetSelection,
    /// Enter selection mode; leaving visual mode with ExitSave selects the covered items.
    SelectMode,
    /// Enter deselection mode; leaving visual mode with ExitSave unselects the covered items.
    DeselectMode,
}

impl ListAction {
    /// The description of the action in the help menu.
    pub fn to_string(&self) -> (s: String)
        ensures
            s@ == match *self {
                ListAction::ExitSave => "Exit visual mode, apply selection"@,
                ListAction::ExitDiscard => "Exit visual mode, discard selection"@,
                ListAction::Up => "Move up"@,
                ListAction::Down => "Move down"@,
                ListAction::Top => "Move to top"@,
                ListAction::Bottom => "Move to bottom"@,
                ListAction::ResetSelection => "Reset selection"@,
                ListAction::SelectMode => "Enter selection mode"@,
                ListAction::DeselectMode => "Enter deselection mode"@,
            },
    {
        match self {
            ListAction::ExitSave => "Exit visual mode, apply selection",
            ListAction::ExitDiscard => "Exit visual mode, discard selection",
            ListAction::Up => "Move up",
            ListAction::Down => "Move down",
            ListAction::Top => "Move to top",
            ListAction::Bottom => "Move to bottom",
            ListAction::ResetSelection => "Reset selection",
            ListAction::SelectMode => "Enter selection mode",
            ListAction::DeselectMode => "Enter deselection mode",
        }.to_string()
    }
}

/// Actions of the play queue.
#[derive(Clone, Copy, Debug, PartialEq, Eq, Structural)]
pub enum PlayQueueAction {
    /// Delete selected items from the play queue
    Delete,
    /// Star or unstar selected elements
    ToggleStar,
    /// Jump to a specific location in the play queue
    PlaySelected,
}

impl PlayQueueAction {
    /// The description of the action in the help menu.
    pub fn to_string(&self) -> (s: String)
        ensures
            s@ == match *self {
                PlayQueueAction::Delete => "Delete items from queue"@,
                PlayQueueAction::ToggleStar => "Star/unstar items"@,
                PlayQueueAction::PlaySelected => "Jump to the cursor's position"@,
            },
    {
        match self {
            PlayQueueAction::Delete => "Delete items from queue",
            PlayQueueAction::ToggleStar => "Star/unstar items",
            PlayQueueAction::PlaySelected => "Jump to the cursor's position",
        }.to_string()
    }
}

/// Actions of the lyrics view.
#[derive(Clone, Copy, Debug, PartialEq, Eq, Structural)]
pub enum LyricsAction {
    /// Move up one line of the lyrics
    Up,
    /// Move down one line of the lyrics
    Down,
    /// Jump to the top of the lyrics
    Top,
    /// Jump to the bottom of the lyrics
    Bottom,
}

impl LyricsAction {
    /// The description of the action in the help menu.
    pub fn to_string(&self) -> (s: String)
        ensures
            s@ == match *self {
                LyricsAction::Up => "Move up"@,
                LyricsAction::Down => "Move down"@,
                LyricsAction::Top => "Move to top"@,
                LyricsAction::Bottom => "Move to bottom"@,
            },
    {
        match self {
            LyricsAction::Up => "Move up",
            LyricsAction::Down => "Move down",
            LyricsAction::Top => "Move to top",
            LyricsAction::Bottom => "Move to bottom",
        }.to_string()
    }
}

/// Actions of the playlist list.
#[derive(Clone, Copy, Debug, PartialEq, Eq, Structural)]
pub enum PlaylistListAction {
    /// Move the cursor one line up
    Up,
    /// Move the cursor one line down
    Down,
    /// Jump to the top of the list
    Top,
    /// Jump to the bottom of the list
    Bottom,
    /// Add the entire playlist to the queue
    Add(QueueLocation),
    /// Shuffle the entire playlist, then add it to the queue
    RandomAdd(QueueLocation),
    /// Open the seleced playlist in the playlist queue view
    ViewSelected,
}

impl PlaylistListAction {
    /// The description of the action in the help menu.
    pub fn to_string(&self) -> (s: String)
        ensures
            s@ == match *self {
                PlaylistListAction::Up => "Move up"@,
                PlaylistListAction::Down => "Move down"@,
                PlaylistListAction::Top => "Move to top"@,
                PlaylistListAction::Bottom => "Move to bottom"@,
                PlaylistListAction::Add(l) => match l {
                    QueueLocation::Front => "Play the entire playlist immediately"@,
                    QueueLocation::Next => "Play the entire playlist next"@,
                    QueueLocation::Last => "Append the entire playlist to the end of the queue"@,
                },
                PlaylistListAction::ViewSelected => "Open selected playlist"@,
                PlaylistListAction::RandomAdd(l) => match l {
                    QueueLocation::Front => "Shuffle the playlist and play it immediately"@,
                    QueueLocation::Next => "Shuffle the playlist and play it next"@,
                    QueueLocation::Last => "Shuffle the playlist and append it to the queue"@,
                },
            },
    {
        match self {
            PlaylistListAction::Up => "Move up",
            PlaylistListAction::Down => "Move down",
            PlaylistListAction::Top => "Move to top",
            PlaylistListAction::Bottom => "Move to bottom",
            PlaylistListAction::Add(queue_location) => match queue_location {
                QueueLocation::Front => "Play the entire playlist immediately",
                QueueLocation::Next => "Play the entire playlist next",
                QueueLocation::Last => "Append the entire playlist to the end of the queue",
            },
            PlaylistListAction::ViewSelected => "Open selected playlist",
            PlaylistListAction::RandomAdd(queue_location) => match queue_location {
                QueueLocation::Front => "Shuffle the playlist and play it immediately",
                QueueLocation::Next => "Shuffle the playlist and play it next",
                QueueLocation::Last => "Shuffle the playlist and append it to the queue",
            },
        }.to_string()
    }
}

/// Actions of the playlist queue.
#[derive(Clone, Copy, Debug, PartialEq, Eq, Structural)]
pub enum PlaylistQueueAction {
    /// Refresh the playlist queue
    Refresh,
    /// Add selected items to the playlist queue
    Add(QueueLocation),
    /// Star or unstar selected items
    ToggleStar,
    /// Shuffle the selected items, and add them to the queue
    RandomAdd(QueueLocation),
}

impl PlaylistQueueAction {
    /// The description of the action in the help menu.
    pub fn to_string(&self) -> (s: String)
        ensures
            s@ == match *self {
                PlaylistQueueAction::Refresh => "Fetch playlist from the server again"@,
                PlaylistQueueAction::Add(l) => match l {
                    QueueLocation::Front => "Play selected items immediately"@,
                    QueueLocation::Next => "Play selected items next"@,
                    QueueLocation::Last => "Append selected items to the end of the queue"@,
                },
                PlaylistQueueAction::RandomAdd(l) => match l {
                    QueueLocation::Front => "Shuffle the selected items and play it immediately"@,
                    QueueLocation::Next => "Shuffle the selected items and play it next"@,
                    QueueLocation::Last => "Shuffle the selected items and append it to the queue"@,
                },
                PlaylistQueueAction::ToggleStar => "Star/unstar items"@,
            },
    {
        match self {
            PlaylistQueueAction::Refresh => "Fetch playlist from the server again",
            PlaylistQueueAction::Add(queue_location) => match queue_location {
                QueueLocation::Front => "Play selected items immediately",
                QueueLocation::Next => "Play selected items next",
                QueueLocation::Last => "Append selected items to the end of the queue",
            },
            PlaylistQueueAction::RandomAdd(queue_location) => match queue_location {
                QueueLocation::Front => "Shuffle the selected items and play it immediately",
                QueueLocation::Next => "Shuffle the selected items and play it next",
                QueueLocation::Last => "Shuffle the selected items and append it to the queue",
            },
            PlaylistQueueAction::ToggleStar => "Star/unstar items",
        }.to_string()
    }
}

/// Actions of the help menu.
#[derive(Clone, Copy, Debug, PartialEq, Eq, Structural)]
pub enum HelpAction {
    /// Move up one item in the help menu
    Up,
    /// Move down one item in the help menu
    Down,
    /// See keybinds for the previous component
    Left,
    /// See keybinds for the next component
    Right,
    /// Close help page
    Close,
}

impl HelpAction {
    /// The name of the action.
    pub fn to_string(&self) -> (s: String)
        ensures
            s@ == match *self {
                HelpAction::Up => "Up"@,
                HelpAction::Down => "Down"@,
                HelpAction::Left => "Left"@,
                HelpAction::Right => "Right"@,
                HelpAction::Close => "Close"@,
            },
    {
        match self {
            HelpAction::Up => "Up",
            HelpAction::Down => "Down",
            HelpAction::Left => "Left",
            HelpAction::Right => "Right",
            HelpAction::Close => "Close",
        }.to_string()
    }
}

} // verus!
