//! The mode of the interface, the queue requests that components raise, and the actions
//! addressed to parts of the program.
use vstd::prelude::*;

use crate::action::getplaylists::SimplePlaylist;
use crate::media::{Media, QueueLocation};
use crate::strings::push_str;

verus! {

/// The editing mode of the interface.
#[derive(Clone, Copy, Debug, PartialEq, Eq, Hash, Structural)]
pub enum Mode {
    Normal,
    Visual,
    Insert,
}

impl Mode {
    /// The label of the mode in the status line.
    pub fn to_string(&self) -> (s: String)
        ensures
            s@ == match *self {
                Mode::Normal => "NORMAL"@,
                Mode::Visual => "VISUAL"@,
                Mode::Insert => "INSERT"@,
            },
    {
        match self {
            Mode::Normal => "NORMAL".to_string(),
            Mode::Visual => "VISUAL".to_string(),
            Mode::Insert => "INSERT".to_string(),
        }
    }
}

/// A request to put media into the play queue.
#[derive(Clone, Debug)]
pub enum QueueAction {
    /// Queue the items in their order.
    Add(Vec<Media>, QueueLocation),
    /// Queue the items in a random order.
    RandomAdd(Vec<Media>, QueueLocation),
}

/// The description of a queue request in the help menu.
pub open spec fn queue_action_text(a: QueueAction) -> Seq<char> {
    match a {
        QueueAction::Add(_, l) => match l {
            QueueLocation::Front => "Play selected items immediately"@,
            QueueLocation::Next => "Play selected items next"@,
            QueueLocation::Last => "Append selected items to the end of the queue"@,
        },
        QueueAction::RandomAdd(_, l) => match l {
            QueueLocation::Front => "Shuffle the selected items and play them immediately"@,
            QueueLocation::Next => "Shuffle the selected items and play them next"@,
            QueueLocation::Last => "Shuffle the selected items and add them to the end of the queue"@,
        },
    }
}

impl QueueAction {
    /// The description of the request in the help menu.
    pub fn to_string(&self) -> (s: String)
        ensures
            s@ == queue_action_text(*self),
    {
        match self {
            QueueAction::Add(_, queue_location) => match queue_location {
                QueueLocation::Front => "Play selected items immediately",
                QueueLocation::Next => "Play selected items next",
                QueueLocation::Last => "Append selected items to the end of the queue",
            },
            QueueAction::RandomAdd(_, queue_location) => match queue_location {
                QueueLocation::Front => "Shuffle the selected items and play them immediately",
                QueueLocation::Next => "Shuffle the selected items and play them next",
                QueueLocation::Last => {
                    "Shuffle the selected items and add them to the end of the queue"
                },
            },
        }.to_string()
    }
}

/// A signed change as the program reads it: whether it goes down, and the decimal text of its
/// size.
#[derive(Clone, Debug)]
pub struct Amount {
    pub negative: bool,
    pub magnitude: String,
}

impl Amount {
    /// A copy of the change.
    pub fn duplicate(&self) -> (r: Amount)
        ensures
            r == *self,
    {
        Amount { negative: self.negative, magnitude: self.magnitude.clone() }
    }
}

/// The text of a change of `what`: "Increase `what` by ..." or "Decrease `what` by ...".
pub open spec fn change_text(what: Seq<char>, a: Amount) -> Seq<char> {
    if a.negative {
        "Decrease "@ + what + " by "@ + a.magnitude@
    } else {
        "Increase "@ + what + " by "@ + a.magnitude@
    }
}

/// An action addressed to a part of the program, usually available whichever part has the
/// focus. Levels and positions are held as their decimal text.
#[derive(Clone, Debug)]
pub enum TargetedAction {
    Play,
    Pause,
    Stop,
    PlayOrPause,
    Skip,
    Previous,
    Queue(QueueAction),
    GoToStart,
    ChangeVolume(Amount),
    ChangeSpeed(Amount),
    SetVolume(String),
    SetSpeed(String),
    /// A seek by this many seconds.
    ChangePosition(Amount),
    /// A seek to this second.
    SetPosition(String),
    Shuffle,
    WindowUp,
    WindowDown,
    WindowLeft,
    WindowRight,
    TapToBPM,
    FocusPlaylistList,
    FocusPlaylistQueue,
    FocusPlayQueue,
    OpenTasks,
    CloseTasks,
    ToggleTasks,
    EndKeySeq,
    OpenHelp,
    ClosePopup,
    ToggleHelp,
    Suspend,
    Resume,
    ClearScreen,
    Quit,
    Debug(String),
    Info(String),
    Error(String),
    ViewPlaylistInfo(SimplePlaylist),
    ViewMediaInfo(Media),
}

/// The description of an action in the help menu.
pub open spec fn targeted_text(a: TargetedAction) -> Seq<char> {
    match a {
        TargetedAction::Play => "Play music"@,
        TargetedAction::Pause => "Pause music"@,
        TargetedAction::Stop => "Stop music"@,
        TargetedAction::PlayOrPause => "Play/Pause"@,
        TargetedAction::Skip => "Skip to next music"@,
        TargetedAction::Previous => "Skip to previous music"@,
        TargetedAction::Queue(q) => queue_action_text(q),
        TargetedAction::GoToStart => "Rewind to start"@,
        TargetedAction::ChangeVolume(v) => change_text("volume"@, v),
        TargetedAction::WindowUp => "Focus window above"@,
        TargetedAction::WindowDown => "Focus window below"@,
        TargetedAction::WindowLeft => "Focus window on the left"@,
        TargetedAction::WindowRight => "Focus window on the right"@,
        TargetedAction::TapToBPM => "Tap to BPM"@,
        TargetedAction::FocusPlaylistList => "Focus playlist list"@,
        TargetedAction::FocusPlaylistQueue => "Focus playlist queue"@,
        TargetedAction::FocusPlayQueue => "Focus play queue"@,
        TargetedAction::OpenTasks => "Open tasks view"@,
        TargetedAction::CloseTasks => "Close tasks view"@,
        TargetedAction::ToggleTasks => "Toggle tasks view"@,
        TargetedAction::EndKeySeq => "Reset key sequence"@,
        TargetedAction::OpenHelp => "Open help menu"@,
        TargetedAction::ClosePopup => "Close help menu"@,
        TargetedAction::ToggleHelp => "Toggle help menu"@,
        TargetedAction::Suspend => "Suspend program"@,
        TargetedAction::Resume => "Resume program"@,
        TargetedAction::ClearScreen => "Re-render"@,
        TargetedAction::Quit => "Quit program"@,
        TargetedAction::ChangeSpeed(s) => change_text("playback speed"@, s),
        TargetedAction::SetVolume(v) => "Set volume to "@ + v@,
        TargetedAction::SetSpeed(v) => "Set playback speed to "@ + v@,
        TargetedAction::ChangePosition(p) => if p.negative {
            "Seek backwards "@ + p.magnitude@ + " seconds"@
        } else {
            "Seek forward "@ + p.magnitude@ + " seconds"@
        },
        TargetedAction::SetPosition(v) => "Set current position to "@ + v@ + "s"@,
        TargetedAction::Info(_) => "Display information message"@,
        TargetedAction::Debug(_) => "Display debug message"@,
        TargetedAction::Error(_) => "Display error message"@,
        TargetedAction::Shuffle => "Shuffle music"@,
        TargetedAction::ViewPlaylistInfo(_) => "View playlist's information"@,
        TargetedAction::ViewMediaInfo(_) => "View media's information"@,
    }
}

/// The text "`before``middle``after`".
fn joined(before: &str, middle: &str, after: &str) -> (s: String)
    ensures
        s@ == before@ + middle@ + after@,
{
    let mut s = String::from_str(before);
    push_str(&mut s, middle);
    push_str(&mut s, after);
    s
}

/// The text of a change of `what`.
fn change_string(what: &str, a: &Amount) -> (s: String)
    ensures
        s@ == change_text(what@, *a),
{
    let mut s = String::from_str(if a.negative { "Decrease " } else { "Increase " });
    push_str(&mut s, what);
    push_str(&mut s, " by ");
    push_str(&mut s, a.magnitude.as_str());
    s
}

impl TargetedAction {
    /// The description of the action in the help menu.
    pub fn to_string(&self) -> (s: String)
        ensures
            s@ == targeted_text(*self),
    {
        match self {
            TargetedAction::Play => "Play music".to_string(),
            TargetedAction::Pause => "Pause music".to_string(),
            TargetedAction::Stop => "Stop music".to_string(),
            TargetedAction::PlayOrPause => "Play/Pause".to_string(),
            TargetedAction::Skip => "Skip to next music".to_string(),
            TargetedAction::Previous => "Skip to previous music".to_string(),
            TargetedAction::Queue(q) => q.to_string(),
            TargetedAction::GoToStart => "Rewind to start".to_string(),
            TargetedAction::ChangeVolume(v) => change_string("volume", v),
            TargetedAction::WindowUp => "Focus window above".to_string(),
            TargetedAction::WindowDown => "Focus window below".to_string(),
            TargetedAction::WindowLeft => "Focus window on the left".to_string(),
            TargetedAction::WindowRight => "Focus window on the right".to_string(),
            TargetedAction::TapToBPM => "Tap to BPM".to_string(),
            TargetedAction::FocusPlaylistList => "Focus playlist list".to_string(),
            TargetedAction::FocusPlaylistQueue => "Focus playlist queue".to_string(),
            TargetedAction::FocusPlayQueue => "Focus play queue".to_string(),
            TargetedAction::OpenTasks => "Open tasks view".to_string(),
            TargetedAction::CloseTasks => "Close tasks view".to_string(),
            TargetedAction::ToggleTasks => "Toggle tasks view".to_string(),
            TargetedAction::EndKeySeq => "Reset key sequence".to_string(),
            TargetedAction::OpenHelp => "Open help menu".to_string(),
            TargetedAction::ClosePopup => "Close help menu".to_string(),
            TargetedAction::ToggleHelp => "Toggle help menu".to_string(),
            TargetedAction::Suspend => "Suspend program".to_string(),
            TargetedAction::Resume => "Resume program".to_string(),
            TargetedAction::ClearScreen => "Re-render".to_string(),
            TargetedAction::Quit => "Quit program".to_string(),
            TargetedAction::ChangeSpeed(s) => change_string("playback speed", s),
            TargetedAction::SetVolume(v) => {
                let mut s = String::from_str("Set volume to ");
                push_str(&mut s, v.as_str());
                s
            },
            TargetedAction::SetSpeed(v) => {
                let mut s = String::from_str("Set playback speed to ");
                push_str(&mut s, v.as_str());
                s
            },
            TargetedAction::ChangePosition(p) => if p.negative {
                joined("Seek backwards ", p.magnitude.as_str(), " seconds")
            } else {
                joined("Seek forward ", p.magnitude.as_str(), " seconds")
            },
            TargetedAction::SetPosition(v) => joined("Set current position to ", v.as_str(), "s"),
            TargetedAction::Info(_) => "Display information message".to_string(),
            TargetedAction::Debug(_) => "Display debug message".to_string(),
            TargetedAction::Error(_) => "Display error message".to_string(),
            TargetedAction::Shuffle => "Shuffle music".to_string(),
            TargetedAction::ViewPlaylistInfo(_) => "View playlist's information".to_string(),
            TargetedAction::ViewMediaInfo(_) => "View media's information".to_string(),
        }
    }
}

} // verus!
