//! The main screen: which panel has the focus, which popup is open, and the message line.
use vstd::prelude::*;

use crate::strings::push_str;

pub mod bpmtoy;
pub mod help;
pub mod leftpanel;
pub mod mediainfo;
pub mod nowplaying;
pub mod playlistinfo;
pub mod playlistlist;
pub mod playlistqueue;
pub mod playqueue;
pub mod queuelist;
pub mod screen;
pub mod search;
pub mod selectplaylistpopup;
pub mod tasks;

verus! {

/// The panel that had the focus before the now-playing panel took it.
#[derive(Clone, Copy, Debug, PartialEq, Eq, Structural)]
pub enum LastSelected {
    PlaylistList,
    Playlist,
    PlayQueue,
}

/// The panel that has the focus.
#[derive(Clone, Copy, Debug, PartialEq, Eq, Structural)]
pub enum CurrentlySelected {
    PlaylistList,
    PlaylistQueue,
    PlayQueue,
    /// The now-playing panel, with the panel to go back to.
    NowPlaying(LastSelected),
}

/// The popup shown over the panels.
#[derive(Clone, Copy, Debug, PartialEq, Eq, Structural)]
pub enum Popup {
    NoPopup,
    Tasks,
    Help,
    MediaInfo,
    PlaylistInfo,
    SelectPlaylist,
}

/// The actions the main screen handles itself.
#[derive(Clone, Debug)]
pub enum ScreenAction {
    WindowUp,
    WindowDown,
    WindowLeft,
    WindowRight,
    FocusPlaylistList,
    FocusPlaylistQueue,
    FocusPlayQueue,
    OpenTasks,
    CloseTasks,
    ToggleTasks,
    OpenHelp,
    ClosePopup,
    ToggleHelp,
    ViewPlaylistInfo,
    ViewMediaInfo,
    PrepareAddToPlaylist,
    /// Show an information message.
    Info(String),
    /// Show an error message.
    Error(String),
}

/// The focus after moving up or down: the lists and the now-playing panel swap, and the
/// now-playing panel gives the focus back to the list it took it from.
pub open spec fn vertical(s: CurrentlySelected) -> CurrentlySelected {
    match s {
        CurrentlySelected::PlaylistList => CurrentlySelected::NowPlaying(LastSelected::PlaylistList),
        CurrentlySelected::PlaylistQueue => CurrentlySelected::NowPlaying(LastSelected::Playlist),
        CurrentlySelected::PlayQueue => CurrentlySelected::NowPlaying(LastSelected::PlayQueue),
        CurrentlySelected::NowPlaying(l) => match l {
            LastSelected::PlaylistList => CurrentlySelected::PlaylistList,
            LastSelected::Playlist => CurrentlySelected::PlaylistQueue,
            LastSelected::PlayQueue => CurrentlySelected::PlayQueue,
        },
    }
}

/// The focus after moving left: the three lists in a cycle; the now-playing panel keeps it.
pub open spec fn leftward(s: CurrentlySelected) -> CurrentlySelected {
    match s {
        CurrentlySelected::PlaylistList => CurrentlySelected::PlayQueue,
        CurrentlySelected::PlayQueue => CurrentlySelected::PlaylistQueue,
        CurrentlySelected::PlaylistQueue => CurrentlySelected::PlaylistList,
        CurrentlySelected::NowPlaying(_) => s,
    }
}

/// The focus after moving right: the three lists in a cycle; the now-playing panel keeps it.
pub open spec fn rightward(s: CurrentlySelected) -> CurrentlySelected {
    match s {
        CurrentlySelected::PlaylistList => CurrentlySelected::PlaylistQueue,
        CurrentlySelected::PlaylistQueue => CurrentlySelected::PlayQueue,
        CurrentlySelected::PlayQueue => CurrentlySelected::PlaylistList,
        CurrentlySelected::NowPlaying(_) => s,
    }
}

/// The focus after an action.
pub open spec fn focus_after(s: CurrentlySelected, a: ScreenAction) -> CurrentlySelected {
    match a {
        ScreenAction::WindowUp | ScreenAction::WindowDown => vertical(s),
        ScreenAction::WindowLeft => leftward(s),
        ScreenAction::WindowRight => rightward(s),
        ScreenAction::FocusPlaylistList => CurrentlySelected::PlaylistList,
        ScreenAction::FocusPlaylistQueue => CurrentlySelected::PlaylistQueue,
        ScreenAction::FocusPlayQueue => CurrentlySelected::PlayQueue,
        _ => s,
    }
}

/// The popup after an action.
pub open spec fn popup_after(p: Popup, a: ScreenAction) -> Popup {
    match a {
        ScreenAction::OpenTasks => Popup::Tasks,
        ScreenAction::CloseTasks | ScreenAction::ClosePopup => Popup::NoPopup,
        ScreenAction::ToggleTasks => if p == Popup::Tasks { Popup::NoPopup } else { Popup::Tasks },
        ScreenAction::OpenHelp => Popup::Help,
        ScreenAction::ToggleHelp => if p == Popup::Help { Popup::NoPopup } else { Popup::Help },
        ScreenAction::ViewPlaylistInfo => Popup::PlaylistInfo,
        ScreenAction::ViewMediaInfo => Popup::MediaInfo,
        ScreenAction::PrepareAddToPlaylist => Popup::SelectPlaylist,
        _ => p,
    }
}

/// The state of the main screen that its actions change.
pub struct MainScreenState {
    pub state: CurrentlySelected,
    pub popup: Popup,
    /// The message line, and whether it shows an error.
    pub message: (bool, String),
    /// The keys typed so far of a sequence in progress.
    pub key_stack: Vec<String>,
}

/// Which of the panels (playlist list, playlist queue, play queue, now playing) show as focused.
pub open spec fn focus_flags(s: CurrentlySelected) -> (bool, bool, bool, bool) {
    (
        s == CurrentlySelected::PlaylistList,
        s == CurrentlySelected::PlaylistQueue,
        s == CurrentlySelected::PlayQueue,
        s is NowPlaying,
    )
}

impl MainScreenState {
    /// The screen as it opens: the playlist list focused, no popup, the welcome message.
    pub fn new(welcome: String) -> (r: Self)
        ensures
            r.state == CurrentlySelected::PlaylistList,
            r.popup == Popup::NoPopup,
            r.message.0 == false,
            r.message.1 == welcome,
            r.key_stack@.len() == 0,
    {
        Self {
            state: CurrentlySelected::PlaylistList,
            popup: Popup::NoPopup,
            message: (false, welcome),
            key_stack: Vec::new(),
        }
    }

    /// Which panels show as focused: playlist list, playlist queue, play queue, now playing.
    pub fn update_focus(&self) -> (r: (bool, bool, bool, bool))
        ensures
            r == focus_flags(self.state),
    {
        (
            self.state == CurrentlySelected::PlaylistList,
            self.state == CurrentlySelected::PlaylistQueue,
            self.state == CurrentlySelected::PlayQueue,
            matches!(self.state, CurrentlySelected::NowPlaying(_)),
        )
    }

    /// Carries out an action: moves the focus, opens or closes a popup, or sets the message.
    /// Any key sequence in progress is dropped.
    pub fn handle_action(&mut self, action: ScreenAction)
        ensures
            final(self).state == focus_after(old(self).state, action),
            final(self).popup == popup_after(old(self).popup, action),
            final(self).key_stack@.len() == 0,
            match action {
                ScreenAction::Info(msg) => final(self).message == (false, msg),
                ScreenAction::Error(msg) => final(self).message == (true, msg),
                _ => final(self).message == old(self).message,
            },
    {
        self.key_stack = Vec::new();
        match action {
            ScreenAction::PrepareAddToPlaylist => {
                self.popup = Popup::SelectPlaylist;
            },
            ScreenAction::ViewPlaylistInfo => {
                self.popup = Popup::PlaylistInfo;
            },
            ScreenAction::ViewMediaInfo => {
                self.popup = Popup::MediaInfo;
            },
            ScreenAction::ToggleHelp => {
                if self.popup == Popup::Help {
                    self.popup = Popup::NoPopup;
                } else {
                    self.popup = Popup::Help;
                }
            },
            ScreenAction::ClosePopup => {
                self.popup = Popup::NoPopup;
            },
            ScreenAction::OpenHelp => {
                self.popup = Popup::Help;
            },
            ScreenAction::WindowUp | ScreenAction::WindowDown => {
                self.state = match self.state {
                    CurrentlySelected::PlaylistList => CurrentlySelected::NowPlaying(
                        LastSelected::PlaylistList,
                    ),
                    CurrentlySelected::PlaylistQueue => CurrentlySelected::NowPlaying(
                        LastSelected::Playlist,
                    ),
                    CurrentlySelected::PlayQueue => CurrentlySelected::NowPlaying(
                        LastSelected::PlayQueue,
                    ),
                    CurrentlySelected::NowPlaying(last_selected) => match last_selected {
                        LastSelected::PlaylistList => CurrentlySelected::PlaylistList,
                        LastSelected::Playlist => CurrentlySelected::PlaylistQueue,
                        LastSelected::PlayQueue => CurrentlySelected::PlayQueue,
                    },
                };
            },
            ScreenAction::WindowLeft => {
                match self.state {
                    CurrentlySelected::PlaylistList => {
                        self.state = CurrentlySelected::PlayQueue;
                    },
                    CurrentlySelected::PlayQueue => {
                        self.state = CurrentlySelected::PlaylistQueue;
                    },
                    CurrentlySelected::PlaylistQueue => {
                        self.state = CurrentlySelected::PlaylistList;
                    },
                    CurrentlySelected::NowPlaying(_) => {},
                }
            },
            ScreenAction::WindowRight => {
                match self.state {
                    CurrentlySelected::PlaylistList => {
                        self.state = CurrentlySelected::PlaylistQueue;
                    },
                    CurrentlySelected::PlaylistQueue => {
                        self.state = CurrentlySelected::PlayQueue;
                    },
                    CurrentlySelected::PlayQueue => {
                        self.state = CurrentlySelected::PlaylistList;
                    },
                    CurrentlySelected::NowPlaying(_) => {},
                }
            },
            ScreenAction::FocusPlaylistList => {
                self.state = CurrentlySelected::PlaylistList;
            },
            ScreenAction::FocusPlaylistQueue => {
                self.state = CurrentlySelected::PlaylistQueue;
            },
            ScreenAction::FocusPlayQueue => {
                self.state = CurrentlySelected::PlayQueue;
            },
            ScreenAction::OpenTasks => {
                self.popup = Popup::Tasks;
            },
            ScreenAction::CloseTasks => {
                self.popup = Popup::NoPopup;
            },
            ScreenAction::ToggleTasks => {
                if self.popup == Popup::Tasks {
                    self.popup = Popup::NoPopup;
                } else {
                    self.popup = Popup::Tasks;
                }
            },
            ScreenAction::Info(msg) => {
                self.message = (false, msg);
            },
            ScreenAction::Error(msg) => {
                self.message = (true, msg);
            },
        }
    }
}

/// The welcome message, naming the key that opens the help menu when one is bound.
pub open spec fn welcome_text(help_key: Option<String>) -> Seq<char> {
    match help_key {
        Some(k) => "Welcome to Ampterm. Press "@ + k@ + " at any point to see all of its keybindings."@,
        None => "Welcome to Ampterm."@,
    }
}

/// The welcome message of the main screen.
pub fn welcome_message(help_key: Option<String>) -> (s: String)
    ensures
        s@ == welcome_text(help_key),
{
    match help_key {
        Some(k) => {
            let mut s = String::from_str("Welcome to Ampterm. Press ");
            push_str(&mut s, k.as_str());
            push_str(&mut s, " at any point to see all of its keybindings.");
            s
        },
        None => String::from_str("Welcome to Ampterm."),
    }
}

impl MainScreenState {
    /// Records the keys of a sequence in progress, for the status line: a sequence of several
    /// keys is recorded whole when nothing is, and otherwise only its last key is added.
    pub fn record_keys(&mut self, keyseq: Vec<String>)
        ensures
            final(self).state == old(self).state,
            final(self).popup == old(self).popup,
            final(self).message == old(self).message,
            final(self).key_stack@ == if keyseq@.len() > 1 {
                if old(self).key_stack@.len() == 0 {
                    keyseq@
                } else {
                    old(self).key_stack@.push(keyseq@.last())
                }
            } else {
                old(self).key_stack@
            },
    {
        if keyseq.len() > 1 {
            if self.key_stack.len() == 0 {
                self.key_stack = keyseq;
            } else {
                let last = keyseq[keyseq.len() - 1].clone();
                self.key_stack.push(last);
            }
        }
    }

    /// A key sequence reached an action: the recorded keys are dropped.
    pub fn clear_keys(&mut self)
        ensures
            final(self).key_stack@.len() == 0,
            final(self).state == old(self).state,
            final(self).popup == old(self).popup,
            final(self).message == old(self).message,
    {
        self.key_stack = Vec::new();
    }
}

/// Moving up or down twice gives the focus back to the panel that had it.
pub proof fn lemma_vertical_twice(s: CurrentlySelected)
    ensures
        vertical(vertical(s)) == s,
{
}

/// Moving up or down always swaps between a list and the now-playing panel, which remembers
/// the list it took the focus from.
pub proof fn lemma_vertical_swaps(s: CurrentlySelected)
    ensures
        focus_after(s, ScreenAction::WindowUp) == focus_after(s, ScreenAction::WindowDown),
        (focus_after(s, ScreenAction::WindowUp) is NowPlaying) == !(s is NowPlaying),
        s == CurrentlySelected::PlaylistList ==> focus_after(s, ScreenAction::WindowUp) == CurrentlySelected::NowPlaying(
            LastSelected::PlaylistList,
        ),
        s == CurrentlySelected::PlaylistQueue ==> focus_after(s, ScreenAction::WindowUp) == CurrentlySelected::NowPlaying(
            LastSelected::Playlist,
        ),
        s == CurrentlySelected::PlayQueue ==> focus_after(s, ScreenAction::WindowUp) == CurrentlySelected::NowPlaying(
            LastSelected::PlayQueue,
        ),
        focus_after(focus_after(s, ScreenAction::WindowUp), ScreenAction::WindowDown) == s,
{
}

/// Moving right undoes moving left, and moving left undoes moving right.
pub proof fn lemma_left_right_inverse(s: CurrentlySelected)
    ensures
        rightward(leftward(s)) == s,
        leftward(rightward(s)) == s,
{
}

/// Three moves in the same direction go round the three lists back to the start.
pub proof fn lemma_three_moves_cycle(s: CurrentlySelected)
    ensures
        leftward(leftward(leftward(s))) == s,
        rightward(rightward(rightward(s))) == s,
{
}

/// Exactly one panel shows as focused.
pub proof fn lemma_one_focused(s: CurrentlySelected)
    ensures
        ({
            let f = focus_flags(s);
            (if f.0 { 1int } else { 0 }) + (if f.1 { 1int } else { 0 }) + (if f.2 { 1int } else { 0 })
                + (if f.3 { 1int } else { 0 }) == 1
        }),
{
}

/// Toggling the help menu, or the tasks view, twice from a screen without popup leaves it
/// without popup.
pub proof fn lemma_toggle_twice(a: ScreenAction)
    requires
        a is ToggleHelp || a is ToggleTasks,
    ensures
        popup_after(popup_after(Popup::NoPopup, a), a) == Popup::NoPopup,
{
}

} // verus!
