//! The login form: which field is edited, and the state of a login attempt.
use vstd::prelude::*;

use crate::compid::CompID;
use crate::keys::KeyInput;
use crate::query::{HighLevelQuery, PasswordCredential, ToQueryWorker};

verus! {

/// The state of the login attempt.
#[derive(Clone, Copy, Debug, PartialEq, Eq, Structural)]
pub enum Status {
    Normal,
    /// Waiting for the response to the credential request with this ticket.
    Pending(usize),
    Error,
}

/// The field being edited.
#[derive(Clone, Copy, Debug, PartialEq, Eq, Structural)]
pub enum Mode {
    Url,
    Username,
    Password,
    LegacyToggle,
}

/// What a key asks of the program.
#[derive(Clone, Copy, Debug, PartialEq, Eq, Structural)]
pub enum KeyOutcome {
    Nothing,
    Quit,
    /// Submit the form (see `Login::submit`).
    Submit,
    /// Hand the key to this field.
    Input(Mode),
}

/// The login form.
pub struct Login {
    pub status_msg: Option<Vec<String>>,
    pub mode: Mode,
    pub status: Status,
}

/// The field above.
pub open spec fn field_up(m: Mode) -> Mode {
    match m {
        Mode::Url => Mode::LegacyToggle,
        Mode::Username => Mode::Url,
        Mode::Password => Mode::Username,
        Mode::LegacyToggle => Mode::Password,
    }
}

/// The field below.
pub open spec fn field_down(m: Mode) -> Mode {
    match m {
        Mode::Url => Mode::Username,
        Mode::Username => Mode::Password,
        Mode::Password => Mode::LegacyToggle,
        Mode::LegacyToggle => Mode::Url,
    }
}

/// Which fields (URL, username, password, legacy toggle) show as being edited: the current one,
/// the text fields only while no attempt is pending.
pub open spec fn style_flags(mode: Mode, status: Status) -> (bool, bool, bool, bool) {
    let free = !(status is Pending);
    (mode == Mode::Url && free, mode == Mode::Username && free, mode == Mode::Password && free,
        mode == Mode::LegacyToggle)
}

impl Login {
    /// The form, editing the URL, with an optional message.
    pub fn new(msg: Option<Vec<String>>) -> (r: Self)
        ensures
            r.mode == Mode::Url,
            r.status == Status::Normal,
            r.status_msg == msg,
    {
        Self { status_msg: msg, mode: Mode::Url, status: Status::Normal }
    }

    /// Which fields show as being edited.
    pub fn update_style(&self) -> (r: (bool, bool, bool, bool))
        ensures
            r == style_flags(self.mode, self.status),
    {
        let free = !matches!(self.status, Status::Pending(_));
        (
            self.mode == Mode::Url && free,
            self.mode == Mode::Username && free,
            self.mode == Mode::Password && free,
            self.mode == Mode::LegacyToggle,
        )
    }

    /// Moves to the field above or below, unless an attempt is pending.
    pub fn navigate(&mut self, up: bool)
        ensures
            final(self).status == old(self).status,
            final(self).status_msg == old(self).status_msg,
            final(self).mode == if old(self).status is Pending {
                old(self).mode
            } else if up {
                field_up(old(self).mode)
            } else {
                field_down(old(self).mode)
            },
    {
        if matches!(self.status, Status::Pending(_)) {
            return;
        }
        self.mode = if up {
            match self.mode {
                Mode::Url => Mode::LegacyToggle,
                Mode::Username => Mode::Url,
                Mode::Password => Mode::Username,
                Mode::LegacyToggle => Mode::Password,
            }
        } else {
            match self.mode {
                Mode::Url => Mode::Username,
                Mode::Username => Mode::Password,
                Mode::Password => Mode::LegacyToggle,
                Mode::LegacyToggle => Mode::Url,
            }
        };
    }

    /// Submits the form: a credential request under `ticket`, which the form then waits for.
    pub fn submit(&mut self, ticket: usize, url: String, username: String, password: String, legacy: bool) -> (q: ToQueryWorker)
        ensures
            final(self).status == Status::Pending(ticket),
            final(self).mode == old(self).mode,
            final(self).status_msg matches Some(m) && m@.len() == 1 && m@[0]@ == "Logging in..."@,
            q.ticket == ticket,
            q.query == HighLevelQuery::SetCredential(PasswordCredential { url, secure: true, username, password, legacy }),
    {
        let mut dest: Vec<CompID> = Vec::new();
        dest.push(CompID::Login);
        let q = ToQueryWorker::new(
            ticket,
            dest,
            HighLevelQuery::SetCredential(PasswordCredential { url, secure: true, username, password, legacy }),
        );
        self.status = Status::Pending(q.ticket);
        let mut msg: Vec<String> = Vec::new();
        msg.push(String::from_str("Logging in..."));
        self.status_msg = Some(msg);
        q
    }

    /// Takes the outcome of a finished credential check: a failure of the awaited attempt is
    /// reported and ends the wait; anything else changes nothing.
    pub fn handle_ping(&mut self, ticket: usize, res: Result<(), String>)
        ensures
            final(self).mode == old(self).mode,
            (old(self).status == Status::Pending(ticket) && res is Err) ==> {
                &&& final(self).status == Status::Error
                &&& final(self).status_msg matches Some(m) && m@.len() == 2
                    && m@[0]@ == "Failed to log in! Error:"@ && m@[1] == res->Err_0
            },
            !(old(self).status == Status::Pending(ticket) && res is Err) ==> final(self).status
                == old(self).status && final(self).status_msg == old(self).status_msg,
    {
        if let Status::Pending(t) = self.status {
            if ticket == t {
                if let Err(msg) = res {
                    let mut m: Vec<String> = Vec::new();
                    m.push(String::from_str("Failed to log in! Error:"));
                    m.push(msg);
                    self.status_msg = Some(m);
                    self.status = Status::Error;
                }
            }
        }
    }

    /// Reacts to a key: arrows and tabs move between fields, escape quits, enter submits unless
    /// an attempt is pending, and other keys go to the field being edited.
    pub fn handle_raw(&mut self, key: KeyInput) -> (r: KeyOutcome)
        ensures
            final(self).status == old(self).status,
            final(self).status_msg == old(self).status_msg,
            match key {
                KeyInput::Up | KeyInput::BackTab | KeyInput::Left => r == KeyOutcome::Nothing
                    && final(self).mode == (if old(self).status is Pending { old(self).mode } else { field_up(old(self).mode) }),
                KeyInput::Down | KeyInput::Tab | KeyInput::Right => r == KeyOutcome::Nothing
                    && final(self).mode == (if old(self).status is Pending { old(self).mode } else { field_down(old(self).mode) }),
                KeyInput::Esc => r == KeyOutcome::Quit && final(self).mode == old(self).mode,
                KeyInput::Enter => final(self).mode == old(self).mode
                    && r == (if old(self).status is Pending { KeyOutcome::Nothing } else { KeyOutcome::Submit }),
                KeyInput::Backspace | KeyInput::Other => final(self).mode == old(self).mode
                    && r == KeyOutcome::Input(old(self).mode),
            },
    {
        match key {
            KeyInput::Up | KeyInput::BackTab | KeyInput::Left => {
                self.navigate(true);
                KeyOutcome::Nothing
            },
            KeyInput::Down | KeyInput::Tab | KeyInput::Right => {
                self.navigate(false);
                KeyOutcome::Nothing
            },
            KeyInput::Esc => KeyOutcome::Quit,
            KeyInput::Enter => {
                if !matches!(self.status, Status::Pending(_)) {
                    KeyOutcome::Submit
                } else {
                    KeyOutcome::Nothing
                }
            },
            KeyInput::Backspace | KeyInput::Other => KeyOutcome::Input(self.mode),
        }
    }
}

/// Moving up a field and then down one (or down then up) comes back to the same field.
pub proof fn lemma_up_down_inverse(m: Mode)
    ensures
        field_down(field_up(m)) == m,
        field_up(field_down(m)) == m,
{
}

/// Four moves in the same direction go round the four fields back to the start.
pub proof fn lemma_four_moves_cycle(m: Mode)
    ensures
        field_down(field_down(field_down(field_down(m)))) == m,
        field_up(field_up(field_up(field_up(m)))) == m,
{
}

} // verus!
