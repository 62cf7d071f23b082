//! The top-level screen: logging in, then the main screen.
use vstd::prelude::*;

use crate::compid::CompID;
use crate::query::{HighLevelQuery, PasswordCredential, ToQueryWorker};
use crate::strings::push_str;

pub mod loading;
pub mod login;
pub mod mainscreen;

use loading::Loading;
use login::Login;

verus! {

/// Credentials written in the configuration as they are.
#[derive(Clone, Debug)]
pub struct PlainAuth {
    pub url: String,
    pub username: String,
    pub password: String,
}

/// The credential to log in with at start. `from_commands` is `None` when the configuration
/// gives no commands for the credentials, and otherwise the outputs of the commands for the
/// address, the user name and the password, `None` when one of them could not run; the
/// commands take precedence over the plain credentials `plain`. `legacy` asks for legacy
/// authentication.
pub fn choose_credential(
    from_commands: Option<Option<(String, String, String)>>,
    plain: Option<PlainAuth>,
    legacy: bool,
) -> (r: Option<PasswordCredential>)
    ensures
        match from_commands {
            Some(Some((url, username, password))) => r == Some(
                PasswordCredential { url, secure: true, username, password, legacy },
            ),
            Some(None) => r is None,
            None => match plain {
                Some(p) => r == Some(
                    PasswordCredential { url: p.url, secure: true, username: p.username, password: p.password, legacy },
                ),
                None => r is None,
            },
        },
{
    match from_commands {
        Some(outputs) => match outputs {
            Some((url, username, password)) => Some(PasswordCredential { url, secure: true, username, password, legacy }),
            None => None,
        },
        None => match plain {
            Some(p) => Some(
                PasswordCredential { url: p.url, secure: true, username: p.username, password: p.password, legacy },
            ),
            None => None,
        },
    }
}

/// What the top-level screen shows.
pub enum Comp {
    /// The main screen (held by the caller).
    Main,
    Loading(Loading),
    Login(Login),
}

/// The top-level screen.
pub struct Home {
    pub component: Comp,
}

impl Home {
    /// The screen at start: with credentials from the configuration, logging in with them (the
    /// credential request under `ticket`, then the check under `ticket + 1`); without, the login
    /// form, saying where the configuration was read from (`config_dir`, the directory as its
    /// debugging form prints it, quoted).
    pub fn new(creds: Option<PasswordCredential>, config_dir: String, ticket: usize) -> (r: (Self, Vec<ToQueryWorker>))
        requires
            ticket < usize::MAX,
        ensures
            match creds {
                Some(c) => {
                    &&& r.0.component matches Comp::Loading(l) && l.comp.lines@.len() == 3
                        && l.comp.lines@[0]@ == "Logging in with the credentials in the configuration..."@
                        && l.comp.lines@[1]@ == "URL: "@ + c.url@
                        && l.comp.lines@[2]@ == "Username: "@ + c.username@
                    &&& r.1@.len() == 2
                    &&& r.1@[0].ticket == ticket && r.1@[0].query == HighLevelQuery::SetCredential(c)
                    &&& r.1@[1].ticket == ticket + 1 && r.1@[1].query is CheckCredentialValidity
                },
                None => {
                    &&& r.0.component matches Comp::Login(l) && (l.status_msg matches Some(m) && m@.len() == 2
                        && m@[0]@ == "No credentials detected in the config."@
                        && m@[1]@ == "(Loaded config from "@ + config_dir@ + ")"@)
                    &&& r.1@.len() == 0
                },
            },
    {
        match creds {
            Some(creds) => {
                let comp = Loading::new(creds.url.clone(), creds.username.clone());
                let mut actions: Vec<ToQueryWorker> = Vec::new();
                let mut d1: Vec<CompID> = Vec::new();
                d1.push(CompID::Home);
                actions.push(ToQueryWorker::new(ticket, d1, HighLevelQuery::SetCredential(creds)));
                let mut d2: Vec<CompID> = Vec::new();
                d2.push(CompID::Home);
                actions.push(ToQueryWorker::new(ticket + 1, d2, HighLevelQuery::CheckCredentialValidity));
                (Self { component: Comp::Loading(comp) }, actions)
            },
            None => {
                let mut msg: Vec<String> = Vec::new();
                msg.push(String::from_str("No credentials detected in the config."));
                let mut line = String::from_str("(Loaded config from ");
                push_str(&mut line, config_dir.as_str());
                push_str(&mut line, ")");
                msg.push(line);
                (Self { component: Comp::Login(Login::new(Some(msg))) }, Vec::new())
            },
        }
    }

    /// Takes the outcome of a credential check while not on the main screen: a success opens
    /// the main screen (the result is then true); a failure while logging in with the
    /// configured credentials opens the login form with the error.
    pub fn handle_ping(&mut self, res: Result<(), String>) -> (open_main: bool)
        ensures
            (old(self).component is Main) ==> !open_main && final(self).component is Main,
            !(old(self).component is Main) && res is Ok ==> open_main && final(self).component is Main,
            (old(self).component is Loading) && res is Err ==> !open_main
                && (final(self).component matches Comp::Login(l) && (l.status_msg matches Some(m) && m@.len() == 2
                && m@[0]@ == "Failed to query the server with the given credentials!"@
                && m@[1]@ == "Error: "@ + res->Err_0@)),
            (old(self).component is Login) && res is Err ==> !open_main && final(self).component is Login,
    {
        if let Comp::Main = self.component {
            return false;
        }
        match res {
            Ok(()) => {
                self.component = Comp::Main;
                true
            },
            Err(err) => {
                if let Comp::Loading(_) = &self.component {
                    let mut msg: Vec<String> = Vec::new();
                    msg.push(String::from_str("Failed to query the server with the given credentials!"));
                    let mut line = String::from_str("Error: ");
                    push_str(&mut line, err.as_str());
                    msg.push(line);
                    self.component = Comp::Login(Login::new(Some(msg)));
                }
                false
            },
        }
    }
}

} // verus!
