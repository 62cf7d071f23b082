//! The playlist queue when a playlist could not be fetched.
use vstd::prelude::*;

use crate::action::localaction::PlaylistQueueAction;
use crate::compid::CompID;
use crate::components::centered::Centered;
use crate::media::PlaylistID;
use crate::query::{GetPlaylistParams, HighLevelQuery, ToQueryWorker};

verus! {

/// A playlist that could not be fetched.
pub struct Error {
    pub id: PlaylistID,
    pub name: String,
    pub comp: Centered,
    pub enabled: bool,
}

impl Error {
    /// The panel for playlist `id` named `name` that failed with `error`.
    pub fn new(id: PlaylistID, name: String, error: String, enabled: bool) -> (r: Self)
        ensures
            r.id == id,
            r.name == name,
            r.enabled == enabled,
            r.comp.lines@.len() == 3,
            r.comp.lines@[0]@ == "Error!"@,
            r.comp.lines@[1] == error,
            r.comp.lines@[2]@ == "Reload with 'R'"@,
    {
        let mut lines: Vec<String> = Vec::new();
        lines.push(String::from_str("Error!"));
        lines.push(error);
        lines.push(String::from_str("Reload with 'R'"));
        Self { id, name, comp: Centered::new(lines), enabled }
    }

    /// Refreshing fetches the playlist again, under `ticket`; other actions do nothing.
    pub fn handle_local_action(&self, action: PlaylistQueueAction, ticket: usize) -> (q: Option<ToQueryWorker>)
        ensures
            action == PlaylistQueueAction::Refresh ==> q is Some && q->0.ticket == ticket
                && (q->0.query matches HighLevelQuery::SelectPlaylist(p) && p.name == self.name && p.id == self.id),
            action != PlaylistQueueAction::Refresh ==> q is None,
    {
        match action {
            PlaylistQueueAction::Refresh => {
                let mut dest: Vec<CompID> = Vec::new();
                dest.push(CompID::PlaylistQueue);
                Some(ToQueryWorker::new(
                    ticket,
                    dest,
                    HighLevelQuery::SelectPlaylist(GetPlaylistParams { name: self.name.clone(), id: self.id.clone() }),
                ))
            },
            _ => None,
        }
    }

    /// Shows the panel as focused or not.
    pub fn set_enabled(&mut self, enable: bool)
        ensures
            final(self).enabled == enable,
            final(self).name == old(self).name,
    {
        self.enabled = enable;
    }
}

} // verus!
