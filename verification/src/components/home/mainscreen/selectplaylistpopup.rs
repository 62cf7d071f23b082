//! The popup that picks a playlist to add media to.
use vstd::prelude::*;

use crate::action::getplaylists::SimplePlaylist;
use crate::compid::CompID;
use crate::media::{MediaID, PlaylistID};
use crate::query::{HighLevelQuery, ToQueryWorker, UpdatePlaylistParams};
use crate::strings::push_str;

verus! {

/// The actions of the popup.
#[derive(Clone, Debug)]
pub enum SelectPlaylistPopupAction {
    Up,
    Down,
    Top,
    Bottom,
    Cancel,
    Confirm,
    /// Pick this playlist directly (a quick-select binding).
    SelectID { id: PlaylistID, name: String },
}

/// What the popup asks of the program.
#[derive(Clone, Debug)]
pub enum PopupOutcome {
    /// Nothing.
    Stay,
    /// Close the popup.
    Close,
    /// Close the popup and send this request adding the media to a playlist.
    CloseAndAdd(ToQueryWorker),
}

/// The playlists, once fetched, and the cursor among them.
pub struct State {
    pub playlists: Vec<SimplePlaylist>,
    /// The selected position, moved as `ratatui::widgets::ListState` moves it (unbounded until
    /// the list is drawn).
    pub selected: Option<usize>,
}

/// The cursor after moving down: the next position, or the first with none selected.
pub open spec fn select_next(s: Option<usize>) -> Option<usize> {
    match s {
        Some(i) => Some(if i == usize::MAX { i } else { (i + 1) as usize }),
        None => Some(0),
    }
}

/// The cursor after moving up: the previous position, or the last with none selected.
pub open spec fn select_previous(s: Option<usize>) -> Option<usize> {
    match s {
        Some(i) => Some(if i == 0 { 0 } else { (i - 1) as usize }),
        None => Some(usize::MAX),
    }
}

/// The popup.
pub struct SelectPlaylistPopup {
    /// The media to add.
    pub items: Vec<MediaID>,
    pub title: String,
    pub state: Option<State>,
    /// The quick-select bindings, as shown: `keys: name`.
    pub quick_select: Vec<String>,
}

/// The request adding `items` to playlist `id`, under `ticket`.
pub open spec fn add_request(q: ToQueryWorker, ticket: usize, id: PlaylistID, items: Seq<MediaID>) -> bool {
    &&& q.ticket == ticket
    &&& q.query matches HighLevelQuery::UpdatePlaylist(p) && p.playlist_id == id && p.name is None
        && p.comment is None && p.public is None && p.song_index_to_remove is None
        && (p.song_id_to_add matches Some(v) && v@ == items)
}

impl SelectPlaylistPopup {
    /// The popup for adding `items`, with the quick-select bindings `binds` (keys and playlist
    /// name each) and title `title`, and the request for the playlists under `ticket`.
    pub fn new(items: Vec<MediaID>, binds: Vec<(String, String)>, title: String, ticket: usize) -> (r: (Self, ToQueryWorker))
        ensures
            r.0.items@ == items@,
            r.0.title == title,
            r.0.state is None,
            r.0.quick_select@.len() == binds@.len(),
            forall|i: int| 0 <= i < binds@.len() ==> (#[trigger] r.0.quick_select@[i])@ == binds@[i].0@ + ": "@ + binds@[i].1@,
            r.1.ticket == ticket,
            r.1.query == HighLevelQuery::ListPlaylistsPopup(false),
    {
        let mut list: Vec<String> = Vec::new();
        let mut i: usize = 0;
        while i < binds.len()
            invariant
                i <= binds@.len(),
                list@.len() == i,
                forall|k: int| 0 <= k < i ==> (#[trigger] list@[k])@ == binds@[k].0@ + ": "@ + binds@[k].1@,
            decreases binds@.len() - i,
        {
            let mut line = binds[i].0.clone();
            push_str(&mut line, ": ");
            push_str(&mut line, binds[i].1.as_str());
            list.push(line);
            i = i + 1;
        }
        let mut dest: Vec<CompID> = Vec::new();
        dest.push(CompID::MainScreen);
        (
            Self { items, title, state: None, quick_select: list },
            ToQueryWorker::new(ticket, dest, HighLevelQuery::ListPlaylistsPopup(false)),
        )
    }

    /// Shows the playlists `p`, the first selected.
    pub fn update_playlist(&mut self, p: Vec<SimplePlaylist>)
        ensures
            final(self).state matches Some(s) && s.playlists@ == p@ && s.selected == Some(0usize),
            final(self).items == old(self).items,
    {
        self.state = Some(State { playlists: p, selected: Some(0) });
    }

    /// The playlist at the cursor, if the playlists are shown and the cursor is on one.
    pub fn get_id(&self) -> (r: Option<PlaylistID>)
        ensures
            r == match self.state {
                Some(s) => match s.selected {
                    Some(i) => if i < s.playlists@.len() { Some(s.playlists@[i as int].id) } else { None },
                    None => None,
                },
                None => None,
            },
    {
        match &self.state {
            Some(state) => match state.selected {
                Some(idx) => if idx < state.playlists.len() {
                    Some(state.playlists[idx].id.clone())
                } else {
                    None
                },
                None => None,
            },
            None => None,
        }
    }

    /// Reacts to an action: moves the cursor, closes, or closes and adds the media to the
    /// playlist at the cursor (or the one picked directly), under `ticket`.
    pub fn handle_local_action(&mut self, action: SelectPlaylistPopupAction, ticket: usize) -> (r: PopupOutcome)
        ensures
            final(self).items == old(self).items,
            match action {
                SelectPlaylistPopupAction::Cancel => r is Close,
                SelectPlaylistPopupAction::Confirm => match old(self).get_id_spec() {
                    Some(id) => r matches PopupOutcome::CloseAndAdd(q) && add_request(q, ticket, id, old(self).items@),
                    None => r is Close,
                },
                SelectPlaylistPopupAction::SelectID { id, .. } => r matches PopupOutcome::CloseAndAdd(q)
                    && add_request(q, ticket, id, old(self).items@),
                _ => r is Stay && match old(self).state {
                    None => final(self).state is None,
                    Some(s) => final(self).state matches Some(t) && t.playlists == s.playlists && t.selected == match action {
                        SelectPlaylistPopupAction::Up => select_previous(s.selected),
                        SelectPlaylistPopupAction::Down => select_next(s.selected),
                        SelectPlaylistPopupAction::Top => Some(0usize),
                        _ => Some(usize::MAX),
                    },
                },
            },
    {
        match action {
            SelectPlaylistPopupAction::Up => {
                if let Some(state) = &mut self.state {
                    state.selected = match state.selected {
                        Some(i) => Some(if i == 0 { 0 } else { i - 1 }),
                        None => Some(usize::MAX),
                    };
                }
                PopupOutcome::Stay
            },
            SelectPlaylistPopupAction::Down => {
                if let Some(state) = &mut self.state {
                    state.selected = match state.selected {
                        Some(i) => Some(if i == usize::MAX { i } else { i + 1 }),
                        None => Some(0),
                    };
                }
                PopupOutcome::Stay
            },
            SelectPlaylistPopupAction::Top => {
                if let Some(state) = &mut self.state {
                    state.selected = Some(0);
                }
                PopupOutcome::Stay
            },
            SelectPlaylistPopupAction::Bottom => {
                if let Some(state) = &mut self.state {
                    state.selected = Some(usize::MAX);
                }
                PopupOutcome::Stay
            },
            SelectPlaylistPopupAction::Cancel => PopupOutcome::Close,
            SelectPlaylistPopupAction::Confirm => {
                match self.get_id() {
                    Some(id) => PopupOutcome::CloseAndAdd(self.add_to(id, ticket)),
                    None => PopupOutcome::Close,
                }
            },
            SelectPlaylistPopupAction::SelectID { id, name: _ } => PopupOutcome::CloseAndAdd(self.add_to(id, ticket)),
        }
    }

    /// The playlist at the cursor (see `get_id`).
    pub open spec fn get_id_spec(&self) -> Option<PlaylistID> {
        match self.state {
            Some(s) => match s.selected {
                Some(i) => if i < s.playlists@.len() { Some(s.playlists@[i as int].id) } else { None },
                None => None,
            },
            None => None,
        }
    }

    /// The request adding the media to playlist `id`.
    fn add_to(&self, id: PlaylistID, ticket: usize) -> (q: ToQueryWorker)
        ensures
            add_request(q, ticket, id, self.items@),
    {
        let mut dest: Vec<CompID> = Vec::new();
        dest.push(CompID::MainScreen);
        ToQueryWorker::new(
            ticket,
            dest,
            HighLevelQuery::UpdatePlaylist(UpdatePlaylistParams {
                playlist_id: id,
                name: None,
                comment: None,
                public: None,
                song_id_to_add: Some(self.items.clone()),
                song_index_to_remove: None,
            }),
        )
    }
}

} // verus!
