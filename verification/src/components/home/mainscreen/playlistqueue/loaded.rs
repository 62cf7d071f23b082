//! The playlist queue showing the entries of a playlist: queuing, starring, filtering and
//! searching them.
use vstd::prelude::*;

use crate::action::action::QueueAction;
use crate::action::localaction::PlaylistQueueAction;
use crate::action::Selection;
use crate::compid::CompID;
use crate::media::{
    set_star_in, starred_in, toggle_requests, toggle_requests_of, Media, MediaID,
    PlaylistID, QueueLocation,
};
use crate::query::{GetPlaylistParams, HighLevelQuery, ToQueryWorker};
use crate::selection::{count_true, is_selected, picked};
use crate::strings::{dec, push_dec, push_str};
use crate::text::{matches_ignore_case, matches_query};

pub mod filter;
pub mod search;

verus! {

/// Which entries match `query`, regardless of case.
pub open spec fn match_flags(entries: Seq<Media>, query: Seq<char>) -> Seq<bool> {
    Seq::new(entries.len(), |i: int| matches_query(entries[i].title@, query))
}

/// The outcome of trying a search.
#[derive(Clone, Debug)]
pub enum SearchOutcome {
    /// The search is empty: go back to the position before the search, highlighting nothing.
    Reset { back_to: usize },
    /// Highlight the matching entries and, when there is one, go to the first.
    Highlight { highlight: Vec<bool>, position: Option<usize> },
}

/// The title of the panel for the cursor at `cursor`: the playlist's name, the position among
/// the entries shown (the filtered ones when a filter is set) and the filter.
pub open spec fn loaded_title(name: Seq<char>, total: nat, filter: Option<(usize, String)>, cursor: Option<usize>) -> Seq<char> {
    let len: nat = match filter { Some(f) => f.0 as nat, None => total };
    let extra = match filter { Some(f) => " (Filter: "@ + f.1@ + ")"@, None => Seq::<char>::empty() };
    match cursor {
        Some(pos) => name + " ("@ + dec(if pos == usize::MAX || pos >= len { len } else { (pos + 1) as nat })
            + "/"@ + dec(len) + ")"@ + extra,
        None => name + " ("@ + dec(len) + ")"@ + extra,
    }
}

/// `r` is the queue request for the selection `sel` of `entries`, to play at `playpos`: none
/// without a selection; otherwise the selected entries, in their order, to be queued as they
/// are or shuffled first when `randomise` asks for it.
pub open spec fn queue_request(
    entries: Seq<Media>,
    sel: Option<Selection>,
    playpos: QueueLocation,
    randomise: bool,
    r: Option<QueueAction>,
) -> bool {
    match sel {
        None => r is None,
        Some(Selection::Single(i)) => r matches Some(a) && if randomise {
            a matches QueueAction::RandomAdd(items, at) && items@ == seq![entries[i as int]] && at == playpos
        } else {
            a matches QueueAction::Add(items, at) && items@ == seq![entries[i as int]] && at == playpos
        },
        Some(s) => r matches Some(a) && if randomise {
            a matches QueueAction::RandomAdd(items, at) && items@ == picked(entries, s, entries.len() as int)
                && at == playpos
        } else {
            a matches QueueAction::Add(items, at) && items@ == picked(entries, s, entries.len() as int)
                && at == playpos
        },
    }
}

/// What a key action of the playlist queue asks of the rest of the program.
pub enum PlaylistOutcome {
    /// Nothing.
    Done,
    /// These star requests for the server, in order.
    Stars(Vec<(MediaID, bool)>),
    /// This change of the play queue.
    Queue(QueueAction),
    /// This request, to reload the playlist.
    Reload(ToQueryWorker),
}

/// The queue change that `r` carries, if it is one.
pub open spec fn queued_of(r: PlaylistOutcome) -> Option<QueueAction> {
    match r {
        PlaylistOutcome::Queue(a) => Some(a),
        _ => None,
    }
}

/// The playlist queue with a playlist's entries.
pub struct Loaded {
    pub name: String,
    pub id: PlaylistID,
    pub entries: Vec<Media>,
    pub enabled: bool,
    /// The number of entries the filter lets through, and the filter.
    pub filter: Option<(usize, String)>,
    /// The number of entries the search matches, and the search.
    pub search: Option<(usize, String)>,
    /// The cursor position before the search started.
    pub orig_location: usize,
}

impl Loaded {
    /// The panel for playlist `id` named `name` with `entries`.
    pub fn new(name: String, id: PlaylistID, entries: Vec<Media>, enabled: bool) -> (r: Self)
        ensures
            r.name == name,
            r.id == id,
            r.entries@ == entries@,
            r.enabled == enabled,
            r.filter is None,
            r.search is None,
            r.orig_location == 0,
    {
        Self { name, id, entries, enabled, filter: None, search: None, orig_location: 0 }
    }

    /// The selected entries, in order.
    fn picked_entries(&self, sel: &Selection) -> (items: Vec<Media>)
        ensures
            items@ == picked(self.entries@, *sel, self.entries@.len() as int),
    {
        let len = self.entries.len();
        let mut items: Vec<Media> = Vec::new();
        let mut i: usize = 0;
        while i < len
            invariant
                len == self.entries@.len(),
                i <= len,
                items@ == picked(self.entries@, *sel, i as int),
            decreases len - i,
        {
            if is_selected(sel, i) {
                items.push(self.entries[i].clone_media());
            }
            i = i + 1;
        }
        items
    }

    /// The queue request for the selection: the selected entries, in their order, to be queued
    /// as they are or shuffled first, as `randomise` asks.
    pub fn add_selection_to_queue(&self, sel: Option<Selection>, playpos: QueueLocation, randomise: bool) -> (r: Option<QueueAction>)
        requires
            sel matches Some(Selection::Single(i)) ==> i < self.entries@.len(),
        ensures
            queue_request(self.entries@, sel, playpos, randomise, r),
    {
        match sel {
            None => None,
            Some(Selection::Single(index)) => {
                let mut items: Vec<Media> = Vec::new();
                items.push(self.entries[index].clone_media());
                assert(items@ =~= seq![self.entries@[index as int]]);
                Some(if randomise { QueueAction::RandomAdd(items, playpos) } else { QueueAction::Add(items, playpos) })
            },
            Some(s) => {
                let items = self.picked_entries(&s);
                Some(if randomise { QueueAction::RandomAdd(items, playpos) } else { QueueAction::Add(items, playpos) })
            },
        }
    }

    /// The star requests for the selection: each selected entry that is not starred becomes
    /// starred, the others unstarred. The entries themselves change when the server confirms.
    pub fn toggle_star(&self, sel: Option<Selection>) -> (reqs: Vec<(MediaID, bool)>)
        requires
            sel matches Some(Selection::Single(i)) ==> i < self.entries@.len(),
            sel matches Some(Selection::Range(s, e)) ==> s <= e + 1 && e < self.entries@.len(),
        ensures
            match sel {
                None => reqs@.len() == 0,
                Some(s) => reqs@ == toggle_requests_of(self.entries@, s, self.entries@.len() as int),
            },
    {
        match sel {
            None => Vec::new(),
            Some(s) => toggle_requests(&self.entries, &s),
        }
    }

    /// Carries out a key action on the selection `sel` (`None` when nothing is selected); a
    /// reload is requested under `ticket`.
    pub fn handle_local_action(&self, action: PlaylistQueueAction, sel: Option<Selection>, ticket: usize) -> (r: PlaylistOutcome)
        requires
            sel matches Some(Selection::Single(i)) ==> i < self.entries@.len(),
            action is ToggleStar ==> (sel matches Some(Selection::Range(s, e)) ==> s <= e + 1 && e < self.entries@.len()),
        ensures
            match action {
                PlaylistQueueAction::Refresh => r matches PlaylistOutcome::Reload(q) && q.ticket == ticket
                    && (q.query matches HighLevelQuery::SelectPlaylist(p) && p.name@ == self.name@ && p.id == self.id),
                PlaylistQueueAction::Add(pos) => queue_request(self.entries@, sel, pos, false, queued_of(r))
                    && (r is Queue || r is Done),
                PlaylistQueueAction::RandomAdd(pos) => queue_request(self.entries@, sel, pos, true, queued_of(r))
                    && (r is Queue || r is Done),
                PlaylistQueueAction::ToggleStar => r matches PlaylistOutcome::Stars(reqs) && match sel {
                    None => reqs@.len() == 0,
                    Some(s) => reqs@ == toggle_requests_of(self.entries@, s, self.entries@.len() as int),
                },
            },
    {
        match action {
            PlaylistQueueAction::Refresh => PlaylistOutcome::Reload(self.refresh(ticket)),
            PlaylistQueueAction::Add(pos) => match self.add_selection_to_queue(sel, pos, false) {
                Some(a) => PlaylistOutcome::Queue(a),
                None => PlaylistOutcome::Done,
            },
            PlaylistQueueAction::RandomAdd(pos) => match self.add_selection_to_queue(sel, pos, true) {
                Some(a) => PlaylistOutcome::Queue(a),
                None => PlaylistOutcome::Done,
            },
            PlaylistQueueAction::ToggleStar => PlaylistOutcome::Stars(self.toggle_star(sel)),
        }
    }

    /// Sets or clears the starred marker of the entries with identifier `media`.
    pub fn set_star(&mut self, media: &MediaID, star: bool)
        ensures
            starred_in(old(self).entries@, final(self).entries@, media@, star),
            final(self).name == old(self).name,
            final(self).filter == old(self).filter,
    {
        set_star_in(&mut self.entries, media, star);
    }

    /// The identifiers of the selected entries, to add to a playlist; nothing without selection.
    pub fn add_to_playlist(&self, sel: Option<Selection>) -> (ids: Option<Vec<MediaID>>)
        requires
            sel matches Some(Selection::Single(i)) ==> i < self.entries@.len(),
        ensures
            match sel {
                None => ids is None,
                Some(s) => ids matches Some(v) && v@ == picked(self.entries@, s, self.entries@.len() as int).map_values(
                    |m: Media| m.id,
                ),
            },
    {
        match sel {
            None => None,
            Some(s) => {
                let items = self.picked_entries(&s);
                let mut ids: Vec<MediaID> = Vec::new();
                let mut i: usize = 0;
                while i < items.len()
                    invariant
                        i <= items@.len(),
                        ids@ == items@.subrange(0, i as int).map_values(|m: Media| m.id),
                    decreases items@.len() - i,
                {
                    ids.push(items[i].id.clone());
                    assert(items@.subrange(0, i + 1).map_values(|m: Media| m.id) =~= items@.subrange(0, i as int).map_values(|m: Media| m.id).push(items@[i as int].id));
                    i = i + 1;
                }
                assert(items@.subrange(0, items@.len() as int) =~= items@);
                Some(ids)
            },
        }
    }

    /// The request to fetch the playlist again, under `ticket`.
    pub fn refresh(&self, ticket: usize) -> (q: ToQueryWorker)
        ensures
            q.ticket == ticket,
            q.query matches HighLevelQuery::SelectPlaylist(p) && p.name@ == self.name@ && p.id == self.id,
    {
        let mut dest: Vec<CompID> = Vec::new();
        dest.push(CompID::PlaylistQueue);
        ToQueryWorker::new(
            ticket,
            dest,
            HighLevelQuery::SelectPlaylist(GetPlaylistParams { name: self.name.clone(), id: self.id.clone() }),
        )
    }

    /// The entry at the cursor, to show its details.
    pub fn view_info(&self, cursor: Option<usize>) -> (m: Option<Media>)
        requires
            cursor matches Some(p) ==> p < self.entries@.len(),
        ensures
            match cursor {
                Some(p) => m == Some(self.entries@[p as int]),
                None => m is None,
            },
    {
        match cursor {
            Some(p) => Some(self.entries[p].clone_media()),
            None => None,
        }
    }

    /// Which entries match `query`, and how many do.
    fn match_entries(&self, query: &str) -> (r: (Vec<bool>, usize))
        ensures
            r.0@ == match_flags(self.entries@, query@),
            r.1 == count_true(r.0@),
    {
        let len = self.entries.len();
        let mut flags: Vec<bool> = Vec::new();
        let mut count: usize = 0;
        let mut i: usize = 0;
        while i < len
            invariant
                len == self.entries@.len(),
                i <= len,
                flags@ == match_flags(self.entries@, query@).subrange(0, i as int),
                count == count_true(flags@),
                count <= i,
            decreases len - i,
        {
            let a = matches_ignore_case(self.entries[i].title.as_str(), query);
            let ghost before = flags@;
            flags.push(a);
            assert(flags@.drop_last() =~= before);
            if a {
                count = count + 1;
            }
            assert(flags@ =~= match_flags(self.entries@, query@).subrange(0, i + 1));
            i = i + 1;
        }
        assert(flags@ =~= match_flags(self.entries@, query@));
        (flags, count)
    }

    /// Shows only the entries whose title contains `filter`, regardless of case: returns which
    /// are shown, and remembers how many with the filter.
    pub fn set_filter(&mut self, filter: String) -> (visibility: Vec<bool>)
        ensures
            visibility@ == match_flags(old(self).entries@, filter@),
            final(self).filter matches Some(f) && f.0 == count_true(visibility@) && f.1 == filter,
            final(self).entries == old(self).entries,
            final(self).name == old(self).name,
            final(self).search == old(self).search,
    {
        let (visibility, count) = self.match_entries(filter.as_str());
        self.filter = Some((count, filter));
        visibility
    }

    /// Shows every entry again.
    pub fn reset_filter(&mut self)
        ensures
            final(self).filter is None,
            final(self).entries == old(self).entries,
            final(self).name == old(self).name,
            final(self).search == old(self).search,
    {
        self.filter = None;
    }

    /// Remembers where the cursor was when the search started.
    pub fn init_search(&mut self, cursor: Option<usize>) -> (r: bool)
        ensures
            r,
            final(self).orig_location == match cursor { Some(p) => p, None => 0 },
            final(self).entries == old(self).entries,
            final(self).filter == old(self).filter,
            final(self).search == old(self).search,
    {
        self.orig_location = match cursor {
            Some(p) => p,
            None => 0,
        };
        true
    }

    /// Tries the search `search`: an empty one goes back to where the search started; another
    /// highlights the matching entries, regardless of case, and goes to the first of them.
    pub fn test_search(&mut self, search: String) -> (r: SearchOutcome)
        ensures
            search@.len() == 0 ==> {
                &&& r matches SearchOutcome::Reset { back_to } && back_to == old(self).orig_location
                &&& final(self).search matches Some(s) && s.0 == 0 && s.1 == search
            },
            search@.len() != 0 ==> {
                let flags = match_flags(old(self).entries@, search@);
                &&& r matches SearchOutcome::Highlight { highlight, position } && highlight@ == flags
                    && match position {
                        Some(p) => p < flags.len() && flags[p as int] && forall|j: int| 0 <= j < p ==> !flags[j],
                        None => forall|j: int| 0 <= j < flags.len() ==> !flags[j],
                    }
                &&& final(self).search matches Some(s) && s.0 == count_true(flags) && s.1 == search
            },
            final(self).entries == old(self).entries,
            final(self).filter == old(self).filter,
            final(self).orig_location == old(self).orig_location,
    {
        if search.as_str().is_empty() {
            self.search = Some((0, search));
            SearchOutcome::Reset { back_to: self.orig_location }
        } else {
            let (highlight, count) = self.match_entries(search.as_str());
            let len = highlight.len();
            let mut i: usize = 0;
            while i < len
                invariant
                    len == highlight@.len(),
                    i <= len,
                    forall|j: int| 0 <= j < i ==> !highlight@[j],
                ensures
                    i <= len,
                    i < len ==> highlight@[i as int],
                    forall|j: int| 0 <= j < i ==> !highlight@[j],
                decreases len - i,
            {
                if highlight[i] {
                    break;
                }
                i = i + 1;
            }
            let position = if i < len { Some(i) } else { None };
            self.search = Some((count, search));
            SearchOutcome::Highlight { highlight, position }
        }
    }

    /// Abandons the search: back to where it started.
    pub fn revert_search(&mut self) -> (position: usize)
        ensures
            position == old(self).orig_location,
            final(self).search is None,
            final(self).entries == old(self).entries,
            final(self).filter == old(self).filter,
    {
        self.search = None;
        self.orig_location
    }

    /// The title of the panel with the cursor at `cursor`.
    pub fn title(&self, cursor: Option<usize>) -> (s: String)
        ensures
            s@ == loaded_title(self.name@, self.entries@.len(), self.filter, cursor),
    {
        let len: usize = match &self.filter {
            Some(f) => f.0,
            None => self.entries.len(),
        };
        let mut s = self.name.clone();
        push_str(&mut s, " (");
        match cursor {
            Some(pos) => {
                push_dec(&mut s, if pos == usize::MAX || pos >= len { len as u64 } else { (pos + 1) as u64 });
                push_str(&mut s, "/");
                push_dec(&mut s, len as u64);
            },
            None => {
                push_dec(&mut s, len as u64);
            },
        }
        push_str(&mut s, ")");
        if let Some(f) = &self.filter {
            push_str(&mut s, " (Filter: ");
            push_str(&mut s, f.1.as_str());
            push_str(&mut s, ")");
        }
        s
    }
}

/// The number of entries a filter lets through is the number of entries it shows.
pub proof fn lemma_count_bounded(s: Seq<bool>)
    ensures
        count_true(s) <= s.len(),
    decreases s.len(),
{
    if s.len() > 0 {
        lemma_count_bounded(s.drop_last());
    }
}

} // verus!
