//! The list of playlists once fetched: opening a playlist, and queuing a whole playlist once
//! its entries arrive.
use std::collections::HashMap;
use vstd::prelude::*;

use crate::action::action::QueueAction;
use crate::action::getplaylists::SimplePlaylist;
use crate::compid::CompID;
use crate::media::{PlaylistID, QueueLocation};
use crate::query::{GetPlaylistParams, GetPlaylistResponse, HighLevelQuery, ToQueryWorker};
use crate::strings::{dec, dec_string};

verus! {

broadcast use vstd::std_specs::hash::group_hash_axioms;

/// The text of rows of strings.
pub open spec fn pair_text(rows: Seq<(String, String)>) -> Seq<(Seq<char>, Seq<char>)> {
    rows.map_values(|r: (String, String)| (r.0@, r.1@))
}

/// The rows of the list: each playlist's name and number of songs.
pub open spec fn playlist_rows(items: Seq<SimplePlaylist>) -> Seq<(Seq<char>, Seq<char>)> {
    items.map_values(|p: SimplePlaylist| (p.name@, dec(p.song_count as nat)))
}

/// A request to queue a whole playlist: which playlist, where, and whether shuffled.
pub type Callback = (PlaylistID, QueueLocation, bool);

/// The queue request made when the awaited playlist arrives: its entries, in order or
/// shuffled, at the place asked; nothing when it failed or is empty.
pub open spec fn queue_request(cb: Callback, res: GetPlaylistResponse, r: Option<QueueAction>) -> bool {
    match res {
        GetPlaylistResponse::Success { entry, .. } => r matches Some(a) && if cb.2 {
            a matches QueueAction::RandomAdd(items, at) && items@ == entry@ && at == cb.1
        } else {
            a matches QueueAction::Add(items, at) && items@ == entry@ && at == cb.1
        },
        _ => r is None,
    }
}

/// The list of playlists.
pub struct Loaded {
    /// Opening a playlist also moves the focus to the playlist queue.
    pub autofocus: bool,
    pub list: Vec<SimplePlaylist>,
    /// The rows shown.
    pub rows: Vec<(String, String)>,
    /// The queue requests waiting for their playlist, by ticket.
    pub callback: HashMap<usize, Callback>,
}

/// The rows for `items`.
pub fn gen_rows(items: &Vec<SimplePlaylist>) -> (rows: Vec<(String, String)>)
    ensures
        pair_text(rows@) == playlist_rows(items@),
{
    let mut rows: Vec<(String, String)> = Vec::new();
    let mut i: usize = 0;
    while i < items.len()
        invariant
            i <= items@.len(),
            pair_text(rows@) == playlist_rows(items@.subrange(0, i as int)),
        decreases items@.len() - i,
    {
        rows.push((items[i].name.clone(), dec_string(items[i].song_count as u64)));
        assert(playlist_rows(items@.subrange(0, i + 1)) =~= playlist_rows(items@.subrange(0, i as int)).push(
            (items@[i as int].name@, dec(items@[i as int].song_count as nat)),
        ));
        assert(pair_text(rows@) =~= pair_text(rows@.drop_last()).push((rows@.last().0@, rows@.last().1@)));
        i = i + 1;
    }
    assert(items@.subrange(0, items@.len() as int) =~= items@);
    rows
}

impl Loaded {
    /// The list of `list`, opening playlists with or without moving the focus.
    pub fn new(list: Vec<SimplePlaylist>, autofocus: bool) -> (r: Self)
        ensures
            r.list@ == list@,
            pair_text(r.rows@) == playlist_rows(list@),
            r.autofocus == autofocus,
            r.callback@ == Map::<usize, Callback>::empty(),
    {
        let rows = gen_rows(&list);
        Self { list, rows, callback: HashMap::new(), autofocus }
    }

    /// Shows the rows of `items` (the playlists that selections refer to stay as they were).
    pub fn set_rows(&mut self, items: &Vec<SimplePlaylist>)
        ensures
            pair_text(final(self).rows@) == playlist_rows(items@),
            final(self).list == old(self).list,
            final(self).callback@ == old(self).callback@,
    {
        self.rows = gen_rows(items);
    }

    /// Opens the playlist at the cursor, under `ticket`; the flag says whether the focus also
    /// moves to the playlist queue.
    pub fn select_playlist(&self, cursor: Option<usize>, ticket: usize) -> (r: Option<(ToQueryWorker, bool)>)
        requires
            cursor matches Some(p) ==> p < self.list@.len(),
        ensures
            match cursor {
                Some(p) => r matches Some(x) && x.1 == self.autofocus && x.0.ticket == ticket
                    && (x.0.query matches HighLevelQuery::SelectPlaylist(q) && q.name == self.list@[p as int].name
                    && q.id == self.list@[p as int].id),
                None => r is None,
            },
    {
        match cursor {
            Some(pos) => {
                let mut dest: Vec<CompID> = Vec::new();
                dest.push(CompID::PlaylistQueue);
                let q = ToQueryWorker::new(
                    ticket,
                    dest,
                    HighLevelQuery::SelectPlaylist(GetPlaylistParams {
                        name: self.list[pos].name.clone(),
                        id: self.list[pos].id.clone(),
                    }),
                );
                Some((q, self.autofocus))
            },
            None => None,
        }
    }

    /// Asks for the playlist at the cursor, under `ticket`, to queue it at `ql` (shuffled when
    /// `randomise`) once it arrives.
    pub fn add_to_queue(&mut self, cursor: Option<usize>, ql: QueueLocation, randomise: bool, ticket: usize) -> (r: Option<ToQueryWorker>)
        requires
            cursor matches Some(p) ==> p < old(self).list@.len(),
        ensures
            final(self).list == old(self).list,
            final(self).rows == old(self).rows,
            final(self).autofocus == old(self).autofocus,
            match cursor {
                Some(p) => {
                    &&& r matches Some(q) && q.ticket == ticket && (q.query matches HighLevelQuery::AddPlaylistToQueue(g)
                        && g.name == old(self).list@[p as int].name && g.id == old(self).list@[p as int].id)
                    &&& final(self).callback@ == old(self).callback@.insert(ticket, (old(self).list@[p as int].id, ql, randomise))
                },
                None => r is None && final(self).callback@ == old(self).callback@,
            },
    {
        match cursor {
            Some(pos) => {
                let key = self.list[pos].id.clone();
                let name = self.list[pos].name.clone();
                let mut dest: Vec<CompID> = Vec::new();
                dest.push(CompID::PlaylistList);
                let req = ToQueryWorker::new(
                    ticket,
                    dest,
                    HighLevelQuery::AddPlaylistToQueue(GetPlaylistParams { name, id: key.clone() }),
                );
                self.callback.insert(req.ticket, (key, ql, randomise));
                Some(req)
            },
            None => None,
        }
    }

    /// Takes a playlist that arrived for the request `ticket`: when a queue request awaits it,
    /// that request is settled (and forgotten) and the playlist's entries are queued, unless it
    /// failed or is empty.
    pub fn handle_query(&mut self, ticket: usize, res: GetPlaylistResponse) -> (r: Option<QueueAction>)
        ensures
            final(self).callback@ == old(self).callback@.remove(ticket),
            final(self).list == old(self).list,
            final(self).rows == old(self).rows,
            old(self).callback@.contains_key(ticket) ==> queue_request(old(self).callback@[ticket], res, r),
            !old(self).callback@.contains_key(ticket) ==> r is None,
    {
        if let Some(cb) = self.callback.remove(&ticket) {
            match res {
                GetPlaylistResponse::Success { id: _, name: _, entry } => {
                    return Some(if cb.2 { QueueAction::RandomAdd(entry, cb.1) } else { QueueAction::Add(entry, cb.1) });
                },
                _ => {
                    return None;
                },
            }
        }
        None
    }

    /// The playlist at the cursor, to show its details.
    pub fn view_info(&self, cursor: Option<usize>) -> (r: Option<SimplePlaylist>)
        requires
            cursor matches Some(p) ==> p < self.list@.len(),
        ensures
            match cursor {
                Some(p) => r == Some(self.list@[p as int]),
                None => r is None,
            },
    {
        match cursor {
            Some(pos) => Some(self.list[pos].clone_playlist()),
            None => None,
        }
    }
}

/// Each queue request is settled at most once: once the playlist for a ticket was taken, a
/// second arrival for that ticket queues nothing.
pub proof fn lemma_settled_once(callbacks: Map<usize, Callback>, ticket: usize)
    ensures
        !callbacks.remove(ticket).contains_key(ticket),
{
}

} // verus!
