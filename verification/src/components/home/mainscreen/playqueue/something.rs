//! The play queue when it holds items: the list, the play cursor and the rows shown for them.
use vstd::prelude::*;

use crate::action::action::QueueAction;
use crate::action::localaction::PlayQueueAction;
use crate::action::Selection;
use crate::media::{
    apply_star_requests, fav_marker, set_star_in, stars_applied, starred_in, toggle_requests,
    toggle_requests_of, Media, MediaID, QueueLocation,
};
use crate::random::shuffle;
use crate::selection::{kept, kept_range, lemma_kept_prefix, lemma_kept_range_bounded, lemma_kept_skips_selected, lemma_moved_position, lemma_nothing_kept_before, moved_position, selects, ModifiableList};

verus! {

/// Where the play cursor (▶) is.
#[derive(Clone, Copy, Debug, PartialEq, Eq, Structural)]
pub enum CurrentItem {
    /// Before the whole list: nothing in the queue has been played yet.
    BeforeFirst,
    /// After the whole list: everything has been played.
    AfterLast,
    /// The item being played was deleted; the index is the last item already played.
    /// Skipping forward behaves normally; skipping backward plays the item at the index.
    NotInQueue(usize),
    /// The play cursor is at the item of the index.
    InQueue(usize),
}

/// What the queue asks of the player after a change of the play cursor.
#[derive(Clone, Debug)]
pub enum QueueCommand {
    /// Play this item.
    Play(Media),
    /// Stop playing.
    Stop,
}

/// A skip by `skip_by` from `now` in a list of `len` items stays within 32-bit positions: the
/// list's length does, and so does the position the skip computes.
pub open spec fn skip_fits(now: CurrentItem, skip_by: int, len: int) -> bool {
    &&& len <= i32::MAX
    &&& i32::MIN <= skip_by <= i32::MAX
    &&& match now {
        CurrentItem::BeforeFirst => skip_by > i32::MIN,
        CurrentItem::AfterLast => len + skip_by <= i32::MAX,
        CurrentItem::InQueue(i) => i + skip_by <= i32::MAX,
        CurrentItem::NotInQueue(i) => skip_by > 0 ==> i + skip_by <= i32::MAX,
    }
}

/// What a key action of the queue asks of the rest of the program.
pub enum LocalOutcome {
    /// Nothing.
    Done,
    /// These star requests for the server, in order.
    Stars(Vec<(MediaID, bool)>),
    /// This command for the player.
    Player(QueueCommand),
}

/// One row of the queue table.
#[derive(Clone, Debug)]
pub struct QueueRow {
    /// The play cursor mark: "▶" at the item being played, "▷" at the last played item when the
    /// played one was deleted, a blank otherwise.
    pub cursor: String,
    pub title: String,
    pub marker: String,
    /// Shown in the colour of played items.
    pub played: bool,
    /// Shown in bold (the row of the play cursor).
    pub bold: bool,
}

/// The play cursor refers to an item of a list of length `len`.
pub open spec fn cursor_fits(now: CurrentItem, len: int) -> bool {
    match now {
        CurrentItem::InQueue(i) => i < len,
        CurrentItem::NotInQueue(i) => i < len,
        _ => true,
    }
}

/// The cursor mark of row `i`.
pub open spec fn cursor_at(now: CurrentItem, i: int) -> Seq<char> {
    match now {
        CurrentItem::InQueue(j) => if i == j { "▶"@ } else { " "@ },
        CurrentItem::NotInQueue(j) => if i == j { "▷"@ } else { " "@ },
        _ => " "@,
    }
}

/// Row `i` is shown as played.
pub open spec fn played_at(now: CurrentItem, i: int) -> bool {
    match now {
        CurrentItem::BeforeFirst => false,
        CurrentItem::AfterLast => true,
        CurrentItem::InQueue(j) => i < j,
        CurrentItem::NotInQueue(j) => i <= j,
    }
}

/// Row `i` is shown in bold.
pub open spec fn bold_at(now: CurrentItem, i: int) -> bool {
    match now {
        CurrentItem::InQueue(j) => i == j,
        CurrentItem::NotInQueue(j) => i == j,
        _ => false,
    }
}

/// `rows` are the rows of `items` with the play cursor at `now`.
pub open spec fn rows_of(rows: Seq<QueueRow>, items: Seq<Media>, now: CurrentItem) -> bool {
    &&& rows.len() == items.len()
    &&& forall|i: int|
        0 <= i < rows.len() ==> {
            &&& (#[trigger] rows[i]).cursor@ == cursor_at(now, i)
            &&& rows[i].title@ == items[i].title@
            &&& rows[i].marker@ == fav_marker(items[i])
            &&& rows[i].played == played_at(now, i)
            &&& rows[i].bold == bold_at(now, i)
        }
}

/// The position a skip of `skip_by` items lands on, from `index`, in a list of `max_len` items.
pub open spec fn clean(index: int, max_len: int) -> CurrentItem {
    if index >= 0 {
        if index >= max_len {
            CurrentItem::AfterLast
        } else {
            CurrentItem::InQueue(index as usize)
        }
    } else {
        CurrentItem::BeforeFirst
    }
}

/// Where skipping by `skip_by` items moves the play cursor from `now`.
pub open spec fn skip_target(now: CurrentItem, skip_by: int, len: int) -> CurrentItem {
    match now {
        CurrentItem::BeforeFirst => clean(skip_by - 1, len),
        CurrentItem::AfterLast => clean(len + skip_by, len),
        CurrentItem::InQueue(i) => clean(i + skip_by, len),
        CurrentItem::NotInQueue(i) => if skip_by <= 0 {
            clean(i + skip_by + 1, len)
        } else {
            clean(i + skip_by, len)
        },
    }
}

/// The play cursor after jumping to `to`.
pub open spec fn jump_target(to: CurrentItem) -> CurrentItem {
    match to {
        CurrentItem::NotInQueue(i) => CurrentItem::InQueue((i + 1) as usize),
        _ => to,
    }
}

/// The item played after jumping to `to` in `list`, if any (none means the player stops).
pub open spec fn jump_plays(to: CurrentItem, list: Seq<Media>) -> Option<Media> {
    match to {
        CurrentItem::NotInQueue(i) => if i + 1 < list.len() { Some(list[i + 1]) } else { None },
        CurrentItem::InQueue(i) => if i < list.len() { Some(list[i as int]) } else { None },
        _ => None,
    }
}

/// The command matches the item that is to be played.
pub open spec fn command_is(cmd: QueueCommand, plays: Option<Media>) -> bool {
    match cmd {
        QueueCommand::Play(m) => plays == Some(m),
        QueueCommand::Stop => plays is None,
    }
}

/// The position at which items queued at `at` are inserted.
pub open spec fn insert_position(now: CurrentItem, at: QueueLocation, len: int) -> int {
    match at {
        QueueLocation::Front => match now {
            CurrentItem::BeforeFirst => 0,
            CurrentItem::AfterLast => len,
            CurrentItem::InQueue(i) => i as int,
            CurrentItem::NotInQueue(i) => i + 1,
        },
        QueueLocation::Next => match now {
            CurrentItem::BeforeFirst => 0,
            CurrentItem::AfterLast => len,
            CurrentItem::InQueue(i) => i + 1,
            CurrentItem::NotInQueue(i) => i + 1,
        },
        QueueLocation::Last => len,
    }
}

/// Queuing `added` items at `at` would leave the play cursor past the end of the list: the one
/// case the queue does not handle (an empty addition at the front after the last item, played
/// and deleted).
/// Where the play cursor goes when `added` items are queued at the front of a list of length
/// `len` whose cursor is at `now`: onto the first queued item, which plays at once; with no
/// items, the cursor moves as a jump to `now` would.
pub open spec fn front_target(now: CurrentItem, len: int, added: int) -> CurrentItem {
    if added > 0 {
        CurrentItem::InQueue(insert_position(now, QueueLocation::Front, len) as usize)
    } else {
        jump_target(now)
    }
}

pub open spec fn add_overflows(now: CurrentItem, at: QueueLocation, len: int, added: int) -> bool {
    &&& at == QueueLocation::Front
    &&& now matches CurrentItem::NotInQueue(i)
    &&& i + 1 >= len + added
}

/// The play cursor after deleting `sel`, given where the cursor's item moves.
pub open spec fn cursor_after_delete(list: Seq<Media>, sel: Selection, now: CurrentItem) -> CurrentItem {
    match now {
        CurrentItem::InQueue(idx) => match moved_position(list, sel, idx as int) {
            Some((n, deleted)) => if deleted {
                CurrentItem::NotInQueue(n)
            } else {
                CurrentItem::InQueue(n)
            },
            None => CurrentItem::BeforeFirst,
        },
        CurrentItem::NotInQueue(idx) => match moved_position(list, sel, idx as int) {
            Some((n, _)) => CurrentItem::NotInQueue(n),
            None => CurrentItem::BeforeFirst,
        },
        _ => now,
    }
}

/// The play queue with items in it.
pub struct Something {
    pub list: ModifiableList<Media>,
    pub now_playing: CurrentItem,
    /// The rows of the table, one per item.
    pub rows: Vec<QueueRow>,
    pub enabled: bool,
}

/// `after` is the queue `before` once `action` was carried out, answering `cmd`: the items are
/// inserted where `insert_position` says, in their order for `Add` and in some order for
/// `RandomAdd`; queuing at the front also moves the play cursor to the first of them.
pub open spec fn queued(before: Something, after: Something, action: QueueAction, cmd: Option<QueueCommand>) -> bool {
    let (items, at) = match action {
        QueueAction::Add(items, at) => (items, at),
        QueueAction::RandomAdd(items, at) => (items, at),
    };
    let pos = insert_position(before.now_playing, at, before.list.0@.len() as int);
    let old_list = before.list.0@;
    let new_list = after.list.0@;
    &&& after.enabled == before.enabled
    &&& new_list.len() == old_list.len() + items@.len()
    &&& new_list.subrange(0, pos) == old_list.subrange(0, pos)
    &&& new_list.subrange(pos + items@.len(), new_list.len() as int) == old_list.subrange(pos, old_list.len() as int)
    &&& action is Add ==> new_list.subrange(pos, pos + items@.len()) == items@
    &&& new_list.subrange(pos, pos + items@.len()).to_multiset() == items@.to_multiset()
    &&& at == QueueLocation::Front ==> {
        &&& after.now_playing == front_target(before.now_playing, old_list.len() as int, items@.len() as int)
        &&& cmd matches Some(c) && command_is(c, jump_plays(after.now_playing, new_list))
    }
    &&& at != QueueLocation::Front ==> cmd is None && after.now_playing == before.now_playing
}

/// One row with the given cursor mark and styles.
fn make_row(m: &Media, cursor: &str, played: bool, bold: bool) -> (r: QueueRow)
    ensures
        r.cursor@ == cursor@,
        r.title@ == m.title@,
        r.marker@ == fav_marker(*m),
        r.played == played,
        r.bold == bold,
{
    QueueRow { cursor: String::from_str(cursor), title: m.title.clone(), marker: m.get_fav_marker(), played, bold }
}

impl Something {
    /// The queue is consistent: the cursor refers to an item, and the rows show the items.
    pub open spec fn wf(&self) -> bool {
        &&& cursor_fits(self.now_playing, self.list.0@.len() as int)
        &&& rows_of(self.rows@, self.list.0@, self.now_playing)
    }

    /// Starts a queue with `list`, playing its first item.
    pub fn new(enabled: bool, list: Vec<Media>) -> (r: (Self, QueueCommand))
        requires
            list.len() > 0,
        ensures
            r.0.wf(),
            r.0.list.0@ == list@,
            r.0.now_playing == CurrentItem::InQueue(0),
            r.0.enabled == enabled,
            r.1 == QueueCommand::Play(list@[0]),
    {
        let first = list[0].clone_media();
        let rows = Self::gen_rows_from(&list, &CurrentItem::InQueue(0));
        (
            Self {
                list: ModifiableList::new(list),
                now_playing: CurrentItem::InQueue(0),
                rows,
                enabled,
            },
            QueueCommand::Play(first),
        )
    }

    /// The rows of `items` with the play cursor at `now_playing`.
    pub fn gen_rows_from(items: &Vec<Media>, now_playing: &CurrentItem) -> (rows: Vec<QueueRow>)
        requires
            items.len() == 0 || cursor_fits(*now_playing, items.len() as int),
        ensures
            rows_of(rows@, items@, *now_playing),
    {
        let len = items.len();
        let mut rows: Vec<QueueRow> = Vec::new();
        let mut i: usize = 0;
        while i < len
            invariant
                len == items.len(),
                i <= len,
                rows@.len() == i,
                forall|k: int|
                    0 <= k < i ==> {
                        &&& (#[trigger] rows@[k]).cursor@ == cursor_at(*now_playing, k)
                        &&& rows@[k].title@ == items@[k].title@
                        &&& rows@[k].marker@ == fav_marker(items@[k])
                        &&& rows@[k].played == played_at(*now_playing, k)
                        &&& rows@[k].bold == bold_at(*now_playing, k)
                    },
            decreases len - i,
        {
            let row = match now_playing {
                CurrentItem::BeforeFirst => make_row(&items[i], " ", false, false),
                CurrentItem::AfterLast => make_row(&items[i], " ", true, false),
                CurrentItem::InQueue(j) => if i == *j {
                    make_row(&items[i], "▶", false, true)
                } else {
                    make_row(&items[i], " ", i < *j, false)
                },
                CurrentItem::NotInQueue(j) => if i == *j {
                    make_row(&items[i], "▷", true, true)
                } else {
                    make_row(&items[i], " ", i < *j, false)
                },
            };
            rows.push(row);
            i = i + 1;
        }
        rows
    }

    /// Recomputes every row from the list and the play cursor.
    fn regen_rows(&mut self)
        requires
            cursor_fits(old(self).now_playing, old(self).list.0@.len() as int),
        ensures
            final(self).wf(),
            final(self).list == old(self).list,
            final(self).now_playing == old(self).now_playing,
            final(self).enabled == old(self).enabled,
    {
        self.rows = Self::gen_rows_from(&self.list.0, &self.now_playing);
    }

    /// Moves the play cursor to `to` and says what the player must do.
    fn skip_to(&mut self, to: CurrentItem) -> (cmd: QueueCommand)
        requires
            cursor_fits(jump_target(to), old(self).list.0@.len() as int),
            to matches CurrentItem::NotInQueue(i) ==> i + 1 <= usize::MAX,
        ensures
            final(self).wf(),
            final(self).list == old(self).list,
            final(self).enabled == old(self).enabled,
            final(self).now_playing == jump_target(to),
            command_is(cmd, jump_plays(to, old(self).list.0@)),
    {
        let cmd = match to {
            CurrentItem::NotInQueue(idx) => {
                self.now_playing = CurrentItem::InQueue(idx + 1);
                if idx + 1 < self.list.0.len() {
                    QueueCommand::Play(self.list.0[idx + 1].clone_media())
                } else {
                    QueueCommand::Stop
                }
            },
            CurrentItem::InQueue(idx) => {
                self.now_playing = CurrentItem::InQueue(idx);
                if idx < self.list.0.len() {
                    QueueCommand::Play(self.list.0[idx].clone_media())
                } else {
                    QueueCommand::Stop
                }
            },
            _ => {
                self.now_playing = to;
                QueueCommand::Stop
            },
        };
        self.regen_rows();
        cmd
    }

    /// Moves the play cursor by `skip_by` items (forward when positive) and says what the
    /// player must do.
    pub fn skip(&mut self, skip_by: i32) -> (cmd: QueueCommand)
        requires
            old(self).wf(),
            skip_fits(old(self).now_playing, skip_by as int, old(self).list.0@.len() as int),
        ensures
            final(self).wf(),
            final(self).list == old(self).list,
            final(self).enabled == old(self).enabled,
            final(self).now_playing == skip_target(
                old(self).now_playing,
                skip_by as int,
                old(self).list.0@.len() as int,
            ),
            command_is(cmd, jump_plays(final(self).now_playing, old(self).list.0@)),
    {
        let max_len: i64 = self.list.0.len() as i64;
        let by: i64 = skip_by as i64;
        let index: i64 = match self.now_playing {
            CurrentItem::BeforeFirst => by - 1,
            CurrentItem::AfterLast => max_len + by,
            CurrentItem::InQueue(i) => i as i64 + by,
            CurrentItem::NotInQueue(i) => if by <= 0 {
                i as i64 + by + 1
            } else {
                i as i64 + by
            },
        };
        let ci = if index >= 0 {
            if index >= max_len {
                CurrentItem::AfterLast
            } else {
                CurrentItem::InQueue(index as usize)
            }
        } else {
            CurrentItem::BeforeFirst
        };
        self.skip_to(ci)
    }

    /// Plays the item at `idx`.
    pub fn play_selected(&mut self, idx: usize) -> (cmd: QueueCommand)
        requires
            old(self).wf(),
            idx < old(self).list.0@.len(),
        ensures
            final(self).wf(),
            final(self).list == old(self).list,
            final(self).now_playing == CurrentItem::InQueue(idx),
            final(self).enabled == old(self).enabled,
            cmd == QueueCommand::Play(old(self).list.0@[idx as int]),
    {
        self.skip_to(CurrentItem::InQueue(idx))
    }

    /// Inserts `items` at the place `at` designates; queuing at the front also plays the first
    /// of them, by jumping the play cursor to the place it is at.
    pub fn add_to_queue(&mut self, items: Vec<Media>, at: QueueLocation) -> (cmd: Option<QueueCommand>)
        requires
            old(self).wf(),
            old(self).list.0@.len() + items@.len() <= usize::MAX,
            !add_overflows(old(self).now_playing, at, old(self).list.0@.len() as int, items@.len() as int),
        ensures
            final(self).wf(),
            ({
                let pos = insert_position(old(self).now_playing, at, old(self).list.0@.len() as int);
                final(self).list.0@ == old(self).list.0@.subrange(0, pos) + items@
                    + old(self).list.0@.subrange(pos, old(self).list.0@.len() as int)
            }),
            at == QueueLocation::Front ==> {
                &&& final(self).now_playing == front_target(old(self).now_playing, old(self).list.0@.len() as int, items@.len() as int)
                &&& cmd matches Some(c) && command_is(c, jump_plays(final(self).now_playing, final(self).list.0@))
            },
            at != QueueLocation::Front ==> cmd is None && final(self).now_playing == old(self).now_playing,
            final(self).enabled == old(self).enabled,
    {
        let max = self.list.0.len();
        let idx = match at {
            QueueLocation::Front => match self.now_playing {
                CurrentItem::BeforeFirst => 0,
                CurrentItem::AfterLast => max,
                CurrentItem::InQueue(idx) => idx,
                CurrentItem::NotInQueue(idx) => idx + 1,
            },
            QueueLocation::Next => match self.now_playing {
                CurrentItem::BeforeFirst => 0,
                CurrentItem::AfterLast => max,
                CurrentItem::InQueue(idx) => idx + 1,
                CurrentItem::NotInQueue(idx) => idx + 1,
            },
            QueueLocation::Last => max,
        };
        let added = items.len();
        self.list.add_rows_at(items, idx);
        let now = self.now_playing;
        if at == QueueLocation::Front {
            let target = if added > 0 { CurrentItem::InQueue(idx) } else { now };
            Some(self.skip_to(target))
        } else {
            self.regen_rows();
            None
        }
    }

    /// Deletes the selected items, keeping the play cursor on the item it was at, or on the
    /// last remaining item played before it when that item is deleted.
    pub fn delete(&mut self, sel: &Selection)
        requires
            old(self).wf(),
        ensures
            final(self).wf(),
            final(self).list.0@ == kept(old(self).list.0@, *sel),
            final(self).now_playing == cursor_after_delete(old(self).list.0@, *sel, old(self).now_playing),
            final(self).enabled == old(self).enabled,
    {
        let ghost old_list = self.list.0@;
        let len = self.list.0.len();
        assert(old_list.len() == len);
        match self.now_playing {
            CurrentItem::InQueue(idx) => {
                proof { lemma_moved_position(old_list, *sel, idx as int); }
                if let Some((newidx, deleted)) = self.list.move_item_to(sel, idx) {
                    self.now_playing = if deleted {
                        CurrentItem::NotInQueue(newidx)
                    } else {
                        CurrentItem::InQueue(newidx)
                    };
                } else {
                    self.now_playing = CurrentItem::BeforeFirst;
                }
            },
            CurrentItem::NotInQueue(idx) => {
                proof { lemma_moved_position(old_list, *sel, idx as int); }
                if let Some((newidx, _)) = self.list.move_item_to(sel, idx) {
                    self.now_playing = CurrentItem::NotInQueue(newidx)
                } else {
                    self.now_playing = CurrentItem::BeforeFirst;
                }
            },
            _ => (),
        }
        self.list.delete(sel);
        self.regen_rows();
    }

    /// Shows the panel as focused or not.
    pub fn set_enabled(&mut self, enable: bool)
        ensures
            final(self).enabled == enable,
            final(self).list == old(self).list,
            final(self).now_playing == old(self).now_playing,
            final(self).rows == old(self).rows,
    {
        self.enabled = enable;
    }

    /// Sets or clears the starred marker of every queued item whose identifier is `media`.
    pub fn set_star(&mut self, media: &MediaID, star: bool)
        requires
            old(self).wf(),
        ensures
            final(self).wf(),
            final(self).now_playing == old(self).now_playing,
            final(self).enabled == old(self).enabled,
            starred_in(old(self).list.0@, final(self).list.0@, media@, star),
    {
        set_star_in(&mut self.list.0, media, star);
        self.regen_rows();
    }

    /// Toggles the starred marker of the selected items: each selected item that is not
    /// starred becomes starred and the others unstarred, requests being applied in list order.
    /// Returns the requests, for the server.
    pub fn toggle_star(&mut self, sel: &Selection) -> (reqs: Vec<(MediaID, bool)>)
        requires
            old(self).wf(),
            sel matches Selection::Single(i) ==> i < old(self).list.0@.len(),
            sel matches Selection::Range(s, e) ==> s <= e + 1 && e < old(self).list.0@.len(),
        ensures
            final(self).wf(),
            final(self).now_playing == old(self).now_playing,
            final(self).enabled == old(self).enabled,
            reqs@ == toggle_requests_of(old(self).list.0@, *sel, old(self).list.0@.len() as int),
            stars_applied(old(self).list.0@, final(self).list.0@, reqs@),
    {
        let reqs = toggle_requests(&self.list.0, sel);
        apply_star_requests(&mut self.list.0, &reqs);
        self.regen_rows();
        reqs
    }

    /// Carries out a key action of the queue on the selection `sel` (`None` when nothing is
    /// selected) or on the row under the table cursor, `cursor`.
    pub fn handle_local_action(&mut self, action: PlayQueueAction, sel: Option<Selection>, cursor: Option<usize>) -> (r: LocalOutcome)
        requires
            old(self).wf(),
            action is ToggleStar ==> (sel matches Some(Selection::Single(i)) ==> i < old(self).list.0@.len()),
            action is ToggleStar ==> (sel matches Some(Selection::Range(s, e)) ==> s <= e + 1 && e < old(self).list.0@.len()),
            action is PlaySelected ==> (cursor matches Some(i) ==> i < old(self).list.0@.len()),
        ensures
            final(self).wf(),
            final(self).enabled == old(self).enabled,
            match action {
                PlayQueueAction::Delete => r is Done && match sel {
                    None => *final(self) == *old(self),
                    Some(s) => final(self).list.0@ == kept(old(self).list.0@, s)
                        && final(self).now_playing == cursor_after_delete(old(self).list.0@, s, old(self).now_playing),
                },
                PlayQueueAction::ToggleStar => r matches LocalOutcome::Stars(reqs) && match sel {
                    None => reqs@.len() == 0 && *final(self) == *old(self),
                    Some(s) => reqs@ == toggle_requests_of(old(self).list.0@, s, old(self).list.0@.len() as int)
                        && stars_applied(old(self).list.0@, final(self).list.0@, reqs@)
                        && final(self).now_playing == old(self).now_playing,
                },
                PlayQueueAction::PlaySelected => match cursor {
                    None => r is Done && *final(self) == *old(self),
                    Some(i) => r == LocalOutcome::Player(QueueCommand::Play(old(self).list.0@[i as int]))
                        && final(self).list == old(self).list && final(self).now_playing == CurrentItem::InQueue(i),
                },
            },
    {
        match action {
            PlayQueueAction::Delete => {
                if let Some(s) = sel {
                    self.delete(&s);
                }
                LocalOutcome::Done
            },
            PlayQueueAction::ToggleStar => match sel {
                Some(s) => LocalOutcome::Stars(self.toggle_star(&s)),
                None => LocalOutcome::Stars(Vec::new()),
            },
            PlayQueueAction::PlaySelected => match cursor {
                Some(i) => LocalOutcome::Player(self.play_selected(i)),
                None => LocalOutcome::Done,
            },
        }
    }

    /// Carries out a queue request: the items are inserted in their order, or shuffled first.
    pub fn handle_queue_action(&mut self, action: QueueAction) -> (cmd: Option<QueueCommand>)
        requires
            old(self).wf(),
            ({
                let (items, at) = match action {
                    QueueAction::Add(items, at) => (items, at),
                    QueueAction::RandomAdd(items, at) => (items, at),
                };
                &&& old(self).list.0@.len() + items@.len() <= usize::MAX
                &&& !add_overflows(old(self).now_playing, at, old(self).list.0@.len() as int, items@.len() as int)
            }),
        ensures
            final(self).wf(),
            queued(*old(self), *final(self), action, cmd),
    {
        let ghost old_list = self.list.0@;
        let ghost pos;
        match action {
            QueueAction::Add(items, at) => {
                proof { pos = insert_position(self.now_playing, at, old_list.len() as int); }
                let ghost it = items@;
                let r = self.add_to_queue(items, at);
                assert(self.list.0@.subrange(0, pos) =~= old_list.subrange(0, pos));
                assert(self.list.0@.subrange(pos, pos + it.len()) =~= it);
                assert(self.list.0@.subrange(pos + it.len(), self.list.0@.len() as int) =~= old_list.subrange(pos, old_list.len() as int));
                r
            },
            QueueAction::RandomAdd(items, at) => {
                proof { pos = insert_position(self.now_playing, at, old_list.len() as int); }
                let ghost orig_items = items@;
                let items = shuffle(items);
                proof { orig_items.to_multiset_ensures(); items@.to_multiset_ensures(); }
                assert(items@.len() == orig_items.len());
                let ghost it = items@;
                let r = self.add_to_queue(items, at);
                assert(self.list.0@.subrange(0, pos) =~= old_list.subrange(0, pos));
                assert(self.list.0@.subrange(pos, pos + it.len()) =~= it);
                assert(self.list.0@.subrange(pos + it.len(), self.list.0@.len() as int) =~= old_list.subrange(pos, old_list.len() as int));
                r
            },
        }
    }
}

/// Deleting a selection that holds the item being played marks the last item kept before it
/// as the last one played: the cursor goes just after that item, at its place in the new
/// list, whatever the kind of selection.
pub proof fn lemma_delete_playing_marks_last_kept(list: Seq<Media>, sel: Selection, idx: usize, j: int)
    requires
        idx < list.len() <= usize::MAX,
        selects(sel, idx as int),
        0 <= j < idx,
        !selects(sel, j),
        forall|m: int| j < m < idx ==> selects(sel, m),
    ensures
        cursor_after_delete(list, sel, CurrentItem::InQueue(idx)) matches CurrentItem::NotInQueue(k)
            && k < kept(list, sel).len() && kept(list, sel)[k as int] == list[j]
            && k == kept_range(list, sel, 0, j).len(),
{
    lemma_kept_skips_selected(list, sel, j + 1, idx as int);
    let a = kept_range(list, sel, 0, j);
    let b = kept_range(list, sel, 0, j + 1);
    assert(b == a.push(list[j]));
    lemma_kept_prefix(list, sel, j + 1, list.len() as int);
    lemma_kept_range_bounded(list, sel, 0, j);
    let all = kept(list, sel);
    assert(kept_range(list, sel, 0, idx as int).len() == a.len() + 1);
    assert(all.subrange(0, b.len() as int)[a.len() as int] == b[a.len() as int]);
    assert(moved_position(list, sel, idx as int) == Some(((a.len()) as usize, true)));
}

/// After the item being played was deleted, a further deletion keeps the mark on the last
/// item kept at or before the marked one: the cursor stays just after it, at its place in the
/// new list.
pub proof fn lemma_delete_keeps_last_played(list: Seq<Media>, sel: Selection, idx: usize, j: int)
    requires
        idx < list.len() <= usize::MAX,
        0 <= j <= idx,
        !selects(sel, j),
        forall|m: int| j < m <= idx ==> selects(sel, m),
    ensures
        cursor_after_delete(list, sel, CurrentItem::NotInQueue(idx)) matches CurrentItem::NotInQueue(k)
            && k < kept(list, sel).len() && kept(list, sel)[k as int] == list[j]
            && k == kept_range(list, sel, 0, j).len(),
{
    let a = kept_range(list, sel, 0, j);
    let b = kept_range(list, sel, 0, j + 1);
    assert(b == a.push(list[j]));
    lemma_kept_prefix(list, sel, j + 1, list.len() as int);
    lemma_kept_range_bounded(list, sel, 0, j);
    let all = kept(list, sel);
    assert(all.subrange(0, b.len() as int)[a.len() as int] == b[a.len() as int]);
    if j < idx {
        lemma_kept_skips_selected(list, sel, j + 1, idx as int);
        assert(kept_range(list, sel, 0, idx as int).len() == a.len() + 1);
        assert(moved_position(list, sel, idx as int) == Some(((a.len()) as usize, true)));
    } else {
        assert(moved_position(list, sel, idx as int) == Some(((a.len()) as usize, false)));
    }
}

/// Deleting a selection that holds the item being played and every item before it leaves
/// nothing played: the cursor goes before the first item.
pub proof fn lemma_delete_playing_and_all_before(list: Seq<Media>, sel: Selection, idx: usize)
    requires
        idx < list.len() <= usize::MAX,
        forall|m: int| 0 <= m <= idx ==> selects(sel, m),
    ensures
        cursor_after_delete(list, sel, CurrentItem::InQueue(idx)) == CurrentItem::BeforeFirst,
{
    lemma_nothing_kept_before(list, sel, idx as int);
}

/// Where queued items go, as the rows show the queue before: queued next, after every item
/// played or playing and before every other; queued at the front, after the played items and
/// before the rest, the one playing included; queued last, after every item.
pub proof fn lemma_insert_after_played(s: Something)
    requires
        s.wf(),
    ensures
        ({
            let len = s.list.0@.len() as int;
            let p = insert_position(s.now_playing, QueueLocation::Next, len);
            &&& 0 <= p <= len
            &&& forall|i: int| 0 <= i < p ==> (#[trigger] s.rows@[i]).played || s.rows@[i].bold
            &&& forall|i: int| p <= i < len ==> !(#[trigger] s.rows@[i]).played && !s.rows@[i].bold
        }),
        ({
            let len = s.list.0@.len() as int;
            let p = insert_position(s.now_playing, QueueLocation::Front, len);
            &&& 0 <= p <= len
            &&& forall|i: int| 0 <= i < p ==> (#[trigger] s.rows@[i]).played
            &&& forall|i: int| p <= i < len ==> !(#[trigger] s.rows@[i]).played
        }),
        insert_position(s.now_playing, QueueLocation::Last, s.list.0@.len() as int) == s.list.0@.len(),
{
}

/// Skipping by `s` from the item at `i` of a list of `n` items lands on the item `i + s` when
/// there is one, after the last item past the end, and before the first before the start;
/// one forward from before the first item lands on the first, one back from after the last on
/// the last.
pub proof fn lemma_skip_positions(i: usize, s: int, n: int)
    requires
        0 <= i < n,
    ensures
        0 <= i + s < n ==> skip_target(CurrentItem::InQueue(i), s, n) == CurrentItem::InQueue((i + s) as usize),
        i + s >= n ==> skip_target(CurrentItem::InQueue(i), s, n) == CurrentItem::AfterLast,
        i + s < 0 ==> skip_target(CurrentItem::InQueue(i), s, n) == CurrentItem::BeforeFirst,
        skip_target(CurrentItem::BeforeFirst, 1, n) == CurrentItem::InQueue(0),
        skip_target(CurrentItem::AfterLast, -1, n) == CurrentItem::InQueue((n - 1) as usize),
{
}

/// Skipping forward one item and then back one returns the play cursor to where it was, when
/// it was at an item or before the first one.
pub proof fn lemma_next_then_previous(now: CurrentItem, len: int)
    requires
        0 <= len < i32::MAX,
        now matches CurrentItem::InQueue(i) ==> i < len,
        now is InQueue || now is BeforeFirst,
    ensures
        skip_target(skip_target(now, 1, len), -1, len) == now,
{
}

/// Skipping back one item and then forward one returns the play cursor to where it was, when it
/// was at an item or after the last one.
pub proof fn lemma_previous_then_next(now: CurrentItem, len: int)
    requires
        0 <= len < i32::MAX,
        now matches CurrentItem::InQueue(i) ==> i < len,
        now is InQueue || now is AfterLast,
    ensures
        skip_target(skip_target(now, -1, len), 1, len) == now,
{
}

/// Deleting a selection that leaves the item being played keeps the play cursor on that item.
pub proof fn lemma_delete_keeps_playing(list: Seq<Media>, sel: Selection, idx: usize)
    requires
        idx < list.len() <= usize::MAX,
        !selects(sel, idx as int),
    ensures
        cursor_after_delete(list, sel, CurrentItem::InQueue(idx)) matches CurrentItem::InQueue(n)
            && n < kept(list, sel).len() && kept(list, sel)[n as int] == list[idx as int],
{
    lemma_moved_position(list, sel, idx as int);
}

/// Queuing items next or last leaves the item being played in its place.
pub proof fn lemma_queue_later_keeps_playing(
    list: Seq<Media>,
    items: Seq<Media>,
    i: usize,
    at: QueueLocation,
)
    requires
        i < list.len(),
        at != QueueLocation::Front,
    ensures
        ({
            let pos = insert_position(CurrentItem::InQueue(i), at, list.len() as int);
            let new_list = list.subrange(0, pos) + items + list.subrange(pos, list.len() as int);
            new_list[i as int] == list[i as int]
        }),
{
}

/// Queuing items at the front plays the first queued item at once, wherever the play cursor
/// was.
pub proof fn lemma_front_plays_first_added(list: Seq<Media>, items: Seq<Media>, now: CurrentItem)
    requires
        items.len() > 0,
        cursor_fits(now, list.len() as int),
        list.len() + items.len() <= usize::MAX,
    ensures
        ({
            let pos = insert_position(now, QueueLocation::Front, list.len() as int);
            let new_list = list.subrange(0, pos) + items + list.subrange(pos, list.len() as int);
            &&& front_target(now, list.len() as int, items.len() as int) == CurrentItem::InQueue(pos as usize)
            &&& jump_plays(front_target(now, list.len() as int, items.len() as int), new_list) == Some(items[0])
        }),
{
    let pos = insert_position(now, QueueLocation::Front, list.len() as int);
    let new_list = list.subrange(0, pos) + items + list.subrange(pos, list.len() as int);
    assert(new_list[pos] == items[0]);
}

/// After the item being played was deleted, skipping forward plays the item after the last one
/// played, and skipping backward plays that last played item.
pub proof fn lemma_skip_after_deleted(i: usize, len: int)
    requires
        i < len < i32::MAX,
    ensures
        skip_target(CurrentItem::NotInQueue(i), -1, len) == CurrentItem::InQueue(i),
        i + 1 < len ==> skip_target(CurrentItem::NotInQueue(i), 1, len) == CurrentItem::InQueue((i + 1) as usize),
{
}

/// Queuing items next puts them right after the item being played; queuing them last puts
/// them at the end of the queue.
pub proof fn lemma_next_and_last_positions(list: Seq<Media>, items: Seq<Media>, i: usize)
    requires
        i < list.len(),
        items.len() > 0,
    ensures
        ({
            let pos = insert_position(CurrentItem::InQueue(i), QueueLocation::Next, list.len() as int);
            let new_list = list.subrange(0, pos) + items + list.subrange(pos, list.len() as int);
            new_list[i + 1] == items[0]
        }),
        ({
            let pos = insert_position(CurrentItem::InQueue(i), QueueLocation::Last, list.len() as int);
            let new_list = list.subrange(0, pos) + items + list.subrange(pos, list.len() as int);
            new_list.subrange(list.len() as int, new_list.len() as int) == items
        }),
{
    let pos = insert_position(CurrentItem::InQueue(i), QueueLocation::Last, list.len() as int);
    let new_list = list.subrange(0, pos) + items + list.subrange(pos, list.len() as int);
    assert(new_list.subrange(list.len() as int, new_list.len() as int) =~= items);
}

} // verus!
