//! The queue list with items: the list and the position of the item being played.
use vstd::prelude::*;

use crate::components::home::mainscreen::playqueue::something::QueueRow;
use crate::media::{fav_marker, Media};

verus! {

/// `rows` show `items` with the item at `index` being played: the ones before it as played,
/// the one at it marked "▶" in bold (no mark when `index` is past the end).
pub open spec fn rows_at(rows: Seq<QueueRow>, items: Seq<Media>, index: int) -> bool {
    &&& rows.len() == items.len()
    &&& forall|i: int|
        0 <= i < rows.len() ==> {
            &&& (#[trigger] rows[i]).cursor@ == (if i == index { "▶"@ } else { " "@ })
            &&& rows[i].title@ == items[i].title@
            &&& rows[i].marker@ == fav_marker(items[i])
            &&& rows[i].played == (i < index)
            &&& rows[i].bold == (i == index)
        }
}

/// The queue list with items.
pub struct Something {
    pub list: Vec<Media>,
    pub index: usize,
    pub rows: Vec<QueueRow>,
}

/// The rows of `items` with the item at `index` being played.
pub fn gen_rows(items: &Vec<Media>, index: usize) -> (rows: Vec<QueueRow>)
    requires
        index <= items@.len(),
    ensures
        rows_at(rows@, items@, index as int),
{
    let len = items.len();
    let mut rows: Vec<QueueRow> = Vec::new();
    let mut i: usize = 0;
    while i < len
        invariant
            len == items@.len(),
            i <= len,
            rows@.len() == i,
            forall|k: int|
                0 <= k < i ==> {
                    &&& (#[trigger] rows@[k]).cursor@ == (if k == index { "▶"@ } else { " "@ })
                    &&& rows@[k].title@ == items@[k].title@
                    &&& rows@[k].marker@ == fav_marker(items@[k])
                    &&& rows@[k].played == (k < index)
                    &&& rows@[k].bold == (k == index)
                },
        decreases len - i,
    {
        let cursor = if i == index { "▶" } else { " " };
        rows.push(QueueRow {
            cursor: String::from_str(cursor),
            title: items[i].title.clone(),
            marker: items[i].get_fav_marker(),
            played: i < index,
            bold: i == index,
        });
        i = i + 1;
    }
    rows
}

impl Something {
    /// The list is shown with a valid play position.
    pub open spec fn wf(&self) -> bool {
        &&& self.index <= self.list@.len()
        &&& rows_at(self.rows@, self.list@, self.index as int)
    }

    /// The list `list`, playing its first item.
    pub fn new(list: Vec<Media>) -> (r: Self)
        ensures
            r.wf(),
            r.list@ == list@,
            r.index == 0,
    {
        let rows = gen_rows(&list, 0);
        Self { list, index: 0, rows }
    }

    /// Inserts `items` before position `at`.
    pub fn add(&mut self, items: Vec<Media>, at: usize)
        requires
            old(self).wf(),
            at <= old(self).list@.len(),
            old(self).list@.len() + items@.len() <= usize::MAX,
        ensures
            final(self).wf(),
            final(self).index == old(self).index,
            final(self).list@ == old(self).list@.subrange(0, at as int) + items@ + old(self).list@.subrange(
                at as int,
                old(self).list@.len() as int,
            ),
    {
        let mut tmp: Vec<Media> = Vec::new();
        std::mem::swap(&mut tmp, &mut self.list);
        let mut m = crate::selection::ModifiableList::new(tmp);
        m.add_rows_at(items, at);
        self.list = m.0;
        self.rows = gen_rows(&self.list, self.index);
    }

    /// The item at `index` now plays.
    pub fn set_index(&mut self, index: usize)
        requires
            index <= old(self).list@.len(),
        ensures
            final(self).wf(),
            final(self).index == index,
            final(self).list == old(self).list,
    {
        self.index = index;
        self.rows = gen_rows(&self.list, self.index);
    }
}

} // verus!
