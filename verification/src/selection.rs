//! Selections over lists, and a list that can be edited through them.
use vstd::prelude::*;

use crate::action::Selection;

verus! {

/// Whether position `i` belongs to the selection.
pub open spec fn selects(sel: Selection, i: int) -> bool {
    match sel {
        Selection::Single(j) => i == j,
        Selection::Range(s, e) => s <= i <= e,
        Selection::Multiple(m) => 0 <= i < m@.len() && m@[i],
    }
}

/// Tests whether position `i` belongs to the selection.
pub fn is_selected(sel: &Selection, i: usize) -> (b: bool)
    ensures
        b == selects(*sel, i as int),
{
    match sel {
        Selection::Single(j) => i == *j,
        Selection::Range(s, e) => *s <= i && i <= *e,
        Selection::Multiple(m) => i < m.len() && m[i],
    }
}

/// The items at positions `lo..hi` of `s` that the selection leaves, in order.
pub open spec fn kept_range<T>(s: Seq<T>, sel: Selection, lo: int, hi: int) -> Seq<T>
    decreases hi - lo,
{
    if hi <= lo {
        Seq::empty()
    } else if selects(sel, hi - 1) {
        kept_range(s, sel, lo, hi - 1)
    } else {
        kept_range(s, sel, lo, hi - 1).push(s[hi - 1])
    }
}

/// The items of `s` that the selection leaves, in order.
pub open spec fn kept<T>(s: Seq<T>, sel: Selection) -> Seq<T> {
    kept_range(s, sel, 0, s.len() as int)
}

/// Where the item at `idx` ends up once the selection is deleted: its new position and
/// `false` when it stays; the position of the last remaining item before it and `true` when it
/// is deleted; nothing when it is deleted and no item before it remains.
pub open spec fn moved_position<T>(s: Seq<T>, sel: Selection, idx: int) -> Option<(usize, bool)> {
    let before = kept_range(s, sel, 0, idx).len();
    if !selects(sel, idx) {
        Some((before as usize, false))
    } else if before == 0 {
        None
    } else {
        Some(((before - 1) as usize, true))
    }
}

/// Removing the first item of a range from the front.
pub proof fn lemma_kept_range_front<T>(s: Seq<T>, sel: Selection, lo: int, hi: int)
    requires
        lo < hi,
    ensures
        kept_range(s, sel, lo, hi) == (if selects(sel, lo) {
            Seq::<T>::empty()
        } else {
            seq![s[lo]]
        }) + kept_range(s, sel, lo + 1, hi),
    decreases hi - lo,
{
    if hi == lo + 1 {
        assert(kept_range(s, sel, lo + 1, hi) =~= Seq::<T>::empty());
        assert(kept_range(s, sel, lo, lo) =~= Seq::<T>::empty());
    } else {
        lemma_kept_range_front(s, sel, lo, hi - 1);
        if selects(sel, lo) {
            assert(kept_range(s, sel, lo, hi) =~= kept_range(s, sel, lo + 1, hi));
        } else {
            assert(kept_range(s, sel, lo, hi) =~= seq![s[lo]] + kept_range(s, sel, lo + 1, hi));
        }
    }
}

/// A range's kept items depend only on the items inside the range.
pub proof fn lemma_kept_range_bounded<T>(s: Seq<T>, sel: Selection, lo: int, hi: int)
    ensures
        kept_range(s, sel, lo, hi).len() <= if hi > lo { hi - lo } else { 0 },
    decreases hi - lo,
{
    if hi > lo {
        lemma_kept_range_bounded(s, sel, lo, hi - 1);
    }
}

/// The kept items of a shorter prefix are a prefix of the kept items of a longer one.
pub proof fn lemma_kept_prefix<T>(s: Seq<T>, sel: Selection, j: int, k: int)
    requires
        0 <= j <= k,
    ensures
        kept_range(s, sel, 0, j).len() <= kept_range(s, sel, 0, k).len(),
        kept_range(s, sel, 0, k).subrange(0, kept_range(s, sel, 0, j).len() as int)
            == kept_range(s, sel, 0, j),
    decreases k - j,
{
    if j < k {
        lemma_kept_prefix(s, sel, j, k - 1);
        let a = kept_range(s, sel, 0, j);
        let b = kept_range(s, sel, 0, k - 1);
        if !selects(sel, k - 1) {
            assert(kept_range(s, sel, 0, k).subrange(0, a.len() as int) =~= b.subrange(
                0,
                a.len() as int,
            ));
        }
    } else {
        assert(kept_range(s, sel, 0, k).subrange(0, kept_range(s, sel, 0, k).len() as int)
            =~= kept_range(s, sel, 0, k));
    }
}

/// Deleting a selection moves every item that stays to the position that `moved_position`
/// gives it, and a deleted item's reported position holds the last remaining item before it.
pub proof fn lemma_moved_position<T>(s: Seq<T>, sel: Selection, idx: int)
    requires
        0 <= idx < s.len(),
        s.len() <= usize::MAX,
    ensures
        moved_position(s, sel, idx) matches Some((n, deleted)) ==> {
            &&& n < kept(s, sel).len()
            &&& deleted == selects(sel, idx)
            &&& !deleted ==> kept(s, sel)[n as int] == s[idx]
        },
        moved_position(s, sel, idx) is None ==> selects(sel, idx) && kept_range(s, sel, 0, idx).len() == 0,
{
    lemma_kept_prefix(s, sel, idx, idx + 1);
    lemma_kept_prefix(s, sel, idx + 1, s.len() as int);
    lemma_kept_range_bounded(s, sel, 0, idx);
    let a = kept_range(s, sel, 0, idx);
    let b = kept_range(s, sel, 0, idx + 1);
    let all = kept(s, sel);
    if !selects(sel, idx) {
        assert(b == a.push(s[idx]));
        assert(all.subrange(0, b.len() as int)[a.len() as int] == b[a.len() as int]);
    } else {
        assert(b == a);
    }
}

/// When every position from `j` up to `m` is selected, the items kept before `m` are those
/// kept before `j`.
pub proof fn lemma_kept_skips_selected<T>(s: Seq<T>, sel: Selection, j: int, m: int)
    requires
        0 <= j <= m,
        forall|x: int| j <= x < m ==> selects(sel, x),
    ensures
        kept_range(s, sel, 0, m) == kept_range(s, sel, 0, j),
    decreases m - j,
{
    if j < m {
        lemma_kept_skips_selected(s, sel, j, m - 1);
    }
}

/// When nothing before `idx` is kept, no item is kept before it.
pub proof fn lemma_nothing_kept_before<T>(s: Seq<T>, sel: Selection, idx: int)
    requires
        0 <= idx,
        forall|x: int| 0 <= x < idx ==> selects(sel, x),
    ensures
        kept_range(s, sel, 0, idx).len() == 0,
{
    lemma_kept_skips_selected(s, sel, 0, idx);
}

/// A list whose items can be inserted and deleted by position and by selection.
pub struct ModifiableList<T>(pub Vec<T>);

impl<T> ModifiableList<T> {
    /// Wraps `list`.
    pub fn new(list: Vec<T>) -> (r: Self)
        ensures
            r.0@ == list@,
    {
        ModifiableList(list)
    }

    /// Inserts `items` before position `idx`, keeping their order.
    pub fn add_rows_at(&mut self, items: Vec<T>, idx: usize)
        requires
            idx <= old(self).0.len(),
            old(self).0.len() + items.len() <= usize::MAX,
        ensures
            final(self).0@ == old(self).0@.subrange(0, idx as int) + items@ + old(self).0@.subrange(
                idx as int,
                old(self).0@.len() as int,
            ),
    {
        let ghost orig = self.0@;
        let ghost all = items@;
        let mut items = items;
        while items.len() > 0
            invariant
                idx <= orig.len(),
                orig.len() + all.len() <= usize::MAX,
                items@ == all.subrange(0, items@.len() as int),
                items@.len() <= all.len(),
                self.0@ == orig.subrange(0, idx as int) + all.subrange(
                    items@.len() as int,
                    all.len() as int,
                ) + orig.subrange(idx as int, orig.len() as int),
            decreases items.len(),
        {
            let ghost before = self.0@;
            let n = items.len();
            let x = items.pop().unwrap();
            assert(x == all[n - 1]);
            self.0.insert(idx, x);
            assert(self.0@ =~= orig.subrange(0, idx as int) + all.subrange(
                (n - 1) as int,
                all.len() as int,
            ) + orig.subrange(idx as int, orig.len() as int));
        }
        assert(all.subrange(0, all.len() as int) =~= all);
    }

    /// Removes every selected position, keeping the order of the rest.
    pub fn delete(&mut self, sel: &Selection)
        ensures
            final(self).0@ == kept(old(self).0@, *sel),
    {
        let ghost orig = self.0@;
        let mut i = self.0.len();
        while i > 0
            invariant
                i <= orig.len(),
                self.0@ == orig.subrange(0, i as int) + kept_range(orig, *sel, i as int, orig.len() as int),
            decreases i,
        {
            proof {
                lemma_kept_range_front(orig, *sel, i - 1, orig.len() as int);
            }
            if is_selected(sel, i - 1) {
                self.0.remove(i - 1);
                assert(self.0@ =~= orig.subrange(0, i - 1) + kept_range(
                    orig,
                    *sel,
                    i - 1,
                    orig.len() as int,
                ));
            } else {
                assert(self.0@ =~= orig.subrange(0, i - 1) + kept_range(
                    orig,
                    *sel,
                    i - 1,
                    orig.len() as int,
                ));
            }
            i = i - 1;
        }
        assert(self.0@ =~= kept(orig, *sel));
    }

    /// Where the item at `idx` ends up once the selection is deleted (see `moved_position`).
    pub fn move_item_to(&self, sel: &Selection, idx: usize) -> (r: Option<(usize, bool)>)
        requires
            idx < self.0.len(),
        ensures
            r == moved_position(self.0@, *sel, idx as int),
    {
        let mut before: usize = 0;
        let mut i: usize = 0;
        while i < idx
            invariant
                i <= idx < self.0.len(),
                before == kept_range(self.0@, *sel, 0, i as int).len(),
            decreases idx - i,
        {
            proof {
                lemma_kept_range_bounded(self.0@, *sel, 0, i as int);
            }
            if !is_selected(sel, i) {
                before = before + 1;
            }
            i = i + 1;
        }
        if !is_selected(sel, idx) {
            Some((before, false))
        } else if before == 0 {
            None
        } else {
            Some((before - 1, true))
        }
    }
}

} // verus!

verus! {

/// The items of `s[..hi]` at selected positions, in order.
pub open spec fn picked<T>(s: Seq<T>, sel: Selection, hi: int) -> Seq<T>
    decreases hi,
{
    if hi <= 0 {
        Seq::empty()
    } else if selects(sel, hi - 1) {
        picked(s, sel, hi - 1).push(s[hi - 1])
    } else {
        picked(s, sel, hi - 1)
    }
}

/// The number of set flags.
pub open spec fn count_true(s: Seq<bool>) -> nat
    decreases s.len(),
{
    if s.len() == 0 {
        0
    } else {
        count_true(s.drop_last()) + if s.last() { 1nat } else { 0 }
    }
}

} // verus!
