//! Requests held back for a number of ticks; a newer request supersedes a held one of the same
//! variant.
use vstd::prelude::*;

use crate::query::{query_kind, ToQueryWorker};

verus! {

/// Requests waiting for their delay to run out, each with its remaining number of ticks.
pub struct Delayer {
    pub queries: Vec<(ToQueryWorker, usize)>,
}

/// No two held requests are of the same variant.
pub open spec fn distinct_kinds(s: Seq<(ToQueryWorker, usize)>) -> bool {
    forall|i: int, j: int|
        0 <= i < j < s.len() ==> query_kind((#[trigger] s[i]).0.query) != query_kind((#[trigger] s[j]).0.query)
}

/// `p` is the first position of `s` whose request has variant `k`.
pub open spec fn first_of_kind(s: Seq<(ToQueryWorker, usize)>, k: nat, p: int) -> bool {
    &&& 0 <= p < s.len()
    &&& query_kind(s[p].0.query) == k
    &&& forall|j: int| 0 <= j < p ==> query_kind((#[trigger] s[j]).0.query) != k
}

/// `p` is the first position of `s` whose delay has run out.
pub open spec fn first_due(s: Seq<(ToQueryWorker, usize)>, p: int) -> bool {
    &&& 0 <= p < s.len()
    &&& s[p].1 == 0
    &&& forall|j: int| 0 <= j < p ==> (#[trigger] s[j]).1 != 0
}

/// Every delay of `s` is one tick less in `t`, the requests unchanged.
pub open spec fn counted_down(s: Seq<(ToQueryWorker, usize)>, t: Seq<(ToQueryWorker, usize)>) -> bool {
    &&& t.len() == s.len()
    &&& forall|i: int| 0 <= i < s.len() ==> (#[trigger] t[i]).0 == s[i].0 && t[i].1 == s[i].1 - 1
}

/// The first position at or after `i` whose delay has run out, or the length of `s` when there
/// is none.
pub open spec fn due_from(s: Seq<(ToQueryWorker, usize)>, i: int) -> int
    decreases s.len() - i,
{
    if i < 0 || i >= s.len() {
        s.len() as int
    } else if s[i].1 == 0 {
        i
    } else {
        due_from(s, i + 1)
    }
}

/// The first position at or after `i` whose request has variant `k`, or the length of `s`
/// when there is none.
pub open spec fn kind_from(s: Seq<(ToQueryWorker, usize)>, k: nat, i: int) -> int
    decreases s.len() - i,
{
    if i < 0 || i >= s.len() {
        s.len() as int
    } else if query_kind(s[i].0.query) == k {
        i
    } else {
        kind_from(s, k, i + 1)
    }
}

/// The held requests once `query` is held for `delay` ticks: a held request of the same
/// variant leaves, and the new one goes last.
pub open spec fn hold(s: Seq<(ToQueryWorker, usize)>, query: ToQueryWorker, delay: usize) -> Seq<(ToQueryWorker, usize)> {
    let p = kind_from(s, query_kind(query.query), 0);
    if p < s.len() {
        s.remove(p).push((query, delay))
    } else {
        s.push((query, delay))
    }
}

/// From `i`, the first request of variant `k` is at `p` when the ones between are of other
/// variants.
proof fn lemma_kind_from(s: Seq<(ToQueryWorker, usize)>, k: nat, i: int, p: int)
    requires
        0 <= i <= p <= s.len(),
        forall|j: int| i <= j < p ==> query_kind((#[trigger] s[j]).0.query) != k,
        p < s.len() ==> query_kind(s[p].0.query) == k,
    ensures
        kind_from(s, k, i) == p,
    decreases p - i,
{
    if i < p {
        lemma_kind_from(s, k, i + 1, p);
    }
}

/// What ticks release, one after the other, until one releases nothing: the released
/// requests in order, and the held requests after that last tick.
pub open spec fn release_all(s: Seq<(ToQueryWorker, usize)>) -> (Seq<ToQueryWorker>, Seq<(ToQueryWorker, usize)>)
    decreases s.len(),
{
    let p = due_from(s, 0);
    if 0 <= p < s.len() {
        let (rest, fin) = release_all(s.remove(p));
        (seq![s[p].0] + rest, fin)
    } else {
        (Seq::empty(), tick(s).0)
    }
}

/// One tick of the held requests `s`: the held requests after it, and the request it releases.
/// The first request whose delay has run out is released; when there is none, every delay is
/// one tick shorter.
pub open spec fn tick(s: Seq<(ToQueryWorker, usize)>) -> (Seq<(ToQueryWorker, usize)>, Option<ToQueryWorker>) {
    let p = due_from(s, 0);
    if p < s.len() {
        (s.remove(p), Some(s[p].0))
    } else {
        (s.map_values(|e: (ToQueryWorker, usize)| (e.0, (e.1 - 1) as usize)), None)
    }
}

/// What `n` ticks release, one entry per tick, starting from the held requests `s`.
pub open spec fn ticks(s: Seq<(ToQueryWorker, usize)>, n: nat) -> Seq<Option<ToQueryWorker>>
    decreases n,
{
    if n == 0 {
        Seq::empty()
    } else {
        seq![tick(s).1] + ticks(tick(s).0, (n - 1) as nat)
    }
}

/// From `i`, the first run-out delay is at `p` when the ones between are running.
proof fn lemma_due_from(s: Seq<(ToQueryWorker, usize)>, i: int, p: int)
    requires
        0 <= i <= p <= s.len(),
        forall|j: int| i <= j < p ==> (#[trigger] s[j]).1 != 0,
        p < s.len() ==> s[p].1 == 0,
    ensures
        due_from(s, i) == p,
    decreases p - i,
{
    if i < p {
        lemma_due_from(s, i + 1, p);
    }
}

/// The first run-out delay from `i` lies between `i` and the end.
proof fn lemma_due_from_range(s: Seq<(ToQueryWorker, usize)>, i: int)
    requires
        0 <= i <= s.len(),
    ensures
        i <= due_from(s, i) <= s.len(),
    decreases s.len() - i,
{
    if i < s.len() && s[i].1 != 0 {
        lemma_due_from_range(s, i + 1);
    }
}

/// Nothing held, nothing released: every tick of an empty holding releases nothing.
proof fn lemma_empty_ticks(n: nat)
    ensures
        ticks(Seq::empty(), n) == Seq::new(n, |i: int| None::<ToQueryWorker>),
    decreases n,
{
    let e = Seq::<(ToQueryWorker, usize)>::empty();
    if n > 0 {
        assert(tick(e).0 =~= e);
        lemma_empty_ticks((n - 1) as nat);
        assert(ticks(e, n) =~= Seq::new(n, |i: int| None::<ToQueryWorker>));
    } else {
        assert(ticks(e, n) =~= Seq::new(n, |i: int| None::<ToQueryWorker>));
    }
}

/// A request held alone for `delay` ticks is released by the tick after them, and by no other:
/// of `n` ticks, the first `delay` release nothing, the next one releases `q`, and the later
/// ones nothing.
pub proof fn lemma_released_after_delay(q: ToQueryWorker, delay: usize, n: nat)
    ensures
        ticks(seq![(q, delay)], n) == Seq::new(n, |i: int| if i == delay { Some(q) } else { None }),
    decreases n,
{
    let s = seq![(q, delay)];
    if n == 0 {
        assert(ticks(s, n) =~= Seq::new(n, |i: int| if i == delay { Some(q) } else { None }));
    } else if delay == 0 {
        lemma_due_from(s, 0, 0);
        assert(tick(s).0 =~= Seq::<(ToQueryWorker, usize)>::empty());
        lemma_empty_ticks((n - 1) as nat);
        assert(ticks(s, n) =~= Seq::new(n, |i: int| if i == delay { Some(q) } else { None }));
    } else {
        lemma_due_from(s, 0, 1);
        assert(tick(s).0 =~= seq![(q, (delay - 1) as usize)]);
        lemma_released_after_delay(q, (delay - 1) as usize, (n - 1) as nat);
        assert(ticks(s, n) =~= Seq::new(n, |i: int| if i == delay { Some(q) } else { None }));
    }
}

impl Delayer {
    /// The held requests have distinct variants.
    pub open spec fn wf(&self) -> bool {
        distinct_kinds(self.queries@)
    }

    /// Nothing held.
    pub fn new() -> (r: Self)
        ensures
            r.wf(),
            r.queries@.len() == 0,
    {
        Self { queries: Vec::new() }
    }

    /// Holds `query` for `delay` ticks. A held request of the same variant is dropped from the
    /// holding and returned; the new one goes last.
    pub fn queue_query(&mut self, query: ToQueryWorker, delay: usize) -> (ret: Option<ToQueryWorker>)
        ensures
            old(self).wf() ==> final(self).wf(),
            final(self).queries@ == hold(old(self).queries@, query, delay),
            ({
                let s = old(self).queries@;
                let k = query_kind(query.query);
                match ret {
                    Some(r) => exists|p: int|
                        first_of_kind(s, k, p) && r == s[p].0 && final(self).queries@ == s.remove(p).push((query, delay)),
                    None => (forall|i: int| 0 <= i < s.len() ==> query_kind((#[trigger] s[i]).0.query) != k)
                        && final(self).queries@ == s.push((query, delay)),
                }
            }),
    {
        let ghost s = self.queries@;
        let k = query.query.kind();
        let len = self.queries.len();
        let mut i: usize = 0;
        while i < len
            invariant
                len == s.len(),
                self.queries@ == s,
                i <= len,
                forall|j: int| 0 <= j < i ==> query_kind((#[trigger] s[j]).0.query) != k,
            ensures
                self.queries@ == s,
                i <= len,
                i < len ==> query_kind(s[i as int].0.query) == k,
                forall|j: int| 0 <= j < i ==> query_kind((#[trigger] s[j]).0.query) != k,
            decreases len - i,
        {
            if self.queries[i].0.query.kind() == k {
                break;
            }
            i = i + 1;
        }
        proof { lemma_kind_from(s, k as nat, 0, i as int); }
        let ret = if i < len {
            let (removed, _) = self.queries.remove(i);
            assert(first_of_kind(s, k as nat, i as int));
            Some(removed)
        } else {
            None
        };
        self.queries.push((query, delay));
        proof {
            let t = self.queries@;
            assert forall|a: int, b: int| distinct_kinds(s) && 0 <= a < b < t.len() implies query_kind(
                (#[trigger] t[a]).0.query,
            ) != query_kind((#[trigger] t[b]).0.query) by {
                if i < len {
                    if b == t.len() - 1 {
                        let oa = if a < i { a } else { a + 1 };
                        assert(t[a] == s[oa]);
                        if oa > i {
                            assert(query_kind(s[i as int].0.query) == k);
                        }
                    } else {
                        let oa = if a < i { a } else { a + 1 };
                        let ob = if b < i { b } else { b + 1 };
                        assert(t[a] == s[oa]);
                        assert(t[b] == s[ob]);
                    }
                } else {
                    if b == t.len() - 1 {
                        assert(t[a] == s[a]);
                    } else {
                        assert(t[a] == s[a]);
                        assert(t[b] == s[b]);
                    }
                }
            }
        }
        ret
    }

    /// Takes one tick off every delay.
    fn countdown(&mut self)
        requires
            forall|i: int| 0 <= i < old(self).queries@.len() ==> (#[trigger] old(self).queries@[i]).1 > 0,
        ensures
            counted_down(old(self).queries@, final(self).queries@),
    {
        let ghost s = self.queries@;
        let len = self.queries.len();
        let mut i: usize = 0;
        while i < len
            invariant
                len == s.len(),
                i <= len,
                self.queries@.len() == len,
                forall|j: int| 0 <= j < s.len() ==> (#[trigger] s[j]).1 > 0,
                forall|j: int|
                    0 <= j < len ==> (#[trigger] self.queries@[j]).0 == s[j].0 && self.queries@[j].1 == (
                    if j < i { s[j].1 - 1 } else { s[j].1 as int }),
            decreases len - i,
        {
            let (q, c) = self.queries.remove(i);
            self.queries.insert(i, (q, c - 1));
            i = i + 1;
        }
    }

    /// One tick of the main loop: releases, in order, every request that comes due as ticks
    /// follow one another, until a tick releases nothing.
    pub fn release_due(&mut self) -> (out: Vec<ToQueryWorker>)
        ensures
            old(self).wf() ==> final(self).wf(),
            (out@, final(self).queries@) == release_all(old(self).queries@),
    {
        let ghost orig = self.queries@;
        let ghost was_wf = self.wf();
        let mut out: Vec<ToQueryWorker> = Vec::new();
        loop
            invariant
                orig == old(self).queries@,
                was_wf == old(self).wf(),
                release_all(orig).0 == out@ + release_all(self.queries@).0,
                release_all(orig).1 == release_all(self.queries@).1,
                was_wf ==> self.wf(),
            decreases self.queries@.len(),
        {
            let ghost before = self.queries@;
            proof { lemma_due_from_range(before, 0); }
            match self.on_tick() {
                Some(q) => {
                    proof {
                        let p = due_from(before, 0);
                        assert(0 <= p < before.len());
                        assert(seq![q] + release_all(self.queries@).0 == release_all(before).0);
                        assert(out@.push(q) + release_all(self.queries@).0 =~= out@ + (seq![q] + release_all(
                            self.queries@,
                        ).0));
                    }
                    out.push(q);
                },
                None => {
                    proof {
                        assert(release_all(before).0 =~= Seq::<ToQueryWorker>::empty());
                        assert(out@ + Seq::<ToQueryWorker>::empty() =~= out@);
                    }
                    return out;
                },
            }
        }
    }

    /// Releases the first request whose delay has run out; when there is none, takes one tick
    /// off every delay and releases nothing.
    pub fn on_tick(&mut self) -> (ret: Option<ToQueryWorker>)
        ensures
            old(self).wf() ==> final(self).wf(),
            (final(self).queries@, ret) == tick(old(self).queries@),
            ({
                let s = old(self).queries@;
                match ret {
                    Some(r) => exists|p: int| first_due(s, p) && r == s[p].0 && final(self).queries@ == s.remove(p),
                    None => (forall|i: int| 0 <= i < s.len() ==> (#[trigger] s[i]).1 != 0)
                        && counted_down(s, final(self).queries@),
                }
            }),
    {
        let ghost s = self.queries@;
        let len = self.queries.len();
        let mut i: usize = 0;
        while i < len
            invariant
                len == s.len(),
                self.queries@ == s,
                i <= len,
                forall|j: int| 0 <= j < i ==> (#[trigger] s[j]).1 != 0,
            ensures
                self.queries@ == s,
                i <= len,
                i < len ==> s[i as int].1 == 0,
                forall|j: int| 0 <= j < i ==> (#[trigger] s[j]).1 != 0,
            decreases len - i,
        {
            if self.queries[i].1 == 0 {
                break;
            }
            i = i + 1;
        }
        proof { lemma_due_from(s, 0, i as int); }
        if i < len {
            let (exec, _) = self.queries.remove(i);
            assert(first_due(s, i as int));
            proof {
                let t = self.queries@;
                assert forall|a: int, b: int| distinct_kinds(s) && 0 <= a < b < t.len() implies query_kind(
                    (#[trigger] t[a]).0.query,
                ) != query_kind((#[trigger] t[b]).0.query) by {
                    let oa = if a < i { a } else { a + 1 };
                    let ob = if b < i { b } else { b + 1 };
                    assert(t[a] == s[oa]);
                    assert(t[b] == s[ob]);
                }
            }
            Some(exec)
        } else {
            self.countdown();
            assert(self.queries@ =~= s.map_values(|e: (ToQueryWorker, usize)| (e.0, (e.1 - 1) as usize)));
            proof {
                let t = self.queries@;
                assert forall|a: int, b: int| distinct_kinds(s) && 0 <= a < b < t.len() implies query_kind(
                    (#[trigger] t[a]).0.query,
                ) != query_kind((#[trigger] t[b]).0.query) by {
                    assert(t[a].0 == s[a].0);
                    assert(t[b].0 == s[b].0);
                }
            }
            None
        }
    }
}

} // verus!
