//! Random reordering, from the `rand` crate.
use rand::seq::SliceRandom;
use vstd::prelude::*;

verus! {

/// Shuffles `items` with `rand`'s `SliceRandom::shuffle` and the thread-local generator
/// `rand::rng()`. The result is a permutation of `items` (the shuffle only swaps elements);
/// which permutation is left to chance.
#[verifier::external_body]
pub(crate) fn shuffle<T>(items: Vec<T>) -> (r: Vec<T>)
    ensures
        r@.to_multiset() == items@.to_multiset(),
{
    let mut items = items;
    items.shuffle(&mut rand::rng());
    items
}

} // verus!
