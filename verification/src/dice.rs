//! Chance, drawn from the `rand` crate.
use vstd::prelude::*;
use rand::seq::IndexedRandom;

verus! {

/// Calls `rand::random_range(0..n)`, which draws a number uniformly from
/// `0..n` with the thread-local generator and panics on an empty range.
/// Claimed here: the number is below `n`. Which number comes is left open.
#[verifier::external_body]
pub(crate) fn random_below(n: u32) -> (r: u32)
    requires
        n > 0,
    ensures
        r < n,
{
    rand::random_range(0..n)
}

/// Calls `rand::random::<u32>()`, a number drawn with the thread-local
/// generator. Nothing is claimed of it: any `u32` can come.
#[verifier::external_body]
pub(crate) fn random_u32() -> (r: u32) {
    rand::random::<u32>()
}

/// Calls `IndexedRandom::choose` on the list with the thread-local generator
/// and copies the element out. Its source returns `None` on an empty list
/// and otherwise the element at a random index. Claimed here: `None` exactly
/// for an empty list, else one of its elements; which one is left open.
#[verifier::external_body]
pub(crate) fn choose_one(v: &Vec<u32>) -> (r: Option<u32>)
    ensures
        r is None <==> v@.len() == 0,
        r matches Some(x) ==> v@.contains(x),
{
    v.choose(&mut rand::rng()).copied()
}

} // verus!
