//! Chance, drawn from the thread-local generator of the `rand` crate.

use vstd::prelude::*;
use rand::seq::IteratorRandom;

verus! {

/// Calls `IteratorRandom::choose` of `rand` on the positions `0..len` with the
/// thread-local generator. Claimed, for every draw: nothing when `len` is 0,
/// otherwise a position below `len`. Which position comes out is chance.
#[verifier::external_body]
pub(crate) fn random_index(len: usize) -> (r: Option<usize>)
    ensures
        r is None <==> len == 0,
        r matches Some(i) ==> i < len,
{
    (0..len).choose(&mut rand::rng())
}

/// Calls `rand::random_range(1..=1000)`. Claimed, for every draw: a number
/// from 1 to 1000. Which one is chance.
#[verifier::external_body]
pub(crate) fn roll_thousand() -> (r: u32)
    ensures
        1 <= r <= 1000,
{
    rand::random_range(1..=1000u32)
}

} // verus!
