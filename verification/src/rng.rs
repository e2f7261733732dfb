//! Randomness for the shuffle operation, behind trusted declarations.
//!
//! Nothing is promised about which permutation comes out: the contracts only
//! say what holds of every outcome, and the playlist code is verified against
//! that.

use rand::seq::SliceRandom;
use vstd::prelude::*;

verus! {

#[verifier::external_type_specification]
#[verifier::external_body]
pub struct ExThreadRng(rand::rngs::ThreadRng);

/// Relies on rand::thread_rng: hands back the calling thread's generator.
/// Nothing can be promised about the values it will produce.
#[verifier::external_body]
pub(crate) fn fresh_rng() -> rand::rngs::ThreadRng {
    rand::thread_rng()
}

/// Relies on rand::seq::SliceRandom::shuffle: the slice is permuted in
/// place by swaps, so it holds exactly the elements it held before.
#[verifier::external_body]
pub(crate) fn shuffle_ids(ids: &mut Vec<usize>, rng: &mut rand::rngs::ThreadRng)
    ensures
        final(ids)@.len() == old(ids)@.len(),
        final(ids)@.to_multiset() == old(ids)@.to_multiset(),
{
    ids.shuffle(rng)
}

} // verus!
