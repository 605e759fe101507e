//! Random shuffling, from the `rand` crate.
use rand::rngs::ThreadRng;
use rand::seq::SliceRandom;
use vstd::prelude::*;

verus! {

#[verifier::external_type_specification]
#[verifier::external_body]
pub struct ExThreadRng(ThreadRng);

/// `rand::thread_rng`: a handle to the thread-local generator. Nothing is
/// stated of it; its outputs are random. It panics only if seeding from the
/// operating system fails, which no argument decides.
#[verifier::external_body]
pub(crate) fn thread_rng() -> ThreadRng {
    rand::thread_rng()
}

/// `rand::seq::SliceRandom::shuffle` on the elements of `v`: a Fisher-Yates
/// shuffle, a series of swaps, so the elements are permuted and none is added
/// or lost. Which permutation comes out is random and not stated.
#[verifier::external_body]
pub(crate) fn shuffle(v: &mut Vec<u32>, rng: &mut ThreadRng)
    ensures
        final(v)@.len() == old(v)@.len(),
        final(v)@.to_multiset() == old(v)@.to_multiset(),
{
    v.shuffle(rng)
}

} // verus!
