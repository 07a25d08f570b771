//! Random permutations, drawn with the `rand` crate.

use crate::permutation::{identity_permutation, is_permutation, lemma_rearranged_identity};
use rand::rngs::ThreadRng;
use rand::seq::SliceRandom;
use vstd::prelude::*;

verus! {

/// `rand::rngs::ThreadRng`, the handle to the thread-local generator. Nothing
/// is known of its state.
#[verifier::external_type_specification]
#[verifier::external_body]
pub struct ExThreadRng(ThreadRng);

/// `rand::thread_rng` hands out the thread-local generator. No claim is made
/// about the handle. The first call in a thread seeds the generator from the
/// system, and panics if the system has no entropy to give.
pub assume_specification[ rand::thread_rng ]() -> (rng: ThreadRng);

/// `SliceRandom::shuffle` of `rand`, on the slice of `values`. It works by
/// swapping pairs of entries in place, so whatever the generator yields the
/// entries afterwards are the entries before, each as often as before; their
/// order is left open.
#[verifier::external_body]
fn shuffle(values: &mut Vec<usize>, rng: &mut ThreadRng)
    ensures
        final(values)@.to_multiset() == old(values)@.to_multiset(),
{
    values.shuffle(rng);
}

/// Draws a permutation of `0..256` from the thread-local generator.
///
/// Which permutation comes back is up to the generator; that it is one holds
/// for every draw. The generator needs the system's entropy source to start.
pub fn random_permutation() -> (v: Vec<usize>)
    ensures
        is_permutation(v@),
{
    let mut rng = rand::thread_rng();
    let mut v = identity_permutation();
    shuffle(&mut v, &mut rng);
    proof {
        lemma_rearranged_identity(v@);
    }
    v
}

} // verus!
