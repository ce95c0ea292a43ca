//! The library's only sources of randomness: thin trusted wrappers around
//! the `rand` crate.  Every function of the library that draws from them
//! states what holds of every possible outcome.
//!
//! The search itself draws from an explicit `StdRng` handle threaded
//! through its calls, so a run is reproducible given a fixed seed.  Only
//! the cosmetic display-label generator draws from the ambient
//! process-wide generator.

use vstd::prelude::*;

use rand::seq::SliceRandom;
use rand::Rng;

use crate::machine::Machine;

verus! {

/// The concrete random generator the search threads through its calls.
/// Opaque here: nothing is known of a value of it.
#[verifier::external_type_specification]
#[verifier::external_body]
pub struct ExStdRng(rand::rngs::StdRng);

/// Relies on rand's `Rng::gen::<u8>`: an arbitrary byte, uniformly
/// distributed; nothing can be promised of a random value.
#[verifier::external_body]
pub(crate) fn rand_byte(rng: &mut rand::rngs::StdRng) -> u8 {
    rng.gen::<u8>()
}

/// Relies on rand's `Rng::gen_range`: a uniformly distributed value of the
/// range `0..bound`; it panics only on an empty range, which the
/// precondition rules out.
#[verifier::external_body]
pub(crate) fn rand_index(rng: &mut rand::rngs::StdRng, bound: usize) -> (r: usize)
    requires
        bound > 0,
    ensures
        r < bound,
{
    rng.gen_range(0..bound)
}

/// Relies on rand's `SliceRandom::shuffle`: it reorders the slice in place
/// by element swaps, so the machines and their count are kept.
#[verifier::external_body]
pub(crate) fn shuffle_machines(rng: &mut rand::rngs::StdRng, v: &mut Vec<Machine>)
    ensures
        final(v)@.to_multiset() == old(v)@.to_multiset(),
        final(v)@.len() == old(v)@.len(),
{
    v.shuffle(rng);
}

/// Relies on rand's `Rng::gen_range` over the ambient process-wide
/// generator, for the display-label alphabet only: a uniformly distributed
/// value of the nonempty range `0..bound`.
#[verifier::external_body]
pub(crate) fn ambient_index(bound: usize) -> (r: usize)
    requires
        bound > 0,
    ensures
        r < bound,
{
    rand::thread_rng().gen_range(0..bound)
}

} // verus!
