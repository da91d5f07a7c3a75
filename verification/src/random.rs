//! Random choices, taken on trust from the `rand` crate.

use rand::Rng;
use vstd::prelude::*;

verus! {

#[verifier::external_type_specification]
#[verifier::external_body]
pub struct ExThreadRng(rand::rngs::ThreadRng);

/// `rand::thread_rng` hands out the generator of the current thread. Nothing
/// is claimed of it. It takes no argument; it fails only on a host that has
/// no source of randomness to seed it from.
pub assume_specification[ rand::thread_rng ]() -> (rng: rand::rngs::ThreadRng);

/// Calls `Rng::gen_range` on `0..bound`. Trusted: the number lies in the
/// range, whatever it is. An empty range makes the crate panic, so `bound`
/// is positive.
#[verifier::external_body]
pub(crate) fn random_below(rng: &mut rand::rngs::ThreadRng, bound: usize) -> (n: usize)
    requires
        bound > 0,
    ensures
        n < bound,
{
    rng.gen_range(0..bound)
}

} // verus!
