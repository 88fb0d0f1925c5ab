//! The source of randomness: the thread-local generator of the `rand` crate.

use vstd::prelude::*;
use rand::rngs::ThreadRng;
use rand::Rng;

verus! {

/// `rand::rngs::ThreadRng`, a handle to the generator of the current thread.
/// Nothing is known of its state.
#[verifier::external_type_specification]
#[verifier::external_body]
pub struct ExThreadRng(rand::rngs::ThreadRng);

/// `rand::thread_rng` hands out the handle to the current thread's
/// generator. Nothing is claimed of the handle.
pub assume_specification[ rand::thread_rng ]() -> (rng: ThreadRng)
;

/// `Rng::gen_range` on `usize`: a sample from the half-open range
/// `low..high`. The call panics when the range is empty, so the range must
/// not be. All that is claimed of the sample is that it lies in the range;
/// two calls may give different samples.
#[verifier::external_body]
pub(crate) fn gen_range(rng: &mut ThreadRng, low: usize, high: usize) -> (sample: usize)
    requires
        low < high,
    ensures
        low <= sample < high,
{
    rng.gen_range(low, high)
}

} // verus!
