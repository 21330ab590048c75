//! The random source, from the `rand` crate. Nothing in this file is proved:
//! the verifier takes each contract here on trust.

use rand::Rng;
use rand::rngs::ThreadRng;
use vstd::prelude::*;

verus! {

/// `rand::rngs::ThreadRng`, the handle to the generator of the running thread.
/// Nothing is known of what it holds.
#[verifier::external_type_specification]
#[verifier::external_body]
pub struct ExThreadRng(ThreadRng);

/// `rand::thread_rng` hands out the handle to the thread's generator, which
/// the system seeds on first use. Nothing is claimed of the handle. Where the
/// system has no randomness to give, the call panics; no caller can rule
/// that out.
pub assume_specification[ rand::thread_rng ]() -> (rng: ThreadRng);

/// `Rng::gen_range` on the half-open range `low..high`. It panics on an
/// empty range, so `low < high` is asked for. The claim: what it returns lies
/// in the range. Which value comes is not said, and two calls may differ.
#[verifier::external_body]
pub(crate) fn pick_in_range(rng: &mut ThreadRng, low: usize, high: usize) -> (picked: usize)
    requires
        low < high,
    ensures
        low <= picked < high,
{
    rng.gen_range(low..high)
}

} // verus!
