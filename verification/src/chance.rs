//! The draws that the game leaves to chance.

use rand::rngs::ThreadRng;
use rand::Rng;
use vstd::prelude::*;

verus! {

/// `rand::rngs::ThreadRng`, the handle to a thread's random number
/// generator. Nothing inside it is visible to the proofs.
#[verifier::external_type_specification]
#[verifier::external_body]
pub struct ExThreadRng(ThreadRng);

/// `rand::thread_rng` hands out the generator of the calling thread, which
/// the system seeds at its first use. Nothing is claimed of the handle.
pub assume_specification[ rand::thread_rng ]() -> (rng: ThreadRng);

/// Calls `Rng::gen_range` on the half-open range `low..high`. The claim is
/// what the method documents of such a range: the value lies in it. An empty
/// range makes the method panic, hence the demand that `low` be below
/// `high`. Which value comes is left open.
#[verifier::external_body]
pub(crate) fn random_in(rng: &mut ThreadRng, low: i32, high: i32) -> (value: i32)
    requires
        low < high,
    ensures
        low <= value < high,
{
    rng.gen_range(low..high)
}

/// Calls `Rng::gen_ratio`, which answers `true` with a chance of `numerator`
/// in `denominator`. The method panics on a denominator of zero and on a
/// numerator above the denominator, hence the demands. The claim is the two
/// cases that the method documents as certain: a chance of one is always
/// `true`, a chance of zero always `false`. Any other answer is left open.
#[verifier::external_body]
pub(crate) fn random_ratio(rng: &mut ThreadRng, numerator: u32, denominator: u32) -> (hit: bool)
    requires
        denominator > 0,
        numerator <= denominator,
    ensures
        numerator == denominator ==> hit,
        numerator == 0 ==> !hit,
{
    rng.gen_ratio(numerator, denominator)
}

} // verus!
