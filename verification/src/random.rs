//! The one source of chance in the game.

use vstd::prelude::*;

verus! {

/// Draws a number with `rand::Rng::gen_range` on the generator that
/// `rand::thread_rng` keeps for the running thread.
///
/// Not verified. The contract is what the documentation of `gen_range` gives
/// for a half-open range: it panics on an empty range, which the precondition
/// rules out, and it returns a value of the range. Nothing is said about which
/// value, and two calls with one range may differ.
#[verifier::external_body]
pub(crate) fn random_range(low: i64, high: i64) -> (r: i64)
    requires
        low < high,
    ensures
        low <= r < high,
{
    rand::Rng::gen_range(&mut rand::thread_rng(), low..high)
}

} // verus!
