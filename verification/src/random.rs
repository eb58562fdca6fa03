//! The one place where chance enters the game.

use rand::rngs::ThreadRng;
use rand::Rng;
use vstd::prelude::*;

verus! {

/// The thread-local generator of the `rand` crate, carried through as an
/// opaque value.
#[verifier::external_type_specification]
#[verifier::external_body]
pub struct ExThreadRng(rand::rngs::ThreadRng);

/// A handle to the generator of the calling thread.
///
/// Calls `rand::thread_rng()`. Nothing is claimed of the generator that
/// comes back: it is the operating system that seeds it, on the thread's
/// first call, and the call panics if the system has no entropy to give.
#[verifier::external_body]
pub(crate) fn thread_rng() -> (rng: ThreadRng) {
    rand::thread_rng()
}

/// Draws a number from `low` up to, but not including, `high`.
///
/// Calls `rand::Rng::gen_range(low, high)` on the generator. Nothing is
/// proved of that call. It is assumed to hand back some number of the
/// half-open range, which one it is depends on the generator's state, and to
/// panic only when the range is empty, which `requires` rules out.
#[verifier::external_body]
pub(crate) fn pick(rng: &mut ThreadRng, low: usize, high: usize) -> (n: usize)
    requires
        low < high,
    ensures
        low <= n < high,
{
    rng.gen_range(low, high)
}

} // verus!
