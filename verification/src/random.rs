//! The two places where chance comes in: drawing a number and shuffling a
//! list. Nothing is known of either beyond what holds of every outcome.

use rand::seq::SliceRandom;
use rand::Rng;
use vstd::prelude::*;

verus! {

/// `Rng::random_range` on the thread's generator, `rand::rng()`, with the
/// range `low..high`. It panics on an empty range, hence the `requires`;
/// the number it returns lies in the range. The generator itself gives
/// up only where the operating system has no randomness to seed it with.
#[verifier::external_body]
pub(crate) fn random_range(low: usize, high: usize) -> (drawn: usize)
    requires
        low < high,
    ensures
        low <= drawn < high,
{
    rand::rng().random_range(low..high)
}

/// `SliceRandom::shuffle` on the thread's generator, `rand::rng()`. It
/// only swaps elements, so the list holds afterwards what it held before,
/// in some order.
#[verifier::external_body]
pub(crate) fn shuffle<T>(items: &mut Vec<T>)
    ensures
        final(items)@.to_multiset() == old(items)@.to_multiset(),
{
    items.shuffle(&mut rand::rng());
}

} // verus!
