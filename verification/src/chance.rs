//! The random choices of an agent.
//!
//! Nothing is known of a random value but the range it was drawn from, so the
//! functions that use one state what holds whatever came back.

use rand::seq::SliceRandom;
use rand::Rng;
use vstd::prelude::*;

use crate::space::Offset;

verus! {

/// Calls `rand::Rng::gen_range` on the thread's generator with the half-open
/// range `low..high`: the value lies in that range. An empty range makes the
/// call panic and is left out.
#[verifier::external_body]
pub(crate) fn random_between(low: i32, high: i32) -> (value: i32)
    requires
        low < high,
    ensures
        low <= value < high,
{
    rand::thread_rng().gen_range(low..high)
}

/// Calls `rand::seq::SliceRandom::shuffle` on the thread's generator: the
/// offsets are the same ones, each as often as before, in some order.
#[verifier::external_body]
pub(crate) fn shuffle(offsets: &mut Vec<Offset>)
    ensures
        final(offsets)@.to_multiset() == old(offsets)@.to_multiset(),
{
    offsets.shuffle(&mut rand::thread_rng());
}

} // verus!
