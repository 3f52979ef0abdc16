//! The remaining lifetime of an entity, counted in ticks.
//!
//! A scent marker's strength and a morsel's remaining supply are both kept as a
//! lifetime that the simulation's substrate understands: it removes an entity
//! whose lifetime has run out.

use vstd::prelude::*;

verus! {

/// Calls `semeion::Lifespan::shorten` on a lifespan of the given length and
/// reads the length back: one unit less, and never below zero.
#[verifier::external_body]
pub(crate) fn shortened(length: u64) -> (left: Option<u64>)
    ensures
        left == Some(if length > 0 { (length - 1) as u64 } else { 0u64 }),
{
    let mut lifespan = semeion::Lifespan::with_span(length);
    lifespan.shorten();
    lifespan.length()
}

/// Calls `semeion::Lifespan::lengthen_by` on a lifespan of the given length and
/// reads the length back: the sum, or the largest `u64` where the sum exceeds
/// it.
#[verifier::external_body]
pub(crate) fn lengthened_by(length: u64, amount: u64) -> (grown: Option<u64>)
    ensures
        grown == Some(if length + amount > u64::MAX { u64::MAX } else { (length + amount) as u64 }),
{
    let mut lifespan = semeion::Lifespan::with_span(length);
    lifespan.lengthen_by(amount);
    lifespan.length()
}

/// Calls `semeion::Lifespan::clear` on a lifespan of the given length and
/// reads the length back: zero.
#[verifier::external_body]
pub(crate) fn cleared(length: u64) -> (left: Option<u64>)
    ensures
        left == Some(0u64),
{
    let mut lifespan = semeion::Lifespan::with_span(length);
    lifespan.clear();
    lifespan.length()
}

/// Calls `semeion::Lifespan::is_alive` on a lifespan of the given length: it
/// is alive while its length is positive.
#[verifier::external_body]
pub(crate) fn is_alive(length: u64) -> (alive: bool)
    ensures
        alive == (length > 0),
{
    semeion::Lifespan::with_span(length).is_alive()
}

} // verus!
