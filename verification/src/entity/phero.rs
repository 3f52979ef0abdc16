//! Scent markers and the budget from which agents lay them.

use vstd::prelude::*;

use crate::entity::lifespan;
use crate::entity::Id;
use crate::entity::Kind;
use crate::space::Location;

verus! {

/// The scents that an agent can lay on its trail.
#[derive(Clone, Copy, Debug, PartialEq, Eq, PartialOrd, Ord, Hash, Structural)]
pub enum Scent {
    /// The scent of the colony, which leads back to the nest.
    Colony,
    /// The scent of food, which leads to a morsel.
    Food,
}

/// How much scent an agent can still lay.
#[derive(Clone, Copy, Debug)]
pub struct Concentration(pub u16);

/// What is left of a budget of `value` after `amount` is taken from it.
pub open spec fn decreased(value: int, amount: int) -> int {
    if value >= amount {
        value - amount
    } else {
        0
    }
}

/// What is left of a budget of `value` after every amount of `amounts` is
/// taken from it in turn.
pub open spec fn decreased_by_all(value: int, amounts: Seq<int>) -> int
    decreases amounts.len(),
{
    if amounts.len() == 0 {
        value
    } else {
        decreased(decreased_by_all(value, amounts.drop_last()), amounts.last())
    }
}

/// The sum of the amounts.
pub open spec fn total(amounts: Seq<int>) -> int
    decreases amounts.len(),
{
    if amounts.len() == 0 {
        0
    } else {
        total(amounts.drop_last()) + amounts.last()
    }
}

/// A budget from which any number of amounts is taken never falls below zero:
/// what is left is the budget less their sum where that is positive, and zero
/// otherwise.
pub proof fn lemma_decrease_saturates(value: int, amounts: Seq<int>)
    requires
        value >= 0,
        forall|i: int| 0 <= i < amounts.len() ==> amounts[i] >= 0,
    ensures
        0 <= decreased_by_all(value, amounts) <= value,
        decreased_by_all(value, amounts) == decreased(value, total(amounts)),
        total(amounts) >= 0,
    decreases amounts.len(),
{
    if amounts.len() > 0 {
        lemma_decrease_saturates(value, amounts.drop_last());
    }
}

impl Concentration {
    /// The raw value of the budget.
    pub open spec fn spec_value(&self) -> u16 {
        self.0
    }

    /// Decreases the budget by the given amount, never below zero, and returns
    /// what is left.
    pub fn decrease_by(&mut self, value: u16) -> (left: Concentration)
        ensures
            final(self).value() == decreased(old(self).value() as int, value as int),
            left == *final(self),
    {
        self.0 = self.0.saturating_sub(value);
        Concentration(self.0)
    }

    /// Gets the raw value of the budget.
    #[verifier::when_used_as_spec(spec_value)]
    pub fn value(&self) -> (value: u16)
        ensures
            value == self.spec_value(),
    {
        self.0
    }
}

impl From<u16> for Concentration {
    fn from(strength: u16) -> (concentration: Concentration) {
        Concentration(strength)
    }
}

impl vstd::std_specs::convert::FromSpecImpl<u16> for Concentration {
    open spec fn obeys_from_spec() -> bool {
        true
    }

    open spec fn from_spec(strength: u16) -> Concentration {
        Concentration(strength)
    }
}

/// A scent marker: a deposit of one scent on one tile, whose strength is its
/// remaining lifetime.
#[derive(Clone, Copy, Debug)]
pub struct Phero {
    pub id: Id,
    pub scent: Scent,
    pub location: Location,
    pub lifespan: u64,
}

impl Phero {
    /// Constructs a marker of the given scent whose strength is the given
    /// concentration.
    pub fn new(id: Id, scent: Scent, location: Location, concentration: Concentration) -> (phero: Phero)
        ensures
            phero == (Phero { id, scent, location, lifespan: concentration.value() as u64 }),
    {
        Phero { id, scent, location, lifespan: concentration.value() as u64 }
    }

    /// The identity of the marker.
    pub fn id(&self) -> (id: Id)
        ensures
            id == self.id,
    {
        self.id
    }

    /// The kind of the marker, which carries its scent.
    pub fn kind(&self) -> (kind: Kind)
        ensures
            kind == (Kind::Phero { scent: self.scent }),
    {
        Kind::Phero { scent: self.scent }
    }

    /// The tile on which the marker lies.
    pub fn location(&self) -> (location: Location)
        ensures
            location == self.location,
    {
        self.location
    }

    /// The strength that is left.
    pub fn lifespan(&self) -> (lifespan: u64)
        ensures
            lifespan == self.lifespan,
    {
        self.lifespan
    }

    /// Ages the marker by one tick: its strength falls by one unit, never
    /// below zero. Nothing else of it changes.
    pub fn react(&mut self)
        ensures
            final(self).lifespan == decreased(old(self).lifespan as int, 1),
            final(self).id == old(self).id,
            final(self).scent == old(self).scent,
            final(self).location == old(self).location,
    {
        match lifespan::shortened(self.lifespan) {
            Some(left) => {
                self.lifespan = left;
            },
            None => {},
        }
    }
}

} // verus!
