//! Morsels: the food sources that agents deplete.

use vstd::prelude::*;

use crate::entity::Id;
use crate::entity::Kind;
use crate::space::Location;

verus! {

/// A static morsel, whose remaining supply is its remaining lifetime.
#[derive(Clone, Copy, Debug)]
pub struct Morsel {
    pub id: Id,
    pub location: Location,
    pub lifespan: u64,
}

impl Morsel {
    /// Constructs a new morsel with the given supply.
    pub fn new(id: Id, location: Location, lifespan: u64) -> (morsel: Morsel)
        ensures
            morsel == (Morsel { id, location, lifespan }),
    {
        Morsel { id, location, lifespan }
    }

    /// The identity of the morsel.
    pub fn id(&self) -> (id: Id)
        ensures
            id == self.id,
    {
        self.id
    }

    /// The kind of the morsel.
    pub fn kind(&self) -> (kind: Kind)
        ensures
            kind == Kind::Morsel,
    {
        Kind::Morsel
    }

    /// The tile on which the morsel lies.
    pub fn location(&self) -> (location: Location)
        ensures
            location == self.location,
    {
        self.location
    }

    /// The supply that is left.
    pub fn lifespan(&self) -> (lifespan: u64)
        ensures
            lifespan == self.lifespan,
    {
        self.lifespan
    }
}

} // verus!
