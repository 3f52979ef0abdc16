//! The entities of the simulation and their kinds.

use vstd::prelude::*;

use crate::entity::phero::Scent;



pub mod ant;
pub mod grid;
pub mod lifespan;
pub mod morsel;
pub mod nest;


pub mod phero;

verus! {

/// The identity of an entity, unique among all entities of a simulation.
pub type Id = usize;

/// The kinds of all the entities.
#[derive(Clone, Copy, Debug, PartialEq, Eq, PartialOrd, Ord, Hash, Structural)]
pub enum Kind {
    Grid,
    Phero { scent: Scent },
    Nest,
    Morsel,
    Ant,
}

impl Kind {
    /// The kind of a scent marker with the given scent.
    pub fn phero_with(scent: Scent) -> (kind: Kind)
        ensures
            kind == (Kind::Phero { scent }),
    {
        Kind::Phero { scent }
    }

    /// The scent that leads to entities of this kind, where there is one.
    pub open spec fn spec_scent(&self) -> Option<Scent> {
        match self {
            Kind::Nest => Some(Scent::Colony),
            Kind::Morsel => Some(Scent::Food),
            _ => None,
        }
    }

    /// Gets the scent that agents follow to find entities of this kind: the
    /// colony scent for the nest, the food scent for a morsel, none otherwise.
    #[verifier::when_used_as_spec(spec_scent)]
    pub fn scent(&self) -> (scent: Option<Scent>)
        ensures
            scent == self.spec_scent(),
    {
        match self {
            Kind::Nest => Some(Scent::Colony),
            Kind::Morsel => Some(Scent::Food),
            _ => None,
        }
    }
}

} // verus!
