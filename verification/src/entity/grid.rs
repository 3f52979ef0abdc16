//! The grid of the environment as an entity without a location.

use vstd::prelude::*;

use crate::entity::Id;
use crate::entity::Kind;

verus! {

/// A static grid of squared cells.
#[derive(Clone, Copy, Debug)]
pub struct Grid {
    pub id: Id,
}

impl Grid {
    /// Constructs a new grid.
    pub fn new(id: Id) -> (grid: Grid)
        ensures
            grid.id == id,
    {
        Grid { id }
    }

    /// The identity of the grid.
    pub fn id(&self) -> (id: Id)
        ensures
            id == self.id,
    {
        self.id
    }

    /// The kind of the grid.
    pub fn kind(&self) -> (kind: Kind)
        ensures
            kind == Kind::Grid,
    {
        Kind::Grid
    }
}

} // verus!
