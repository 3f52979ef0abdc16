//! The nest, where agents store the food they carry home.

use vstd::prelude::*;

use crate::entity::Id;
use crate::entity::Kind;
use crate::space::Location;

verus! {

/// The state of the nest as agents see it: the food stored so far.
#[derive(Clone, Copy, Debug, PartialEq, Eq, Structural)]
pub struct State {
    storage: u64,
}

/// The storage once one unit is added to it, which stops at the largest `u64`.
pub open spec fn stored(storage: int) -> int {
    if storage < u64::MAX {
        storage + 1
    } else {
        storage
    }
}

impl State {
    /// The amount of food stored.
    pub closed spec fn spec_storage(&self) -> u64 {
        self.storage
    }

    /// The state once one unit of food more is stored.
    pub closed spec fn restocked(&self) -> State {
        State { storage: stored(self.storage as int) as u64 }
    }

    /// Restocking adds one unit to the storage, up to the largest `u64`.
    pub proof fn lemma_restocked(&self)
        ensures
            self.restocked().storage() == stored(self.storage() as int),
            self.restocked().storage() >= self.storage(),
    {
    }

    /// Increments the food storage by a single unit.
    pub fn store(&mut self)
        ensures
            *final(self) == old(self).restocked(),
            final(self).storage() == stored(old(self).storage() as int),
            final(self).storage() >= old(self).storage(),
    {
        self.storage = self.storage.saturating_add(1);
    }

    /// Gets the total amount of food stored.
    #[verifier::when_used_as_spec(spec_storage)]
    pub fn storage(&self) -> (storage: u64)
        ensures
            storage == self.spec_storage(),
    {
        self.storage
    }
}

impl Default for State {
    /// A storage without food.
    fn default() -> (state: State)
        ensures
            state.storage() == 0,
    {
        State { storage: 0 }
    }
}

/// A static nest.
#[derive(Clone, Copy, Debug)]
pub struct Nest {
    pub id: Id,
    pub location: Location,
    pub state: State,
}

impl Nest {
    /// Constructs a new nest, whose storage is empty.
    pub fn new(id: Id, location: Location) -> (nest: Nest)
        ensures
            nest.id == id,
            nest.location == location,
            nest.state.storage() == 0,
    {
        Nest { id, location, state: State::default() }
    }

    /// The identity of the nest.
    pub fn id(&self) -> (id: Id)
        ensures
            id == self.id,
    {
        self.id
    }

    /// The kind of the nest.
    pub fn kind(&self) -> (kind: Kind)
        ensures
            kind == Kind::Nest,
    {
        Kind::Nest
    }

    /// The tile on which the nest stands.
    pub fn location(&self) -> (location: Location)
        ensures
            location == self.location,
    {
        self.location
    }

    /// The state of the nest.
    pub fn state(&self) -> (state: State)
        ensures
            state == self.state,
    {
        self.state
    }
}

} // verus!
