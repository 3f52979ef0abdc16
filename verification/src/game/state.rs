//! The state of a simulation as far as its end depends on it.

use vstd::prelude::*;

use crate::entity::nest;
use crate::game::conf::Conf;

verus! {

/// The global state of the game: its configuration and what the nest holds.
#[derive(Clone, Copy, Debug)]
pub struct State {
    pub conf: Conf,
    pub nest: nest::State,
}

impl State {
    /// The total food of the simulation fits in a `u64`.
    pub open spec fn wf(&self) -> bool {
        self.conf.total_supply() <= u64::MAX
    }

    /// Whether all the food has been moved from the morsels to the nest.
    pub open spec fn over(&self) -> bool {
        self.nest.storage() == self.conf.total_supply()
    }

    /// Constructs the state of a simulation that starts: the nest is empty.
    pub fn new(conf: Conf) -> (state: State)
        requires
            conf.total_supply() <= u64::MAX,
        ensures
            state.wf(),
            state.conf == conf,
            state.nest.storage() == 0,
    {
        State { conf, nest: nest::State::default() }
    }

    /// Records what the nest holds after a tick.
    pub fn observe(&mut self, nest: nest::State)
        ensures
            final(self).conf == old(self).conf,
            final(self).nest == nest,
    {
        self.nest = nest;
    }

    /// Gets the amount of food currently stored in the nest.
    pub fn storage(&self) -> (storage: u64)
        ensures
            storage == self.nest.storage(),
    {
        self.nest.storage()
    }

    /// Returns true only if the simulation is over, that is all the food has
    /// been moved from the morsels to the nest.
    pub fn is_simulation_over(&self) -> (over: bool)
        requires
            self.wf(),
        ensures
            over == self.over(),
    {
        self.nest.storage() == self.conf.total_storage()
    }
}

/// A simulation is not over while the nest holds less than the total food,
/// and is over as soon as it holds all of it.
pub proof fn lemma_over_exactly_at_total(state: State)
    ensures
        state.nest.storage() < state.conf.total_supply() ==> !state.over(),
        state.nest.storage() == state.conf.total_supply() ==> state.over(),
{
}

} // verus!
