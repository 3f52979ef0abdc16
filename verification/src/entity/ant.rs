//! The foraging agent.
//!
//! Each tick an agent looks at its surroundings, settles what it found on its
//! own tile, strengthens or lays the trail of its activity, wipes a trail that
//! misleads, and moves by one step.

use vstd::prelude::*;

use crate::chance::random_between;
use crate::chance::shuffle;
use crate::entity::ant::consensus::lemma_tick_keeps_kinds;
use crate::entity::ant::memory::remembered;
use crate::entity::ant::memory::LocationAwareness;
use crate::entity::lifespan;
use crate::entity::morsel::Morsel;
use crate::entity::nest::Nest;
use crate::entity::phero::decreased;
use crate::entity::phero::Concentration;
use crate::entity::phero::Phero;
use crate::entity::phero::Scent;
use crate::entity::Id;
use crate::entity::Kind;
use crate::env::first_of_kind;
use crate::env::has_kind;
use crate::env::has_leader;
use crate::env::is_best_candidate;
use crate::env::is_candidate;
use crate::env::is_first_tile_with;
use crate::env::is_strongest;
use crate::env::lemma_first_of_kind_is_first;
use crate::env::ring_has_kind;
use crate::env::scent_among;
use crate::env::Neighbor;
use crate::env::Neighborhood;
use crate::env::Tile;
use crate::game::conf::capped;
use crate::game::conf::share;
use crate::game::conf::Conf;
use crate::game::conf::Ratio;
use crate::space::border;
use crate::space::lemma_distance_on_grid;
use crate::space::lemma_translated_on_grid;
use crate::space::lemma_translated_towards_on_grid;
use crate::space::manhattan;
use crate::space::manhattan_distance;
use crate::space::ring_of;
use crate::space::translate;
use crate::space::translate_towards;
use crate::space::translated;
use crate::space::translated_towards;
use crate::space::Dimension;
use crate::space::Location;
use crate::space::Offset;

pub mod consensus;
pub mod memory;

verus! {

/// What an agent is after.
#[derive(Clone, Copy, Debug, PartialEq, Eq, Structural)]
pub enum Activity {
    /// The agent is in search of food.
    Foraging,
    /// The agent carries a portion of food back to the nest.
    Carrying,
}

/// The role of an agent among the agents on its tile, settled anew each tick.
#[derive(Clone, Copy, Debug, PartialEq, Eq, Structural)]
pub enum State {
    Leader,
    Follower,
}

impl Activity {
    /// The scent that an agent of this activity lays on its trail.
    pub open spec fn spec_scent(&self) -> Scent {
        match self {
            Activity::Carrying => Scent::Food,
            Activity::Foraging => Scent::Colony,
        }
    }

    /// The kind of entity that an agent of this activity seeks.
    pub open spec fn spec_target_kind(&self) -> Kind {
        match self {
            Activity::Carrying => Kind::Nest,
            Activity::Foraging => Kind::Morsel,
        }
    }

    /// The scent that leads an agent of this activity to its target.
    pub open spec fn spec_target_scent(&self) -> Scent {
        match self {
            Activity::Carrying => Scent::Colony,
            Activity::Foraging => Scent::Food,
        }
    }

    /// The other activity.
    pub open spec fn switched(&self) -> Activity {
        match self {
            Activity::Carrying => Activity::Foraging,
            Activity::Foraging => Activity::Carrying,
        }
    }

    /// Gets the scent that the agent leaves on its trail: the scent of food
    /// while it carries some, the scent of the colony while it forages.
    #[verifier::when_used_as_spec(spec_scent)]
    pub fn scent(&self) -> (scent: Scent)
        ensures
            scent == self.spec_scent(),
    {
        match self {
            Activity::Carrying => Scent::Food,
            Activity::Foraging => Scent::Colony,
        }
    }

    /// Gets the kind of the target: the nest while the agent carries food, a
    /// morsel while it forages.
    #[verifier::when_used_as_spec(spec_target_kind)]
    pub fn target_kind(&self) -> (kind: Kind)
        ensures
            kind == self.spec_target_kind(),
    {
        match self {
            Activity::Carrying => Kind::Nest,
            Activity::Foraging => Kind::Morsel,
        }
    }

    /// Gets the scent that leads to the target.
    #[verifier::when_used_as_spec(spec_target_scent)]
    pub fn target_scent(&self) -> (scent: Scent)
        ensures
            scent == self.spec_target_scent(),
            Some(scent) == self.target_kind().scent(),
    {
        match self {
            Activity::Carrying => Scent::Colony,
            Activity::Foraging => Scent::Food,
        }
    }

    /// Switches the activity.
    pub fn switch(&mut self)
        ensures
            *final(self) == old(self).switched(),
    {
        *self = match self {
            Activity::Carrying => Activity::Foraging,
            Activity::Foraging => Activity::Carrying,
        };
    }
}

/// Whether an agent of the given activity that stands on a tile with these
/// entities stores its food there, the target kind being looked at.
pub open spec fn stores_at(activity: Activity, entities: Seq<Neighbor>, target: Kind) -> bool {
    target == Kind::Nest && activity == Activity::Carrying && has_kind(entities, Kind::Nest)
}

/// Whether such an agent takes a portion of food there: it forages, and the
/// first morsel of the tile has supply left.
pub open spec fn takes_at(activity: Activity, entities: Seq<Neighbor>, target: Kind) -> bool {
    &&& target == Kind::Morsel
    &&& activity == Activity::Foraging
    &&& first_of_kind(entities, Kind::Morsel) matches Some(index)
    &&& entities[index] matches Neighbor::Morsel(morsel)
    &&& morsel.lifespan > 0
}

/// The activity of the agent once it has looked at the target kind.
pub open spec fn activity_past(activity: Activity, entities: Seq<Neighbor>, target: Kind) -> Activity {
    if stores_at(activity, entities, target) || takes_at(activity, entities, target) {
        activity.switched()
    } else {
        activity
    }
}

/// The entities of the tile once the agent has looked at the target kind: the
/// nest holds one unit more where the agent stored its food, the first morsel
/// one unit less where it took some.
pub open spec fn entities_past(activity: Activity, entities: Seq<Neighbor>, target: Kind) -> Seq<Neighbor> {
    match first_of_kind(entities, target) {
        Some(index) => match entities[index] {
            Neighbor::Nest(nest) => if stores_at(activity, entities, target) {
                entities.update(index, Neighbor::Nest(Nest { state: nest.state.restocked(), ..nest }))
            } else {
                entities
            },
            Neighbor::Morsel(morsel) => if takes_at(activity, entities, target) {
                entities.update(
                    index,
                    Neighbor::Morsel(Morsel { lifespan: (morsel.lifespan - 1) as u64, ..morsel }),
                )
            } else {
                entities
            },
            _ => entities,
        },
        None => entities,
    }
}

/// The activity of the agent once it has settled what it found on its tile:
/// first the nest, then a morsel.
pub open spec fn assessed_activity(activity: Activity, entities: Seq<Neighbor>) -> Activity {
    activity_past(
        activity_past(activity, entities, Kind::Nest),
        entities_past(activity, entities, Kind::Nest),
        Kind::Morsel,
    )
}

/// The entities of the tile once the agent has settled what it found there.
pub open spec fn assessed_entities(activity: Activity, entities: Seq<Neighbor>) -> Seq<Neighbor> {
    entities_past(
        activity_past(activity, entities, Kind::Nest),
        entities_past(activity, entities, Kind::Nest),
        Kind::Morsel,
    )
}

/// Whether the agent reaches a target on the tile and switches its activity,
/// at the nest or at a morsel.
pub open spec fn switches(activity: Activity, entities: Seq<Neighbor>) -> bool {
    ||| stores_at(activity, entities, Kind::Nest)
    ||| takes_at(
        activity_past(activity, entities, Kind::Nest),
        entities_past(activity, entities, Kind::Nest),
        Kind::Morsel,
    )
}

/// Whether the tile holds a nest or a morsel.
pub open spec fn holds_target(entities: Seq<Neighbor>) -> bool {
    has_kind(entities, Kind::Nest) || has_kind(entities, Kind::Morsel)
}

/// The strength of a marker once an agent with `budget` left has walked over
/// it: the budget is added, and for the colony scent the given share of the
/// strength it had. It stops at the largest `u64`.
pub open spec fn reinforced(strength: u64, budget: u16, scent: Scent, ratio: Ratio) -> int {
    capped(
        strength + budget + if scent == Scent::Colony {
            capped(share(strength as int, ratio.per_million as int))
        } else {
            0
        },
    )
}

/// The entities of the tile once an agent with `budget` left has strengthened
/// the trail of `scent`: the first marker of that scent is reinforced, where
/// there is one.
pub open spec fn enhanced_entities(budget: u16, scent: Scent, entities: Seq<Neighbor>, ratio: Ratio) -> Seq<
    Neighbor,
> {
    match first_of_kind(entities, Kind::Phero { scent }) {
        Some(index) => match entities[index] {
            Neighbor::Phero(phero) => entities.update(
                index,
                Neighbor::Phero(Phero { lifespan: reinforced(phero.lifespan, budget, scent, ratio) as u64, ..phero }),
            ),
            _ => entities,
        },
        None => entities,
    }
}

/// Whether an agent with `budget` left has a marker of `scent` to lay: the
/// tile holds none yet, and the budget is not spent.
pub open spec fn wants_to_deposit(budget: u16, scent: Scent, entities: Seq<Neighbor>) -> bool {
    !has_kind(entities, Kind::Phero { scent }) && budget > 0
}

/// Whether such an agent takes the lead of its tile: it has a marker to lay,
/// it shares the tile with other agents, and none of them leads.
pub open spec fn claims_lead(budget: u16, scent: Scent, entities: Seq<Neighbor>) -> bool {
    &&& wants_to_deposit(budget, scent, entities)
    &&& has_kind(entities, Kind::Ant)
    &&& !has_leader(entities)
}

/// The role of the agent once the lead of its tile is settled.
pub open spec fn role_after(state: State, budget: u16, scent: Scent, entities: Seq<Neighbor>) -> State {
    if claims_lead(budget, scent, entities) {
        State::Leader
    } else {
        state
    }
}

/// Whether the agent lays a new marker: it has one to lay, and it leads its
/// tile or has it to itself.
pub open spec fn deposits(state: State, budget: u16, scent: Scent, entities: Seq<Neighbor>) -> bool {
    &&& wants_to_deposit(budget, scent, entities)
    &&& (role_after(state, budget, scent, entities) == State::Leader || !has_kind(entities, Kind::Ant))
}

/// Whether a marker of the given strength is stronger than every marker of
/// `scent` on the ring, and than zero where the ring holds none.
pub open spec fn outshines(strength: u64, ring: Seq<Tile>, scent: Scent) -> bool {
    &&& strength > 0
    &&& forall|tile: int, index: int|
        0 <= tile < ring.len() && 0 <= index < ring[tile].entities@.len() && (
        #[trigger] ring[tile].entities@[index]).kind() == (Kind::Phero { scent })
            ==> ring[tile].entities@[index]->Phero_0.lifespan < strength
}

/// The entities of the tile once an agent of the given activity has wiped a
/// misleading trail: with no target in sight, the first marker of the scent
/// that leads to the target loses all its strength where it outshines the
/// ring.
pub open spec fn suppressed_entities(activity: Activity, entities: Seq<Neighbor>, ring: Seq<Tile>) -> Seq<
    Neighbor,
> {
    if has_kind(entities, activity.target_kind()) || ring_has_kind(ring, activity.target_kind()) {
        entities
    } else {
        match first_of_kind(entities, Kind::Phero { scent: activity.target_scent() }) {
            Some(index) => match entities[index] {
                Neighbor::Phero(phero) => if outshines(phero.lifespan, ring, activity.target_scent()) {
                    entities.update(index, Neighbor::Phero(Phero { lifespan: 0, ..phero }))
                } else {
                    entities
                },
                _ => entities,
            },
            None => entities,
        }
    }
}

/// The tile that an agent at `from` reaches when it heads for its nest by way
/// of the tile at `detour` from the nest.
pub open spec fn homeward_via(from: Location, nest: Location, detour: Offset, dimension: Dimension) -> Location {
    translated_towards(from, translated(nest, detour, dimension), dimension)
}

/// Whether `to` is a tile that an agent at `from` may reach when it heads for
/// its nest: it aims at a tile on a ring around the nest whose radius is less
/// than its distance from the nest, and at the nest itself once it is there.
pub open spec fn is_homeward(from: Location, nest: Location, dimension: Dimension, to: Location) -> bool {
    exists|detour: Offset|
        to == #[trigger] homeward_via(from, nest, detour, dimension) && (ring_of(detour) == 0 || ring_of(detour)
            < manhattan(from, nest))
}

/// Whether the tile at `offset` from `from` is one that the memory does not
/// hold.
pub open spec fn is_fresh(from: Location, memory: Seq<Location>, dimension: Dimension, offset: Offset) -> bool {
    !memory.contains(translated(from, offset, dimension))
}

/// Whether a tile next to `from` is one that the memory does not hold.
pub open spec fn has_fresh_tile(from: Location, memory: Seq<Location>, dimension: Dimension) -> bool {
    exists|offset: Offset| ring_of(offset) == 1 && #[trigger] is_fresh(from, memory, dimension, offset)
}

/// Whether `to` is a tile that an agent at `from` may reach when it wanders:
/// a tile next to it that it does not remember, where there is one, and else
/// any tile at most one step away, its own included.
pub open spec fn is_wander(from: Location, memory: Seq<Location>, dimension: Dimension, to: Location) -> bool {
    exists|offset: Offset|
        {
            &&& to == #[trigger] translated(from, offset, dimension)
            &&& -1 <= offset.x <= 1
            &&& -1 <= offset.y <= 1
            &&& has_fresh_tile(from, memory, dimension) ==> ring_of(offset) == 1 && is_fresh(
                from,
                memory,
                dimension,
                offset,
            )
        }
}

/// Whether an agent with `budget` left is lost on a tile with these entities:
/// it has nothing to lay, and no marker of any scent lies there.
pub open spec fn is_lost_at(budget: u16, entities: Seq<Neighbor>) -> bool {
    &&& budget == 0
    &&& !has_kind(entities, Kind::Phero { scent: Scent::Colony })
    &&& !has_kind(entities, Kind::Phero { scent: Scent::Food })
}

/// Whether the ring shows the agent a way to entities of `kind`: the first
/// tile with such an entity, or else the best tile with the scent that leads
/// to them.
pub open spec fn sees_way(ring: Seq<Tile>, memory: Seq<Location>, kind: Kind) -> bool {
    ||| ring_has_kind(ring, kind)
    ||| exists|tile: int| is_candidate(ring, memory, kind.scent().unwrap(), tile)
}

/// Whether `to` is the tile that the ring leads the agent to, one step from
/// `from`.
pub open spec fn is_way(
    ring: Seq<Tile>,
    memory: Seq<Location>,
    kind: Kind,
    from: Location,
    dimension: Dimension,
    to: Location,
) -> bool {
    if ring_has_kind(ring, kind) {
        exists|tile: int| #[trigger]
            is_first_tile_with(ring, kind, tile) && to == translated_towards(from, ring[tile].location, dimension)
    } else {
        exists|tile: int| #[trigger]
            is_best_candidate(ring, memory, kind.scent().unwrap(), tile) && to == translated_towards(
                from,
                ring[tile].location,
                dimension,
            )
    }
}

/// Whether `to` is where an agent may stand once it has moved towards entities
/// of `kind`: it stood at `from`, with the given nest, activity, budget and
/// memory, on a tile with `entities`, surrounded by `ring`.
pub open spec fn is_move(
    from: Location,
    nest: Location,
    dimension: Dimension,
    activity: Activity,
    budget: u16,
    memory: Seq<Location>,
    entities: Seq<Neighbor>,
    ring: Seq<Tile>,
    kind: Kind,
    to: Location,
) -> bool {
    if sees_way(ring, memory, kind) {
        is_way(ring, memory, kind, from, dimension, to)
    } else if activity == Activity::Carrying || is_lost_at(budget, entities) {
        is_homeward(from, nest, dimension, to)
    } else {
        is_wander(from, memory, dimension, to)
    }
}

/// The budget of an agent once it has settled what it found on its tile and
/// paid for this tick: refilled where the tile holds a nest or a morsel, then
/// decreased by the configured amount.
pub open spec fn budget_after(before: Ant, found: Seq<Neighbor>) -> u16 {
    decreased(
        if holds_target(found) {
            before.conf.ants.max_phero_concentration as int
        } else {
            before.phero_concentration.value() as int
        },
        before.conf.ants.phero_decrease as int,
    ) as u16
}

/// Whether `after` and `left` are an agent and its surroundings one tick after
/// `before` and `around`, a marker that the agent lays being given the
/// identity `fresh_id`.
///
/// The agent remembers its tile, settles the targets on it, strengthens or
/// lays its trail as a follower that may take the lead, wipes a misleading
/// trail, and moves.
pub open spec fn reacted(before: Ant, around: Neighborhood, fresh_id: Id, after: Ant, left: Neighborhood) -> bool {
    let found = around.center.entities@;
    let activity = assessed_activity(before.activity, found);
    let settled = assessed_entities(before.activity, found);
    let budget = budget_after(before, found);
    let scent = activity.scent();
    let enhanced = enhanced_entities(budget, scent, settled, before.conf.ants.phero_increase_ratio);
    &&& after.same_agent(before)
    &&& after.activity == activity
    &&& after.phero_concentration.value() == budget
    &&& after.memory@ == if switches(before.activity, found) {
        Seq::<Location>::empty()
    } else {
        remembered(before.memory@, before.memory.span(), before.location)
    }
    &&& after.state == role_after(State::Follower, budget, scent, settled)
    &&& after.offspring@ == if deposits(State::Follower, budget, scent, settled) {
        seq![Phero { id: fresh_id, scent, location: before.location, lifespan: budget as u64 }]
    } else {
        Seq::<Phero>::empty()
    }
    &&& left.ring == around.ring
    &&& left.center.location == around.center.location
    &&& left.center.entities@ == suppressed_entities(activity, enhanced, around.ring@)
    &&& is_move(
        before.location,
        before.nest_location,
        before.conf.dimension(),
        activity,
        budget,
        after.memory@,
        left.center.entities@,
        around.ring@,
        activity.target_kind(),
        after.location,
    )
}

/// Why an agent refuses to react.
#[derive(Clone, Copy, Debug, PartialEq, Eq, Structural)]
pub enum Error {
    /// A tile in sight holds more than one marker of one scent.
    DuplicateMarker,
    /// The marker that the agent laid in an earlier tick was not collected.
    PendingOffspring,
}

/// An agent of the colony.
pub struct Ant {
    pub id: Id,
    pub location: Location,
    pub nest_location: Location,
    pub scope: usize,
    pub activity: Activity,
    pub state: State,
    pub phero_concentration: Concentration,
    pub memory: LocationAwareness,
    pub offspring: Vec<Phero>,
    pub conf: Conf,
}

impl Ant {
    /// The agent stands on a usable grid, as does its nest, and its memory is
    /// in order.
    pub open spec fn wf(&self) -> bool {
        &&& self.conf.dimension().wf()
        &&& self.conf.dimension().holds(self.location)
        &&& self.conf.dimension().holds(self.nest_location)
        &&& self.memory.wf()
        &&& self.scope == 1
    }

    /// What no tick changes of an agent: its identity, its nest, its sensing
    /// radius, its configuration and the size of its memory.
    pub open spec fn same_agent(&self, before: Ant) -> bool {
        &&& self.id == before.id
        &&& self.nest_location == before.nest_location
        &&& self.scope == before.scope
        &&& self.conf == before.conf
        &&& self.memory.span() == before.memory.span()
    }

    /// Constructs a new agent located in its nest when born: it forages, it
    /// follows, its budget is full and its memory empty.
    pub fn new(id: Id, location: Location, conf: &Conf) -> (ant: Ant)
        requires
            conf.dimension().wf(),
            conf.dimension().holds(location),
        ensures
            ant.wf(),
            ant.id == id,
            ant.location == location,
            ant.nest_location == location,
            ant.scope == 1,
            ant.activity == Activity::Foraging,
            ant.state == State::Follower,
            ant.phero_concentration.value() == conf.ants.max_phero_concentration,
            ant.memory@ == Seq::<Location>::empty(),
            ant.memory.span() == conf.ants.memory_span,
            ant.offspring@ == Seq::<Phero>::empty(),
            ant.conf == *conf,
    {
        Ant {
            id,
            location,
            nest_location: location,
            scope: 1,
            activity: Activity::Foraging,
            state: State::Follower,
            phero_concentration: Concentration(conf.ants.max_phero_concentration),
            memory: LocationAwareness::new(conf.ants.memory_span),
            offspring: Vec::new(),
            conf: *conf,
        }
    }

    /// The identity of the agent.
    pub fn id(&self) -> (id: Id)
        ensures
            id == self.id,
    {
        self.id
    }

    /// The kind of the agent.
    pub fn kind(&self) -> (kind: Kind)
        ensures
            kind == Kind::Ant,
    {
        Kind::Ant
    }

    /// The tile on which the agent stands.
    pub fn location(&self) -> (location: Location)
        ensures
            location == self.location,
    {
        self.location
    }

    /// The sensing radius of the agent.
    pub fn scope(&self) -> (scope: usize)
        ensures
            scope == self.scope,
    {
        self.scope
    }

    /// The role of the agent as the agents on its tile see it.
    pub fn state(&self) -> (state: State)
        ensures
            state == self.state,
    {
        self.state
    }

    /// What the agent is after.
    pub fn activity(&self) -> (activity: Activity)
        ensures
            activity == self.activity,
    {
        self.activity
    }

    /// Lets the agent live through one tick in the given surroundings: see
    /// [`reacted`]. A marker that it lays gets the identity `fresh_id` and
    /// waits in its offspring.
    ///
    /// The agent refuses, and nothing changes, where a tile in sight holds two
    /// markers of one scent, or where its offspring of an earlier tick was not
    /// collected.
    pub fn react(&mut self, neighborhood: &mut Neighborhood, fresh_id: Id) -> (outcome: Result<(), Error>)
        requires
            old(self).wf(),
        ensures
            final(self).wf(),
            outcome is Ok <==> old(neighborhood).well_marked() && old(self).offspring@.len() == 0,
            outcome is Ok ==> reacted(*old(self), *old(neighborhood), fresh_id, *final(self), *final(neighborhood)),
            outcome is Ok ==> final(neighborhood).well_marked(),
            outcome matches Err(error) ==> {
                &&& *final(self) == *old(self)
                &&& *final(neighborhood) == *old(neighborhood)
                &&& error == if old(neighborhood).well_marked() {
                    Error::PendingOffspring
                } else {
                    Error::DuplicateMarker
                }
            },
    {
        if !neighborhood.is_well_marked() {
            return Err(Error::DuplicateMarker);
        }
        if self.offspring.len() > 0 {
            return Err(Error::PendingOffspring);
        }
        assert(self.offspring@ =~= Seq::<Phero>::empty());
        proof {
            let found = neighborhood.center.entities@;
            lemma_tick_keeps_kinds(
                self.activity,
                assessed_activity(self.activity, found),
                budget_after(*self, found),
                self.conf.ants.phero_increase_ratio,
                found,
                neighborhood.ring@,
            );
        }
        self.state = State::Follower;
        self.memory.insert(self.location);
        self.assess_location_for_targets(neighborhood);
        self.enhance_trail_pheromone(neighborhood, fresh_id);
        self.suppress_trail_pheromone(neighborhood);
        self.move_towards(self.activity.target_kind(), neighborhood);
        Ok(())
    }

    /// Hands out the marker that the agent laid during the last tick, if any,
    /// and leaves the agent without offspring.
    pub fn offspring(&mut self) -> (brood: Vec<Phero>)
        ensures
            brood@ == old(self).offspring@,
            final(self).offspring@ == Seq::<Phero>::empty(),
            final(self).same_agent(*old(self)),
            final(self).location == old(self).location,
            final(self).activity == old(self).activity,
            final(self).state == old(self).state,
            final(self).phero_concentration == old(self).phero_concentration,
            final(self).memory == old(self).memory,
    {
        let mut brood: Vec<Phero> = Vec::new();
        std::mem::swap(&mut self.offspring, &mut brood);
        brood
    }

    /// Settles one kind of target on the agent's tile. At the nest an agent
    /// that carries food stores it; at a morsel with supply left an agent that
    /// forages takes one unit. Either way it switches its activity and forgets
    /// where it has been. Any nest or morsel refills its budget.
    fn reach(&mut self, target: Kind, neighborhood: &mut Neighborhood)
        requires
            old(self).wf(),
            target == Kind::Nest || target == Kind::Morsel,
        ensures
            final(self).wf(),
            final(self).same_agent(*old(self)),
            final(self).location == old(self).location,
            final(self).state == old(self).state,
            final(self).offspring == old(self).offspring,
            final(neighborhood).ring == old(neighborhood).ring,
            final(neighborhood).center.location == old(neighborhood).center.location,
            final(self).activity == activity_past(old(self).activity, old(neighborhood).center.entities@, target),
            final(neighborhood).center.entities@ == entities_past(
                old(self).activity,
                old(neighborhood).center.entities@,
                target,
            ),
            final(self).phero_concentration.value() == if has_kind(old(neighborhood).center.entities@, target) {
                old(self).conf.ants.max_phero_concentration
            } else {
                old(self).phero_concentration.value()
            },
            final(self).memory@ == if stores_at(old(self).activity, old(neighborhood).center.entities@, target)
                || takes_at(old(self).activity, old(neighborhood).center.entities@, target) {
                Seq::<Location>::empty()
            } else {
                old(self).memory@
            },
    {
        let found = neighborhood.center.find_kind(target);
        if let Some(index) = found {
            let entity = neighborhood.center.entities[index];
            match entity {
                Neighbor::Nest(nest) => {
                    if self.activity == Activity::Carrying {
                        let mut nest = nest;
                        nest.state.store();
                        neighborhood.center.entities.set(index, Neighbor::Nest(nest));
                        self.activity.switch();
                        self.memory.clear();
                    }
                },
                Neighbor::Morsel(morsel) => {
                    if self.activity == Activity::Foraging && lifespan::is_alive(morsel.lifespan) {
                        if let Some(left) = lifespan::shortened(morsel.lifespan) {
                            let mut morsel = morsel;
                            morsel.lifespan = left;
                            neighborhood.center.entities.set(index, Neighbor::Morsel(morsel));
                            self.activity.switch();
                            self.memory.clear();
                        }
                    }
                },
                _ => {},
            }
            self.phero_concentration = Concentration(self.conf.ants.max_phero_concentration);
        }
    }

    /// Leaves the scent of the agent's activity on its tile. The budget falls
    /// by the configured amount. A marker of that scent on the tile is
    /// reinforced; where there is none and budget is left, the agent lays a new
    /// one with the given identity, unless it shares the tile with other
    /// agents and another one leads.
    pub fn enhance_trail_pheromone(&mut self, neighborhood: &mut Neighborhood, fresh_id: Id)
        requires
            old(self).wf(),
        ensures
            final(self).wf(),
            final(self).same_agent(*old(self)),
            final(self).location == old(self).location,
            final(self).activity == old(self).activity,
            final(self).memory@ == old(self).memory@,
            final(neighborhood).ring == old(neighborhood).ring,
            final(neighborhood).center.location == old(neighborhood).center.location,
            final(self).phero_concentration.value() == decreased(
                old(self).phero_concentration.value() as int,
                old(self).conf.ants.phero_decrease as int,
            ),
            final(neighborhood).center.entities@ == enhanced_entities(
                final(self).phero_concentration.value(),
                old(self).activity.scent(),
                old(neighborhood).center.entities@,
                old(self).conf.ants.phero_increase_ratio,
            ),
            final(self).state == role_after(
                old(self).state,
                final(self).phero_concentration.value(),
                old(self).activity.scent(),
                old(neighborhood).center.entities@,
            ),
            final(self).offspring@ == if deposits(
                old(self).state,
                final(self).phero_concentration.value(),
                old(self).activity.scent(),
                old(neighborhood).center.entities@,
            ) {
                old(self).offspring@.push(
                    Phero {
                        id: fresh_id,
                        scent: old(self).activity.scent(),
                        location: old(self).location,
                        lifespan: final(self).phero_concentration.value() as u64,
                    },
                )
            } else {
                old(self).offspring@
            },
    {
        self.phero_concentration.decrease_by(self.conf.ants.phero_decrease);
        let scent = self.activity.scent();
        let budget: u16 = self.phero_concentration.value();
        match neighborhood.center.find_kind(Kind::phero_with(scent)) {
            Some(index) => {
                match neighborhood.center.entities[index] {
                    Neighbor::Phero(phero) => {
                        let mut increase: u64 = budget as u64;
                        if scent == Scent::Colony {
                            increase = increase.saturating_add(self.conf.ants.phero_increase_ratio.of(phero.lifespan));
                        }
                        if let Some(grown) = lifespan::lengthened_by(phero.lifespan, increase) {
                            let mut phero = phero;
                            phero.lifespan = grown;
                            neighborhood.center.entities.set(index, Neighbor::Phero(phero));
                        }
                    },
                    _ => {},
                }
            },
            None => {
                if budget > 0 {
                    let is_in_community = neighborhood.center.contains_kind(Kind::Ant);
                    if is_in_community {
                        if !neighborhood.center.is_under_leader() {
                            self.state = State::Leader;
                        }
                    }
                    if self.state == State::Leader || !is_in_community {
                        self.offspring.push(Phero::new(fresh_id, scent, self.location, self.phero_concentration));
                    }
                }
            },
        }
    }

    /// Suppresses the marker found on the agent's tile where it may be part of
    /// a misleading trail: with no target in sight, a marker of the scent that
    /// leads to the target, stronger than any such marker on the ring, is
    /// cleared.
    pub fn suppress_trail_pheromone(&self, neighborhood: &mut Neighborhood)
        ensures
            final(neighborhood).ring == old(neighborhood).ring,
            final(neighborhood).center.location == old(neighborhood).center.location,
            final(neighborhood).center.entities@ == suppressed_entities(
                self.activity,
                old(neighborhood).center.entities@,
                old(neighborhood).ring@,
            ),
    {
        if neighborhood.contains_kind(self.activity.target_kind()) {
            return ;
        }
        let scent = self.activity.target_scent();
        let nearby: u64 = neighborhood.strongest_on_ring(scent);
        if let Some(index) = neighborhood.center.find_kind(Kind::phero_with(scent)) {
            match neighborhood.center.entities[index] {
                Neighbor::Phero(phero) => {
                    if phero.lifespan > nearby {
                        if let Some(left) = lifespan::cleared(phero.lifespan) {
                            let mut phero = phero;
                            phero.lifespan = left;
                            neighborhood.center.entities.set(index, Neighbor::Phero(phero));
                        }
                    } else {
                        proof {
                            lemma_strongest_outshone(phero.lifespan, neighborhood.ring@, scent, nearby);
                        }
                    }
                },
                _ => {},
            }
        }
    }

    /// Gets the location of the first tile of the ring that holds an entity of
    /// the given kind.
    pub fn get_location_with_kind(&self, kind: Kind, neighborhood: &Neighborhood) -> (found: Option<Location>)
        ensures
            found.is_some() == ring_has_kind(neighborhood.ring@, kind),
            found matches Some(location) ==> exists|tile: int| #[trigger]
                is_first_tile_with(neighborhood.ring@, kind, tile) && location == neighborhood.ring@[tile].location,
    {
        let mut tile: usize = 0;
        while tile < neighborhood.ring.len()
            invariant
                tile <= neighborhood.ring@.len(),
                forall|before: int|
                    0 <= before < tile ==> !has_kind((#[trigger] neighborhood.ring@[before]).entities@, kind),
            decreases neighborhood.ring@.len() - tile,
        {
            if neighborhood.ring[tile].contains_kind(kind) {
                assert(is_first_tile_with(neighborhood.ring@, kind, tile as int));
                return Some(neighborhood.ring[tile].location);
            }
            tile += 1;
        }
        None
    }

    /// Gets the location of the tile of the ring that carries the strongest
    /// marker of the given scent, tiles that the agent remembers left out. Of
    /// equally strong tiles the last one is taken.
    pub fn get_location_with_best_concentration_of(&self, scent: Scent, neighborhood: &Neighborhood) -> (found:
        Option<Location>)
        requires
            self.memory.wf(),
        ensures
            found.is_some() == exists|tile: int| is_candidate(neighborhood.ring@, self.memory@, scent, tile),
            found matches Some(location) ==> exists|tile: int| #[trigger]
                is_best_candidate(neighborhood.ring@, self.memory@, scent, tile) && location
                    == neighborhood.ring@[tile].location,
    {
        let ghost ring = neighborhood.ring@;
        let ghost memory = self.memory@;
        let mut best: Option<(usize, u64)> = None;
        let mut tile: usize = 0;
        while tile < neighborhood.ring.len()
            invariant
                ring == neighborhood.ring@,
                memory == self.memory@,
                self.memory.wf(),
                tile <= ring.len(),
                best is None ==> forall|other: int| 0 <= other < tile ==> !is_candidate(ring, memory, scent, other),
                best matches Some((place, strength)) ==> {
                    &&& place < tile
                    &&& is_candidate(ring, memory, scent, place as int)
                    &&& scent_among(ring[place as int].entities@, scent) == Some(strength)
                    &&& forall|other: int| #[trigger]
                        is_candidate(ring, memory, scent, other) && other < tile ==> {
                            &&& scent_among(ring[other].entities@, scent).unwrap() <= strength
                            &&& other > place ==> scent_among(ring[other].entities@, scent).unwrap() < strength
                        }
                },
            decreases ring.len() - tile,
        {
            if !self.memory.contains(neighborhood.ring[tile].location) {
                if let Some(strength) = neighborhood.ring[tile].strength_of(scent) {
                    let better = match best {
                        Some((_, other)) => strength >= other,
                        None => true,
                    };
                    if better {
                        best = Some((tile, strength));
                    }
                }
            }
            tile += 1;
        }
        match best {
            Some((place, _)) => {
                assert(is_best_candidate(ring, memory, scent, place as int));
                Some(neighborhood.ring[place].location)
            },
            None => None,
        }
    }

    /// Returns true only if the agent has no scent left to lay and no marker
    /// of any scent lies on its tile.
    pub fn is_lost(&self, neighborhood: &Neighborhood) -> (lost: bool)
        ensures
            lost == is_lost_at(self.phero_concentration.value(), neighborhood.center.entities@),
    {
        self.phero_concentration.value() == 0 && !neighborhood.center.contains_kind(
            Kind::phero_with(Scent::Colony),
        ) && !neighborhood.center.contains_kind(Kind::phero_with(Scent::Food))
    }

    /// Moves one step towards the tile that lies at `detour` from the nest.
    pub fn head_home(&mut self, detour: Offset)
        requires
            old(self).wf(),
        ensures
            final(self).wf(),
            final(self).same_agent(*old(self)),
            final(self).activity == old(self).activity,
            final(self).state == old(self).state,
            final(self).phero_concentration == old(self).phero_concentration,
            final(self).memory == old(self).memory,
            final(self).offspring == old(self).offspring,
            final(self).location == homeward_via(
                old(self).location,
                old(self).nest_location,
                detour,
                old(self).conf.dimension(),
            ),
    {
        let dimension = self.conf.dimension();
        let aim = translate(self.nest_location, detour, dimension);
        proof {
            lemma_translated_towards_on_grid(self.location, aim, dimension);
        }
        self.location = translate_towards(self.location, aim, dimension);
    }

    /// Moves towards the nest with an accuracy that grows as the agent comes
    /// nearer: it aims at a tile chosen at random on a ring around the nest,
    /// whose radius is chosen at random below the distance from the nest.
    pub fn move_towards_nest(&mut self)
        requires
            old(self).wf(),
        ensures
            final(self).wf(),
            final(self).same_agent(*old(self)),
            final(self).activity == old(self).activity,
            final(self).state == old(self).state,
            final(self).phero_concentration == old(self).phero_concentration,
            final(self).memory == old(self).memory,
            final(self).offspring == old(self).offspring,
            is_homeward(
                old(self).location,
                old(self).nest_location,
                old(self).conf.dimension(),
                final(self).location,
            ),
    {
        proof {
            lemma_distance_on_grid(self.location, self.nest_location, self.conf.dimension());
        }
        let distance: usize = manhattan_distance(self.location, self.nest_location);
        let radius: usize = if distance > 0 {
            random_between(0, distance as i32) as usize
        } else {
            0
        };
        let ring = border(radius);
        let mut offsets = ring;
        shuffle(&mut offsets);
        proof {
            vstd::seq_lib::to_multiset_len(ring@);
            vstd::seq_lib::to_multiset_len(offsets@);
        }
        let detour = offsets[0];
        proof {
            assert(offsets@.contains(detour));
            vstd::seq_lib::to_multiset_contains(ring@, detour);
            vstd::seq_lib::to_multiset_contains(offsets@, detour);
        }
        self.head_home(detour);
    }

    /// Gets the first of the given offsets that leads to a tile which the
    /// agent does not remember.
    pub fn pick_fresh(&self, offsets: &Vec<Offset>) -> (picked: Option<Offset>)
        requires
            self.wf(),
        ensures
            match picked {
                Some(offset) => exists|index: int|
                    {
                        &&& 0 <= index < offsets@.len()
                        &&& #[trigger] offsets@[index] == offset
                        &&& is_fresh(self.location, self.memory@, self.conf.dimension(), offset)
                        &&& forall|before: int|
                            0 <= before < index ==> !is_fresh(
                                self.location,
                                self.memory@,
                                self.conf.dimension(),
                                #[trigger] offsets@[before],
                            )
                    },
                None => forall|index: int|
                    0 <= index < offsets@.len() ==> !is_fresh(
                        self.location,
                        self.memory@,
                        self.conf.dimension(),
                        #[trigger] offsets@[index],
                    ),
            },
    {
        let dimension = self.conf.dimension();
        let mut index: usize = 0;
        while index < offsets.len()
            invariant
                self.wf(),
                dimension == self.conf.dimension(),
                index <= offsets@.len(),
                forall|before: int|
                    0 <= before < index ==> !is_fresh(
                        self.location,
                        self.memory@,
                        dimension,
                        #[trigger] offsets@[before],
                    ),
            decreases offsets@.len() - index,
        {
            let offset = offsets[index];
            if !self.memory.contains(translate(self.location, offset, dimension)) {
                return Some(offset);
            }
            index += 1;
        }
        None
    }

    /// Moves by the given offset.
    pub fn step(&mut self, offset: Offset)
        requires
            old(self).wf(),
        ensures
            final(self).wf(),
            final(self).same_agent(*old(self)),
            final(self).activity == old(self).activity,
            final(self).state == old(self).state,
            final(self).phero_concentration == old(self).phero_concentration,
            final(self).memory == old(self).memory,
            final(self).offspring == old(self).offspring,
            final(self).location == translated(old(self).location, offset, old(self).conf.dimension()),
    {
        proof {
            lemma_translated_on_grid(self.location, offset, self.conf.dimension());
        }
        self.location = translate(self.location, offset, self.conf.dimension());
    }

    /// Moves the agent at random by a single tile, to a tile next to it that
    /// it does not remember where there is one, and else to any tile at most
    /// one step away.
    pub fn move_randomly(&mut self)
        requires
            old(self).wf(),
        ensures
            final(self).wf(),
            final(self).same_agent(*old(self)),
            final(self).activity == old(self).activity,
            final(self).state == old(self).state,
            final(self).phero_concentration == old(self).phero_concentration,
            final(self).memory == old(self).memory,
            final(self).offspring == old(self).offspring,
            is_wander(
                old(self).location,
                old(self).memory@,
                old(self).conf.dimension(),
                final(self).location,
            ),
    {
        let ghost from = self.location;
        let ghost memory = self.memory@;
        let ghost dimension = self.conf.dimension();
        let ring = border(self.scope);
        let mut offsets = ring;
        shuffle(&mut offsets);
        let offset = match self.pick_fresh(&offsets) {
            Some(offset) => {
                proof {
                    assert(offsets@.contains(offset));
                    vstd::seq_lib::to_multiset_contains(ring@, offset);
                    vstd::seq_lib::to_multiset_contains(offsets@, offset);
                    assert(ring_of(offset) == 1);
                    assert(is_fresh(from, memory, dimension, offset));
                }
                offset
            },
            None => {
                proof {
                    assert forall|other: Offset| ring_of(other) == 1 implies !#[trigger] is_fresh(
                        from,
                        memory,
                        dimension,
                        other,
                    ) by {
                        vstd::seq_lib::to_multiset_contains(ring@, other);
                        vstd::seq_lib::to_multiset_contains(offsets@, other);
                        assert(ring@.contains(other));
                        let index = choose|index: int| 0 <= index < offsets@.len() && offsets@[index] == other;
                        assert(!is_fresh(from, memory, dimension, offsets@[index]));
                    }
                    assert(!has_fresh_tile(from, memory, dimension));
                }
                Offset { x: random_between(-1, 2), y: random_between(-1, 2) }
            },
        };
        self.step(offset);
        assert(self.location == translated(from, offset, dimension));
    }

    /// Moves one step towards entities of the given kind: to one in sight on
    /// the ring, else along the scent that leads to them, else homewards
    /// where the agent carries food or is lost, else at random.
    pub fn move_towards(&mut self, kind: Kind, neighborhood: &Neighborhood)
        requires
            old(self).wf(),
            kind.scent().is_some(),
        ensures
            final(self).wf(),
            final(self).same_agent(*old(self)),
            final(self).activity == old(self).activity,
            final(self).state == old(self).state,
            final(self).phero_concentration == old(self).phero_concentration,
            final(self).memory == old(self).memory,
            final(self).offspring == old(self).offspring,
            is_move(
                old(self).location,
                old(self).nest_location,
                old(self).conf.dimension(),
                old(self).activity,
                old(self).phero_concentration.value(),
                old(self).memory@,
                neighborhood.center.entities@,
                neighborhood.ring@,
                kind,
                final(self).location,
            ),
    {
        let sighted = self.get_location_with_kind(kind, neighborhood);
        let destination = match sighted {
            Some(location) => Some(location),
            None => match kind.scent() {
                Some(scent) => self.get_location_with_best_concentration_of(scent, neighborhood),
                None => None,
            },
        };
        if let Some(destination) = destination {
            proof {
                lemma_translated_towards_on_grid(self.location, destination, self.conf.dimension());
            }
            self.location = translate_towards(self.location, destination, self.conf.dimension());
        } else if self.activity == Activity::Carrying || self.is_lost(neighborhood) {
            self.move_towards_nest();
        } else {
            self.move_randomly();
        }
    }

    /// Checks if the agent stands on a target, the nest or a morsel, and takes
    /// action accordingly: see [`assessed_activity`] and [`assessed_entities`].
    pub fn assess_location_for_targets(&mut self, neighborhood: &mut Neighborhood)
        requires
            old(self).wf(),
        ensures
            final(self).wf(),
            final(self).same_agent(*old(self)),
            final(self).location == old(self).location,
            final(self).state == old(self).state,
            final(self).offspring == old(self).offspring,
            final(neighborhood).ring == old(neighborhood).ring,
            final(neighborhood).center.location == old(neighborhood).center.location,
            final(self).activity == assessed_activity(old(self).activity, old(neighborhood).center.entities@),
            final(neighborhood).center.entities@ == assessed_entities(
                old(self).activity,
                old(neighborhood).center.entities@,
            ),
            final(self).phero_concentration.value() == if holds_target(old(neighborhood).center.entities@) {
                old(self).conf.ants.max_phero_concentration
            } else {
                old(self).phero_concentration.value()
            },
            final(self).memory@ == if switches(old(self).activity, old(neighborhood).center.entities@) {
                Seq::<Location>::empty()
            } else {
                old(self).memory@
            },
    {
        proof {
            lemma_kinds_kept(old(self).activity, old(neighborhood).center.entities@, Kind::Nest);
        }
        self.reach(Kind::Nest, neighborhood);
        self.reach(Kind::Morsel, neighborhood);
    }
}

/// A marker that is no stronger than the strongest of the ring does not
/// outshine it.
proof fn lemma_strongest_outshone(strength: u64, ring: Seq<Tile>, scent: Scent, nearby: u64)
    requires
        is_strongest(ring, scent, nearby),
        strength <= nearby,
    ensures
        !outshines(strength, ring, scent),
{
}

/// Looking at a target kind changes no entity's kind: the tile holds the same
/// number of entities, each of the kind it had.
pub proof fn lemma_kinds_kept(activity: Activity, entities: Seq<Neighbor>, target: Kind)
    ensures
        entities_past(activity, entities, target).len() == entities.len(),
        forall|index: int|
            0 <= index < entities.len() ==> (#[trigger] entities_past(activity, entities, target)[index]).kind()
                == entities[index].kind(),
        forall|kind: Kind| has_kind(entities_past(activity, entities, target), kind) == has_kind(entities, kind),
{
    let past = entities_past(activity, entities, target);
    lemma_first_of_kind_is_first(entities, target);
    assert forall|index: int| 0 <= index < entities.len() implies (#[trigger] past[index]).kind()
        == entities[index].kind() by {}
    assert forall|kind: Kind| has_kind(past, kind) == has_kind(entities, kind) by {
        if has_kind(past, kind) {
            let i = choose|i: int| 0 <= i < past.len() && (#[trigger] past[i]).kind() == kind;
            assert(entities[i].kind() == kind);
        }
        if has_kind(entities, kind) {
            let i = choose|i: int| 0 <= i < entities.len() && (#[trigger] entities[i]).kind() == kind;
            assert(past[i].kind() == kind);
        }
    }
}

} // verus!
