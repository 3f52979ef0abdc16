//! Where the food is: in the morsels, on the way, or in the nest.
//!
//! An agent that takes a unit from a morsel carries it, and an agent that
//! carries one stores it in the nest: no tick makes or loses food. So the nest
//! never holds more than the morsels held at the start.

use vstd::prelude::*;

use crate::entity::ant::activity_past;
use crate::entity::ant::assessed_activity;
use crate::entity::ant::assessed_entities;
use crate::entity::ant::budget_after;
use crate::entity::ant::enhanced_entities;
use crate::entity::ant::entities_past;
use crate::entity::ant::holds_target;
use crate::entity::ant::reacted;
use crate::entity::ant::stores_at;
use crate::entity::ant::suppressed_entities;
use crate::entity::ant::switches;
use crate::entity::ant::takes_at;
use crate::entity::ant::Activity;
use crate::entity::ant::Ant;
use crate::entity::morsel::Morsel;
use crate::entity::nest::Nest;
use crate::entity::Id;
use crate::entity::Kind;
use crate::env::first_of_kind;
use crate::env::is_first_of_kind;
use crate::env::lemma_first_of_kind;
use crate::env::lemma_first_of_kind_is_first;
use crate::env::Neighbor;
use crate::env::Neighborhood;

verus! {

/// The units of food that an agent of the given activity carries.
pub open spec fn carried(activity: Activity) -> int {
    if activity == Activity::Carrying {
        1
    } else {
        0
    }
}

/// The units of food that the nest has stored, where the entity is the nest.
pub open spec fn stored_in(entity: Neighbor) -> int {
    match entity {
        Neighbor::Nest(nest) => nest.state.storage() as int,
        _ => 0,
    }
}

/// The units of food that the entity holds: the storage of the nest, the
/// supply of a morsel.
pub open spec fn food_in(entity: Neighbor) -> int {
    match entity {
        Neighbor::Nest(nest) => nest.state.storage() as int,
        Neighbor::Morsel(morsel) => morsel.lifespan as int,
        _ => 0,
    }
}

/// The units of food that the entities hold together.
pub open spec fn food_on(entities: Seq<Neighbor>) -> int
    decreases entities.len(),
{
    if entities.len() == 0 {
        0
    } else {
        food_on(entities.drop_last()) + food_in(entities.last())
    }
}

/// The units of food that the nests among the entities have stored.
pub open spec fn stored_on(entities: Seq<Neighbor>) -> int
    decreases entities.len(),
{
    if entities.len() == 0 {
        0
    } else {
        stored_on(entities.drop_last()) + stored_in(entities.last())
    }
}

/// Whether every nest among the entities has room for one unit more.
pub open spec fn has_room(entities: Seq<Neighbor>) -> bool {
    forall|index: int|
        0 <= index < entities.len() ==> (#[trigger] entities[index] matches Neighbor::Nest(nest)
            ==> nest.state.storage() < u64::MAX)
}

/// An entity that is replaced changes the food of the tile by what it gains.
proof fn lemma_food_on_update(entities: Seq<Neighbor>, index: int, entity: Neighbor)
    requires
        0 <= index < entities.len(),
    ensures
        food_on(entities.update(index, entity)) == food_on(entities) - food_in(entities[index]) + food_in(entity),
        stored_on(entities.update(index, entity)) == stored_on(entities) - stored_in(entities[index]) + stored_in(
            entity,
        ),
    decreases entities.len(),
{
    let updated = entities.update(index, entity);
    if index == entities.len() - 1 {
        assert(updated.drop_last() =~= entities.drop_last());
    } else {
        lemma_food_on_update(entities.drop_last(), index, entity);
        assert(updated.drop_last() =~= entities.drop_last().update(index, entity));
    }
}

/// Entities that differ in their markers only hold the same food.
proof fn lemma_food_apart_from_markers(before: Seq<Neighbor>, after: Seq<Neighbor>)
    requires
        after.len() == before.len(),
        forall|index: int|
            0 <= index < before.len() ==> #[trigger] after[index] == before[index] || (before[index] is Phero
                && after[index] is Phero),
    ensures
        food_on(after) == food_on(before),
        stored_on(after) == stored_on(before),
    decreases before.len(),
{
    if before.len() > 0 {
        assert(after.last() == after[after.len() - 1]);
        lemma_food_apart_from_markers(before.drop_last(), after.drop_last());
    }
}

/// Settling one kind of target moves food and neither makes nor loses any:
/// what the agent carries and what the tile holds add up as before, and the
/// nests hold no less than before.
proof fn lemma_reach_conserves_food(activity: Activity, entities: Seq<Neighbor>, target: Kind)
    requires
        has_room(entities),
    ensures
        carried(activity_past(activity, entities, target)) + food_on(entities_past(activity, entities, target))
            == carried(activity) + food_on(entities),
        stored_on(entities_past(activity, entities, target)) >= stored_on(entities),
{
    lemma_first_of_kind_is_first(entities, target);
    match first_of_kind(entities, target) {
        Some(index) => {
            match entities[index] {
                Neighbor::Nest(nest) => {
                    if stores_at(activity, entities, target) {
                        nest.state.lemma_restocked();
                        lemma_food_on_update(entities, index, entities_past(activity, entities, target)[index]);
                    }
                },
                Neighbor::Morsel(morsel) => {
                    if takes_at(activity, entities, target) {
                        lemma_first_of_kind_is_first(entities, Kind::Morsel);
                        lemma_food_on_update(entities, index, entities_past(activity, entities, target)[index]);
                    }
                },
                _ => {},
            }
        },
        None => {},
    }
}

/// An agent that settles what it found on its tile moves food and neither
/// makes nor loses any: what it carries and what the tile holds add up as
/// before, and the nest holds no less than before.
pub proof fn lemma_assess_conserves_food(activity: Activity, entities: Seq<Neighbor>)
    requires
        has_room(entities),
    ensures
        carried(assessed_activity(activity, entities)) + food_on(assessed_entities(activity, entities)) == carried(
            activity,
        ) + food_on(entities),
        stored_on(assessed_entities(activity, entities)) >= stored_on(entities),
{
    lemma_reach_conserves_food(activity, entities, Kind::Nest);
    let at_nest = entities_past(activity, entities, Kind::Nest);
    let then = activity_past(activity, entities, Kind::Nest);
    lemma_first_of_kind_is_first(at_nest, Kind::Morsel);
    match first_of_kind(at_nest, Kind::Morsel) {
        Some(index) => {
            if takes_at(then, at_nest, Kind::Morsel) {
                lemma_food_on_update(at_nest, index, entities_past(then, at_nest, Kind::Morsel)[index]);
            }
        },
        None => {},
    }
}

/// A tick of an agent moves food and neither makes nor loses any: what the
/// agent carries and what its tile holds add up as before the tick, and the
/// nest holds no less than before.
pub proof fn lemma_tick_conserves_food(before: Ant, around: Neighborhood, fresh_id: Id, after: Ant, left: Neighborhood)
    requires
        reacted(before, around, fresh_id, after, left),
        has_room(around.center.entities@),
    ensures
        carried(after.activity) + food_on(left.center.entities@) == carried(before.activity) + food_on(
            around.center.entities@,
        ),
        stored_on(left.center.entities@) >= stored_on(around.center.entities@),
{
    let found = around.center.entities@;
    let activity = assessed_activity(before.activity, found);
    let settled = assessed_entities(before.activity, found);
    let budget = budget_after(before, found);
    let ratio = before.conf.ants.phero_increase_ratio;
    let enhanced = enhanced_entities(budget, activity.scent(), settled, ratio);
    let wiped = suppressed_entities(activity, enhanced, around.ring@);
    lemma_assess_conserves_food(before.activity, found);
    lemma_first_of_kind_is_first(settled, Kind::Phero { scent: activity.scent() });
    lemma_food_apart_from_markers(settled, enhanced);
    lemma_first_of_kind_is_first(enhanced, Kind::Phero { scent: activity.target_scent() });
    lemma_food_apart_from_markers(enhanced, wiped);
}

/// A foraging agent on a tile whose first morsel has supply left takes exactly
/// one unit of it: it carries food afterwards, it switches, which empties its
/// memory, and it finds a target, which refills its budget; the morsel holds
/// one unit less and nothing else on the tile changes.
pub proof fn lemma_forager_takes_food(entities: Seq<Neighbor>, index: int, morsel: Morsel)
    requires
        is_first_of_kind(entities, Kind::Morsel, index),
        entities[index] == Neighbor::Morsel(morsel),
        morsel.lifespan > 0,
    ensures
        assessed_activity(Activity::Foraging, entities) == Activity::Carrying,
        switches(Activity::Foraging, entities),
        holds_target(entities),
        assessed_entities(Activity::Foraging, entities) == entities.update(
            index,
            Neighbor::Morsel(Morsel { lifespan: (morsel.lifespan - 1) as u64, ..morsel }),
        ),
{
    lemma_first_of_kind(entities, Kind::Morsel, index);
    lemma_first_of_kind_is_first(entities, Kind::Nest);
}

/// A foraging agent takes no food from a tile without a morsel, or whose first
/// morsel is spent: it forages on, and nothing on the tile changes.
pub proof fn lemma_forager_finds_no_food(entities: Seq<Neighbor>)
    requires
        first_of_kind(entities, Kind::Morsel) matches Some(index) ==> entities[index] matches Neighbor::Morsel(morsel)
            ==> morsel.lifespan == 0,
    ensures
        assessed_activity(Activity::Foraging, entities) == Activity::Foraging,
        !switches(Activity::Foraging, entities),
        assessed_entities(Activity::Foraging, entities) == entities,
{
    lemma_first_of_kind_is_first(entities, Kind::Nest);
    lemma_first_of_kind_is_first(entities, Kind::Morsel);
}

/// An agent that carries food onto the tile of the nest stores it: the nest
/// holds one unit more, up to the largest `u64`, the agent switches, which
/// empties its memory, and its budget is refilled. On a tile without a morsel
/// it forages afterwards, and nothing else on the tile changes.
pub proof fn lemma_carrier_stores_food(entities: Seq<Neighbor>, index: int, nest: Nest)
    requires
        is_first_of_kind(entities, Kind::Nest, index),
        entities[index] == Neighbor::Nest(nest),
        first_of_kind(entities, Kind::Morsel) is None,
    ensures
        assessed_activity(Activity::Carrying, entities) == Activity::Foraging,
        switches(Activity::Carrying, entities),
        holds_target(entities),
        assessed_entities(Activity::Carrying, entities) == entities.update(
            index,
            Neighbor::Nest(Nest { state: nest.state.restocked(), ..nest }),
        ),
{
    lemma_first_of_kind(entities, Kind::Nest, index);
    let at_nest = entities_past(Activity::Carrying, entities, Kind::Nest);
    lemma_first_of_kind_is_first(entities, Kind::Morsel);
    lemma_first_of_kind_is_first(at_nest, Kind::Morsel);
    match first_of_kind(at_nest, Kind::Morsel) {
        Some(found) => {
            assert(entities[found].kind() == Kind::Morsel);
        },
        None => {},
    }
}

/// A count of the food of a whole simulation.
pub struct Census {
    /// What the nest has stored.
    pub stored: nat,
    /// What the agents carry.
    pub carried: nat,
    /// What is left in the morsels.
    pub supply: nat,
}

impl Census {
    /// All the food there is.
    pub open spec fn total(self) -> nat {
        self.stored + self.carried + self.supply
    }
}

/// Whether every count of the sequence shows as much food as the one before
/// it, and a nest that holds no less.
pub open spec fn conserves(counts: Seq<Census>) -> bool {
    forall|tick: int|
        0 < tick < counts.len() ==> (#[trigger] counts[tick]).total() == counts[tick - 1].total()
            && counts[tick].stored >= counts[tick - 1].stored
}

/// While every tick conserves the food, the nest never holds less than before
/// and never more than all the food there was at the start; in a simulation
/// that starts with an empty nest and agents that carry nothing, that is the
/// supply of the morsels at the start.
pub proof fn lemma_storage_bounded_by_supply(counts: Seq<Census>, tick: int)
    requires
        conserves(counts),
        0 <= tick < counts.len(),
    ensures
        counts[tick].total() == counts[0].total(),
        counts[tick].stored >= counts[0].stored,
        counts[tick].stored <= counts[0].total(),
        counts[0].stored == 0 && counts[0].carried == 0 ==> counts[tick].stored <= counts[0].supply,
    decreases tick,
{
    if tick > 0 {
        lemma_storage_bounded_by_supply(counts, tick - 1);
    }
}

} // verus!
