//! Who lays the marker when several agents share a tile.
//!
//! An agent that finds no marker of its scent on its tile lays one only if it
//! has the tile to itself or leads the agents on it, and it takes the lead only
//! if none of them leads. The laws below state what follows: of the agents on
//! one tile at most one lays a marker in a tick, and a tile never comes to hold
//! two markers of one scent.

use vstd::prelude::*;

use crate::entity::ant::assessed_entities;
use crate::entity::ant::claims_lead;
use crate::entity::ant::deposits;
use crate::entity::ant::enhanced_entities;
use crate::entity::ant::entities_past;
use crate::entity::ant::role_after;
use crate::entity::ant::suppressed_entities;
use crate::entity::ant::Activity;
use crate::entity::ant::State;
use crate::entity::phero::Phero;
use crate::entity::phero::Scent;
use crate::entity::Kind;
use crate::env::first_of_kind;
use crate::env::has_kind;
use crate::env::has_leader;
use crate::env::lemma_first_of_kind_is_first;
use crate::env::markers_unique;
use crate::env::Neighbor;
use crate::env::Tile;
use crate::game::conf::Ratio;

verus! {

/// An agent that lays a marker on a tile that it shares with other agents
/// leads the tile afterwards.
pub proof fn lemma_writer_leads(state: State, budget: u16, scent: Scent, entities: Seq<Neighbor>)
    requires
        deposits(state, budget, scent, entities),
        has_kind(entities, Kind::Ant),
    ensures
        role_after(state, budget, scent, entities) == State::Leader,
{
}

/// An agent that sees a leader on its tile neither takes the lead nor lays a
/// marker, starting the tick as a follower.
pub proof fn lemma_led_agent_keeps_quiet(budget: u16, scent: Scent, entities: Seq<Neighbor>)
    requires
        has_leader(entities),
    ensures
        !claims_lead(budget, scent, entities),
        !deposits(State::Follower, budget, scent, entities),
        role_after(State::Follower, budget, scent, entities) == State::Follower,
{
    let index = choose|index: int|
        0 <= index < entities.len() && #[trigger] entities[index] == Neighbor::Ant(State::Leader);
    assert(entities[index].kind() == Kind::Ant);
}

/// Of two agents on one tile that react in turn during one tick, at most one
/// lays a marker: the second sees the first with the role that the first was
/// left with, and the first sees the second at all.
pub proof fn lemma_single_writer(
    first_state: State,
    first_budget: u16,
    first_scent: Scent,
    first_view: Seq<Neighbor>,
    second_budget: u16,
    second_scent: Scent,
    second_view: Seq<Neighbor>,
)
    requires
        has_kind(first_view, Kind::Ant),
        second_view.contains(Neighbor::Ant(role_after(first_state, first_budget, first_scent, first_view))),
    ensures
        !(deposits(first_state, first_budget, first_scent, first_view) && deposits(
            State::Follower,
            second_budget,
            second_scent,
            second_view,
        )),
{
    if deposits(first_state, first_budget, first_scent, first_view) {
        lemma_writer_leads(first_state, first_budget, first_scent, first_view);
        let index = choose|index: int|
            0 <= index < second_view.len() && second_view[index] == Neighbor::Ant(State::Leader);
        assert(second_view[index] == Neighbor::Ant(State::Leader));
        lemma_led_agent_keeps_quiet(second_budget, second_scent, second_view);
    }
}

/// Of two foraging agents that share a tile without a colony marker and
/// without a leader, each with budget left, exactly one lays a marker: the one
/// that reacts first.
pub proof fn lemma_first_of_two_writes(
    first_budget: u16,
    first_view: Seq<Neighbor>,
    second_budget: u16,
    second_view: Seq<Neighbor>,
)
    requires
        first_budget > 0,
        second_budget > 0,
        has_kind(first_view, Kind::Ant),
        !has_leader(first_view),
        !has_kind(first_view, Kind::Phero { scent: Scent::Colony }),
        !has_kind(second_view, Kind::Phero { scent: Scent::Colony }),
        second_view.contains(
            Neighbor::Ant(role_after(State::Follower, first_budget, Activity::Foraging.scent(), first_view)),
        ),
    ensures
        deposits(State::Follower, first_budget, Activity::Foraging.scent(), first_view),
        !deposits(State::Follower, second_budget, Activity::Foraging.scent(), second_view),
{
    lemma_single_writer(
        State::Follower,
        first_budget,
        Scent::Colony,
        first_view,
        second_budget,
        Scent::Colony,
        second_view,
    );
}

/// What an agent brings to the settling of the lead: the budget it has left
/// once it has paid for the tick, and the scent of its activity.
pub struct Turn {
    pub budget: u16,
    pub scent: Scent,
}

/// The agents that share a tile as one of them sees them, each with its role.
pub open spec fn peers(roles: Seq<State>, agent: int) -> Seq<Neighbor> {
    Seq::new(
        (roles.len() - 1) as nat,
        |peer: int|
            Neighbor::Ant(
                if peer < agent {
                    roles[peer]
                } else {
                    roles[peer + 1]
                },
            ),
    )
}

/// The tile as one of the agents on it sees it: what lies on the tile, and the
/// other agents.
pub open spec fn view_of(tile: Seq<Neighbor>, roles: Seq<State>, agent: int) -> Seq<Neighbor> {
    tile + peers(roles, agent)
}

/// The roles of the agents on a tile once the first `done` of them have
/// reacted in turn: each starts as a follower and takes the lead where
/// [`role_after`] says so; the others keep the role they had.
pub open spec fn roles_after(tile: Seq<Neighbor>, roles: Seq<State>, turns: Seq<Turn>, done: nat) -> Seq<State>
    decreases done,
{
    if done == 0 {
        roles
    } else {
        let so_far = roles_after(tile, roles, turns, (done - 1) as nat);
        let agent = done - 1;
        so_far.update(
            agent,
            role_after(State::Follower, turns[agent].budget, turns[agent].scent, view_of(tile, so_far, agent)),
        )
    }
}

/// Whether the agent lays a marker when the agents of the tile react in turn.
pub open spec fn writes(tile: Seq<Neighbor>, roles: Seq<State>, turns: Seq<Turn>, agent: int) -> bool {
    deposits(
        State::Follower,
        turns[agent].budget,
        turns[agent].scent,
        view_of(tile, roles_after(tile, roles, turns, agent as nat), agent),
    )
}

/// The agents that have not reacted yet have the role they started with, and
/// there are as many roles as before.
proof fn lemma_roles_after_frame(tile: Seq<Neighbor>, roles: Seq<State>, turns: Seq<Turn>, done: nat)
    requires
        done <= roles.len(),
    ensures
        roles_after(tile, roles, turns, done).len() == roles.len(),
        forall|agent: int| done <= agent < roles.len() ==> roles_after(tile, roles, turns, done)[agent] == roles[agent],
    decreases done,
{
    if done > 0 {
        lemma_roles_after_frame(tile, roles, turns, (done - 1) as nat);
    }
}

/// An agent keeps the role that its own reaction left it with while the agents
/// after it react.
proof fn lemma_role_stays(tile: Seq<Neighbor>, roles: Seq<State>, turns: Seq<Turn>, agent: int, done: nat)
    requires
        0 <= agent < done <= roles.len(),
    ensures
        roles_after(tile, roles, turns, done)[agent] == roles_after(tile, roles, turns, (agent + 1) as nat)[agent],
    decreases done,
{
    lemma_roles_after_frame(tile, roles, turns, (done - 1) as nat);
    if done > agent + 1 {
        lemma_role_stays(tile, roles, turns, agent, (done - 1) as nat);
    }
}

/// However many agents share a tile and whatever roles an earlier tick left
/// them with, of those that react in turn during one tick at most one lays a
/// marker.
pub proof fn lemma_one_writer_per_tile(
    tile: Seq<Neighbor>,
    roles: Seq<State>,
    turns: Seq<Turn>,
    first: int,
    second: int,
)
    requires
        roles.len() == turns.len(),
        0 <= first < second < roles.len(),
    ensures
        !(writes(tile, roles, turns, first) && writes(tile, roles, turns, second)),
{
    if writes(tile, roles, turns, first) {
        let before = roles_after(tile, roles, turns, first as nat);
        lemma_roles_after_frame(tile, roles, turns, first as nat);
        let seen = view_of(tile, before, first);
        assert(seen[tile.len() as int] == peers(before, first)[0]);
        assert(seen[tile.len() as int].kind() == Kind::Ant);
        lemma_writer_leads(State::Follower, turns[first].budget, turns[first].scent, seen);
        let then = roles_after(tile, roles, turns, second as nat);
        lemma_role_stays(tile, roles, turns, first, second as nat);
        lemma_roles_after_frame(tile, roles, turns, second as nat);
        assert(roles_after(tile, roles, turns, (first + 1) as nat)[first] == State::Leader);
        let later = view_of(tile, then, second);
        assert(later[tile.len() + first] == peers(then, second)[first]);
        assert(later[tile.len() + first] == Neighbor::Ant(State::Leader));
        lemma_led_agent_keeps_quiet(turns[second].budget, turns[second].scent, later);
    }
}

/// A marker is laid only on a tile that holds none of its scent, so a tile
/// with at most one marker of each scent stays so when the marker joins it.
pub proof fn lemma_deposit_keeps_markers_unique(
    state: State,
    budget: u16,
    scent: Scent,
    entities: Seq<Neighbor>,
    marker: Phero,
)
    requires
        markers_unique(entities),
        deposits(state, budget, scent, entities),
        marker.scent == scent,
    ensures
        markers_unique(entities.push(Neighbor::Phero(marker))),
{
    let joined = entities.push(Neighbor::Phero(marker));
    assert forall|i: int, j: int|
        0 <= i < j < joined.len() && (#[trigger] joined[i]) is Phero && (#[trigger] joined[j]) is Phero implies joined[i]->Phero_0.scent
        != joined[j]->Phero_0.scent by {
        if j == entities.len() {
            if entities[i]->Phero_0.scent == scent {
                assert(entities[i].kind() == (Kind::Phero { scent }));
            }
        } else {
            assert(entities[i] is Phero && entities[j] is Phero);
        }
    }
}

/// Whether two tiles hold entities of the same kinds at the same places.
pub open spec fn same_kinds(before: Seq<Neighbor>, after: Seq<Neighbor>) -> bool {
    &&& after.len() == before.len()
    &&& forall|index: int| 0 <= index < before.len() ==> (#[trigger] after[index]).kind() == before[index].kind()
}

/// A tile whose entities keep their kinds keeps at most one marker of each
/// scent.
pub proof fn lemma_same_kinds_keep_markers_unique(before: Seq<Neighbor>, after: Seq<Neighbor>)
    requires
        markers_unique(before),
        same_kinds(before, after),
    ensures
        markers_unique(after),
{
    assert forall|i: int, j: int|
        0 <= i < j < after.len() && (#[trigger] after[i]) is Phero && (#[trigger] after[j]) is Phero implies after[i]->Phero_0.scent
        != after[j]->Phero_0.scent by {
        assert(after[i].kind() == before[i].kind());
        assert(after[j].kind() == before[j].kind());
        assert(before[i] is Phero && before[j] is Phero);
    }
}

/// Whatever an agent does to the entities of its tile during a tick leaves
/// each of them of its kind: it adds none, removes none, and changes no
/// marker's scent. So a tile with at most one marker of each scent stays so.
pub proof fn lemma_tick_keeps_kinds(
    activity: Activity,
    after: Activity,
    budget: u16,
    ratio: Ratio,
    entities: Seq<Neighbor>,
    ring: Seq<Tile>,
)
    ensures
        same_kinds(entities, assessed_entities(activity, entities)),
        same_kinds(entities, enhanced_entities(budget, after.scent(), assessed_entities(activity, entities), ratio)),
        same_kinds(
            entities,
            suppressed_entities(
                after,
                enhanced_entities(budget, after.scent(), assessed_entities(activity, entities), ratio),
                ring,
            ),
        ),
        markers_unique(entities) ==> markers_unique(
            suppressed_entities(
                after,
                enhanced_entities(budget, after.scent(), assessed_entities(activity, entities), ratio),
                ring,
            ),
        ),
{
    let at_nest = entities_past(activity, entities, Kind::Nest);
    lemma_first_of_kind_is_first(entities, Kind::Nest);
    assert(same_kinds(entities, at_nest));
    let settled = assessed_entities(activity, entities);
    lemma_first_of_kind_is_first(at_nest, Kind::Morsel);
    assert(same_kinds(at_nest, settled));
    assert(same_kinds(entities, settled));
    let enhanced = enhanced_entities(budget, after.scent(), settled, ratio);
    lemma_first_of_kind_is_first(settled, Kind::Phero { scent: after.scent() });
    assert(same_kinds(settled, enhanced));
    assert(same_kinds(entities, enhanced));
    let left = suppressed_entities(after, enhanced, ring);
    lemma_first_of_kind_is_first(enhanced, Kind::Phero { scent: after.target_scent() });
    assert(same_kinds(enhanced, left));
    assert(same_kinds(entities, left));
    if markers_unique(entities) {
        lemma_same_kinds_keep_markers_unique(entities, left);
    }
}

} // verus!
