//! What an agent sees of the environment during one tick: its own tile and the
//! ring of tiles around it, with the entities that occupy them.

use vstd::prelude::*;

use crate::entity::ant::State;
use crate::entity::morsel::Morsel;
use crate::entity::nest::Nest;
use crate::entity::phero::Phero;
use crate::entity::phero::Scent;
use crate::entity::Kind;
use crate::space::Location;

verus! {

/// An entity as another entity sees it on a tile: its kind, with what agents
/// read or change of an entity of that kind.
#[derive(Clone, Copy, Debug)]
pub enum Neighbor {
    /// A scent marker, whose strength agents raise and clear.
    Phero(Phero),
    /// The nest, whose storage agents fill.
    Nest(Nest),
    /// A morsel, whose supply agents deplete.
    Morsel(Morsel),
    /// Another agent, of which only its role of this tick is seen.
    Ant(State),
}

impl Neighbor {
    /// The kind of the entity.
    pub open spec fn spec_kind(&self) -> Kind {
        match self {
            Neighbor::Phero(phero) => Kind::Phero { scent: phero.scent },
            Neighbor::Nest(_) => Kind::Nest,
            Neighbor::Morsel(_) => Kind::Morsel,
            Neighbor::Ant(_) => Kind::Ant,
        }
    }

    /// Gets the kind of the entity.
    #[verifier::when_used_as_spec(spec_kind)]
    pub fn kind(&self) -> (kind: Kind)
        ensures
            kind == self.spec_kind(),
    {
        match self {
            Neighbor::Phero(phero) => Kind::Phero { scent: phero.scent },
            Neighbor::Nest(_) => Kind::Nest,
            Neighbor::Morsel(_) => Kind::Morsel,
            Neighbor::Ant(_) => Kind::Ant,
        }
    }

    /// The remaining lifetime of the entity, where its kind has one: the
    /// strength of a marker, the supply of a morsel.
    pub open spec fn spec_lifespan(&self) -> Option<u64> {
        match self {
            Neighbor::Phero(phero) => Some(phero.lifespan),
            Neighbor::Morsel(morsel) => Some(morsel.lifespan),
            _ => None,
        }
    }

    /// Gets the remaining lifetime of the entity, where its kind has one.
    #[verifier::when_used_as_spec(spec_lifespan)]
    pub fn lifespan(&self) -> (lifespan: Option<u64>)
        ensures
            lifespan == self.spec_lifespan(),
    {
        match self {
            Neighbor::Phero(phero) => Some(phero.lifespan),
            Neighbor::Morsel(morsel) => Some(morsel.lifespan),
            _ => None,
        }
    }
}

/// Whether `index` is the place of the first entity of the given kind.
pub open spec fn is_first_of_kind(entities: Seq<Neighbor>, kind: Kind, index: int) -> bool {
    &&& 0 <= index < entities.len()
    &&& entities[index].kind() == kind
    &&& forall|before: int| 0 <= before < index ==> (#[trigger] entities[before]).kind() != kind
}

/// Whether some entity is of the given kind.
pub open spec fn has_kind(entities: Seq<Neighbor>, kind: Kind) -> bool {
    exists|index: int| 0 <= index < entities.len() && (#[trigger] entities[index]).kind() == kind
}

/// The place of the first entity of the given kind, where there is one.
pub open spec fn first_of_kind(entities: Seq<Neighbor>, kind: Kind) -> Option<int> {
    if has_kind(entities, kind) {
        Some(choose|index: int| is_first_of_kind(entities, kind, index))
    } else {
        None
    }
}

/// The first entity of a kind is the only one that is the first.
pub proof fn lemma_first_of_kind(entities: Seq<Neighbor>, kind: Kind, index: int)
    requires
        is_first_of_kind(entities, kind, index),
    ensures
        first_of_kind(entities, kind) == Some(index),
{
    assert(entities[index].kind() == kind);
    let chosen = choose|i: int| is_first_of_kind(entities, kind, i);
    assert(is_first_of_kind(entities, kind, chosen));
    if chosen < index {
        assert(entities[chosen].kind() != kind);
    }
    if index < chosen {
        assert(entities[index].kind() != kind);
    }
}

/// What `first_of_kind` finds is the first entity of the kind.
pub proof fn lemma_first_of_kind_is_first(entities: Seq<Neighbor>, kind: Kind)
    ensures
        match first_of_kind(entities, kind) {
            Some(index) => is_first_of_kind(entities, kind, index),
            None => forall|index: int| 0 <= index < entities.len() ==> (#[trigger] entities[index]).kind() != kind,
        },
{
    if has_kind(entities, kind) {
        let some = choose|index: int| 0 <= index < entities.len() && (#[trigger] entities[index]).kind() == kind;
        lemma_some_first_of_kind(entities, kind, some);
    }
}

/// Where an entity of the kind stands at `index`, one of them is the first.
proof fn lemma_some_first_of_kind(entities: Seq<Neighbor>, kind: Kind, index: int)
    requires
        0 <= index < entities.len(),
        entities[index].kind() == kind,
    ensures
        exists|first: int| is_first_of_kind(entities, kind, first),
    decreases index,
{
    if exists|before: int| 0 <= before < index && (#[trigger] entities[before]).kind() == kind {
        let before = choose|before: int| 0 <= before < index && (#[trigger] entities[before]).kind() == kind;
        lemma_some_first_of_kind(entities, kind, before);
    } else {
        assert(is_first_of_kind(entities, kind, index));
    }
}

/// At most one marker of each scent.
pub open spec fn markers_unique(entities: Seq<Neighbor>) -> bool {
    forall|i: int, j: int|
        0 <= i < j < entities.len() && (#[trigger] entities[i]) is Phero && (#[trigger] entities[j]) is Phero
            ==> entities[i]->Phero_0.scent != entities[j]->Phero_0.scent
}

/// Whether an agent that holds the role of leader is among the entities.
pub open spec fn has_leader(entities: Seq<Neighbor>) -> bool {
    exists|index: int| 0 <= index < entities.len() && #[trigger] entities[index] == Neighbor::Ant(State::Leader)
}

/// The strength of the first marker of the given scent among the entities,
/// where there is one.
pub open spec fn scent_among(entities: Seq<Neighbor>, scent: Scent) -> Option<u64> {
    match first_of_kind(entities, Kind::Phero { scent }) {
        Some(index) => entities[index].lifespan(),
        None => None,
    }
}

/// A tile of the environment as one agent sees it: its location and the
/// entities on it, the agent itself left out.
#[derive(Debug)]
pub struct Tile {
    pub location: Location,
    pub entities: Vec<Neighbor>,
}

impl Tile {
    /// Gets the place of the first entity of the given kind on this tile.
    pub fn find_kind(&self, kind: Kind) -> (found: Option<usize>)
        ensures
            match found {
                Some(index) => is_first_of_kind(self.entities@, kind, index as int),
                None => !has_kind(self.entities@, kind),
            },
            found.is_some() == has_kind(self.entities@, kind),
            match found {
                Some(index) => first_of_kind(self.entities@, kind) == Some(index as int),
                None => first_of_kind(self.entities@, kind) == None::<int>,
            },
    {
        let mut index: usize = 0;
        while index < self.entities.len()
            invariant
                index <= self.entities@.len(),
                forall|before: int| 0 <= before < index ==> (#[trigger] self.entities@[before]).kind() != kind,
            decreases self.entities@.len() - index,
        {
            if self.entities[index].kind() == kind {
                proof {
                    lemma_first_of_kind(self.entities@, kind, index as int);
                }
                return Some(index);
            }
            index += 1;
        }
        None
    }

    /// Gets the strength of the first marker of the given scent on this tile.
    pub fn strength_of(&self, scent: Scent) -> (strength: Option<u64>)
        ensures
            strength == scent_among(self.entities@, scent),
            strength.is_some() == has_kind(self.entities@, Kind::Phero { scent }),
    {
        match self.find_kind(Kind::Phero { scent }) {
            Some(index) => self.entities[index].lifespan(),
            None => None,
        }
    }

    /// Returns true only if this tile holds an entity of the given kind.
    pub fn contains_kind(&self, kind: Kind) -> (found: bool)
        ensures
            found == has_kind(self.entities@, kind),
    {
        self.find_kind(kind).is_some()
    }

    /// Returns true only if an agent on this tile holds the role of leader.
    pub fn is_under_leader(&self) -> (led: bool)
        ensures
            led == has_leader(self.entities@),
    {
        let mut index: usize = 0;
        while index < self.entities.len()
            invariant
                index <= self.entities@.len(),
                forall|before: int|
                    0 <= before < index ==> #[trigger] self.entities@[before] != Neighbor::Ant(State::Leader),
            decreases self.entities@.len() - index,
        {
            let leads = match self.entities[index] {
                Neighbor::Ant(State::Leader) => true,
                _ => false,
            };
            if leads {
                return true;
            }
            index += 1;
        }
        false
    }

    /// Returns true only if this tile holds at most one marker of each scent.
    pub fn has_unique_markers(&self) -> (unique: bool)
        ensures
            unique == markers_unique(self.entities@),
    {
        let mut colony: bool = false;
        let mut food: bool = false;
        let mut index: usize = 0;
        while index < self.entities.len()
            invariant
                index <= self.entities@.len(),
                markers_unique(self.entities@.take(index as int)),
                colony == has_kind(self.entities@.take(index as int), Kind::Phero { scent: Scent::Colony }),
                food == has_kind(self.entities@.take(index as int), Kind::Phero { scent: Scent::Food }),
            decreases self.entities@.len() - index,
        {
            let ghost seen = self.entities@.take(index as int);
            let ghost grown = self.entities@.take(index + 1);
            assert(forall|i: int| 0 <= i < index ==> grown[i] == seen[i]);
            assert(grown[index as int] == self.entities@[index as int]);
            match self.entities[index] {
                Neighbor::Phero(phero) => {
                    let again = match phero.scent {
                        Scent::Colony => colony,
                        Scent::Food => food,
                    };
                    if again {
                        proof {
                            let other = choose|i: int|
                                0 <= i < seen.len() && (#[trigger] seen[i]).kind() == (Kind::Phero {
                                    scent: phero.scent,
                                });
                            assert(self.entities@[other] == seen[other]);
                            assert(self.entities@[other] is Phero && self.entities@[index as int] is Phero);
                        }
                        return false;
                    }
                    match phero.scent {
                        Scent::Colony => {
                            colony = true;
                        },
                        Scent::Food => {
                            food = true;
                        },
                    }
                },
                _ => {},
            }
            proof {
                assert forall|i: int, j: int|
                    0 <= i < j < grown.len() && (#[trigger] grown[i]) is Phero && (#[trigger] grown[j]) is Phero implies grown[i]->Phero_0.scent
                    != grown[j]->Phero_0.scent by {
                    if j == index {
                        assert(seen[i].kind() == (Kind::Phero { scent: grown[i]->Phero_0.scent }));
                    } else {
                        assert(seen[i] is Phero && seen[j] is Phero);
                    }
                }
                lemma_has_kind_grows(self.entities@, index as int, Kind::Phero { scent: Scent::Colony });
                lemma_has_kind_grows(self.entities@, index as int, Kind::Phero { scent: Scent::Food });
            }
            index += 1;
        }
        assert(self.entities@.take(index as int) == self.entities@);
        true
    }
}

/// A prefix that grows by one entity holds a kind exactly if it held it before
/// or the new entity is of that kind.
proof fn lemma_has_kind_grows(entities: Seq<Neighbor>, index: int, kind: Kind)
    requires
        0 <= index < entities.len(),
    ensures
        has_kind(entities.take(index + 1), kind) == (has_kind(entities.take(index), kind)
            || entities[index].kind() == kind),
{
    let seen = entities.take(index);
    let grown = entities.take(index + 1);
    if has_kind(seen, kind) {
        let i = choose|i: int| 0 <= i < seen.len() && (#[trigger] seen[i]).kind() == kind;
        assert(grown[i] == seen[i]);
    }
    if entities[index].kind() == kind {
        assert(grown[index] == entities[index]);
    }
    if has_kind(grown, kind) {
        let i = choose|i: int| 0 <= i < grown.len() && (#[trigger] grown[i]).kind() == kind;
        if i < index {
            assert(seen[i] == grown[i]);
        } else {
            assert(grown[i] == entities[index]);
        }
    }
}

/// The surroundings of an agent: the tile on which it stands and the ring of
/// tiles at its sensing radius. The agent may change the entities of its own
/// tile; it only reads the ring.
#[derive(Debug)]
pub struct Neighborhood {
    pub center: Tile,
    pub ring: Vec<Tile>,
}

/// Whether an entity of the given kind stands on one of the tiles.
pub open spec fn ring_has_kind(ring: Seq<Tile>, kind: Kind) -> bool {
    exists|tile: int| 0 <= tile < ring.len() && has_kind((#[trigger] ring[tile]).entities@, kind)
}

/// Whether `tile` is the place of the first tile with an entity of the given
/// kind.
pub open spec fn is_first_tile_with(ring: Seq<Tile>, kind: Kind, tile: int) -> bool {
    &&& 0 <= tile < ring.len()
    &&& has_kind(ring[tile].entities@, kind)
    &&& forall|before: int| 0 <= before < tile ==> !has_kind((#[trigger] ring[before]).entities@, kind)
}

/// Whether the tile at `tile` is one that the agent may follow the given scent
/// to: it does not remember the tile, and the tile holds a marker of the
/// scent.
pub open spec fn is_candidate(ring: Seq<Tile>, memory: Seq<Location>, scent: Scent, tile: int) -> bool {
    &&& 0 <= tile < ring.len()
    &&& !memory.contains(ring[tile].location)
    &&& scent_among(ring[tile].entities@, scent).is_some()
}

/// Whether the tile at `tile` is the one that the agent follows the given
/// scent to: among the candidates its marker is the strongest, and of equally
/// strong ones it comes last.
pub open spec fn is_best_candidate(ring: Seq<Tile>, memory: Seq<Location>, scent: Scent, tile: int) -> bool {
    &&& is_candidate(ring, memory, scent, tile)
    &&& forall|other: int| #[trigger]
        is_candidate(ring, memory, scent, other) ==> {
            &&& scent_among(ring[other].entities@, scent).unwrap() <= scent_among(
                ring[tile].entities@,
                scent,
            ).unwrap()
            &&& other > tile ==> scent_among(ring[other].entities@, scent).unwrap() < scent_among(
                ring[tile].entities@,
                scent,
            ).unwrap()
        }
}

/// Every tile holds at most one marker of each scent.
pub open spec fn tiles_well_marked(ring: Seq<Tile>) -> bool {
    forall|tile: int| 0 <= tile < ring.len() ==> markers_unique((#[trigger] ring[tile]).entities@)
}

/// No marker of the given scent on the tiles is stronger than `bound`.
pub open spec fn bounds_scent(ring: Seq<Tile>, scent: Scent, bound: u64) -> bool {
    forall|tile: int, index: int|
        0 <= tile < ring.len() && 0 <= index < ring[tile].entities@.len() && (
        #[trigger] ring[tile].entities@[index]).kind() == (Kind::Phero { scent })
            ==> ring[tile].entities@[index]->Phero_0.lifespan <= bound
}

/// Some marker of the given scent on the tiles has the strength `bound`.
pub open spec fn attains_scent(ring: Seq<Tile>, scent: Scent, bound: u64) -> bool {
    exists|tile: int, index: int|
        0 <= tile < ring.len() && 0 <= index < ring[tile].entities@.len() && (
        #[trigger] ring[tile].entities@[index]).kind() == (Kind::Phero { scent })
            && ring[tile].entities@[index]->Phero_0.lifespan == bound
}

/// Whether `strength` is that of the strongest marker of the given scent on the
/// tiles, all markers of each tile counted, or zero where there is none.
pub open spec fn is_strongest(ring: Seq<Tile>, scent: Scent, strength: u64) -> bool {
    &&& bounds_scent(ring, scent, strength)
    &&& strength == 0 || attains_scent(ring, scent, strength)
}

impl Neighborhood {
    /// Gets the strength of the strongest marker of the given scent on the
    /// ring, or zero where the ring holds none.
    pub fn strongest_on_ring(&self, scent: Scent) -> (strength: u64)
        ensures
            is_strongest(self.ring@, scent, strength),
    {
        let mut best: u64 = 0;
        let mut tile: usize = 0;
        while tile < self.ring.len()
            invariant
                tile <= self.ring@.len(),
                is_strongest(self.ring@.take(tile as int), scent, best),
            decreases self.ring@.len() - tile,
        {
            let ghost seen = self.ring@.take(tile as int);
            let ghost grown = self.ring@.take(tile + 1);
            let entities = &self.ring[tile].entities;
            let ghost before = best;
            let mut index: usize = 0;
            while index < entities.len()
                invariant
                    index <= entities@.len(),
                    tile < self.ring@.len(),
                    entities@ == self.ring@[tile as int].entities@,
                    seen == self.ring@.take(tile as int),
                    before <= best,
                    bounds_scent(seen, scent, best),
                    best == 0 || attains_scent(seen, scent, best) || exists|at: int|
                        0 <= at < index && (#[trigger] entities@[at]).kind() == (Kind::Phero { scent })
                            && entities@[at]->Phero_0.lifespan == best,
                    forall|at: int|
                        0 <= at < index && (#[trigger] entities@[at]).kind() == (Kind::Phero { scent })
                            ==> entities@[at]->Phero_0.lifespan <= best,
                decreases entities@.len() - index,
            {
                match entities[index] {
                    Neighbor::Phero(phero) => {
                        if phero.scent == scent && phero.lifespan > best {
                            best = phero.lifespan;
                        }
                    },
                    _ => {},
                }
                index += 1;
            }
            proof {
                assert(forall|t: int| 0 <= t < tile ==> grown[t] == seen[t]);
                assert(grown[tile as int] == self.ring@[tile as int]);
                assert(bounds_scent(grown, scent, best)) by {
                    assert forall|t: int, at: int|
                        0 <= t < grown.len() && 0 <= at < grown[t].entities@.len() && (
                        #[trigger] grown[t].entities@[at]).kind() == (Kind::Phero { scent }) implies grown[t].entities@[at]->Phero_0.lifespan
                        <= best by {
                        if t < tile {
                            assert(seen[t].entities@[at].kind() == (Kind::Phero { scent }));
                        }
                    }
                }
                if best != 0 {
                    if attains_scent(seen, scent, best) {
                        let (t, at) = choose|t: int, at: int|
                            0 <= t < seen.len() && 0 <= at < seen[t].entities@.len() && (
                            #[trigger] seen[t].entities@[at]).kind() == (Kind::Phero { scent })
                                && seen[t].entities@[at]->Phero_0.lifespan == best;
                        assert(grown[t].entities@[at].kind() == (Kind::Phero { scent }));
                    } else {
                        let at = choose|at: int|
                            0 <= at < index && (#[trigger] entities@[at]).kind() == (Kind::Phero { scent })
                                && entities@[at]->Phero_0.lifespan == best;
                        assert(grown[tile as int].entities@[at].kind() == (Kind::Phero { scent }));
                    }
                }
            }
            tile += 1;
        }
        assert(self.ring@.take(tile as int) == self.ring@);
        best
    }

    /// Every tile that the agent sees holds at most one marker of each scent.
    pub open spec fn well_marked(&self) -> bool {
        &&& markers_unique(self.center.entities@)
        &&& tiles_well_marked(self.ring@)
    }

    /// Whether an entity of the given kind stands on the agent's tile or on
    /// the ring.
    pub open spec fn holds_kind(&self, kind: Kind) -> bool {
        has_kind(self.center.entities@, kind) || ring_has_kind(self.ring@, kind)
    }

    /// Returns true only if any of the tiles holds an entity of the given
    /// kind.
    pub fn contains_kind(&self, kind: Kind) -> (found: bool)
        ensures
            found == self.holds_kind(kind),
    {
        if self.center.contains_kind(kind) {
            return true;
        }
        let mut tile: usize = 0;
        while tile < self.ring.len()
            invariant
                tile <= self.ring@.len(),
                forall|before: int| 0 <= before < tile ==> !has_kind((#[trigger] self.ring@[before]).entities@, kind),
            decreases self.ring@.len() - tile,
        {
            if self.ring[tile].contains_kind(kind) {
                return true;
            }
            tile += 1;
        }
        false
    }

    /// Returns true only if every tile holds at most one marker of each scent.
    pub fn is_well_marked(&self) -> (well: bool)
        ensures
            well == self.well_marked(),
    {
        if !self.center.has_unique_markers() {
            return false;
        }
        let mut tile: usize = 0;
        while tile < self.ring.len()
            invariant
                tile <= self.ring@.len(),
                forall|before: int| 0 <= before < tile ==> markers_unique((#[trigger] self.ring@[before]).entities@),
            decreases self.ring@.len() - tile,
        {
            if !self.ring[tile].has_unique_markers() {
                return false;
            }
            tile += 1;
        }
        true
    }
}

} // verus!
