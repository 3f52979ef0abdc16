use formicarium::entity::ant::Activity;
use formicarium::entity::ant::Ant;
use formicarium::entity::morsel::Morsel;
use formicarium::entity::nest::Nest;
use formicarium::entity::phero::Phero;
use formicarium::env::Neighbor;
use formicarium::env::Neighborhood;
use formicarium::env::Tile;
use formicarium::game::conf::Conf;
use formicarium::game::state::State;
use formicarium::space::Location;

const SIDE: i32 = 8;
const RING: [(i32, i32); 8] = [(-1, -1), (0, -1), (1, -1), (-1, 1), (0, 1), (1, 1), (-1, 0), (1, 0)];

struct World {
    nest: Nest,
    ants: Vec<Ant>,
    morsels: Vec<Morsel>,
    markers: Vec<Phero>,
    next_id: usize,
}

impl World {
    fn tile(&self, location: Location, seats: &[Location], viewer: usize) -> Tile {
        let mut entities = Vec::new();
        entities.extend(self.markers.iter().filter(|m| m.location() == location).map(|m| Neighbor::Phero(*m)));
        if self.nest.location() == location {
            entities.push(Neighbor::Nest(self.nest));
        }
        entities.extend(self.morsels.iter().filter(|m| m.location() == location).map(|m| Neighbor::Morsel(*m)));
        for (other, seat) in seats.iter().enumerate() {
            if other != viewer && *seat == location {
                entities.push(Neighbor::Ant(self.ants[other].state()));
            }
        }
        Tile { location, entities }
    }

    fn take_back(&mut self, tile: &Tile) {
        for entity in tile.entities.iter() {
            match entity {
                Neighbor::Phero(seen) => {
                    for marker in self.markers.iter_mut().filter(|m| m.id() == seen.id()) {
                        *marker = *seen;
                    }
                }
                Neighbor::Nest(seen) => self.nest = *seen,
                Neighbor::Morsel(seen) => {
                    for morsel in self.morsels.iter_mut().filter(|m| m.id() == seen.id()) {
                        *morsel = *seen;
                    }
                }
                Neighbor::Ant(_) => {}
            }
        }
    }

    fn tick(&mut self) {
        let seats: Vec<Location> = self.ants.iter().map(|ant| ant.location()).collect();
        let mut laid = Vec::new();
        for turn in 0..self.ants.len() {
            let center = seats[turn];
            let ring = RING
                .iter()
                .map(|(x, y)| {
                    let location =
                        Location { x: (center.x + x).rem_euclid(SIDE), y: (center.y + y).rem_euclid(SIDE) };
                    self.tile(location, &seats, turn)
                })
                .collect();
            let mut neighborhood = Neighborhood { center: self.tile(center, &seats, turn), ring };
            let fresh_id = self.next_id;
            self.next_id += 1;
            assert_eq!(self.ants[turn].react(&mut neighborhood, fresh_id), Ok(()));
            self.take_back(&neighborhood.center);
            laid.extend(self.ants[turn].offspring());
        }
        for marker in self.markers.iter_mut() {
            marker.react();
        }
        self.markers.retain(|marker| marker.lifespan() > 0);
        self.markers.extend(laid);
    }

    fn food(&self) -> u64 {
        let carried = self.ants.iter().filter(|ant| ant.activity() == Activity::Carrying).count() as u64;
        let supply: u64 = self.morsels.iter().map(|morsel| morsel.lifespan()).sum();
        self.nest.state().storage() + carried + supply
    }

    fn markers_are_unique(&self) -> bool {
        self.markers.iter().enumerate().all(|(place, marker)| {
            self.markers.iter().skip(place + 1).all(|other| {
                other.location() != marker.location() || other.kind() != marker.kind()
            })
        })
    }
}

fn world(ants: usize) -> (World, State) {
    let mut conf = Conf::default();
    conf.env.dimension = (SIDE, SIDE);
    conf.nest.location = (4, 4);
    conf.ants.count = ants;
    conf.ants.memory_span = 6;
    conf.ants.max_phero_concentration = 40;
    conf.morsels.count = 3;
    conf.morsels.storage = 2;
    assert!(conf.is_valid());
    let home = conf.nest_location();
    let spots = [Location { x: 1, y: 1 }, Location { x: 6, y: 2 }, Location { x: 1, y: 1 }];
    let world = World {
        nest: Nest::new(0, home),
        ants: (0..ants).map(|turn| Ant::new(1 + turn, home, &conf)).collect(),
        morsels: spots.iter().enumerate().map(|(turn, spot)| Morsel::new(100 + turn, *spot, 2)).collect(),
        markers: Vec::new(),
        next_id: 1000,
    };
    (world, State::new(conf))
}

#[test]
fn simulation_keeps_its_invariants() {
    for ants in [1usize, 4, 9] {
        let (mut world, mut state) = world(ants);
        let total = state.conf.total_storage();
        assert_eq!(total, 6);
        let mut stored = 0;
        for _ in 0..3000 {
            world.tick();
            assert_eq!(world.food(), total);
            assert!(world.markers_are_unique());
            assert!(world.nest.state().storage() >= stored);
            assert!(world.nest.state().storage() <= total);
            stored = world.nest.state().storage();
            state.observe(world.nest.state());
            assert_eq!(state.is_simulation_over(), stored == total);
            if state.is_simulation_over() {
                break;
            }
        }
        for ant in world.ants.iter() {
            let place = ant.location();
            assert!(0 <= place.x && place.x < SIDE && 0 <= place.y && place.y < SIDE);
        }
        assert!(world.markers.iter().all(|marker| marker.lifespan() > 0));
    }
}
