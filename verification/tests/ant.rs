use formicarium::entity::ant::Activity;
use formicarium::entity::ant::Ant;
use formicarium::entity::ant::Error;
use formicarium::entity::ant::State;
use formicarium::entity::morsel::Morsel;
use formicarium::entity::nest::Nest;
use formicarium::entity::phero::Concentration;
use formicarium::entity::phero::Phero;
use formicarium::entity::phero::Scent;
use formicarium::entity::Kind;
use formicarium::env::Neighbor;
use formicarium::env::Neighborhood;
use formicarium::env::Tile;
use formicarium::game::conf::Conf;
use formicarium::space::Location;
use formicarium::space::Offset;

const RING: [(i32, i32); 8] = [(-1, -1), (0, -1), (1, -1), (-1, 1), (0, 1), (1, 1), (-1, 0), (1, 0)];

fn at(x: i32, y: i32) -> Location {
    Location { x, y }
}

fn conf() -> Conf {
    let mut conf = Conf::default();
    conf.env.dimension = (10, 10);
    conf.nest.location = (5, 5);
    conf
}

fn ant_at(x: i32, y: i32) -> Ant {
    Ant::new(1, at(x, y), &conf())
}

fn marker(scent: Scent, location: Location, strength: u64) -> Neighbor {
    Neighbor::Phero(Phero { id: 100, scent, location, lifespan: strength })
}

fn morsel(location: Location, supply: u64) -> Neighbor {
    Neighbor::Morsel(Morsel::new(200, location, supply))
}

fn nest(location: Location) -> Neighbor {
    Neighbor::Nest(Nest::new(300, location))
}

fn around(center: Location, entities: Vec<Neighbor>) -> Neighborhood {
    let ring = RING
        .iter()
        .map(|(x, y)| Tile {
            location: at((center.x + x).rem_euclid(10), (center.y + y).rem_euclid(10)),
            entities: Vec::new(),
        })
        .collect();
    Neighborhood { center: Tile { location: center, entities }, ring }
}

fn strength(entity: &Neighbor) -> u64 {
    entity.lifespan().unwrap()
}

fn within_one_step(from: Location, to: Location) -> bool {
    let dx = (to.x - from.x).rem_euclid(10);
    let dy = (to.y - from.y).rem_euclid(10);
    (dx <= 1 || dx == 9) && (dy <= 1 || dy == 9)
}

#[test]
fn new_ant_forages_from_its_nest() {
    let ant = ant_at(5, 5);
    assert_eq!(ant.id(), 1);
    assert_eq!(ant.kind(), Kind::Ant);
    assert_eq!(ant.location(), at(5, 5));
    assert_eq!(ant.nest_location, at(5, 5));
    assert_eq!(ant.scope(), 1);
    assert_eq!(ant.activity(), Activity::Foraging);
    assert_eq!(ant.state(), State::Follower);
    assert_eq!(ant.phero_concentration.value(), 200);
    assert!(ant.offspring.is_empty());
    assert!(!ant.memory.contains(at(5, 5)));
}

#[test]
fn activities_are_dual() {
    assert_eq!(Activity::Foraging.scent(), Scent::Colony);
    assert_eq!(Activity::Carrying.scent(), Scent::Food);
    assert_eq!(Activity::Foraging.target_kind(), Kind::Morsel);
    assert_eq!(Activity::Carrying.target_kind(), Kind::Nest);
    assert_eq!(Activity::Foraging.target_scent(), Scent::Food);
    assert_eq!(Activity::Carrying.target_scent(), Scent::Colony);
    let mut activity = Activity::Foraging;
    activity.switch();
    assert_eq!(activity, Activity::Carrying);
    activity.switch();
    assert_eq!(activity, Activity::Foraging);
}

#[test]
fn foraging_ant_takes_one_unit_from_a_morsel() {
    let mut ant = ant_at(2, 2);
    ant.phero_concentration = Concentration::from(17);
    ant.memory.insert(at(1, 1));
    let mut neighborhood = around(at(2, 2), vec![morsel(at(2, 2), 5)]);
    ant.assess_location_for_targets(&mut neighborhood);
    assert_eq!(ant.activity(), Activity::Carrying);
    assert!(!ant.memory.contains(at(1, 1)));
    assert_eq!(ant.phero_concentration.value(), 200);
    assert_eq!(strength(&neighborhood.center.entities[0]), 4);
    assert_eq!(neighborhood.center.entities[0].kind(), Kind::Morsel);
}

#[test]
fn foraging_ant_leaves_an_empty_morsel_alone() {
    let mut ant = ant_at(2, 2);
    ant.phero_concentration = Concentration::from(17);
    ant.memory.insert(at(1, 1));
    let mut neighborhood = around(at(2, 2), vec![morsel(at(2, 2), 0)]);
    ant.assess_location_for_targets(&mut neighborhood);
    assert_eq!(ant.activity(), Activity::Foraging);
    assert!(ant.memory.contains(at(1, 1)));
    assert_eq!(ant.phero_concentration.value(), 200);
    assert_eq!(strength(&neighborhood.center.entities[0]), 0);
}

#[test]
fn only_the_first_morsel_of_a_tile_is_looked_at() {
    let mut ant = ant_at(2, 2);
    let mut neighborhood = around(at(2, 2), vec![morsel(at(2, 2), 0), morsel(at(2, 2), 9)]);
    ant.assess_location_for_targets(&mut neighborhood);
    assert_eq!(ant.activity(), Activity::Foraging);
    assert_eq!(strength(&neighborhood.center.entities[1]), 9);
}

#[test]
fn carrying_ant_stores_its_food_in_the_nest() {
    let mut ant = ant_at(5, 5);
    ant.activity = Activity::Carrying;
    ant.phero_concentration = Concentration::from(3);
    ant.memory.insert(at(4, 4));
    let mut neighborhood = around(at(5, 5), vec![nest(at(5, 5))]);
    ant.assess_location_for_targets(&mut neighborhood);
    assert_eq!(ant.activity(), Activity::Foraging);
    assert!(!ant.memory.contains(at(4, 4)));
    assert_eq!(ant.phero_concentration.value(), 200);
    match neighborhood.center.entities[0] {
        Neighbor::Nest(nest) => assert_eq!(nest.state().storage(), 1),
        _ => panic!("the nest is gone"),
    }
}

#[test]
fn foraging_ant_only_refills_at_the_nest() {
    let mut ant = ant_at(5, 5);
    ant.phero_concentration = Concentration::from(3);
    ant.memory.insert(at(4, 4));
    let mut neighborhood = around(at(5, 5), vec![nest(at(5, 5))]);
    ant.assess_location_for_targets(&mut neighborhood);
    assert_eq!(ant.activity(), Activity::Foraging);
    assert!(ant.memory.contains(at(4, 4)));
    assert_eq!(ant.phero_concentration.value(), 200);
    match neighborhood.center.entities[0] {
        Neighbor::Nest(nest) => assert_eq!(nest.state().storage(), 0),
        _ => panic!("the nest is gone"),
    }
}

#[test]
fn carrying_ant_passes_a_morsel_by() {
    let mut ant = ant_at(2, 2);
    ant.activity = Activity::Carrying;
    ant.phero_concentration = Concentration::from(3);
    let mut neighborhood = around(at(2, 2), vec![morsel(at(2, 2), 5)]);
    ant.assess_location_for_targets(&mut neighborhood);
    assert_eq!(ant.activity(), Activity::Carrying);
    assert_eq!(strength(&neighborhood.center.entities[0]), 5);
    assert_eq!(ant.phero_concentration.value(), 200);
}

#[test]
fn ant_stores_and_takes_on_a_tile_with_nest_and_morsel() {
    let mut ant = ant_at(5, 5);
    ant.activity = Activity::Carrying;
    let mut neighborhood = around(at(5, 5), vec![morsel(at(5, 5), 2), nest(at(5, 5))]);
    ant.assess_location_for_targets(&mut neighborhood);
    assert_eq!(ant.activity(), Activity::Carrying);
    assert_eq!(strength(&neighborhood.center.entities[0]), 1);
    match neighborhood.center.entities[1] {
        Neighbor::Nest(nest) => assert_eq!(nest.state().storage(), 1),
        _ => panic!("the nest is gone"),
    }
}

#[test]
fn nothing_happens_on_a_tile_without_targets() {
    let mut ant = ant_at(2, 2);
    ant.phero_concentration = Concentration::from(3);
    let mut neighborhood = around(at(2, 2), vec![marker(Scent::Food, at(2, 2), 9)]);
    ant.assess_location_for_targets(&mut neighborhood);
    assert_eq!(ant.activity(), Activity::Foraging);
    assert_eq!(ant.phero_concentration.value(), 3);
    assert_eq!(strength(&neighborhood.center.entities[0]), 9);
}

#[test]
fn colony_marker_is_reinforced_with_a_bonus() {
    let mut ant = ant_at(2, 2);
    let mut neighborhood = around(at(2, 2), vec![marker(Scent::Colony, at(2, 2), 100)]);
    ant.enhance_trail_pheromone(&mut neighborhood, 9);
    assert_eq!(ant.phero_concentration.value(), 198);
    assert_eq!(strength(&neighborhood.center.entities[0]), 100 + 198 + 10);
    assert!(ant.offspring.is_empty());
    assert_eq!(ant.state(), State::Follower);
}

#[test]
fn food_marker_is_reinforced_without_a_bonus() {
    let mut ant = ant_at(2, 2);
    ant.activity = Activity::Carrying;
    let mut neighborhood =
        around(at(2, 2), vec![marker(Scent::Colony, at(2, 2), 40), marker(Scent::Food, at(2, 2), 100)]);
    ant.enhance_trail_pheromone(&mut neighborhood, 9);
    assert_eq!(strength(&neighborhood.center.entities[0]), 40);
    assert_eq!(strength(&neighborhood.center.entities[1]), 100 + 198);
    assert!(ant.offspring.is_empty());
}

#[test]
fn marker_strength_stops_at_the_largest_value() {
    let mut ant = ant_at(2, 2);
    let mut neighborhood = around(at(2, 2), vec![marker(Scent::Colony, at(2, 2), u64::MAX - 5)]);
    ant.enhance_trail_pheromone(&mut neighborhood, 9);
    assert_eq!(strength(&neighborhood.center.entities[0]), u64::MAX);
}

#[test]
fn spent_ant_still_adds_the_bonus() {
    let mut ant = ant_at(2, 2);
    ant.phero_concentration = Concentration::from(1);
    let mut neighborhood = around(at(2, 2), vec![marker(Scent::Colony, at(2, 2), 50)]);
    ant.enhance_trail_pheromone(&mut neighborhood, 9);
    assert_eq!(ant.phero_concentration.value(), 0);
    assert_eq!(strength(&neighborhood.center.entities[0]), 55);
}

#[test]
fn lone_ant_lays_a_marker() {
    let mut ant = ant_at(2, 2);
    let mut neighborhood = around(at(2, 2), vec![marker(Scent::Food, at(2, 2), 40)]);
    ant.enhance_trail_pheromone(&mut neighborhood, 9);
    assert_eq!(ant.state(), State::Follower);
    assert_eq!(ant.offspring.len(), 1);
    let laid = ant.offspring[0];
    assert_eq!(laid.id(), 9);
    assert_eq!(laid.kind(), Kind::Phero { scent: Scent::Colony });
    assert_eq!(laid.location(), at(2, 2));
    assert_eq!(laid.lifespan(), 198);
    assert_eq!(strength(&neighborhood.center.entities[0]), 40);
}

#[test]
fn spent_ant_lays_no_marker() {
    let mut ant = ant_at(2, 2);
    ant.phero_concentration = Concentration::from(2);
    let mut neighborhood = around(at(2, 2), Vec::new());
    ant.enhance_trail_pheromone(&mut neighborhood, 9);
    assert_eq!(ant.phero_concentration.value(), 0);
    assert!(ant.offspring.is_empty());
}

#[test]
fn first_of_two_ants_on_a_tile_lays_the_marker() {
    let mut first = ant_at(2, 2);
    let mut second = Ant::new(2, at(2, 2), &conf());

    let mut seen_by_first = around(at(2, 2), vec![Neighbor::Ant(second.state())]);
    assert_eq!(first.react(&mut seen_by_first, 10), Ok(()));
    assert_eq!(first.state(), State::Leader);
    assert_eq!(first.offspring.len(), 1);

    let mut seen_by_second = around(at(2, 2), vec![Neighbor::Ant(first.state())]);
    assert_eq!(second.react(&mut seen_by_second, 11), Ok(()));
    assert_eq!(second.state(), State::Follower);
    assert!(second.offspring.is_empty());
}

#[test]
fn only_one_of_many_ants_on_a_tile_lays_a_marker() {
    let mut ants: Vec<Ant> = (0..6).map(|id| Ant::new(id, at(3, 3), &conf())).collect();
    for (turn, ant) in ants.iter_mut().enumerate() {
        if turn % 2 == 1 {
            ant.activity = Activity::Carrying;
        }
    }
    let mut laid = 0;
    for turn in 0..ants.len() {
        let peers = (0..ants.len()).filter(|other| *other != turn).map(|other| Neighbor::Ant(ants[other].state()));
        let mut neighborhood = around(at(3, 3), peers.collect());
        assert_eq!(ants[turn].react(&mut neighborhood, 50 + turn), Ok(()));
        laid += ants[turn].offspring().len();
    }
    assert_eq!(laid, 1);
    assert_eq!(ants[0].state(), State::Leader);
}

#[test]
fn ant_under_a_leader_of_an_earlier_tick_keeps_quiet() {
    let mut ant = ant_at(2, 2);
    let mut neighborhood = around(at(2, 2), vec![Neighbor::Ant(State::Follower), Neighbor::Ant(State::Leader)]);
    ant.enhance_trail_pheromone(&mut neighborhood, 9);
    assert_eq!(ant.state(), State::Follower);
    assert!(ant.offspring.is_empty());
}

#[test]
fn misleading_marker_is_cleared() {
    let ant = ant_at(2, 2);
    let mut neighborhood = around(at(2, 2), vec![marker(Scent::Food, at(2, 2), 50)]);
    neighborhood.ring[3].entities.push(marker(Scent::Food, at(1, 3), 40));
    neighborhood.ring[5].entities.push(marker(Scent::Colony, at(3, 3), 90));
    ant.suppress_trail_pheromone(&mut neighborhood);
    assert_eq!(strength(&neighborhood.center.entities[0]), 0);
    assert_eq!(strength(&neighborhood.ring[3].entities[0]), 40);
}

#[test]
fn marker_on_a_rising_trail_is_kept() {
    let ant = ant_at(2, 2);
    let mut neighborhood = around(at(2, 2), vec![marker(Scent::Food, at(2, 2), 50)]);
    neighborhood.ring[3].entities.push(marker(Scent::Food, at(1, 3), 40));
    neighborhood.ring[6].entities.push(marker(Scent::Food, at(1, 2), 50));
    ant.suppress_trail_pheromone(&mut neighborhood);
    assert_eq!(strength(&neighborhood.center.entities[0]), 50);
}

#[test]
fn every_marker_of_a_ring_tile_counts() {
    let ant = ant_at(2, 2);
    let mut neighborhood = around(at(2, 2), vec![marker(Scent::Food, at(2, 2), 50)]);
    neighborhood.ring[3].entities.push(marker(Scent::Food, at(1, 3), 40));
    neighborhood.ring[3].entities.push(marker(Scent::Food, at(1, 3), 60));
    ant.suppress_trail_pheromone(&mut neighborhood);
    assert_eq!(strength(&neighborhood.center.entities[0]), 50);
}

#[test]
fn marker_is_kept_with_the_target_in_sight() {
    let ant = ant_at(2, 2);
    let mut neighborhood = around(at(2, 2), vec![marker(Scent::Food, at(2, 2), 50)]);
    neighborhood.ring[0].entities.push(morsel(at(1, 1), 3));
    ant.suppress_trail_pheromone(&mut neighborhood);
    assert_eq!(strength(&neighborhood.center.entities[0]), 50);

    let mut neighborhood = around(at(2, 2), vec![marker(Scent::Food, at(2, 2), 50), morsel(at(2, 2), 0)]);
    ant.suppress_trail_pheromone(&mut neighborhood);
    assert_eq!(strength(&neighborhood.center.entities[0]), 50);
}

#[test]
fn carrying_ant_clears_the_colony_scent_only() {
    let mut ant = ant_at(2, 2);
    ant.activity = Activity::Carrying;
    let mut neighborhood =
        around(at(2, 2), vec![marker(Scent::Food, at(2, 2), 50), marker(Scent::Colony, at(2, 2), 7)]);
    ant.suppress_trail_pheromone(&mut neighborhood);
    assert_eq!(strength(&neighborhood.center.entities[0]), 50);
    assert_eq!(strength(&neighborhood.center.entities[1]), 0);
}

#[test]
fn empty_marker_is_left_as_it_is() {
    let ant = ant_at(2, 2);
    let mut neighborhood = around(at(2, 2), vec![marker(Scent::Food, at(2, 2), 0)]);
    ant.suppress_trail_pheromone(&mut neighborhood);
    assert_eq!(strength(&neighborhood.center.entities[0]), 0);
}

#[test]
fn ant_sees_the_first_target_on_the_ring() {
    let ant = ant_at(2, 2);
    let mut neighborhood = around(at(2, 2), Vec::new());
    assert_eq!(ant.get_location_with_kind(Kind::Morsel, &neighborhood), None);
    neighborhood.ring[4].entities.push(morsel(at(2, 3), 1));
    neighborhood.ring[7].entities.push(morsel(at(3, 2), 1));
    assert_eq!(ant.get_location_with_kind(Kind::Morsel, &neighborhood), Some(at(2, 3)));
    assert_eq!(ant.get_location_with_kind(Kind::Nest, &neighborhood), None);
}

#[test]
fn target_on_the_own_tile_is_not_in_sight() {
    let ant = ant_at(2, 2);
    let neighborhood = around(at(2, 2), vec![morsel(at(2, 2), 1)]);
    assert_eq!(ant.get_location_with_kind(Kind::Morsel, &neighborhood), None);
}

#[test]
fn ant_follows_the_strongest_scent() {
    let ant = ant_at(2, 2);
    let mut neighborhood = around(at(2, 2), Vec::new());
    assert_eq!(ant.get_location_with_best_concentration_of(Scent::Food, &neighborhood), None);
    neighborhood.ring[1].entities.push(marker(Scent::Food, at(2, 1), 30));
    neighborhood.ring[2].entities.push(marker(Scent::Colony, at(3, 1), 99));
    neighborhood.ring[5].entities.push(marker(Scent::Food, at(3, 3), 70));
    neighborhood.ring[6].entities.push(marker(Scent::Food, at(1, 2), 20));
    assert_eq!(ant.get_location_with_best_concentration_of(Scent::Food, &neighborhood), Some(at(3, 3)));
    assert_eq!(ant.get_location_with_best_concentration_of(Scent::Colony, &neighborhood), Some(at(3, 1)));
}

#[test]
fn last_of_equally_strong_scents_is_followed() {
    let ant = ant_at(2, 2);
    let mut neighborhood = around(at(2, 2), Vec::new());
    neighborhood.ring[1].entities.push(marker(Scent::Food, at(2, 1), 70));
    neighborhood.ring[5].entities.push(marker(Scent::Food, at(3, 3), 70));
    neighborhood.ring[6].entities.push(marker(Scent::Food, at(1, 2), 20));
    assert_eq!(ant.get_location_with_best_concentration_of(Scent::Food, &neighborhood), Some(at(3, 3)));
}

#[test]
fn remembered_tiles_are_not_followed() {
    let mut ant = ant_at(2, 2);
    ant.memory.insert(at(3, 3));
    let mut neighborhood = around(at(2, 2), Vec::new());
    neighborhood.ring[1].entities.push(marker(Scent::Food, at(2, 1), 30));
    neighborhood.ring[5].entities.push(marker(Scent::Food, at(3, 3), 70));
    assert_eq!(ant.get_location_with_best_concentration_of(Scent::Food, &neighborhood), Some(at(2, 1)));
    ant.memory.insert(at(2, 1));
    assert_eq!(ant.get_location_with_best_concentration_of(Scent::Food, &neighborhood), None);
}

#[test]
fn ant_is_lost_without_budget_and_without_markers() {
    let mut ant = ant_at(2, 2);
    let empty = around(at(2, 2), vec![Neighbor::Ant(State::Follower)]);
    let marked = around(at(2, 2), vec![marker(Scent::Food, at(2, 2), 0)]);
    assert!(!ant.is_lost(&empty));
    ant.phero_concentration = Concentration::from(0);
    assert!(ant.is_lost(&empty));
    assert!(!ant.is_lost(&marked));
}

#[test]
fn ant_steps_towards_a_target_in_sight() {
    let mut ant = ant_at(2, 2);
    let mut neighborhood = around(at(2, 2), Vec::new());
    neighborhood.ring[2].entities.push(morsel(at(3, 1), 4));
    neighborhood.ring[3].entities.push(marker(Scent::Food, at(1, 3), 90));
    ant.move_towards(Kind::Morsel, &neighborhood);
    assert_eq!(ant.location(), at(3, 1));
}

#[test]
fn ant_steps_along_the_scent() {
    let mut ant = ant_at(2, 2);
    let mut neighborhood = around(at(2, 2), Vec::new());
    neighborhood.ring[3].entities.push(marker(Scent::Food, at(1, 3), 90));
    ant.move_towards(Kind::Morsel, &neighborhood);
    assert_eq!(ant.location(), at(1, 3));
}

#[test]
fn ant_steps_across_the_edge_of_the_grid() {
    let mut ant = ant_at(0, 9);
    let mut neighborhood = around(at(0, 9), Vec::new());
    neighborhood.ring[3].entities.push(morsel(at(9, 0), 4));
    ant.move_towards(Kind::Morsel, &neighborhood);
    assert_eq!(ant.location(), at(1, 8));
}

#[test]
fn step_wraps_around_the_grid() {
    let mut ant = ant_at(0, 0);
    ant.step(Offset { x: -1, y: -1 });
    assert_eq!(ant.location(), at(9, 9));
    ant.step(Offset { x: 1, y: 0 });
    assert_eq!(ant.location(), at(0, 9));
    ant.step(Offset { x: 0, y: 0 });
    assert_eq!(ant.location(), at(0, 9));
    ant.step(Offset { x: 13, y: -25 });
    assert_eq!(ant.location(), at(3, 4));
}

#[test]
fn ant_heads_for_the_tile_beside_its_nest() {
    let mut ant = ant_at(5, 5);
    ant.location = at(1, 8);
    ant.head_home(Offset { x: 0, y: 0 });
    assert_eq!(ant.location(), at(2, 7));
    ant.head_home(Offset { x: -4, y: 2 });
    assert_eq!(ant.location(), at(1, 7));
    ant.head_home(Offset { x: 6, y: 2 });
    assert_eq!(ant.location(), at(1, 7));
}

#[test]
fn ant_at_home_stays_at_home() {
    let mut ant = ant_at(5, 5);
    ant.activity = Activity::Carrying;
    ant.move_towards_nest();
    assert_eq!(ant.location(), at(5, 5));
}

#[test]
fn homeward_move_is_a_single_step() {
    for _ in 0..50 {
        let mut ant = ant_at(5, 5);
        ant.location = at(1, 1);
        ant.move_towards_nest();
        assert!(within_one_step(at(1, 1), ant.location()));
    }
}

#[test]
fn ant_beside_its_nest_walks_in() {
    for _ in 0..20 {
        let mut ant = ant_at(5, 5);
        ant.location = at(4, 5);
        ant.move_towards_nest();
        assert_eq!(ant.location(), at(5, 5));
    }
}

#[test]
fn ant_two_steps_from_its_nest_comes_nearer() {
    for _ in 0..50 {
        let mut ant = ant_at(5, 5);
        ant.location = at(3, 5);
        ant.move_towards_nest();
        let to = ant.location();
        assert_eq!(to.x, 4);
        assert!(4 <= to.y && to.y <= 6);
    }
}

#[test]
fn first_fresh_offset_is_picked() {
    let mut ant = ant_at(2, 2);
    ant.memory.insert(at(1, 1));
    ant.memory.insert(at(2, 1));
    let offsets = vec![Offset { x: -1, y: -1 }, Offset { x: 0, y: -1 }, Offset { x: 1, y: 1 }, Offset { x: 1, y: 0 }];
    assert_eq!(ant.pick_fresh(&offsets), Some(Offset { x: 1, y: 1 }));
    ant.memory.insert(at(3, 3));
    ant.memory.insert(at(3, 2));
    assert_eq!(ant.pick_fresh(&offsets), None);
    assert_eq!(ant.pick_fresh(&Vec::new()), None);
}

#[test]
fn wandering_ant_avoids_the_tiles_it_remembers() {
    for _ in 0..50 {
        let mut ant = ant_at(2, 2);
        for (x, y) in RING.iter().take(7) {
            ant.memory.insert(at(2 + x, 2 + y));
        }
        ant.move_randomly();
        assert_eq!(ant.location(), at(3, 2));
    }
}

#[test]
fn wandering_ant_moves_by_one_step_at_most() {
    for _ in 0..50 {
        let mut ant = ant_at(0, 0);
        for (x, y) in RING.iter() {
            ant.memory.insert(at((0 + x).rem_euclid(10), (0 + y).rem_euclid(10)));
        }
        ant.move_randomly();
        assert!(within_one_step(at(0, 0), ant.location()));
    }
}

#[test]
fn wandering_ant_leaves_its_tile_for_a_fresh_one() {
    for _ in 0..50 {
        let mut ant = ant_at(4, 4);
        ant.move_randomly();
        assert!(within_one_step(at(4, 4), ant.location()));
        assert_ne!(ant.location(), at(4, 4));
    }
}

#[test]
fn foraging_ant_without_a_clue_wanders() {
    let mut ant = ant_at(2, 2);
    let neighborhood = around(at(2, 2), Vec::new());
    ant.move_towards(Kind::Morsel, &neighborhood);
    assert!(within_one_step(at(2, 2), ant.location()));
    assert_ne!(ant.location(), at(2, 2));
}

#[test]
fn carrying_ant_without_a_clue_heads_home() {
    for _ in 0..20 {
        let mut ant = ant_at(5, 5);
        ant.location = at(8, 8);
        ant.activity = Activity::Carrying;
        let neighborhood = around(at(8, 8), Vec::new());
        ant.move_towards(Kind::Nest, &neighborhood);
        assert!(within_one_step(at(8, 8), ant.location()));
    }
    let mut ant = ant_at(5, 5);
    ant.location = at(5, 6);
    ant.activity = Activity::Carrying;
    let neighborhood = around(at(5, 6), Vec::new());
    ant.move_towards(Kind::Nest, &neighborhood);
    assert_eq!(ant.location(), at(5, 5));
}

#[test]
fn react_runs_the_whole_cycle() {
    let mut ant = ant_at(5, 5);
    ant.location = at(2, 2);
    ant.state = State::Leader;
    let mut neighborhood = around(at(2, 2), vec![morsel(at(2, 2), 5), marker(Scent::Food, at(2, 2), 30)]);
    neighborhood.ring[7].entities.push(marker(Scent::Colony, at(3, 2), 12));
    assert_eq!(ant.react(&mut neighborhood, 77), Ok(()));
    assert_eq!(ant.activity(), Activity::Carrying);
    assert_eq!(ant.state(), State::Follower);
    assert_eq!(ant.phero_concentration.value(), 198);
    assert_eq!(strength(&neighborhood.center.entities[0]), 4);
    assert_eq!(strength(&neighborhood.center.entities[1]), 30 + 198);
    assert!(!ant.memory.contains(at(2, 2)));
    assert_eq!(ant.location(), at(3, 2));
    assert!(ant.offspring().is_empty());
}

#[test]
fn react_remembers_the_tile_it_leaves() {
    let mut ant = ant_at(2, 2);
    let mut neighborhood = around(at(2, 2), Vec::new());
    assert_eq!(ant.react(&mut neighborhood, 77), Ok(()));
    assert!(ant.memory.contains(at(2, 2)));
    assert_ne!(ant.location(), at(2, 2));
    let brood = ant.offspring();
    assert_eq!(brood.len(), 1);
    assert_eq!(brood[0].id(), 77);
    assert_eq!(brood[0].location(), at(2, 2));
    assert_eq!(brood[0].lifespan(), 198);
    assert!(ant.offspring().is_empty());
}

#[test]
fn react_refuses_a_tile_with_two_markers_of_one_scent() {
    let mut ant = ant_at(2, 2);
    let mut neighborhood = around(at(2, 2), Vec::new());
    neighborhood.ring[4].entities.push(marker(Scent::Food, at(2, 3), 1));
    neighborhood.ring[4].entities.push(marker(Scent::Colony, at(2, 3), 1));
    assert_eq!(ant.react(&mut neighborhood, 1), Ok(()));
    ant.offspring();

    let from = ant.location();
    neighborhood.ring[4].entities.push(marker(Scent::Food, at(2, 3), 2));
    assert_eq!(ant.react(&mut neighborhood, 2), Err(Error::DuplicateMarker));
    assert_eq!(ant.location(), from);
    assert_eq!(ant.phero_concentration.value(), 198);

    let mut crowded = around(at(2, 2), vec![marker(Scent::Colony, at(2, 2), 1), marker(Scent::Colony, at(2, 2), 1)]);
    assert_eq!(ant.react(&mut crowded, 3), Err(Error::DuplicateMarker));
    assert_eq!(strength(&crowded.center.entities[0]), 1);
}

#[test]
fn react_refuses_while_its_offspring_waits() {
    let mut ant = ant_at(2, 2);
    let mut neighborhood = around(at(2, 2), Vec::new());
    assert_eq!(ant.react(&mut neighborhood, 1), Ok(()));
    let from = ant.location();
    let mut next = around(from, Vec::new());
    assert_eq!(ant.react(&mut next, 2), Err(Error::PendingOffspring));
    assert_eq!(ant.location(), from);
    assert_eq!(ant.offspring.len(), 1);
    assert_eq!(ant.offspring().len(), 1);
    assert_eq!(ant.react(&mut next, 3), Ok(()));
}

#[test]
fn duplicate_marker_comes_before_waiting_offspring() {
    let mut ant = ant_at(2, 2);
    let mut neighborhood = around(at(2, 2), Vec::new());
    assert_eq!(ant.react(&mut neighborhood, 1), Ok(()));
    let mut crowded = around(ant.location(), vec![marker(Scent::Food, at(2, 2), 1), marker(Scent::Food, at(2, 2), 1)]);
    assert_eq!(ant.react(&mut crowded, 2), Err(Error::DuplicateMarker));
}

#[test]
fn tiles_answer_what_they_hold() {
    let tile = Tile {
        location: at(1, 1),
        entities: vec![
            Neighbor::Ant(State::Follower),
            marker(Scent::Food, at(1, 1), 3),
            morsel(at(1, 1), 2),
            marker(Scent::Colony, at(1, 1), 8),
        ],
    };
    assert_eq!(tile.find_kind(Kind::Morsel), Some(2));
    assert_eq!(tile.find_kind(Kind::Phero { scent: Scent::Colony }), Some(3));
    assert_eq!(tile.find_kind(Kind::Nest), None);
    assert!(tile.contains_kind(Kind::Ant));
    assert!(!tile.contains_kind(Kind::Grid));
    assert!(!tile.is_under_leader());
    assert!(tile.has_unique_markers());
    assert_eq!(tile.strength_of(Scent::Food), Some(3));
    assert_eq!(tile.strength_of(Scent::Colony), Some(8));
    assert_eq!(tile.entities[0].lifespan(), None);

    let mut neighborhood = around(at(2, 2), Vec::new());
    assert!(neighborhood.is_well_marked());
    assert!(!neighborhood.contains_kind(Kind::Morsel));
    assert_eq!(neighborhood.strongest_on_ring(Scent::Food), 0);
    neighborhood.ring[0] = tile;
    assert!(neighborhood.contains_kind(Kind::Morsel));
    assert_eq!(neighborhood.strongest_on_ring(Scent::Food), 3);
    neighborhood.ring[6].entities.push(Neighbor::Ant(State::Leader));
    assert!(neighborhood.ring[6].is_under_leader());
    neighborhood.ring[6].entities.push(marker(Scent::Food, at(1, 2), 5));
    neighborhood.ring[6].entities.push(marker(Scent::Food, at(1, 2), 4));
    assert!(!neighborhood.ring[6].has_unique_markers());
    assert!(!neighborhood.is_well_marked());
    assert_eq!(neighborhood.strongest_on_ring(Scent::Food), 5);
}
