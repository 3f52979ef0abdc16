use formicarium::entity::nest;
use formicarium::entity::phero::Scent;
use formicarium::entity::Kind;
use formicarium::game::conf::Conf;
use formicarium::game::conf::Ratio;
use formicarium::game::state::State;
use formicarium::space::Dimension;
use formicarium::space::Location;

#[test]
fn default_configuration() {
    let conf = Conf::default();
    assert_eq!(conf.fps, Some(24));
    assert_eq!(conf.seed, Some(0));
    assert_eq!(conf.env.dimension, (30, 30));
    assert_eq!(conf.env.background, (25, 75, 75));
    assert_eq!(conf.nest.location, (25, 25));
    assert_eq!(conf.ants.count, 10);
    assert_eq!(conf.ants.memory_span, 30);
    assert_eq!(conf.ants.max_phero_concentration, 200);
    assert_eq!(conf.ants.phero_decrease, 2);
    assert_eq!(conf.ants.phero_increase_ratio, Ratio { per_million: 100_000 });
    assert_eq!(conf.morsels.count, 20);
    assert_eq!(conf.morsels.storage, 30);
    assert!(conf.is_valid());
    assert_eq!(conf.dimension(), Dimension { x: 30, y: 30 });
    assert_eq!(conf.nest_location(), Location { x: 25, y: 25 });
}

#[test]
fn default_visibility() {
    let conf = Conf::default();
    assert!(!conf.is_visible(&Kind::Grid));
    assert!(conf.is_visible(&Kind::Ant));
    assert!(conf.is_visible(&Kind::Morsel));
    assert!(conf.is_visible(&Kind::Nest));
    assert!(!conf.is_visible(&Kind::Phero { scent: Scent::Colony }));
    assert!(!conf.is_visible(&Kind::Phero { scent: Scent::Food }));
}

#[test]
fn visibility_follows_each_flag() {
    let mut conf = Conf::default();
    conf.pheromones.food.visible = true;
    conf.env.grid.visible = true;
    conf.ants.visible = false;
    assert!(conf.is_visible(&Kind::Phero { scent: Scent::Food }));
    assert!(!conf.is_visible(&Kind::Phero { scent: Scent::Colony }));
    assert!(conf.is_visible(&Kind::Grid));
    assert!(!conf.is_visible(&Kind::Ant));
}

#[test]
fn initial_counts() {
    let conf = Conf::default();
    assert_eq!(conf.count(Kind::Ant), 10);
    assert_eq!(conf.count(Kind::Morsel), 20);
    assert_eq!(conf.count(Kind::Nest), 0);
    assert_eq!(conf.count(Kind::Grid), 0);
    assert_eq!(conf.count(Kind::Phero { scent: Scent::Food }), 0);
}

#[test]
fn total_storage_is_supply_times_count() {
    let mut conf = Conf::default();
    assert_eq!(conf.total_storage(), 600);
    conf.morsels.count = 3;
    conf.morsels.storage = 7;
    assert_eq!(conf.total_storage(), 21);
}

#[test]
fn configuration_is_valid_only_on_a_usable_grid() {
    let mut conf = Conf::default();
    conf.env.dimension = (0, 30);
    assert!(!conf.is_valid());
    conf.env.dimension = (30, 20);
    assert!(!conf.is_valid());
    conf.nest.location = (29, 19);
    assert!(conf.is_valid());
    conf.env.dimension = (0x1000_0000, 1);
    assert!(!conf.is_valid());
    conf.env.dimension = (30, 20);
    conf.morsels.storage = u64::MAX;
    conf.morsels.count = 2;
    assert!(!conf.is_valid());
}

#[test]
fn dimension_contains_its_tiles_only() {
    let dimension = Dimension { x: 4, y: 3 };
    assert!(dimension.is_valid());
    assert!(dimension.contains(Location { x: 0, y: 0 }));
    assert!(dimension.contains(Location { x: 3, y: 2 }));
    assert!(!dimension.contains(Location { x: 4, y: 2 }));
    assert!(!dimension.contains(Location { x: 3, y: 3 }));
    assert!(!dimension.contains(Location { x: -1, y: 0 }));
}

#[test]
fn ratio_takes_its_share_rounded_down() {
    let tenth = Ratio { per_million: 100_000 };
    assert_eq!(tenth.of(100), 10);
    assert_eq!(tenth.of(19), 1);
    assert_eq!(tenth.of(9), 0);
    assert_eq!(Ratio { per_million: 0 }.of(1_000), 0);
    assert_eq!(Ratio { per_million: 1_000_000 }.of(u64::MAX), u64::MAX);
    assert_eq!(Ratio { per_million: 2_000_000 }.of(u64::MAX), u64::MAX);
    assert_eq!(Ratio { per_million: 2_500_000 }.of(10), 25);
}

#[test]
fn simulation_is_over_exactly_at_the_total() {
    let mut conf = Conf::default();
    conf.morsels.count = 2;
    conf.morsels.storage = 3;
    let mut state = State::new(conf);
    assert_eq!(state.storage(), 0);
    let mut nest = nest::State::default();
    for stored in 0..6u64 {
        assert_eq!(nest.storage(), stored);
        state.observe(nest);
        assert!(!state.is_simulation_over());
        nest.store();
    }
    state.observe(nest);
    assert_eq!(state.storage(), 6);
    assert!(state.is_simulation_over());
}

#[test]
fn simulation_without_food_is_over_at_once() {
    let mut conf = Conf::default();
    conf.morsels.count = 0;
    let state = State::new(conf);
    assert!(state.is_simulation_over());
}
