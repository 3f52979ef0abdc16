use formicarium::entity::nest::Nest;
use formicarium::entity::nest::State;
use formicarium::entity::morsel::Morsel;
use formicarium::entity::grid::Grid;
use formicarium::entity::phero::Concentration;
use formicarium::entity::phero::Phero;
use formicarium::entity::phero::Scent;
use formicarium::entity::Kind;
use formicarium::space::Location;

#[test]
fn budget_of_ten_less_fifteen_is_zero() {
    let mut budget = Concentration::from(10);
    let left = budget.decrease_by(15);
    assert_eq!(left.value(), 0);
    assert_eq!(budget.value(), 0);
}

#[test]
fn budget_decreases_by_the_amount() {
    let mut budget = Concentration::from(10);
    assert_eq!(budget.decrease_by(3).value(), 7);
    assert_eq!(budget.decrease_by(3).value(), 4);
    assert_eq!(budget.decrease_by(4).value(), 0);
}

#[test]
fn budget_never_falls_below_zero() {
    let mut budget = Concentration::from(200);
    for amount in [0u16, 1, 7, 150, 150, u16::MAX, 3] {
        let before = budget.value();
        let left = budget.decrease_by(amount).value();
        assert_eq!(left, before.saturating_sub(amount));
    }
    assert_eq!(budget.value(), 0);
}

#[test]
fn marker_starts_with_the_strength_of_the_budget() {
    let phero = Phero::new(7, Scent::Food, Location { x: 2, y: 3 }, Concentration::from(150));
    assert_eq!(phero.id(), 7);
    assert_eq!(phero.kind(), Kind::Phero { scent: Scent::Food });
    assert_eq!(phero.location(), Location { x: 2, y: 3 });
    assert_eq!(phero.lifespan(), 150);
}

#[test]
fn marker_ages_by_one_unit_per_tick() {
    let mut phero = Phero::new(1, Scent::Colony, Location { x: 0, y: 0 }, Concentration::from(2));
    phero.react();
    assert_eq!(phero.lifespan(), 1);
    phero.react();
    assert_eq!(phero.lifespan(), 0);
    phero.react();
    assert_eq!(phero.lifespan(), 0);
    assert_eq!(phero.kind(), Kind::phero_with(Scent::Colony));
}

#[test]
fn kinds_know_the_scent_that_leads_to_them() {
    assert_eq!(Kind::Nest.scent(), Some(Scent::Colony));
    assert_eq!(Kind::Morsel.scent(), Some(Scent::Food));
    assert_eq!(Kind::Ant.scent(), None);
    assert_eq!(Kind::Grid.scent(), None);
    assert_eq!(Kind::phero_with(Scent::Food).scent(), None);
    assert_eq!(Kind::phero_with(Scent::Food), Kind::Phero { scent: Scent::Food });
}

#[test]
fn nest_stores_one_unit_at_a_time() {
    let mut state = State::default();
    assert_eq!(state.storage(), 0);
    state.store();
    state.store();
    assert_eq!(state.storage(), 2);
    let nest = Nest::new(3, Location { x: 5, y: 5 });
    assert_eq!(nest.id(), 3);
    assert_eq!(nest.kind(), Kind::Nest);
    assert_eq!(nest.location(), Location { x: 5, y: 5 });
    assert_eq!(nest.state().storage(), 0);
}

#[test]
fn morsel_and_grid_report_what_they_are() {
    let morsel = Morsel::new(4, Location { x: 1, y: 2 }, 30);
    assert_eq!(morsel.id(), 4);
    assert_eq!(morsel.kind(), Kind::Morsel);
    assert_eq!(morsel.location(), Location { x: 1, y: 2 });
    assert_eq!(morsel.lifespan(), 30);
    let grid = Grid::new(0);
    assert_eq!(grid.id(), 0);
    assert_eq!(grid.kind(), Kind::Grid);
}
