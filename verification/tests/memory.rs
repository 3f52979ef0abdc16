use formicarium::entity::ant::memory::LocationAwareness;
use formicarium::space::Location;

fn at(x: i32, y: i32) -> Location {
    Location { x, y }
}

#[test]
fn new_memory_is_empty() {
    let memory = LocationAwareness::new(4);
    assert!(!memory.contains(at(0, 0)));
    assert!(!memory.contains(at(3, 7)));
}

#[test]
fn fourth_location_evicts_the_first_of_three() {
    let (a, b, c, d) = (at(1, 1), at(2, 2), at(3, 3), at(4, 4));
    let mut memory = LocationAwareness::new(3);
    memory.insert(a);
    memory.insert(b);
    memory.insert(c);
    memory.insert(d);
    assert!(!memory.contains(a));
    assert!(memory.contains(b));
    assert!(memory.contains(c));
    assert!(memory.contains(d));
}

#[test]
fn memory_holds_exactly_the_last_locations() {
    let capacity = 5;
    let mut memory = LocationAwareness::new(capacity);
    for step in 0..=capacity as i32 {
        memory.insert(at(step, 2 * step));
    }
    assert!(!memory.contains(at(0, 0)));
    for step in 1..=capacity as i32 {
        assert!(memory.contains(at(step, 2 * step)));
    }
}

#[test]
fn memory_below_capacity_keeps_everything() {
    let mut memory = LocationAwareness::new(4);
    memory.insert(at(1, 0));
    memory.insert(at(2, 0));
    assert!(memory.contains(at(1, 0)));
    assert!(memory.contains(at(2, 0)));
    assert!(!memory.contains(at(3, 0)));
}

#[test]
fn memory_without_slots_stores_nothing() {
    let mut memory = LocationAwareness::new(0);
    memory.insert(at(1, 1));
    memory.insert(at(2, 2));
    assert!(!memory.contains(at(1, 1)));
    assert!(!memory.contains(at(2, 2)));
    memory.clear();
    assert!(!memory.contains(at(1, 1)));
}

#[test]
fn clear_forgets_all_and_memory_fills_again() {
    let mut memory = LocationAwareness::new(2);
    memory.insert(at(1, 1));
    memory.insert(at(2, 2));
    memory.insert(at(3, 3));
    memory.clear();
    assert!(!memory.contains(at(2, 2)));
    assert!(!memory.contains(at(3, 3)));
    memory.insert(at(4, 4));
    memory.insert(at(5, 5));
    assert!(memory.contains(at(4, 4)));
    assert!(memory.contains(at(5, 5)));
    memory.insert(at(6, 6));
    assert!(!memory.contains(at(4, 4)));
    assert!(memory.contains(at(5, 5)));
    assert!(memory.contains(at(6, 6)));
}

#[test]
fn repeated_location_takes_a_slot_each_time() {
    let mut memory = LocationAwareness::new(2);
    memory.insert(at(1, 1));
    memory.insert(at(2, 2));
    memory.insert(at(2, 2));
    assert!(!memory.contains(at(1, 1)));
    assert!(memory.contains(at(2, 2)));
}
