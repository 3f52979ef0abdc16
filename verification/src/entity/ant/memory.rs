//! The bounded memory of the tiles that an agent visited last.

use vstd::prelude::*;

use crate::space::Location;

verus! {

/// A memory of locations with a fixed number of slots: once all are taken, a
/// new location takes the place of the oldest one.
///
/// Its view is the sequence of the remembered locations, oldest first.
pub struct LocationAwareness {
    capacity: usize,
    next: usize,
    locations: Vec<Option<Location>>,
    recent: Ghost<Seq<Location>>,
}

/// What a memory of `capacity` slots that remembers `recent` remembers once
/// `location` is inserted.
pub open spec fn remembered(recent: Seq<Location>, capacity: nat, location: Location) -> Seq<Location> {
    if capacity == 0 {
        recent
    } else if recent.len() < capacity {
        recent.push(location)
    } else {
        recent.drop_first().push(location)
    }
}

/// What a memory of `capacity` slots that remembers `recent` remembers once
/// every location of `locations` is inserted in turn.
pub open spec fn remembered_all(recent: Seq<Location>, capacity: nat, locations: Seq<Location>) -> Seq<
    Location,
>
    decreases locations.len(),
{
    if locations.len() == 0 {
        recent
    } else {
        remembered(remembered_all(recent, capacity, locations.drop_last()), capacity, locations.last())
    }
}

/// The last `capacity` locations of `locations`, or all of them where there
/// are fewer.
pub open spec fn latest(locations: Seq<Location>, capacity: nat) -> Seq<Location> {
    if locations.len() <= capacity {
        locations
    } else {
        locations.subrange(locations.len() - capacity, locations.len() as int)
    }
}

/// An empty memory into which locations are inserted remembers exactly the
/// last ones, as many as it has slots.
pub proof fn lemma_memory_keeps_latest(capacity: nat, locations: Seq<Location>)
    ensures
        remembered_all(Seq::empty(), capacity, locations) == latest(locations, capacity),
    decreases locations.len(),
{
    if locations.len() > 0 {
        let before = locations.drop_last();
        lemma_memory_keeps_latest(capacity, before);
        let kept = latest(before, capacity);
        assert(remembered(kept, capacity, locations.last()) =~= latest(locations, capacity));
    } else {
        assert(latest(locations, capacity) =~= Seq::empty());
    }
}

/// After one location more than there are slots, all of them distinct, the
/// first inserted is forgotten and every later one is remembered.
pub proof fn lemma_memory_evicts_oldest(capacity: nat, locations: Seq<Location>)
    requires
        locations.len() == capacity + 1,
        locations.no_duplicates(),
    ensures
        !remembered_all(Seq::empty(), capacity, locations).contains(locations[0]),
        forall|i: int|
            1 <= i < locations.len() ==> remembered_all(Seq::empty(), capacity, locations).contains(
                #[trigger] locations[i],
            ),
{
    lemma_memory_keeps_latest(capacity, locations);
    let kept = latest(locations, capacity);
    assert forall|i: int| 1 <= i < locations.len() implies kept.contains(#[trigger] locations[i]) by {
        assert(kept[i - 1] == locations[i]);
    }
}

/// A memory without slots remembers nothing, whatever is inserted.
pub proof fn lemma_memory_without_slots(locations: Seq<Location>, location: Location)
    ensures
        remembered_all(Seq::empty(), 0, locations) == Seq::<Location>::empty(),
        !remembered_all(Seq::empty(), 0, locations).contains(location),
{
    lemma_memory_keeps_latest(0, locations);
    assert(latest(locations, 0) =~= Seq::empty());
}

impl View for LocationAwareness {
    type V = Seq<Location>;

    closed spec fn view(&self) -> Seq<Location> {
        self.recent@
    }
}

impl LocationAwareness {
    /// The number of slots.
    pub closed spec fn span(&self) -> nat {
        self.capacity as nat
    }

    /// How many insertions lie between the slot and the one that is filled
    /// next.
    spec fn age(&self, slot: int) -> int {
        if slot >= self.next {
            slot - self.next
        } else {
            slot + self.capacity - self.next
        }
    }

    /// The slots hold the remembered locations, the oldest in the slot that is
    /// filled next once all are taken, and nothing else.
    pub closed spec fn wf(&self) -> bool {
        &&& self.locations@.len() == self.capacity
        &&& self.capacity > 0 ==> self.next < self.capacity
        &&& self.recent@.len() <= self.capacity
        &&& forall|slot: int|
            0 <= slot < self.capacity ==> #[trigger] self.locations@[slot] == if self.age(slot)
                >= self.capacity - self.recent@.len() {
                Some(self.recent@[self.age(slot) - (self.capacity - self.recent@.len())])
            } else {
                None
            }
    }

    /// Never more locations than slots.
    pub proof fn lemma_bounded(&self)
        requires
            self.wf(),
        ensures
            self@.len() <= self.span(),
    {
    }

    /// Constructs an empty memory with the given number of slots.
    pub fn new(capacity: usize) -> (memory: LocationAwareness)
        ensures
            memory.wf(),
            memory.span() == capacity,
            memory@ == Seq::<Location>::empty(),
    {
        let mut locations: Vec<Option<Location>> = Vec::new();
        let mut filled: usize = 0;
        while filled < capacity
            invariant
                filled <= capacity,
                locations@.len() == filled,
                forall|slot: int| 0 <= slot < filled ==> locations@[slot] == None::<Location>,
            decreases capacity - filled,
        {
            locations.push(None);
            filled += 1;
        }
        LocationAwareness { capacity, next: 0, locations, recent: Ghost(Seq::empty()) }
    }

    /// Records a location, in place of the oldest one once every slot is
    /// taken. A memory without slots records nothing.
    pub fn insert(&mut self, location: Location)
        requires
            old(self).wf(),
        ensures
            final(self).wf(),
            final(self).span() == old(self).span(),
            final(self)@ == remembered(old(self)@, old(self).span(), location),
    {
        if self.capacity > 0 {
            let ghost before = *self;
            let slot: usize = self.next;
            self.locations.set(slot, Some(location));
            self.next = if slot + 1 == self.capacity {
                0
            } else {
                slot + 1
            };
            proof {
                self.recent = Ghost(remembered(before.recent@, before.capacity as nat, location));
                assert forall|other: int| 0 <= other < self.capacity implies #[trigger] self.locations@[other]
                    == if self.age(other) >= self.capacity - self.recent@.len() {
                    Some(self.recent@[self.age(other) - (self.capacity - self.recent@.len())])
                } else {
                    None
                } by {
                    if other != slot {
                        assert(self.locations@[other] == before.locations@[other]);
                        assert(before.age(other) == self.age(other) + 1);
                    }
                }
            }
        }
    }

    /// Returns true only if the given location is remembered.
    pub fn contains(&self, location: Location) -> (found: bool)
        requires
            self.wf(),
        ensures
            found == self@.contains(location),
    {
        let mut slot: usize = 0;
        while slot < self.locations.len()
            invariant
                self.wf(),
                slot <= self.locations@.len(),
                forall|seen: int| 0 <= seen < slot ==> self.locations@[seen] != Some(location),
            decreases self.locations@.len() - slot,
        {
            let holds = match self.locations[slot] {
                Some(held) => held.x == location.x && held.y == location.y,
                None => false,
            };
            if holds {
                proof {
                    let index = self.age(slot as int) - (self.capacity - self.recent@.len());
                    assert(self.locations@[slot as int] == Some(location));
                    assert(self.recent@[index] == location);
                }
                return true;
            }
            slot += 1;
        }
        proof {
            assert forall|index: int| 0 <= index < self.recent@.len() implies self.recent@[index]
                != location by {
                let age = index + self.capacity - self.recent@.len();
                let held: int = if self.next + age < self.capacity {
                    self.next + age
                } else {
                    self.next + age - self.capacity
                };
                assert(self.age(held) == age);
                assert(self.locations@[held] == Some(self.recent@[index]));
            }
        }
        false
    }

    /// Forgets all the locations.
    pub fn clear(&mut self)
        requires
            old(self).wf(),
        ensures
            final(self).wf(),
            final(self).span() == old(self).span(),
            final(self)@ == Seq::<Location>::empty(),
    {
        let mut slot: usize = 0;
        while slot < self.capacity
            invariant
                slot <= self.capacity,
                self.capacity == old(self).capacity,
                self.next == old(self).next,
                self.locations@.len() == self.capacity,
                forall|seen: int| 0 <= seen < slot ==> self.locations@[seen] == None::<Location>,
            decreases self.capacity - slot,
        {
            self.locations.set(slot, None);
            slot += 1;
        }
        proof {
            self.recent = Ghost(Seq::empty());
        }
    }
}

} // verus!
