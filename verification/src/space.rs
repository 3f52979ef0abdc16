//! Locations, offsets and dimensions of the toroidal grid.

use vstd::prelude::*;

verus! {

/// The tile of the grid that an entity occupies.
#[derive(Clone, Copy, Debug, PartialEq, Eq, Hash, Structural)]
pub struct Location {
    pub x: i32,
    pub y: i32,
}

/// A displacement between two tiles.
#[derive(Clone, Copy, Debug, PartialEq, Eq, Hash, Structural)]
pub struct Offset {
    pub x: i32,
    pub y: i32,
}

/// The number of columns and rows of the grid.
#[derive(Clone, Copy, Debug, PartialEq, Eq, Hash, Structural)]
pub struct Dimension {
    pub x: i32,
    pub y: i32,
}

/// The largest distance between two tiles that a usable grid allows. It keeps
/// every count of tiles along a ring within reach of a 32-bit machine.
pub const MAX_SPAN: i32 = 0x1000_0000;

/// The value of `v` once it is forced into the range of `i32`.
pub open spec fn clip(v: int) -> int {
    if v < i32::MIN {
        i32::MIN as int
    } else if v > i32::MAX {
        i32::MAX as int
    } else {
        v
    }
}

/// -1, 0 or 1 as `v` is negative, zero or positive.
pub open spec fn sign(v: int) -> int {
    if v < 0 {
        -1
    } else if v > 0 {
        1
    } else {
        0
    }
}

/// The distance from zero.
pub open spec fn magnitude(v: int) -> int {
    if v < 0 {
        -v
    } else {
        v
    }
}

/// The tile reached from `location` by `offset` on a torus of `dimension`.
pub open spec fn translated(location: Location, offset: Offset, dimension: Dimension) -> Location {
    Location {
        x: (clip(location.x + offset.x) % (dimension.x as int)) as i32,
        y: (clip(location.y + offset.y) % (dimension.y as int)) as i32,
    }
}

/// The single step, at most one unit along each axis, that leads from
/// `location` towards `destination` once the latter is wrapped onto the torus.
pub open spec fn step_towards(location: Location, destination: Location, dimension: Dimension) -> Offset {
    Offset {
        x: sign((destination.x as int) % (dimension.x as int) - location.x) as i32,
        y: sign((destination.y as int) % (dimension.y as int) - location.y) as i32,
    }
}

/// The tile reached from `location` by one step towards `destination`.
pub open spec fn translated_towards(
    location: Location,
    destination: Location,
    dimension: Dimension,
) -> Location {
    translated(location, step_towards(location, destination, dimension), dimension)
}

/// The distance between two tiles measured along the axes.
pub open spec fn manhattan(from: Location, to: Location) -> int {
    magnitude(from.x - to.x) + magnitude(from.y - to.y)
}

/// The radius of the square ring around the origin on which `offset` lies.
pub open spec fn ring_of(offset: Offset) -> int {
    if magnitude(offset.x as int) >= magnitude(offset.y as int) {
        magnitude(offset.x as int)
    } else {
        magnitude(offset.y as int)
    }
}

impl Dimension {
    /// Both sides are positive, and no two tiles of the grid are further
    /// apart than [`MAX_SPAN`].
    pub open spec fn wf(self) -> bool {
        &&& self.x > 0
        &&& self.y > 0
        &&& self.x + self.y <= MAX_SPAN
    }

    /// Whether `location` names a tile of the grid.
    pub open spec fn holds(self, location: Location) -> bool {
        &&& 0 <= location.x < self.x
        &&& 0 <= location.y < self.y
    }

    /// Whether the given location names a tile of this grid.
    pub fn contains(&self, location: Location) -> (inside: bool)
        ensures
            inside == self.holds(location),
    {
        0 <= location.x && location.x < self.x && 0 <= location.y && location.y < self.y
    }

    /// Whether the grid is usable: see [`Dimension::wf`].
    pub fn is_valid(&self) -> (valid: bool)
        ensures
            valid == self.wf(),
    {
        self.x > 0 && self.y > 0 && self.x <= MAX_SPAN - self.y
    }
}

/// A translation ends on the grid.
pub proof fn lemma_translated_on_grid(location: Location, offset: Offset, dimension: Dimension)
    requires
        dimension.x > 0,
        dimension.y > 0,
    ensures
        dimension.holds(translated(location, offset, dimension)),
{
    vstd::arithmetic::div_mod::lemma_mod_bound(clip(location.x + offset.x), dimension.x as int);
    vstd::arithmetic::div_mod::lemma_mod_bound(clip(location.y + offset.y), dimension.y as int);
}

/// A step towards a destination is of at most one unit along each axis, and
/// ends on the grid.
pub proof fn lemma_translated_towards_on_grid(location: Location, destination: Location, dimension: Dimension)
    requires
        dimension.x > 0,
        dimension.y > 0,
    ensures
        -1 <= step_towards(location, destination, dimension).x <= 1,
        -1 <= step_towards(location, destination, dimension).y <= 1,
        dimension.holds(translated_towards(location, destination, dimension)),
{
    lemma_translated_on_grid(location, step_towards(location, destination, dimension), dimension);
}

/// The distance between two tiles of a usable grid is below [`MAX_SPAN`].
pub proof fn lemma_distance_on_grid(from: Location, to: Location, dimension: Dimension)
    requires
        dimension.wf(),
        dimension.holds(from),
        dimension.holds(to),
    ensures
        0 <= manhattan(from, to) < dimension.x + dimension.y,
        manhattan(from, to) < MAX_SPAN,
{
}

/// Calls `semeion::Location::translate`: each coordinate is the saturating sum
/// of the coordinate and the offset, reduced into `0..dimension` by the
/// Euclidean remainder. A zero side would divide by zero and is left out.
#[verifier::external_body]
pub(crate) fn translate(location: Location, offset: Offset, dimension: Dimension) -> (moved: Location)
    requires
        dimension.x > 0,
        dimension.y > 0,
    ensures
        moved == translated(location, offset, dimension),
{
    let mut point = semeion::Location { x: location.x, y: location.y };
    point.translate(
        semeion::Offset { x: offset.x, y: offset.y },
        semeion::Dimension { x: dimension.x, y: dimension.y },
    );
    Location { x: point.x, y: point.y }
}

/// Calls `semeion::Location::translate_towards`: the destination is wrapped
/// onto the torus, the sign of its difference to the location gives a step of
/// at most one unit per axis, and the location is translated by that step.
#[verifier::external_body]
pub(crate) fn translate_towards(location: Location, destination: Location, dimension: Dimension) -> (moved: Location)
    requires
        dimension.x > 0,
        dimension.y > 0,
    ensures
        moved == translated_towards(location, destination, dimension),
{
    let mut point = semeion::Location { x: location.x, y: location.y };
    point.translate_towards(
        semeion::Location { x: destination.x, y: destination.y },
        semeion::Dimension { x: dimension.x, y: dimension.y },
    );
    Location { x: point.x, y: point.y }
}

/// Calls `semeion::Location::distance` with the Manhattan metric: the sum of
/// the absolute coordinate differences. Pairs whose distance does not fit in an
/// `i32` overflow inside the call and are left out.
#[verifier::external_body]
pub(crate) fn manhattan_distance(from: Location, to: Location) -> (distance: usize)
    requires
        manhattan(from, to) <= i32::MAX,
    ensures
        distance == manhattan(from, to),
{
    semeion::Location { x: from.x, y: from.y }.distance(
        semeion::Location { x: to.x, y: to.y },
        semeion::Distance::Manhattan,
    )
}

/// Calls `semeion::Offset::border`: the offsets of the square ring at the given
/// radius around the origin, each of them once, in no promised order; for
/// radius zero the origin alone. The call counts the tiles of the ring, eight
/// times the radius, in a `usize`: radii beyond [`MAX_SPAN`] are left out.
#[verifier::external_body]
pub(crate) fn border(radius: usize) -> (offsets: Vec<Offset>)
    requires
        radius <= MAX_SPAN,
    ensures
        offsets@.len() > 0,
        offsets@.no_duplicates(),
        forall|o: Offset| offsets@.contains(o) <==> ring_of(o) == radius,
{
    let ring = semeion::Offset::border(radius);
    let mut offsets: Vec<Offset> = Vec::with_capacity(ring.len());
    for point in ring.iter() {
        offsets.push(Offset { x: point.x, y: point.y });
    }
    offsets
}

} // verus!
