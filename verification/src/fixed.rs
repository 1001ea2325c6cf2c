//! Exact coordinates: the fixed-point grid of positions, the finer grid of
//! sub-unit displacements, and the conversion between the two.
//!
//! A world unit is [`SCALE`] fixed-point units, and a fixed-point unit is
//! [`GRAIN`] grains. Positions are whole fixed-point units, so that they
//! stay exact however far from the origin they are. Motion is measured in
//! grains. Whoever measures in fractions of a world unit scales by
//! [`WORLD_UNIT`] and rounds down before handing a length over; from there
//! on nothing is rounded but by the floor that carries whole units out of a
//! displacement, and what that floor leaves is kept.

use vstd::prelude::*;

verus! {

/// Fixed-point units in one world unit.
pub const SCALE: i64 = 256;

/// Grains in one fixed-point unit. A grain is the unit of [`Displacement`].
pub const GRAIN: i64 = 16_777_216;

/// Grains in one world unit: `SCALE` times `GRAIN`.
pub const WORLD_UNIT: i64 = 4_294_967_296;

/// Largest magnitude of a coordinate that the geometry accepts.
pub const WORLD_LIMIT: i64 = 1_099_511_627_776;

/// A position or an offset on the fixed-point grid.
#[derive(Clone, Copy, Debug, PartialEq, Eq, Structural)]
pub struct Point {
    pub x: i64,
    pub y: i64,
}

/// A displacement in grains. It is exact: nothing is rounded until whole
/// fixed-point units are carried out of it.
#[derive(Clone, Copy, Debug, PartialEq, Eq, Structural)]
pub struct Displacement {
    pub x: i64,
    pub y: i64,
}

impl Point {
    /// Both coordinates are within [`WORLD_LIMIT`] of the origin.
    pub open spec fn in_world(self) -> bool {
        &&& -WORLD_LIMIT <= self.x <= WORLD_LIMIT
        &&& -WORLD_LIMIT <= self.y <= WORLD_LIMIT
    }

    /// `delta` can be added to `self` without leaving the range of `i64`.
    pub open spec fn can_reach(self, delta: Point) -> bool {
        &&& i64::MIN <= self.x + delta.x <= i64::MAX
        &&& i64::MIN <= self.y + delta.y <= i64::MAX
    }

    /// The point `self + delta`, where [`Point::can_reach`] holds.
    pub open spec fn plus(self, delta: Point) -> Point {
        Point { x: (self.x + delta.x) as i64, y: (self.y + delta.y) as i64 }
    }

    pub fn new(x: i64, y: i64) -> (p: Point)
        ensures
            p == (Point { x, y }),
    {
        Point { x, y }
    }

    /// Tells whether the point lies in the world.
    pub fn is_in_world(self) -> (b: bool)
        ensures
            b == self.in_world(),
    {
        -WORLD_LIMIT <= self.x && self.x <= WORLD_LIMIT && -WORLD_LIMIT <= self.y && self.y
            <= WORLD_LIMIT
    }

    /// Tells whether the point can be moved by `delta`.
    pub fn reaches(self, delta: Point) -> (b: bool)
        ensures
            b == self.can_reach(delta),
    {
        self.x.checked_add(delta.x).is_some() && self.y.checked_add(delta.y).is_some()
    }

    /// Moves the point by `delta`.
    pub fn offset_by(self, delta: Point) -> (p: Point)
        requires
            self.can_reach(delta),
        ensures
            p == self.plus(delta),
            p.x == self.x + delta.x,
            p.y == self.y + delta.y,
    {
        Point { x: self.x + delta.x, y: self.y + delta.y }
    }
}

impl Displacement {
    /// No displacement at all.
    pub open spec fn zero() -> Displacement {
        Displacement { x: 0, y: 0 }
    }

    /// The whole fixed-point units in the displacement: each component
    /// divided by [`GRAIN`] and rounded down.
    pub open spec fn whole(self) -> Point {
        Point { x: (self.x as int / GRAIN as int) as i64, y: (self.y as int / GRAIN as int) as i64 }
    }

    /// What is left below one fixed-point unit: each component modulo
    /// [`GRAIN`], never negative.
    pub open spec fn fraction(self) -> Displacement {
        Displacement {
            x: (self.x as int % GRAIN as int) as i64,
            y: (self.y as int % GRAIN as int) as i64,
        }
    }

    /// Both components lie in `[0, GRAIN)`.
    pub open spec fn is_fraction(self) -> bool {
        &&& 0 <= self.x < GRAIN
        &&& 0 <= self.y < GRAIN
    }

    /// `other` can be added to `self` without leaving the range of `i64`.
    pub open spec fn can_gain(self, other: Displacement) -> bool {
        &&& i64::MIN <= self.x + other.x <= i64::MAX
        &&& i64::MIN <= self.y + other.y <= i64::MAX
    }

    /// The displacement `self + other`, where [`Displacement::can_gain`] holds.
    pub open spec fn plus(self, other: Displacement) -> Displacement {
        Displacement { x: (self.x + other.x) as i64, y: (self.y + other.y) as i64 }
    }

    pub fn new(x: i64, y: i64) -> (d: Displacement)
        ensures
            d == (Displacement { x, y }),
    {
        Displacement { x, y }
    }

    /// The displacement of nothing.
    pub fn origin() -> (d: Displacement)
        ensures
            d == Displacement::zero(),
    {
        Displacement { x: 0, y: 0 }
    }

    /// Tells whether `other` can be added to `self`.
    pub fn has_room_for(self, other: Displacement) -> (b: bool)
        ensures
            b == self.can_gain(other),
    {
        self.x.checked_add(other.x).is_some() && self.y.checked_add(other.y).is_some()
    }

    /// Adds two displacements.
    pub fn gain(self, other: Displacement) -> (d: Displacement)
        requires
            self.can_gain(other),
        ensures
            d == self.plus(other),
            d.x == self.x + other.x,
            d.y == self.y + other.y,
    {
        Displacement { x: self.x + other.x, y: self.y + other.y }
    }
}

/// Floor and Euclidean remainder of one component by [`GRAIN`].
fn split_component(v: i64) -> (r: (i64, i64))
    ensures
        r.0 == v as int / GRAIN as int,
        r.1 == v as int % GRAIN as int,
        0 <= r.1 < GRAIN,
        r.0 * GRAIN + r.1 == v,
        -549_755_813_888 <= r.0 < 549_755_813_888,
{
    let q = v.checked_div_euclid(GRAIN);
    let m = v.checked_rem_euclid(GRAIN);
    proof {
        let vi = v as int;
        assert(vi == 16_777_216 * (vi / 16_777_216) + vi % 16_777_216);
    }
    (q.unwrap(), m.unwrap())
}

/// Converts a displacement to the fixed-point grid, rounding each component
/// down, and discards what is left over.
pub fn to_i64coords(coords: Displacement) -> (fixed: Point)
    ensures
        fixed == coords.whole(),
        fixed.x == coords.x as int / GRAIN as int,
        fixed.y == coords.y as int / GRAIN as int,
        fixed.x * GRAIN <= coords.x < (fixed.x + 1) * GRAIN,
        fixed.y * GRAIN <= coords.y < (fixed.y + 1) * GRAIN,
{
    let x = split_component(coords.x);
    let y = split_component(coords.y);
    Point { x: x.0, y: y.0 }
}

/// Splits a displacement into the whole fixed-point units it holds, each
/// component rounded down, and the remainder below one unit. The remainder is
/// never negative, whatever the sign of the displacement, and the two parts
/// together are the displacement again.
pub fn to_i64coords_with_rem(coords: Displacement) -> (split: (Point, Displacement))
    ensures
        split.0 == coords.whole(),
        split.1 == coords.fraction(),
        split.1.is_fraction(),
        split.0.x * GRAIN + split.1.x == coords.x,
        split.0.y * GRAIN + split.1.y == coords.y,
{
    let x = split_component(coords.x);
    let y = split_component(coords.y);
    (Point { x: x.0, y: y.0 }, Displacement { x: x.1, y: y.1 })
}

/// The whole part and the fraction of a displacement put together give the
/// displacement back, exactly.
pub proof fn lemma_round_trip(coords: Displacement)
    ensures
        coords.whole().x * GRAIN + coords.fraction().x == coords.x,
        coords.whole().y * GRAIN + coords.fraction().y == coords.y,
{
    let x = coords.x as int;
    let y = coords.y as int;
    assert(x == 16_777_216 * (x / 16_777_216) + x % 16_777_216);
    assert(y == 16_777_216 * (y / 16_777_216) + y % 16_777_216);
}

/// The fraction of a displacement lies in `[0, GRAIN)` in both components,
/// for negative displacements too.
pub proof fn lemma_fraction_bound(coords: Displacement)
    ensures
        coords.fraction().is_fraction(),
{
}

/// From a point in the world every carry can be made: the whole units of a
/// displacement never lead out of the range of the coordinates.
pub proof fn lemma_world_reaches_whole(position: Point, coords: Displacement)
    requires
        position.in_world(),
    ensures
        position.can_reach(coords.whole()),
        -549_755_813_888 <= coords.whole().x < 549_755_813_888,
        -549_755_813_888 <= coords.whole().y < 549_755_813_888,
{
}

/// The constants agree: a world unit is `SCALE` fixed-point units of
/// `GRAIN` grains each.
pub proof fn lemma_world_unit()
    ensures
        WORLD_UNIT == SCALE * GRAIN,
{
}

/// A displacement that already lies below one unit holds no whole unit and is
/// its own fraction.
pub proof fn lemma_fraction_is_fixed_point(coords: Displacement)
    requires
        coords.is_fraction(),
    ensures
        coords.whole() == (Point { x: 0, y: 0 }),
        coords.fraction() == coords,
{
}

} // verus!
