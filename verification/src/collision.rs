//! Ground collision: does a proposed move cross the terrain segment beneath
//! the body, and where.

use crate::fixed::to_i64coords;
use crate::fixed::Displacement;
use crate::fixed::Point;
use crate::geometry::denominator;
use crate::geometry::first_numerator;
use crate::geometry::get_intersection;
use crate::geometry::in_unit_interval;
use crate::geometry::intersection_of;
use crate::geometry::lemma_meeting_point_between;
use crate::geometry::lemma_same_side_never_meets;
use crate::geometry::lemma_sides_decide;
use crate::geometry::orientation;
use crate::geometry::orientation_of;
use crate::geometry::turn;
use crate::geometry::Orientation;
use crate::terrain::is_ring;
use crate::terrain::lemma_vertex_after_last;
use crate::terrain::lemma_vertex_at_rotated;
use crate::terrain::rotated;
use crate::terrain::vertex_at;
use crate::terrain::Terrain;
use vstd::arithmetic::div_mod::lemma_small_mod;
use vstd::prelude::*;

verus! {

/// The crossing of the ground segment `a → b` by a move from `position` to
/// `next`. A move that ends above the ground, clockwise of the segment,
/// crosses nothing. Any other move crosses where the two segments meet, if
/// they meet.
pub open spec fn crossing_of(a: Point, b: Point, position: Point, next: Point) -> Option<Point> {
    if orientation_of(a, b, next) == Orientation::Clockwise {
        None
    } else {
        intersection_of(a, b, position, next)
    }
}

/// The body at `position` can be probed with `displacement`: it lies in the
/// world, and so does the place where the displacement would bring it.
pub open spec fn can_probe(position: Point, displacement: Displacement) -> bool {
    &&& position.in_world()
    &&& position.plus(displacement.whole()).in_world()
}

/// The crossing of the ring's segment that starts at `index` by the move of
/// a body at `position` by the whole units of `displacement`.
pub open spec fn ground_collision_of(
    ring: Seq<Point>,
    index: int,
    position: Point,
    displacement: Displacement,
) -> Option<Point> {
    crossing_of(
        vertex_at(ring, index),
        vertex_at(ring, index + 1),
        position,
        position.plus(displacement.whole()),
    )
}

/// Tells whether a body at `position` can be probed with `displacement`.
pub fn is_probe_in_world(position: Point, displacement: Displacement) -> (b: bool)
    ensures
        b == can_probe(position, displacement),
{
    if !position.is_in_world() {
        return false;
    }
    position.offset_by(to_i64coords(displacement)).is_in_world()
}

/// Looks for the point at which a body at `position`, moved by
/// `displacement`, crosses the terrain segment that starts at
/// `terrain_index`. The index counts round the ring, so the segment after
/// the last vertex ends at the first.
pub fn ground_collision(
    terrain: &Terrain,
    terrain_index: usize,
    position: Point,
    displacement: Displacement,
) -> (hit: Option<Point>)
    requires
        can_probe(position, displacement),
    ensures
        hit == ground_collision_of(terrain@, terrain_index as int, position, displacement),
        hit matches Some(point) ==> point.in_world(),
{
    let terrain_a = terrain.surface(terrain_index);
    let terrain_b = terrain.surface_after(terrain_index);
    let next_position = position.offset_by(to_i64coords(displacement));
    if orientation(terrain_a, terrain_b, next_position) == Orientation::Clockwise {
        return None;
    }
    let hit = get_intersection(terrain_a, terrain_b, position, next_position);
    proof {
        if hit is Some {
            lemma_meeting_point_between(terrain_a, terrain_b, position, next_position);
        }
    }
    hit
}

/// A crossing lies on the move that made it: between `position` and `next`
/// in each coordinate, and so in the world.
pub proof fn lemma_crossing_between(a: Point, b: Point, position: Point, next: Point, point: Point)
    requires
        position.in_world(),
        next.in_world(),
        crossing_of(a, b, position, next) == Some(point),
    ensures
        position.x <= next.x ==> position.x <= point.x <= next.x,
        next.x <= position.x ==> next.x <= point.x <= position.x,
        position.y <= next.y ==> position.y <= point.y <= next.y,
        next.y <= position.y ==> next.y <= point.y <= position.y,
        point.in_world(),
{
    lemma_meeting_point_between(a, b, position, next);
}

/// A body that is above the ground line, or on it, and would end strictly
/// below it lands exactly where its move passes between the two ends of the
/// segment, the ends included.
pub proof fn lemma_crossing_from_above(a: Point, b: Point, position: Point, next: Point)
    requires
        turn(a, b, position) >= 0,
        turn(a, b, next) < 0,
    ensures
        crossing_of(a, b, position, next) is Some <==> in_unit_interval(
            first_numerator(a, b, position, next),
            denominator(a, b, position, next),
        ),
{
    lemma_sides_decide(a, b, position, next);
}

/// A body that is strictly below the ground line and stays there crosses
/// nothing: what is under the ground is not brought back to it.
pub proof fn lemma_no_crossing_from_below(a: Point, b: Point, position: Point, next: Point)
    requires
        turn(a, b, position) < 0,
        turn(a, b, next) < 0,
    ensures
        crossing_of(a, b, position, next) is None,
{
    lemma_same_side_never_meets(a, b, position, next);
}

/// A body that stands on an end of the ground segment and moves strictly
/// into the ground crosses it right where it stands.
pub proof fn lemma_crossing_from_vertex(a: Point, b: Point, next: Point)
    requires
        turn(a, b, next) < 0,
    ensures
        crossing_of(a, b, a, next) == Some(a),
        crossing_of(a, b, b, next) == Some(b),
{
    let rx = b.x - a.x;
    let ry = b.y - a.y;
    assert(denominator(a, b, a, next) == -turn(a, b, next)) by (nonlinear_arith)
        requires
            denominator(a, b, a, next) == (b.x - a.x) * (next.y - a.y) - (b.y - a.y) * (next.x
                - a.x),
            turn(a, b, next) == (b.y - a.y) * (next.x - b.x) - (b.x - a.x) * (next.y - b.y),
    ;
    assert(denominator(a, b, b, next) == -turn(a, b, next));
    let num = rx * ry - ry * rx;
    assert(num == 0) by (nonlinear_arith)
        requires
            num == rx * ry - ry * rx,
    ;
    assert(num * (next.x - b.x) == 0 && num * (next.y - b.y) == 0) by (nonlinear_arith)
        requires
            num == 0,
    ;
}

/// The segment that closes the ring, from the last vertex to the first, is
/// probed by the one rule that every other segment is probed by.
pub proof fn lemma_wrap_around(
    ring: Seq<Point>,
    index: int,
    position: Point,
    displacement: Displacement,
)
    requires
        ring.len() > 0,
        0 <= index < ring.len(),
    ensures
        index + 1 < ring.len() ==> ground_collision_of(ring, index, position, displacement)
            == crossing_of(
            ring[index],
            ring[index + 1],
            position,
            position.plus(displacement.whole()),
        ),
        index + 1 == ring.len() ==> ground_collision_of(ring, index, position, displacement)
            == crossing_of(ring[index], ring[0], position, position.plus(displacement.whole())),
{
    lemma_small_mod(index as nat, ring.len());
    if index + 1 < ring.len() {
        lemma_small_mod((index + 1) as nat, ring.len());
    } else {
        lemma_vertex_after_last(ring);
    }
}

/// Where the ring is taken to start makes no difference: the ring that
/// starts `by` vertices later, probed at `index`, answers as the ring itself
/// does at `index + by`. No segment is special, the closing one included.
pub proof fn lemma_rotation_invariance(
    ring: Seq<Point>,
    by: nat,
    index: int,
    position: Point,
    displacement: Displacement,
)
    requires
        ring.len() > 0,
    ensures
        ground_collision_of(rotated(ring, by), index, position, displacement)
            == ground_collision_of(ring, index + by, position, displacement),
{
    lemma_vertex_at_rotated(ring, by, index);
    lemma_vertex_at_rotated(ring, by, index + 1);
}

} // verus!
