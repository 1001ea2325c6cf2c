//! Plane geometry on the fixed-point grid: the orientation of three points
//! and the meeting point of two segments.

use crate::fixed::Point;
use vstd::prelude::*;

verus! {

/// How three points, taken in order, turn.
#[derive(Clone, Copy, Debug, PartialEq, Eq, Structural)]
pub enum Orientation {
    Clockwise,
    AntiClockwise,
    Colinear,
}

/// The cross product `u × v` of two plane vectors.
pub open spec fn cross(ux: int, uy: int, vx: int, vy: int) -> int {
    ux * vy - uy * vx
}

/// Twice the signed area that decides the orientation of `p`, `q`, `r`:
/// positive where they turn clockwise.
pub open spec fn turn(p: Point, q: Point, r: Point) -> int {
    (q.y - p.y) * (r.x - q.x) - (q.x - p.x) * (r.y - q.y)
}

/// The orientation of the ordered points `p`, `q`, `r`.
pub open spec fn orientation_of(p: Point, q: Point, r: Point) -> Orientation {
    if turn(p, q, r) > 0 {
        Orientation::Clockwise
    } else if turn(p, q, r) < 0 {
        Orientation::AntiClockwise
    } else {
        Orientation::Colinear
    }
}

/// `(b - a) × (d - c)`: zero exactly where the two segments are parallel.
pub open spec fn denominator(a: Point, b: Point, c: Point, d: Point) -> int {
    cross(b.x - a.x, b.y - a.y, d.x - c.x, d.y - c.y)
}

/// `(c - a) × (d - c)`. Over the denominator it is how far along `a → b`
/// the two lines meet.
pub open spec fn first_numerator(a: Point, b: Point, c: Point, d: Point) -> int {
    cross(c.x - a.x, c.y - a.y, d.x - c.x, d.y - c.y)
}

/// `(c - a) × (b - a)`. Over the denominator it is how far along `c → d`
/// the two lines meet.
pub open spec fn second_numerator(a: Point, b: Point, c: Point, d: Point) -> int {
    cross(c.x - a.x, c.y - a.y, b.x - a.x, b.y - a.y)
}

/// The fraction `num / den` is defined and lies in `[0, 1]`.
pub open spec fn in_unit_interval(num: int, den: int) -> bool {
    if den > 0 {
        0 <= num <= den
    } else {
        den < 0 && den <= num <= 0
    }
}

/// The segments `a → b` and `c → d` are not parallel and have a point in
/// common, end points included.
pub open spec fn segments_meet(a: Point, b: Point, c: Point, d: Point) -> bool {
    &&& in_unit_interval(first_numerator(a, b, c, d), denominator(a, b, c, d))
    &&& in_unit_interval(second_numerator(a, b, c, d), denominator(a, b, c, d))
}

/// The magnitude of `v`.
pub open spec fn magnitude(v: int) -> int {
    if v < 0 {
        -v
    } else {
        v
    }
}

/// The quotient `num / den` rounded toward zero.
pub open spec fn toward_zero(num: int, den: int) -> int {
    if (num >= 0) == (den > 0) {
        magnitude(num) / magnitude(den)
    } else {
        -(magnitude(num) / magnitude(den))
    }
}

/// The grid point at which `c → d` meets `a → b`: `c` moved along `c → d`
/// by the fraction at which the lines meet, each coordinate of the move
/// rounded toward `c`.
pub open spec fn meeting_point(a: Point, b: Point, c: Point, d: Point) -> Point {
    let den = denominator(a, b, c, d);
    let num = second_numerator(a, b, c, d);
    Point {
        x: (c.x + toward_zero(num * (d.x - c.x), den)) as i64,
        y: (c.y + toward_zero(num * (d.y - c.y), den)) as i64,
    }
}

/// Where the segment `c → d` meets the segment `a → b`, if it does.
pub open spec fn intersection_of(a: Point, b: Point, c: Point, d: Point) -> Option<Point> {
    if segments_meet(a, b, c, d) {
        Some(meeting_point(a, b, c, d))
    } else {
        None
    }
}

proof fn lemma_product_bound(a: int, b: int, la: int, lb: int)
    by (nonlinear_arith)
    requires
        -la <= a <= la,
        -lb <= b <= lb,
    ensures
        -(la * lb) <= a * b <= la * lb,
{
}

/// The orientation of the ordered points `p`, `q`, `r`, by the sign of the
/// cross product of the two edges between them.
pub fn orientation(p: Point, q: Point, r: Point) -> (o: Orientation)
    requires
        p.in_world(),
        q.in_world(),
        r.in_world(),
    ensures
        o == orientation_of(p, q, r),
{
    let a: i128 = q.y as i128 - p.y as i128;
    let b: i128 = r.x as i128 - q.x as i128;
    let c: i128 = q.x as i128 - p.x as i128;
    let d: i128 = r.y as i128 - q.y as i128;
    proof {
        lemma_product_bound(a as int, b as int, 0x200_0000_0000, 0x200_0000_0000);
        lemma_product_bound(c as int, d as int, 0x200_0000_0000, 0x200_0000_0000);
    }
    let area: i128 = a * b - c * d;
    if area > 0 {
        Orientation::Clockwise
    } else if area < 0 {
        Orientation::AntiClockwise
    } else {
        Orientation::Colinear
    }
}

/// Tells whether `num / den` is defined and lies in `[0, 1]`.
fn within_unit(num: i128, den: i128) -> (b: bool)
    ensures
        b == in_unit_interval(num as int, den as int),
{
    if den > 0 {
        0 <= num && num <= den
    } else {
        den < 0 && den <= num && num <= 0
    }
}

/// `span` scaled by the fraction `num / den` of the unit interval, rounded
/// toward zero.
fn scaled_toward_zero(num: i128, den: i128, span: i128) -> (o: i128)
    requires
        in_unit_interval(num as int, den as int),
        -0x8_0000_0000_0000_0000_0000 <= den <= 0x8_0000_0000_0000_0000_0000,
        -0x200_0000_0000 <= span <= 0x200_0000_0000,
    ensures
        o == toward_zero(num * span, den as int),
        span >= 0 ==> 0 <= o <= span,
        span <= 0 ==> span <= o <= 0,
{
    let un: i128 = if num < 0 { -num } else { num };
    let dn: i128 = if den < 0 { -den } else { den };
    let sn: i128 = if span < 0 { -span } else { span };
    proof {
        lemma_product_bound(un as int, sn as int, 0x8_0000_0000_0000_0000_0000, 0x200_0000_0000);
        lemma_scaled_within_span(num as int, den as int, span as int);
        assert(magnitude(num * span) == un * sn) by (nonlinear_arith)
            requires
                un == magnitude(num as int),
                sn == magnitude(span as int),
        ;
    }
    let q: i128 = (un * sn) / dn;
    if span < 0 {
        -q
    } else {
        q
    }
}

/// Where the segment `c → d` meets the segment `a → b`. Parallel segments,
/// overlapping ones among them, have no meeting point.
pub fn get_intersection(a: Point, b: Point, c: Point, d: Point) -> (hit: Option<Point>)
    requires
        a.in_world(),
        b.in_world(),
        c.in_world(),
        d.in_world(),
    ensures
        hit == intersection_of(a, b, c, d),
{
    let rx: i128 = b.x as i128 - a.x as i128;
    let ry: i128 = b.y as i128 - a.y as i128;
    let sx: i128 = d.x as i128 - c.x as i128;
    let sy: i128 = d.y as i128 - c.y as i128;
    let qx: i128 = c.x as i128 - a.x as i128;
    let qy: i128 = c.y as i128 - a.y as i128;
    proof {
        lemma_product_bound(rx as int, sy as int, 0x200_0000_0000, 0x200_0000_0000);
        lemma_product_bound(ry as int, sx as int, 0x200_0000_0000, 0x200_0000_0000);
        lemma_product_bound(qx as int, sy as int, 0x200_0000_0000, 0x200_0000_0000);
        lemma_product_bound(qy as int, sx as int, 0x200_0000_0000, 0x200_0000_0000);
        lemma_product_bound(qx as int, ry as int, 0x200_0000_0000, 0x200_0000_0000);
        lemma_product_bound(qy as int, rx as int, 0x200_0000_0000, 0x200_0000_0000);
    }
    let den: i128 = rx * sy - ry * sx;
    let first: i128 = qx * sy - qy * sx;
    let second: i128 = qx * ry - qy * rx;
    if !within_unit(first, den) || !within_unit(second, den) {
        return None;
    }
    let ox: i128 = scaled_toward_zero(second, den, sx);
    let oy: i128 = scaled_toward_zero(second, den, sy);
    Some(Point { x: (c.x as i128 + ox) as i64, y: (c.y as i128 + oy) as i64 })
}

/// Rounding toward zero moves a quotient by less than one: `den` times the
/// rounded quotient differs from `num` by less than the magnitude of `den`.
pub proof fn lemma_toward_zero_is_close(num: int, den: int)
    requires
        den != 0,
    ensures
        magnitude(den * toward_zero(num, den) - num) < magnitude(den),
{
    let n = magnitude(num);
    let d = magnitude(den);
    let q = n / d;
    assert(n == d * q + n % d && 0 <= n % d < d) by (nonlinear_arith)
        requires
            d > 0,
            q == n / d,
    ;
    assert(den > 0 ==> den * q == d * q) by (nonlinear_arith)
        requires
            den > 0 ==> d == den,
    ;
    assert(den < 0 ==> den * q == -(d * q)) by (nonlinear_arith)
        requires
            den < 0 ==> d == -den,
    ;
    assert(den * (-q) == -(den * q)) by (nonlinear_arith);
    assert(toward_zero(num, den) == q || toward_zero(num, den) == -q);
}

/// A span scaled by a fraction of the unit interval and rounded toward zero
/// stays between zero and the span.
pub proof fn lemma_scaled_within_span(num: int, den: int, span: int)
    requires
        in_unit_interval(num, den),
    ensures
        span >= 0 ==> 0 <= toward_zero(num * span, den) <= span,
        span <= 0 ==> span <= toward_zero(num * span, den) <= 0,
{
    let un = magnitude(num);
    let dn = magnitude(den);
    let sn = magnitude(span);
    assert(magnitude(num * span) == un * sn) by (nonlinear_arith)
        requires
            un == magnitude(num),
            sn == magnitude(span),
    ;
    assert(0 <= (un * sn) / dn <= sn) by (nonlinear_arith)
        requires
            0 <= un <= dn,
            0 < dn,
            0 <= sn,
    ;
    assert((num * span > 0) == ((num > 0 && span > 0) || (num < 0 && span < 0)))
        by (nonlinear_arith);
    assert((num * span < 0) == ((num > 0 && span < 0) || (num < 0 && span > 0)))
        by (nonlinear_arith);
    assert((un * sn == 0) == (num == 0 || span == 0)) by (nonlinear_arith)
        requires
            un == magnitude(num),
            sn == magnitude(span),
    ;
    assert(un * sn == 0 ==> (un * sn) / dn == 0);
}

/// The meeting point lies on the travel segment `c → d`, between its end
/// points in each coordinate: at or before `d`, seen from `c`.
pub proof fn lemma_meeting_point_between(a: Point, b: Point, c: Point, d: Point)
    requires
        c.in_world(),
        d.in_world(),
        segments_meet(a, b, c, d),
    ensures
        c.x <= d.x ==> c.x <= meeting_point(a, b, c, d).x <= d.x,
        d.x <= c.x ==> d.x <= meeting_point(a, b, c, d).x <= c.x,
        c.y <= d.y ==> c.y <= meeting_point(a, b, c, d).y <= d.y,
        d.y <= c.y ==> d.y <= meeting_point(a, b, c, d).y <= c.y,
        meeting_point(a, b, c, d).in_world(),
{
    let den = denominator(a, b, c, d);
    let num = second_numerator(a, b, c, d);
    lemma_scaled_within_span(num, den, d.x - c.x);
    lemma_scaled_within_span(num, den, d.y - c.y);
}

/// The point that the two fractions name is one and the same: `c` moved by
/// the second fraction of `c → d` is `a` moved by the first fraction of
/// `a → b`. Both sides are multiplied by the denominator, so that the
/// statement is one of whole numbers.
pub proof fn lemma_meeting_point_on_both(a: Point, b: Point, c: Point, d: Point)
    ensures
        denominator(a, b, c, d) * (c.x - a.x) + second_numerator(a, b, c, d) * (d.x - c.x)
            == first_numerator(a, b, c, d) * (b.x - a.x),
        denominator(a, b, c, d) * (c.y - a.y) + second_numerator(a, b, c, d) * (d.y - c.y)
            == first_numerator(a, b, c, d) * (b.y - a.y),
{
    let rx = b.x - a.x;
    let ry = b.y - a.y;
    let sx = d.x - c.x;
    let sy = d.y - c.y;
    let qx = c.x - a.x;
    let qy = c.y - a.y;
    assert((rx * sy - ry * sx) * qx + (qx * ry - qy * rx) * sx == (qx * sy - qy * sx) * rx)
        by (nonlinear_arith);
    assert((rx * sy - ry * sx) * qy + (qx * ry - qy * rx) * sy == (qx * sy - qy * sx) * ry)
        by (nonlinear_arith);
}

/// The meeting point is the true crossing rounded to the grid: in each
/// coordinate it is less than one fixed-point unit away from it.
pub proof fn lemma_meeting_point_is_close(a: Point, b: Point, c: Point, d: Point)
    requires
        c.in_world(),
        d.in_world(),
        segments_meet(a, b, c, d),
    ensures
        magnitude(
            denominator(a, b, c, d) * (meeting_point(a, b, c, d).x - c.x) - second_numerator(
                a,
                b,
                c,
                d,
            ) * (d.x - c.x),
        ) < magnitude(denominator(a, b, c, d)),
        magnitude(
            denominator(a, b, c, d) * (meeting_point(a, b, c, d).y - c.y) - second_numerator(
                a,
                b,
                c,
                d,
            ) * (d.y - c.y),
        ) < magnitude(denominator(a, b, c, d)),
{
    let den = denominator(a, b, c, d);
    let num = second_numerator(a, b, c, d);
    lemma_scaled_within_span(num, den, d.x - c.x);
    lemma_scaled_within_span(num, den, d.y - c.y);
    lemma_toward_zero_is_close(num * (d.x - c.x), den);
    lemma_toward_zero_is_close(num * (d.y - c.y), den);
}

/// The fraction along the move `c → d` is made of the two turns that
/// decide on which side of `a → b` the move begins and ends: its numerator
/// is the turn of `c`, and its denominator is the turn of `c` less the turn
/// of `d`.
pub proof fn lemma_fraction_by_turns(a: Point, b: Point, c: Point, d: Point)
    ensures
        second_numerator(a, b, c, d) == turn(a, b, c),
        denominator(a, b, c, d) == turn(a, b, c) - turn(a, b, d),
{
    let rx = b.x - a.x;
    let ry = b.y - a.y;
    assert((c.x - a.x) * ry - (c.y - a.y) * rx == ry * (c.x - b.x) - rx * (c.y - b.y))
        by (nonlinear_arith)
        requires
            rx == b.x - a.x,
            ry == b.y - a.y,
    ;
    assert(rx * (d.y - c.y) - ry * (d.x - c.x) == (ry * (c.x - b.x) - rx * (c.y - b.y)) - (ry * (
        d.x - b.x) - rx * (d.y - b.y))) by (nonlinear_arith);
}

/// A move that begins on one side of the line through `a → b`, or on it,
/// and ends on the other side, or on it, but does not run along it, meets
/// the line within the move. Whether it meets the segment is then decided
/// along `a → b` alone.
pub proof fn lemma_sides_decide(a: Point, b: Point, c: Point, d: Point)
    requires
        turn(a, b, c) >= 0 && turn(a, b, d) <= 0 || turn(a, b, c) <= 0 && turn(a, b, d) >= 0,
        turn(a, b, c) != turn(a, b, d),
    ensures
        in_unit_interval(second_numerator(a, b, c, d), denominator(a, b, c, d)),
        segments_meet(a, b, c, d) <==> in_unit_interval(
            first_numerator(a, b, c, d),
            denominator(a, b, c, d),
        ),
{
    lemma_fraction_by_turns(a, b, c, d);
}

/// A move that stays strictly on one side of the line through `a → b` does
/// not meet the segment.
pub proof fn lemma_same_side_never_meets(a: Point, b: Point, c: Point, d: Point)
    requires
        turn(a, b, c) > 0 && turn(a, b, d) > 0 || turn(a, b, c) < 0 && turn(a, b, d) < 0,
    ensures
        !segments_meet(a, b, c, d),
        intersection_of(a, b, c, d) is None,
{
    lemma_fraction_by_turns(a, b, c, d);
}

} // verus!
