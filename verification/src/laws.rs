use vstd::prelude::*;

verus! {

use crate::raycast::crossings_before;
use crate::raycast::in_some_hole;
use crate::raycast::spec_contains;
use crate::raycast::spec_crossings;
use crate::raycast::spec_intersects;
use crate::raycast::spec_within_rings;
use crate::geometry::Coord;
use crate::geometry::Segment;

/// The containment test is deterministic: any two results that meet the
/// contract of [`crate::contains`] for the same point and ring are equal.
pub proof fn lemma_contains_deterministic(p: Coord, s: Seq<Coord>, r1: bool, r2: bool)
    requires
        r1 == spec_contains(p, s),
        r2 == spec_contains(p, s),
    ensures
        r1 == r2,
{
}

/// A point inside any hole of a polygon is not within the polygon, even when
/// it is inside the exterior ring.
pub proof fn lemma_hole_excludes(p: Coord, ext: Seq<Coord>, holes: Seq<Seq<Coord>>, i: int)
    requires
        0 <= i < holes.len(),
        spec_contains(p, holes[i]),
    ensures
        !spec_within_rings(p, ext, holes),
{
    assert(in_some_hole(p, holes));
}

/// The ray-intersection test does not depend on the direction in which a
/// segment's endpoints are listed.
pub proof fn lemma_intersects_direction(p: Coord, u: Coord, v: Coord)
    ensures
        spec_intersects(p, Segment { start: u, end: v }) == spec_intersects(
            p,
            Segment { start: v, end: u },
        ),
{
    if u.y == v.y && u.y <= p.y <= v.y {
        // Every slope in sight has a rise of zero: the query's y ties both
        // endpoints, so each cross product collapses to zero and both
        // orientations land in the same comparison of zero with zero.
        lemma_zero_mul(p.y - u.y, v.x - u.x);
        lemma_zero_mul(v.y - u.y, p.x - u.x);
        lemma_zero_mul(p.y - v.y, u.x - v.x);
        lemma_zero_mul(u.y - v.y, p.x - v.x);
    }
}

/// A product with a zero factor is zero.
proof fn lemma_zero_mul(a: int, b: int)
    by (nonlinear_arith)
    requires
        a == 0,
    ensures
        a * b == 0,
{
}

/// A positive factor preserves the order and the equality of what it scales.
proof fn lemma_scale_cmp(k: int, a: int, b: int)
    by (nonlinear_arith)
    requires
        k > 0,
    ensures
        (k * a > k * b) == (a > b),
        (k * a == k * b) == (a == b),
{
}

/// Scaling all six coordinates of a slope comparison by one positive factor
/// scales both cross products by its square, which preserves the comparison.
proof fn lemma_scale_cross(k: int, py: int, ay: int, bx: int, ax: int, vy: int, px: int)
    by (nonlinear_arith)
    requires
        k > 0,
    ensures
        ((k * py - k * ay) * (k * bx - k * ax) >= (k * vy - k * ay) * (k * px - k * ax)) == ((py
            - ay) * (bx - ax) >= (vy - ay) * (px - ax)),
        ((k * py - k * ay) * (k * bx - k * ax) <= (k * vy - k * ay) * (k * px - k * ax)) == ((py
            - ay) * (bx - ax) <= (vy - ay) * (px - ax)),
{
}

/// Whether `q` and `t` are `p` and `s` with every coordinate scaled by `k`.
pub open spec fn scaled_by(k: int, p: Coord, q: Coord, s: Seq<Coord>, t: Seq<Coord>) -> bool {
    &&& q.x == k * p.x
    &&& q.y == k * p.y
    &&& t.len() == s.len()
    &&& forall|i: int| 0 <= i < s.len() ==> (#[trigger] t[i]).x == k * s[i].x && t[i].y == k
        * s[i].y
}

/// The ray-intersection test is invariant under scaling the query and both
/// endpoints by one positive factor.
proof fn lemma_intersects_scale(k: int, p: Coord, q: Coord, u: Coord, su: Coord, v: Coord, sv: Coord)
    requires
        k > 0,
        q.x == k * p.x,
        q.y == k * p.y,
        su.x == k * u.x,
        su.y == k * u.y,
        sv.x == k * v.x,
        sv.y == k * v.y,
    ensures
        spec_intersects(q, Segment { start: su, end: sv }) == spec_intersects(
            p,
            Segment { start: u, end: v },
        ),
{
    lemma_scale_cmp(k, u.y as int, v.y as int);
    lemma_scale_cmp(k, p.y as int, u.y as int);
    lemma_scale_cmp(k, p.y as int, v.y as int);
    lemma_scale_cmp(k, u.x as int, v.x as int);
    lemma_scale_cmp(k, p.x as int, u.x as int);
    lemma_scale_cmp(k, p.x as int, v.x as int);
    lemma_scale_cross(k, p.y as int, u.y as int, v.x as int, u.x as int, v.y as int, p.x as int);
    lemma_scale_cross(k, p.y as int, v.y as int, u.x as int, v.x as int, u.y as int, p.x as int);
}

/// The first `n` crossing counts of a ring and of the same ring scaled agree.
proof fn lemma_crossings_scale(k: int, p: Coord, q: Coord, s: Seq<Coord>, t: Seq<Coord>, n: int)
    requires
        k > 0,
        scaled_by(k, p, q, s, t),
        n <= s.len() - 1,
    ensures
        crossings_before(p, s, n) == crossings_before(q, t, n),
    decreases n,
{
    if n > 0 {
        lemma_crossings_scale(k, p, q, s, t, n - 1);
        lemma_intersects_scale(k, p, q, s[n - 1], t[n - 1], s[n], t[n]);
    }
}

/// Containment is invariant under uniform scaling: multiplying the query and
/// every vertex by one positive factor leaves the crossing count, and with it
/// the even-odd answer, unchanged. Callers working in fractional units may
/// therefore pick any fixed-point scale.
pub proof fn lemma_contains_scale(k: int, p: Coord, q: Coord, s: Seq<Coord>, t: Seq<Coord>)
    requires
        k > 0,
        scaled_by(k, p, q, s, t),
    ensures
        spec_crossings(q, t) == spec_crossings(p, s),
        spec_contains(q, t) == spec_contains(p, s),
{
    lemma_crossings_scale(k, p, q, s, t, s.len() - 1);
}

/// The first `n` edges of the reversed ring and the first `len - 1 - n` edges
/// of the ring itself together account for every crossing: the two counts sum
/// to the ring's total.
proof fn lemma_crossings_reverse_split(p: Coord, s: Seq<Coord>, n: int)
    requires
        0 <= n <= s.len() - 1,
    ensures
        crossings_before(p, s.reverse(), n) + crossings_before(p, s, s.len() - 1 - n)
            == spec_crossings(p, s),
    decreases n,
{
    if n > 0 {
        lemma_crossings_reverse_split(p, s, n - 1);
        let len = s.len() as int;
        lemma_intersects_direction(p, s[len - 1 - n], s[len - n]);
        assert(s.reverse()[n - 1] == s[len - n]);
        assert(s.reverse()[n] == s[len - 1 - n]);
    }
}

/// Containment is invariant under the winding direction of the ring: the ray
/// crosses the reversed ring exactly as often as the ring itself, so the
/// even-odd answer is the same whether the vertices run clockwise or
/// counterclockwise.
pub proof fn lemma_contains_direction(p: Coord, s: Seq<Coord>)
    ensures
        spec_crossings(p, s.reverse()) == spec_crossings(p, s),
        spec_contains(p, s.reverse()) == spec_contains(p, s),
{
    if s.len() == 0 {
    } else {
        lemma_crossings_reverse_split(p, s, s.len() - 1);
    }
}

} // verus!
