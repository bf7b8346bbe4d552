use vstd::prelude::*;

verus! {

use crate::geometry::coord_in_bounds;
use crate::geometry::ring_in_bounds;
use crate::geometry::Coord;
use crate::geometry::Point;
use crate::geometry::Polygon;
use crate::geometry::Ring;
use crate::geometry::Segment;

/// The endpoints of `seg` ordered by `y`: the pair `(a, b)` with `a.y <= b.y`.
///
/// When `start.y > end.y` the endpoints come back swapped; on a `y` tie the
/// segment's own order stands, so `a` is `start`.
pub open spec fn lower_upper(seg: Segment) -> (Coord, Coord) {
    if seg.start.y > seg.end.y {
        (seg.end, seg.start)
    } else {
        (seg.start, seg.end)
    }
}

/// Whether the slope from `a` to the query point is at least the slope of the
/// edge from `a` to `b`.
///
/// Each slope is an extended rational: a rise over a run when the run is
/// nonzero, and the top element (greater than every rational and equal to
/// itself) when the run is zero, which stands for a vertical line. The
/// rational comparison is exact, by cross multiplication with the sign of the
/// runs accounted for.
pub open spec fn slope_to_point_ge_edge(p: Coord, a: Coord, b: Coord) -> bool {
    if p.x == a.x {
        true
    } else if a.x == b.x {
        false
    } else {
        let lhs = (p.y - a.y) * (b.x - a.x);
        let rhs = (b.y - a.y) * (p.x - a.x);
        if (p.x - a.x > 0) == (b.x - a.x > 0) {
            lhs >= rhs
        } else {
            lhs <= rhs
        }
    }
}

/// Whether a horizontal ray cast from `p` in the increasing-x direction
/// crosses `seg`.
///
/// With `(a, b)` the endpoints of `seg` ordered by `y`:
/// - the ray misses when `p.y` lies outside the closed band `[a.y, b.y]`, and
///   when `p` lies to the right of both endpoints;
/// - the ray crosses when `p` lies to the left of both endpoints;
/// - otherwise the ray crosses exactly when the slope from `a` to `p` is at
///   least the edge's slope, which places `p` on or below the edge's line
///   within its x-span.
///
/// A query whose `y` exactly ties an endpoint's `y` is kept as it is: the
/// closed band keeps it in play, and the tie falls to the slope comparison.
/// Both edges that share a vertex at the query's height therefore count when
/// the ray passes it, which is this library's seam convention; tests pin it.
pub open spec fn spec_intersects(p: Coord, seg: Segment) -> bool {
    let (a, b) = lower_upper(seg);
    let hi_x = if a.x >= b.x {
        a.x
    } else {
        b.x
    };
    let lo_x = if a.x <= b.x {
        a.x
    } else {
        b.x
    };
    if p.y > b.y || p.y < a.y || p.x > hi_x {
        false
    } else if p.x < lo_x {
        true
    } else {
        slope_to_point_ge_edge(p, a, b)
    }
}

/// Decides [`spec_intersects`] for `p` and `seg`.
pub fn intersects(p: &Coord, seg: &Segment) -> (r: bool)
    requires
        coord_in_bounds(*p),
        coord_in_bounds(seg.start),
        coord_in_bounds(seg.end),
    ensures
        r == spec_intersects(*p, *seg),
{
    let (a, b) = if seg.start.y > seg.end.y {
        (seg.end, seg.start)
    } else {
        (seg.start, seg.end)
    };
    let hi_x = if a.x >= b.x {
        a.x
    } else {
        b.x
    };
    let lo_x = if a.x <= b.x {
        a.x
    } else {
        b.x
    };
    if p.y > b.y || p.y < a.y || p.x > hi_x {
        false
    } else if p.x < lo_x {
        true
    } else if p.x == a.x {
        true
    } else if a.x == b.x {
        false
    } else {
        let rise_pt: i128 = (p.y as i128) - (a.y as i128);
        let run_pt: i128 = (p.x as i128) - (a.x as i128);
        let rise_edge: i128 = (b.y as i128) - (a.y as i128);
        let run_edge: i128 = (b.x as i128) - (a.x as i128);
        proof {
            lemma_cross_product_in_range(rise_pt as int, run_edge as int);
            lemma_cross_product_in_range(rise_edge as int, run_pt as int);
        }
        let lhs: i128 = rise_pt * run_edge;
        let rhs: i128 = rise_edge * run_pt;
        if (run_pt > 0) == (run_edge > 0) {
            lhs >= rhs
        } else {
            lhs <= rhs
        }
    }
}

/// How many of the first `n` edges of the ring `s` the ray from `p` crosses.
///
/// Edge `k` of a ring runs from vertex `k` to vertex `k + 1`.
pub open spec fn crossings_before(p: Coord, s: Seq<Coord>, n: int) -> nat
    decreases n,
{
    if n <= 0 {
        0
    } else {
        crossings_before(p, s, n - 1) + (if spec_intersects(
            p,
            Segment { start: s[n - 1], end: s[n] },
        ) {
            1nat
        } else {
            0nat
        })
    }
}

/// How many edges of the ring `s` the ray from `p` crosses. A ring of fewer
/// than two vertices has no edges, so its count is zero.
pub open spec fn spec_crossings(p: Coord, s: Seq<Coord>) -> nat {
    crossings_before(p, s, s.len() - 1)
}

/// The even-odd rule: `p` is inside the ring `s` exactly when the ray from
/// `p` crosses an odd number of its edges.
pub open spec fn spec_contains(p: Coord, s: Seq<Coord>) -> bool {
    spec_crossings(p, s) % 2 == 1
}

/// Whether `p` is inside at least one of the listed hole rings.
pub open spec fn in_some_hole(p: Coord, holes: Seq<Seq<Coord>>) -> bool {
    exists|i: int| 0 <= i < holes.len() && spec_contains(p, #[trigger] holes[i])
}

/// Whether `p` is within the polygon made of the exterior ring `ext` and the
/// hole rings `holes`: inside the exterior and inside no hole. A point inside
/// any hole is excluded, also when the holes nest or overlap.
pub open spec fn spec_within_rings(p: Coord, ext: Seq<Coord>, holes: Seq<Seq<Coord>>) -> bool {
    spec_contains(p, ext) && !in_some_hole(p, holes)
}

/// Decides [`spec_contains`] for `pt` and the ring.
///
/// The edges are the ring's adjacent vertex pairs exactly as given: a ring
/// meant to be closed must list its first vertex again at the end. No ring is
/// rejected: one with fewer than two vertices has no edges, so the count is
/// zero and the result `false`, and an unclosed or self-intersecting ring
/// gets the literal parity of its edges, not a corrected geometric answer.
pub fn contains(pt: &Coord, ring: &Ring) -> (r: bool)
    requires
        coord_in_bounds(*pt),
        ring_in_bounds(ring@),
    ensures
        r == spec_contains(*pt, ring@),
{
    let n: usize = ring.points.len();
    if n < 2 {
        return false;
    }
    let mut count: usize = 0;
    let mut i: usize = 0;
    while i < n - 1
        invariant
            i <= n - 1,
            2 <= n == ring@.len(),
            count <= i,
            coord_in_bounds(*pt),
            ring_in_bounds(ring@),
            count == crossings_before(*pt, ring@, i as int),
        decreases n - 1 - i,
    {
        let seg = Segment { start: ring.points[i], end: ring.points[i + 1] };
        if intersects(pt, &seg) {
            count = count + 1;
        }
        i = i + 1;
    }
    count % 2 == 1
}

impl Polygon {
    /// Decides [`spec_within_rings`] for `pt` and this polygon's rings.
    pub fn within_coord(&self, pt: &Coord) -> (r: bool)
        requires
            self.in_bounds(),
            coord_in_bounds(*pt),
        ensures
            r == spec_within_rings(*pt, self.spec_exterior(), self.spec_holes()),
    {
        if !contains(pt, self.exterior()) {
            return false;
        }
        let holes = self.interiors();
        let n: usize = holes.len();
        let mut i: usize = 0;
        while i < n
            invariant
                i <= n == self.spec_holes().len(),
                holes@.len() == self.spec_holes().len(),
                forall|k: int| 0 <= k < holes@.len() ==> #[trigger] holes@[k]@
                    == self.spec_holes()[k],
                self.in_bounds(),
                coord_in_bounds(*pt),
                forall|k: int| 0 <= k < i ==> !spec_contains(*pt, #[trigger] self.spec_holes()[k]),
            decreases n - i,
        {
            if contains(pt, &holes[i]) {
                return false;
            }
            i = i + 1;
        }
        true
    }
}

/// Ray-casting containment: whether a query point lies within a polygonal
/// boundary.
///
/// The boundary deciding `within` is either a bare [`Ring`], whose edges are
/// its adjacent vertex pairs exactly as given, or a [`Polygon`], whose closed
/// exterior encloses the point and whose holes exclude it. The query is a
/// [`Coord`] or a [`Point`]; both mean the same location.
pub trait RayCasting<P> {
    /// What `within` decides for this boundary and the query `pt`.
    spec fn spec_within(&self, pt: &P) -> bool;

    /// Every coordinate of the boundary and of the query is within
    /// `MAX_COORD` in magnitude.
    spec fn query_in_bounds(&self, pt: &P) -> bool;

    /// Checks whether the query point is within this boundary.
    fn within(&self, pt: &P) -> (r: bool)
        requires
            self.query_in_bounds(pt),
        ensures
            r == self.spec_within(pt),
    ;
}

impl RayCasting<Coord> for Ring {
    open spec fn spec_within(&self, pt: &Coord) -> bool {
        spec_contains(*pt, self@)
    }

    open spec fn query_in_bounds(&self, pt: &Coord) -> bool {
        ring_in_bounds(self@) && coord_in_bounds(*pt)
    }

    fn within(&self, pt: &Coord) -> (r: bool) {
        contains(pt, self)
    }
}

impl RayCasting<Point> for Ring {
    open spec fn spec_within(&self, pt: &Point) -> bool {
        spec_contains(pt.0, self@)
    }

    open spec fn query_in_bounds(&self, pt: &Point) -> bool {
        ring_in_bounds(self@) && coord_in_bounds(pt.0)
    }

    fn within(&self, pt: &Point) -> (r: bool) {
        contains(&pt.0, self)
    }
}

impl RayCasting<Coord> for Polygon {
    open spec fn spec_within(&self, pt: &Coord) -> bool {
        spec_within_rings(*pt, self.spec_exterior(), self.spec_holes())
    }

    open spec fn query_in_bounds(&self, pt: &Coord) -> bool {
        self.in_bounds() && coord_in_bounds(*pt)
    }

    fn within(&self, pt: &Coord) -> (r: bool) {
        self.within_coord(pt)
    }
}

impl RayCasting<Point> for Polygon {
    open spec fn spec_within(&self, pt: &Point) -> bool {
        spec_within_rings(pt.0, self.spec_exterior(), self.spec_holes())
    }

    open spec fn query_in_bounds(&self, pt: &Point) -> bool {
        self.in_bounds() && coord_in_bounds(pt.0)
    }

    fn within(&self, pt: &Point) -> (r: bool) {
        self.within_coord(&pt.0)
    }
}

/// The product of two differences of in-bounds coordinates fits in `i128`.
proof fn lemma_cross_product_in_range(rise: int, run: int)
    by (nonlinear_arith)
    requires
        -0x8000000000000000 <= rise <= 0x8000000000000000,
        -0x8000000000000000 <= run <= 0x8000000000000000,
    ensures
        -0x40000000000000000000000000000000 <= rise * run
            <= 0x40000000000000000000000000000000,
{
}

} // verus!
