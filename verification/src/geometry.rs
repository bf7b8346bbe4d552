use vstd::prelude::*;

verus! {

/// Largest coordinate magnitude (2^62) that the containment predicates accept.
///
/// Keeping every coordinate within this bound guarantees that the cross
/// products in the slope comparison stay within `i128`.
pub const MAX_COORD: i64 = 4611686018427387904;

/// A two-dimensional coordinate with exact integer components.
#[derive(Clone, Copy, PartialEq, Eq, Structural, Debug)]
pub struct Coord {
    pub x: i64,
    pub y: i64,
}

/// A query point: a coordinate under its own name, so that callers who keep
/// points and raw coordinates apart can pass either to the containment test.
#[derive(Clone, Copy, PartialEq, Eq, Structural, Debug)]
pub struct Point(pub Coord);

/// One edge of a ring: the segment from `start` to `end`.
///
/// No invariant relates the endpoints; a degenerate segment whose endpoints
/// coincide is an accepted input of the intersection test, not an error.
#[derive(Clone, Copy, PartialEq, Eq, Structural, Debug)]
pub struct Segment {
    pub start: Coord,
    pub end: Coord,
}

/// An ordered sequence of vertices describing one boundary curve.
///
/// Each adjacent vertex pair is an edge; no closing edge back to the first
/// vertex is implied. A ring meant to be closed lists its first vertex again
/// at the end (the [`Polygon`] constructor does this for its rings).
#[derive(Clone, Debug)]
pub struct Ring {
    pub points: Vec<Coord>,
}

impl View for Ring {
    type V = Seq<Coord>;

    open spec fn view(&self) -> Seq<Coord> {
        self.points@
    }
}

impl Ring {
    /// A ring with the given vertices, kept exactly as given.
    pub fn new(points: Vec<Coord>) -> (r: Ring)
        ensures
            r@ == points@,
    {
        Ring { points }
    }
}

/// Whether both components of `c` lie within `MAX_COORD` in magnitude.
pub open spec fn coord_in_bounds(c: Coord) -> bool {
    -MAX_COORD <= c.x <= MAX_COORD && -MAX_COORD <= c.y <= MAX_COORD
}

/// Whether every vertex of the ring is within bounds.
pub open spec fn ring_in_bounds(s: Seq<Coord>) -> bool {
    forall|i: int| 0 <= i < s.len() ==> coord_in_bounds(#[trigger] s[i])
}

/// Whether every vertex of every listed ring is within bounds.
pub open spec fn rings_in_bounds(rings: Seq<Seq<Coord>>) -> bool {
    forall|i: int| 0 <= i < rings.len() ==> ring_in_bounds(#[trigger] rings[i])
}

/// The vertices of a ring closed: when the ring is nonempty and its last
/// vertex differs from its first, the first vertex appended; otherwise the
/// ring unchanged.
pub open spec fn spec_close(s: Seq<Coord>) -> Seq<Coord> {
    if s.len() > 0 && s.first() != s.last() {
        s.push(s.first())
    } else {
        s
    }
}

/// Closes a ring as [`spec_close`] describes.
pub fn close_ring(ring: Ring) -> (r: Ring)
    ensures
        r@ == spec_close(ring@),
{
    let mut ring = ring;
    if ring.points.len() > 0 {
        let first = ring.points[0];
        let last = ring.points[ring.points.len() - 1];
        if first != last {
            ring.points.push(first);
        }
    }
    ring
}

/// One exterior ring and zero or more hole rings.
///
/// The constructor closes every ring, so each stored ring either is empty or
/// ends on its first vertex. The holes are siblings of the exterior: no ring
/// owns another, and the order among holes carries no meaning.
#[derive(Clone, Debug)]
pub struct Polygon {
    exterior: Ring,
    holes: Vec<Ring>,
}

impl Polygon {
    /// The vertices of the exterior ring.
    pub closed spec fn spec_exterior(&self) -> Seq<Coord> {
        self.exterior@
    }

    /// The vertices of each hole ring, in stored order.
    pub closed spec fn spec_holes(&self) -> Seq<Seq<Coord>> {
        self.holes@.map_values(|r: Ring| r@)
    }

    /// Whether every vertex of the polygon is within bounds.
    pub open spec fn in_bounds(&self) -> bool {
        ring_in_bounds(self.spec_exterior()) && rings_in_bounds(self.spec_holes())
    }

    /// A polygon from an exterior ring and hole rings, each ring closed.
    pub fn new(exterior: Ring, holes: Vec<Ring>) -> (p: Polygon)
        ensures
            p.spec_exterior() == spec_close(exterior@),
            p.spec_holes().len() == holes@.len(),
            forall|i: int| 0 <= i < holes@.len() ==> p.spec_holes()[i] == spec_close(
                #[trigger] holes@[i]@,
            ),
    {
        let ghost holes_in = holes@;
        let mut closed: Vec<Ring> = Vec::new();
        let mut holes = holes;
        while holes.len() > 0
            invariant
                holes_in.len() == closed@.len() + holes@.len(),
                forall|k: int| 0 <= k < closed@.len() ==> closed@[k]@ == spec_close(
                    #[trigger] holes_in[k]@,
                ),
                forall|k: int| 0 <= k < holes@.len() ==> #[trigger] holes@[k]
                    == holes_in[closed@.len() + k],
            decreases holes@.len(),
        {
            let hole = holes.remove(0);
            closed.push(close_ring(hole));
        }
        let p = Polygon { exterior: close_ring(exterior), holes: closed };
        proof {
            assert forall|k: int| 0 <= k < holes_in.len() implies p.spec_holes()[k] == spec_close(
                #[trigger] holes_in[k]@,
            ) by {
                assert(p.spec_holes()[k] == p.holes@[k]@);
            }
        }
        p
    }

    /// The exterior ring.
    pub fn exterior(&self) -> (r: &Ring)
        ensures
            r@ == self.spec_exterior(),
    {
        &self.exterior
    }

    /// The hole rings.
    pub fn interiors(&self) -> (r: &Vec<Ring>)
        ensures
            r@.len() == self.spec_holes().len(),
            forall|i: int| 0 <= i < r@.len() ==> #[trigger] r@[i]@ == self.spec_holes()[i],
    {
        &self.holes
    }
}

} // verus!
