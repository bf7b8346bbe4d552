//! Point-in-polygon tests by ray casting.
//!
//! A query point is inside a boundary exactly when a horizontal ray cast from
//! the point in the increasing-x direction crosses the boundary an odd number
//! of times (the even-odd rule). The boundary is a ring: an ordered sequence
//! of vertices whose adjacent pairs form its edges. A polygon pairs one
//! exterior ring with any number of hole rings; a point inside a hole is
//! outside the polygon.
//!
//! Coordinates are exact signed integers. Callers working in fractional units
//! pick a fixed-point scale (all inputs multiplied by one constant) before
//! querying; the predicates are invariant under such uniform scaling, since
//! they compare only coordinate order and slopes.

mod geometry;
mod laws;
mod raycast;

pub use geometry::close_ring;
pub use geometry::coord_in_bounds;
pub use geometry::ring_in_bounds;
pub use geometry::rings_in_bounds;
pub use geometry::spec_close;
pub use geometry::Coord;
pub use geometry::Point;
pub use geometry::Polygon;
pub use geometry::Ring;
pub use geometry::Segment;
pub use geometry::MAX_COORD;
pub use laws::lemma_contains_deterministic;
pub use laws::lemma_contains_direction;
pub use laws::lemma_contains_scale;
pub use laws::lemma_hole_excludes;
pub use laws::lemma_intersects_direction;
pub use laws::scaled_by;
pub use raycast::contains;
pub use raycast::crossings_before;
pub use raycast::in_some_hole;
pub use raycast::intersects;
pub use raycast::lower_upper;
pub use raycast::slope_to_point_ge_edge;
pub use raycast::spec_contains;
pub use raycast::spec_crossings;
pub use raycast::spec_intersects;
pub use raycast::spec_within_rings;
pub use raycast::RayCasting;
