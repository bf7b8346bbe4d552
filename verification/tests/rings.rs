//! Containment tests against bare rings.
//!
//! Coordinates with fractional parts are written in fixed point: every input
//! of a query is multiplied by one scale, named per test, which leaves the
//! containment answers unchanged.

use geo_raycasting::intersects;
use geo_raycasting::Coord;
use geo_raycasting::Point;
use geo_raycasting::RayCasting;
use geo_raycasting::Ring;
use geo_raycasting::Segment;

fn c(x: i64, y: i64) -> Coord {
    Coord { x, y }
}

fn ring(points: Vec<(i64, i64)>) -> Ring {
    Ring::new(points.into_iter().map(|(x, y)| c(x, y)).collect())
}

fn square() -> Ring {
    ring(vec![(0, 0), (10, 0), (10, 10), (0, 10), (0, 0)])
}

#[test]
fn poly_square() {
    let poly_square = square();
    assert!(poly_square.within(&c(5, 5)));
    assert!(poly_square.within(&c(5, 8)));
    assert!(poly_square.within(&c(-10, 5)) == false);
    assert!(poly_square.within(&c(0, 5)) == false);
    assert!(poly_square.within(&c(8, 5)));
    assert!(poly_square.within(&c(10, 10)) == false);
}

#[test]
fn poly_strange() {
    // Scale 2: the vertices at halves become odd integers.
    let poly_strange = ring(vec![
        (0, 0),
        (5, 5),
        (0, 20),
        (5, 15),
        (15, 15),
        (20, 20),
        (20, 0),
        (5, 5),
    ]);
    assert!(poly_strange.within(&c(10, 10)));
    assert!(poly_strange.within(&c(10, 16)) == false);
    assert!(poly_strange.within(&c(-20, 10)) == false);
    assert!(poly_strange.within(&c(0, 10)) == false);
    assert!(poly_strange.within(&c(20, 10)));
    assert!(poly_strange.within(&c(16, 10)));
    assert!(poly_strange.within(&c(20, 20)) == false);
}

#[test]
fn poly_hexagon() {
    let poly_hexagon = ring(vec![(3, 0), (7, 0), (10, 5), (7, 10), (3, 10), (0, 5), (3, 0)]);
    // The centroid's y ties the two vertices at height 5, so both edges that
    // meet each of them count and the centroid falls on the seam: outside.
    assert!(poly_hexagon.within(&c(5, 5)) == false);
    assert!(poly_hexagon.within(&c(5, 8)));
    assert!(poly_hexagon.within(&c(-10, 5)) == false);
    assert!(poly_hexagon.within(&c(0, 5)) == false);
    assert!(poly_hexagon.within(&c(10, 5)) == false);
    assert!(poly_hexagon.within(&c(8, 5)) == false);
    assert!(poly_hexagon.within(&c(10, 10)));
}

#[test]
fn square_boundary_conventions() {
    let poly_square = square();
    // The left edge counts as exterior, the right edge as interior, and a
    // corner vertex as exterior.
    assert!(poly_square.within(&c(0, 5)) == false);
    assert!(poly_square.within(&c(10, 5)));
    assert!(poly_square.within(&c(10, 10)) == false);
}

#[test]
fn contains_is_deterministic() {
    let poly_square = square();
    for p in [c(5, 5), c(0, 5), c(10, 5), c(10, 10), c(-10, 5)] {
        assert_eq!(poly_square.within(&p), poly_square.within(&p));
    }
}

#[test]
fn reversed_ring_agrees() {
    let rings = vec![
        vec![(0, 0), (10, 0), (10, 10), (0, 10), (0, 0)],
        vec![(3, 0), (7, 0), (10, 5), (7, 10), (3, 10), (0, 5), (3, 0)],
    ];
    let queries = [c(5, 5), c(5, 8), c(-10, 5), c(0, 5), c(10, 5), c(8, 5), c(10, 10)];
    for points in rings {
        let forward = ring(points.clone());
        let mut rev = points;
        rev.reverse();
        let backward = ring(rev);
        for p in queries {
            assert_eq!(forward.within(&p), backward.within(&p));
        }
    }
}

#[test]
fn perturbed_query_keeps_parity() {
    // Scale 1000. Nudging the y of a query that ties no vertex keeps the
    // answer, inside and outside alike; at a tie the seam may flip it, as
    // the hexagon's centroid shows.
    let poly_square = ring(vec![(0, 0), (10000, 0), (10000, 10000), (0, 10000), (0, 0)]);
    assert_eq!(poly_square.within(&c(5000, 4999)), poly_square.within(&c(5000, 5001)));
    assert!(poly_square.within(&c(5000, 5001)));
    assert_eq!(poly_square.within(&c(-9000, 4999)), poly_square.within(&c(-9000, 5001)));
    assert!(poly_square.within(&c(-9000, 5001)) == false);
    let hexagon = ring(vec![
        (3000, 0),
        (7000, 0),
        (10000, 5000),
        (7000, 10000),
        (3000, 10000),
        (0, 5000),
        (3000, 0),
    ]);
    assert!(hexagon.within(&c(5000, 5000)) == false);
    assert!(hexagon.within(&c(5000, 5001)));
    assert!(hexagon.within(&c(5000, 4999)));
}

#[test]
fn short_rings_get_literal_parity() {
    let empty = ring(vec![]);
    let single = ring(vec![(5, 5)]);
    assert!(empty.within(&c(5, 5)) == false);
    assert!(single.within(&c(5, 5)) == false);
    // A two-vertex ring has one edge; the parity is that edge's alone, so a
    // query on or left of it counts one crossing and lands "inside".
    let pair = ring(vec![(0, 0), (10, 10)]);
    assert!(pair.within(&c(5, 5)));
    assert!(pair.within(&c(6, 5)) == false);
}

#[test]
fn intersects_edge_conventions() {
    // A vertical edge right of the query is hit; a query on it is hit too
    // (vertical against vertical); a query right of it is missed.
    let upright = Segment { start: c(10, 0), end: c(10, 10) };
    assert!(intersects(&c(5, 5), &upright));
    assert!(intersects(&c(10, 5), &upright));
    assert!(!intersects(&c(11, 5), &upright));
    // On a diagonal edge's line the slopes tie, which counts; right of the
    // line the slope to the point falls short, which misses.
    let diagonal = Segment { start: c(0, 0), end: c(10, 10) };
    assert!(intersects(&c(5, 5), &diagonal));
    assert!(!intersects(&c(6, 5), &diagonal));
    // A horizontal edge at the query's height counts within its x-span and
    // is missed entirely to its right.
    let flat = Segment { start: c(0, 5), end: c(4, 5) };
    assert!(intersects(&c(2, 5), &flat));
    assert!(!intersects(&c(5, 5), &flat));
}

#[test]
fn scaled_ring_agrees() {
    let hexagon = vec![(3, 0), (7, 0), (10, 5), (7, 10), (3, 10), (0, 5), (3, 0)];
    let queries = [(5, 5), (5, 8), (-10, 5), (0, 5), (10, 5), (8, 5), (10, 10)];
    for k in [1i64, 2, 10, 1_000_000_000] {
        let scaled = ring(hexagon.iter().map(|&(x, y)| (x * k, y * k)).collect());
        let plain = ring(hexagon.clone());
        for &(x, y) in &queries {
            assert_eq!(scaled.within(&c(x * k, y * k)), plain.within(&c(x, y)));
        }
    }
}

#[test]
fn point_query_matches_coord_query() {
    let poly_square = square();
    for q in [c(5, 5), c(0, 5), c(10, 5), c(10, 10)] {
        assert_eq!(poly_square.within(&Point(q)), poly_square.within(&q));
    }
}
