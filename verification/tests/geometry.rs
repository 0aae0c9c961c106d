//! Ray-casting scenarios: exact cardinal distances, diagonal casts against
//! precomputed Euclidean values, the iteration cap, and wall toggling.

use raycaster::grid::{CellState, GameMap};
use raycaster::ray::{Lighting, Ray};
use raycaster::{DIST_LIMIT, MAX_RAY_STEPS};

fn bordered_10() -> GameMap {
    GameMap::bordered(10)
}

fn center_ray(heading: u32) -> Ray {
    Ray { origin_x: 5000, origin_y: 5000, heading, length: 0 }
}

#[test]
fn straight_cast_hits_near_edge_exactly() {
    // Player mid-grid, wall border at column 9: the near edge lies at
    // y = 9000, so the exact Euclidean distance is 4000 units.
    let map = bordered_10();
    let (dist, side) = center_ray(0).collision(&map);
    assert_eq!(dist, 4000);
    assert_eq!(side, Lighting::Lit);
}

#[test]
fn straight_casts_are_exact_at_all_cardinals() {
    let map = bordered_10();
    let (d90, s90) = center_ray(90).collision(&map);
    assert_eq!(d90, 4000);
    assert_eq!(s90, Lighting::Shaded);
    let (d180, s180) = center_ray(180).collision(&map);
    assert_eq!(d180, 4000);
    assert_eq!(s180, Lighting::Lit);
    let (d270, s270) = center_ray(270).collision(&map);
    assert_eq!(d270, 4000);
    assert_eq!(s270, Lighting::Shaded);
}

#[test]
fn oblique_cast_matches_euclidean_within_epsilon() {
    // Heading 30: the ray leaves the border at the column-9 edge; the
    // analytic distance is 4000 / cos(30 degrees) = 4618.8 units. The
    // whole-degree table quantizes this to 4616: within about one part in
    // a thousand of the true value.
    let map = bordered_10();
    let (dist, side) = center_ray(30).collision(&map);
    assert!(dist.abs_diff(4619) <= 10, "distance {dist}");
    assert_eq!(side, Lighting::Lit);
}

#[test]
fn diagonal_cast_scenario() {
    // 10 x 10 grid, border all wall, interior empty except (2, 2); player
    // at the world center, a ray aimed diagonally at that cell. The near
    // corner of the cell is 2000 x 2000 units away, so the distance is
    // sqrt(8_000_000) = 2828.4 and the terminating crossing is on the row
    // axis.
    let mut map = bordered_10();
    map.set(2, 2, CellState::Wall);
    let (dist, side) = center_ray(135).collision(&map);
    assert_eq!(dist, 2828);
    assert_eq!(side, Lighting::Shaded);
}

#[test]
fn diagonal_cast_scenario_opposite_quadrant() {
    let mut map = bordered_10();
    map.set(2, 8, CellState::Wall);
    let (dist, side) = center_ray(45).collision(&map);
    assert_eq!(dist, 4242);
    assert_eq!(side, Lighting::Lit);
}

#[test]
fn capped_cast_returns_best_effort_distance() {
    // No walls at all: the cast runs out its step cap and reports the last
    // accumulated length instead of failing.
    let map = GameMap::new_empty(10);
    let (dist, _) = center_ray(0).collision(&map);
    assert_eq!(dist, (MAX_RAY_STEPS as u64) * 1000);
    assert!(dist <= DIST_LIMIT);
    let (dist45, _) = center_ray(45).collision(&map);
    assert_eq!(dist45, 35350);
}

#[test]
fn toggled_wall_appears_then_reveals_next_wall() {
    // Toggling (5, 7) to wall puts a hit at 2000 units, well under the
    // map's 14142-unit diagonal; toggling it back, the cast sees the
    // border wall behind it at 4000.
    let mut map = bordered_10();
    map.set(5, 7, CellState::Wall);
    let (near, near_side) = center_ray(0).collision(&map);
    assert_eq!(near, 2000);
    assert_eq!(near_side, Lighting::Lit);
    assert!(near < 14143);
    map.set(5, 7, CellState::Empty);
    let (behind, _) = center_ray(0).collision(&map);
    assert_eq!(behind, 4000);
}

#[test]
fn axis_aligned_ray_from_cell_boundary() {
    // An origin exactly on a cell boundary still casts: heading 90 walks
    // rows 4, 3, 2, 1 and stops entering row 0, whose near edge is 4000
    // units away.
    let map = bordered_10();
    let ray = Ray { origin_x: 5000, origin_y: 5500, heading: 90, length: 0 };
    let (dist, side) = ray.collision(&map);
    assert_eq!(dist, 4000);
    assert_eq!(side, Lighting::Shaded);
}
