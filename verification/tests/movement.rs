//! Movement validation and rotation: corner-overlap rejection, committed
//! and declined moves, and heading wrap-around.

use raycaster::grid::GameMap;
use raycaster::player::{validate, Player};

#[test]
fn validator_rejects_corner_overlap() {
    // A corner of the inflated box at (1050 - 75, 5000 - 75) = (975, 4925)
    // lands inside border wall cell (0, 4), so the destination is refused.
    let map = GameMap::bordered(10);
    assert!(!validate(&map, 1050, 5000, 75));
}

#[test]
fn validator_accepts_free_position() {
    let map = GameMap::bordered(10);
    assert!(validate(&map, 5000, 5000, 75));
}

#[test]
fn validator_boundary_is_strict() {
    // With all four corners exactly on cell edges nothing is strictly
    // inside a wall cell, so the position passes.
    let map = GameMap::bordered(10);
    assert!(validate(&map, 1100, 5000, 100));
    assert!(!validate(&map, 1099, 5000, 100));
}

#[test]
fn forward_move_commits_when_free() {
    let map = GameMap::bordered(10);
    let mut p = Player::new(5000, 5000, 0, 75);
    p.move_forward(&map, 50);
    assert_eq!((p.pos_x, p.pos_y), (5000, 5050));
    assert_eq!((p.view.origin_x, p.view.origin_y), (5000, 5050));
}

#[test]
fn forward_move_declined_near_wall() {
    // One step ahead the inflated box would reach y = 9025, inside the
    // column-9 border wall: the whole move is declined, nothing slides.
    let map = GameMap::bordered(10);
    let mut p = Player::new(5000, 8900, 0, 75);
    p.move_forward(&map, 50);
    assert_eq!((p.pos_x, p.pos_y), (5000, 8900));
}

#[test]
fn backward_move_mirrors_forward() {
    let map = GameMap::bordered(10);
    let mut p = Player::new(5000, 5000, 0, 75);
    p.move_backward(&map, 50);
    assert_eq!((p.pos_x, p.pos_y), (5000, 4950));
}

#[test]
fn sideways_heading_moves_along_row_axis() {
    // Heading 90: the heading vector is (-sin, cos) = (-1, 0).
    let map = GameMap::bordered(10);
    let mut p = Player::new(5000, 5000, 90, 75);
    p.move_forward(&map, 50);
    assert_eq!((p.pos_x, p.pos_y), (4950, 5000));
}

#[test]
fn oblique_heading_scales_by_sine_and_cosine() {
    // Heading 30: displacement (-step * sin30, step * cos30) =
    // (-500 * 0.5, 500 * 0.866) = (-250, +433).
    let map = GameMap::bordered(10);
    let mut p = Player::new(5000, 5000, 30, 75);
    p.move_forward(&map, 500);
    assert_eq!((p.pos_x, p.pos_y), (4750, 5433));
}

#[test]
fn rotation_wraps_below_zero() {
    let mut p = Player::new(5000, 5000, 0, 75);
    p.rotate(-10);
    assert_eq!(p.heading, 350);
    p.rotate(20);
    assert_eq!(p.heading, 10);
    p.rotate(360);
    assert_eq!(p.heading, 10);
    p.rotate(-730);
    assert_eq!(p.heading, 0);
}

#[test]
fn rotation_never_moves_the_player() {
    let mut p = Player::new(1234, 4321, 0, 75);
    p.rotate(90);
    assert_eq!((p.pos_x, p.pos_y), (1234, 4321));
    assert_eq!(p.heading, 90);
}

#[test]
fn validate_move_uses_player_half_width() {
    let map = GameMap::bordered(10);
    let p = Player::new(5000, 5000, 0, 75);
    assert!(p.validate_move(5000, 8900, &map));
    assert!(!p.validate_move(5000, 8950, &map));
}
