//! The session as a whole: construction defaults, event consumption, and
//! the per-frame render data.

use raycaster::game::{Game, GameConfig, InputEvent, PointerButton};
use raycaster::grid::CellState;
use raycaster::ray::Lighting;
use raycaster::HEIGHT_SCALE;

fn default_game() -> Game {
    let config = GameConfig { move_step: 50, rotate_step: 10, half_fov: 30 };
    Game::new(10, config, 800, 600)
}

#[test]
fn new_session_defaults() {
    let g = default_game();
    assert_eq!(g.map.size(), 10);
    for i in 0..10 {
        assert_eq!(g.map.get(0, i), CellState::Wall);
        assert_eq!(g.map.get(9, i), CellState::Wall);
        assert_eq!(g.map.get(i, 0), CellState::Wall);
        assert_eq!(g.map.get(i, 9), CellState::Wall);
    }
    for i in 1..9 {
        for j in 1..9 {
            assert_eq!(g.map.get(i, j), CellState::Empty);
        }
    }
    assert_eq!((g.player.pos_x, g.player.pos_y), (5000, 5000));
    assert_eq!(g.player.heading, 0);
    assert!(!g.mouse_left && !g.mouse_right);
}

#[test]
fn every_modeled_event_is_consumed() {
    let mut g = default_game();
    assert!(g.input(&InputEvent::RotateLeft));
    assert!(g.input(&InputEvent::RotateRight));
    assert!(g.input(&InputEvent::MoveForward));
    assert!(g.input(&InputEvent::MoveBackward));
    assert!(g.input(&InputEvent::PointerMoved(1, 1)));
    assert!(g.input(&InputEvent::PointerPressed(PointerButton::LeftButton)));
    assert!(g.input(&InputEvent::PointerReleased(PointerButton::LeftButton)));
}

#[test]
fn rotation_events_step_by_config() {
    let mut g = default_game();
    g.input(&InputEvent::RotateRight);
    assert_eq!(g.player.heading, 350);
    g.input(&InputEvent::RotateLeft);
    g.input(&InputEvent::RotateLeft);
    assert_eq!(g.player.heading, 10);
}

#[test]
fn movement_events_step_by_config() {
    let mut g = default_game();
    g.input(&InputEvent::MoveForward);
    assert_eq!((g.player.pos_x, g.player.pos_y), (5000, 5050));
    g.input(&InputEvent::MoveBackward);
    assert_eq!((g.player.pos_x, g.player.pos_y), (5000, 5000));
}

#[test]
fn update_builds_one_column_per_fan_ray() {
    let g = default_game();
    let frame = g.update();
    assert_eq!(frame.fan.len(), 61);
    assert_eq!(frame.columns.len(), 61);
    // Center ray: straight cast at the column-9 border, 4000 units.
    assert_eq!(frame.fan[30].distance, 4000);
    assert_eq!(frame.fan[30].side, Lighting::Lit);
    assert_eq!(frame.columns[30].height, HEIGHT_SCALE / 4000);
    // The 10 x 10 border holds 36 wall cells.
    assert_eq!(frame.walls.len(), 36);
}

#[test]
fn update_reflects_edits_immediately() {
    let mut g = default_game();
    g.input(&InputEvent::PointerMoved(200, 120));
    g.input(&InputEvent::PointerPressed(PointerButton::LeftButton));
    // Cell (5, 7) is now a wall two cells ahead: the center ray stops at
    // 2000 units and every frame value follows.
    assert_eq!(g.map.get(5, 7), CellState::Wall);
    let frame = g.update();
    assert_eq!(frame.fan[30].distance, 2000);
    assert_eq!(frame.columns[30].height, HEIGHT_SCALE / 2000);
    assert_eq!(frame.walls.len(), 37);
}

#[test]
fn wall_list_is_strictly_row_major() {
    // Each wall cell appears exactly once, in row-major order.
    let g = default_game();
    let walls = g.map.wall_cells();
    assert_eq!(walls.len(), 36);
    for k in 1..walls.len() {
        let p = walls[k - 1];
        let q = walls[k];
        assert!(p.0 < q.0 || (p.0 == q.0 && p.1 < q.1));
    }
    assert_eq!(walls[0], (0, 0));
    assert_eq!(walls[35], (9, 9));
}

#[test]
fn pointer_positions_clamp_to_the_screen() {
    let mut g = default_game();
    g.input(&InputEvent::PointerMoved(5000, 5000));
    assert_eq!((g.mouse_x, g.mouse_y), (800, 600));
}
