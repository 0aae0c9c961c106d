//! Wall editing through the pointer: creating and destroying walls, border
//! and self-entrapment exclusions, and continuous application while a
//! button is held.
//!
//! The session uses an 800 x 600 screen; its left half maps onto the
//! 10 x 10 grid, so cell row r is targeted by mx in [40 r, 40 r + 40) and
//! cell column c by my in [60 (9 - c), 60 (9 - c) + 60).

use raycaster::editor::{edit_map, HandleWall};
use raycaster::game::{Game, GameConfig, InputEvent, PointerButton};
use raycaster::grid::{CellState, GameMap};
use raycaster::player::Player;

fn default_game() -> Game {
    let config = GameConfig { move_step: 50, rotate_step: 10, half_fov: 30 };
    Game::new(10, config, 800, 600)
}

#[test]
fn pressing_left_creates_a_wall() {
    // mx = 80 targets row 2; my = 420 targets column 2.
    let mut g = default_game();
    assert_eq!(g.map.get(2, 2), CellState::Empty);
    assert!(g.input(&InputEvent::PointerMoved(80, 420)));
    assert!(g.input(&InputEvent::PointerPressed(PointerButton::LeftButton)));
    assert_eq!(g.map.get(2, 2), CellState::Wall);
}

#[test]
fn pressing_right_destroys_a_wall() {
    let mut g = default_game();
    g.map.set(2, 2, CellState::Wall);
    g.input(&InputEvent::PointerMoved(80, 420));
    g.input(&InputEvent::PointerPressed(PointerButton::RightButton));
    assert_eq!(g.map.get(2, 2), CellState::Empty);
}

#[test]
fn editing_under_the_player_is_a_noop() {
    // The player stands at (5000, 5000), in cell (5, 5); mx = 200,
    // my = 240 target exactly that cell. Neither action changes the map.
    let mut g = default_game();
    g.input(&InputEvent::PointerMoved(200, 240));
    g.input(&InputEvent::PointerPressed(PointerButton::LeftButton));
    assert_eq!(g.map.get(5, 5), CellState::Empty);
    g.input(&InputEvent::PointerReleased(PointerButton::LeftButton));
    g.map.set(5, 5, CellState::Wall);
    g.input(&InputEvent::PointerPressed(PointerButton::RightButton));
    assert_eq!(g.map.get(5, 5), CellState::Wall);
}

#[test]
fn editing_cell_touching_player_box_is_a_noop() {
    // The inflated box spans x from 4925 to 5075, so the neighboring cell
    // (4, 5), whose footprint ends at x = 5000, touches it and may not be
    // edited either. Target (4, 5): mx = 160, my = 270.
    let mut g = default_game();
    g.input(&InputEvent::PointerMoved(160, 270));
    g.input(&InputEvent::PointerPressed(PointerButton::LeftButton));
    assert_eq!(g.map.get(4, 5), CellState::Empty);
}

#[test]
fn border_cells_are_never_edited() {
    // mx = 10 targets row 0; destroying a border wall is declined.
    let mut g = default_game();
    g.input(&InputEvent::PointerMoved(10, 300));
    g.input(&InputEvent::PointerPressed(PointerButton::RightButton));
    assert_eq!(g.map.get(0, 4), CellState::Wall);
    // mx = 370 targets row 9, the opposite border: also declined.
    g.input(&InputEvent::PointerMoved(370, 300));
    g.input(&InputEvent::PointerPressed(PointerButton::RightButton));
    assert_eq!(g.map.get(9, 4), CellState::Wall);
}

#[test]
fn right_half_of_screen_never_edits() {
    // mx = 500 maps to row 12, outside the grid: a no-op.
    let mut g = default_game();
    let before: Vec<(usize, usize)> = g.map.wall_cells();
    g.input(&InputEvent::PointerMoved(500, 300));
    g.input(&InputEvent::PointerPressed(PointerButton::LeftButton));
    assert_eq!(g.map.wall_cells(), before);
}

#[test]
fn held_button_paints_while_moving() {
    let mut g = default_game();
    g.input(&InputEvent::PointerMoved(80, 420));
    g.input(&InputEvent::PointerPressed(PointerButton::LeftButton));
    g.input(&InputEvent::PointerMoved(120, 420));
    g.input(&InputEvent::PointerMoved(280, 420));
    assert_eq!(g.map.get(2, 2), CellState::Wall);
    assert_eq!(g.map.get(3, 2), CellState::Wall);
    assert_eq!(g.map.get(7, 2), CellState::Wall);
    g.input(&InputEvent::PointerReleased(PointerButton::LeftButton));
    g.input(&InputEvent::PointerMoved(320, 420));
    assert_eq!(g.map.get(8, 2), CellState::Empty);
}

#[test]
fn edit_map_applies_directly() {
    let mut map = GameMap::bordered(10);
    let player = Player::new(5000, 5000, 0, 75);
    edit_map(&mut map, &player, 80, 420, 800, 600, HandleWall::Create);
    assert_eq!(map.get(2, 2), CellState::Wall);
    edit_map(&mut map, &player, 80, 420, 800, 600, HandleWall::Destroy);
    assert_eq!(map.get(2, 2), CellState::Empty);
}
