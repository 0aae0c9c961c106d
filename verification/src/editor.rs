//! Pointer-driven wall editing.
//!
//! A pointer position is mapped through the inverse of the world-to-grid
//! transform onto a cell, and that cell is set to `Wall` or `Empty`. The
//! edit is declined — a no-op, never an error — when the target lies on the
//! outer border, when the pointer maps outside the grid, or when the target
//! cell's footprint overlaps the player's inflated bounding box, which
//! would trap the player inside a wall.

use vstd::prelude::*;
use crate::grid::{CellState, GameMap};
use crate::player::Player;
use crate::util::convert_range;
use crate::CELL_UNITS;

verus! {

/// What an edit does to the targeted cell.
#[derive(Clone, Copy, Debug, PartialEq, Eq, Structural)]
pub enum HandleWall {
    Create,
    Destroy,
}

/// The cell state an action writes.
pub open spec fn action_state(a: HandleWall) -> CellState {
    match a {
        HandleWall::Create => CellState::Wall,
        HandleWall::Destroy => CellState::Empty,
    }
}

/// Row index targeted by screen x-coordinate `mx` on a screen `w` wide:
/// the left half of the screen spans the grid.
pub open spec fn screen_cell_row(mx: int, w: int, n: int) -> int {
    mx * (2 * n) / w
}

/// Column index targeted by screen y-coordinate `my` on a screen `h` tall;
/// screen y runs downward, grid columns upward.
pub open spec fn screen_cell_col(my: int, h: int, n: int) -> int {
    n - 1 - my * n / h
}

/// Does the footprint of cell `(row, col)` touch the player's inflated
/// bounding box (closed-interval overlap on both axes)?
pub open spec fn cell_overlaps_player(player: Player, row: int, col: int) -> bool {
    &&& row * CELL_UNITS <= player.pos_x + player.half_width
    &&& player.pos_x - player.half_width <= (row + 1) * CELL_UNITS
    &&& col * CELL_UNITS <= player.pos_y + player.half_width
    &&& player.pos_y - player.half_width <= (col + 1) * CELL_UNITS
}

/// Is the edit carried out? Only interior cells clear of the player's
/// inflated bounding box may change.
pub open spec fn edit_permitted(
    map: GameMap,
    player: Player,
    mx: int,
    my: int,
    w: int,
    h: int,
) -> bool {
    let n = map.spec_size();
    let row = screen_cell_row(mx, w, n);
    let col = screen_cell_col(my, h, n);
    &&& 0 < row < n - 1
    &&& 0 < col < n - 1
    &&& !cell_overlaps_player(player, row, col)
}

/// How one edit relates the map before (`m0`) and after (`m1`): a permitted
/// edit writes the action's state into the targeted cell and leaves every
/// other cell alone; a declined edit leaves the map untouched.
pub open spec fn edit_rel(
    m0: GameMap,
    player: Player,
    mx: int,
    my: int,
    w: int,
    h: int,
    a: HandleWall,
    m1: GameMap,
) -> bool {
    let n = m0.spec_size();
    let row = screen_cell_row(mx, w, n);
    let col = screen_cell_col(my, h, n);
    if edit_permitted(m0, player, mx, my, w, h) {
        &&& m1.wf()
        &&& m1.spec_size() == n
        &&& m1.spec_cell(row, col) == action_state(a)
        &&& forall|r: int, c: int|
            m0.in_bounds(r, c) && !(r == row && c == col) ==> m1.spec_cell(r, c) == m0.spec_cell(
                r,
                c,
            )
    } else {
        m1 == m0
    }
}

/// Map the pointer to a cell and apply the action there, declining border
/// cells, positions outside the grid, and the cells under the player.
pub fn edit_map(
    map: &mut GameMap,
    player: &Player,
    mx: u64,
    my: u64,
    w: u64,
    h: u64,
    action: HandleWall,
)
    requires
        old(map).wf(),
        player.wf(),
        1 <= w <= 0x4000_0000,
        1 <= h <= 0x4000_0000,
        mx <= w,
        my <= h,
    ensures
        final(map).wf(),
        edit_rel(
            *old(map),
            *player,
            mx as int,
            my as int,
            w as int,
            h as int,
            action,
            *final(map),
        ),
{
    let n = map.size();
    let row: i64 = convert_range(mx as i64, 0, w as i64, 0, 2 * (n as i64));
    let col_down: i64 = convert_range(my as i64, 0, h as i64, 0, n as i64);
    let col: i64 = (n as i64) - 1 - col_down;
    if !(0 < row && row < (n as i64) - 1 && 0 < col && col < (n as i64) - 1) {
        return ;
    }
    let hi_x: i64 = player.pos_x + player.half_width;
    let lo_x: i64 = player.pos_x - player.half_width;
    let hi_y: i64 = player.pos_y + player.half_width;
    let lo_y: i64 = player.pos_y - player.half_width;
    if row * 1000 <= hi_x && lo_x <= (row + 1) * 1000 && col * 1000 <= hi_y && lo_y <= (col + 1)
        * 1000 {
        return ;
    }
    let state = match action {
        HandleWall::Create => CellState::Wall,
        HandleWall::Destroy => CellState::Empty,
    };
    map.set(row as usize, col as usize, state);
}

/// Editing the cell the player currently stands in is always declined,
/// whatever the requested action: the player's own cell always overlaps its
/// inflated bounding box, so the map comes out unchanged.
pub proof fn lemma_edit_under_player_noop(
    map: GameMap,
    player: Player,
    mx: int,
    my: int,
    w: int,
    h: int,
    a: HandleWall,
    m1: GameMap,
)
    requires
        player.wf(),
        edit_rel(map, player, mx, my, w, h, a, m1),
        screen_cell_row(mx, w, map.spec_size()) == player.pos_x as int / CELL_UNITS as int,
        screen_cell_col(my, h, map.spec_size()) == player.pos_y as int / CELL_UNITS as int,
    ensures
        m1 == map,
{
    let row = player.pos_x as int / CELL_UNITS as int;
    let col = player.pos_y as int / CELL_UNITS as int;
    vstd::arithmetic::div_mod::lemma_fundamental_div_mod(player.pos_x as int, CELL_UNITS as int);
    vstd::arithmetic::div_mod::lemma_mod_bound(player.pos_x as int, CELL_UNITS as int);
    vstd::arithmetic::div_mod::lemma_fundamental_div_mod(player.pos_y as int, CELL_UNITS as int);
    vstd::arithmetic::div_mod::lemma_mod_bound(player.pos_y as int, CELL_UNITS as int);
    assert(cell_overlaps_player(player, row, col));
}

} // verus!
