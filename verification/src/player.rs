//! Player state and collision-checked movement.
//!
//! A move is validated by a brute-force scan of every wall cell: the four
//! corners of the player's square footprint, inflated by its half-width,
//! are tested for strict containment in the wall's footprint. A rejected
//! move leaves the position unchanged — the whole move is declined, never
//! slid or partially resolved. Heading changes are never rejected.

use vstd::prelude::*;
use crate::grid::{CellState, GameMap};
use crate::ray::Ray;
use crate::trig::{cos_deg, cos_signed, sin_deg, sin_signed};
use crate::{CELL_UNITS, POS_LIMIT, TRIG_ONE};

verus! {

/// Length of the drawn view ray, in length units.
pub const LINE_LENGTH: u64 = 250;

/// Positions a movement candidate may occupy: the committed range plus one
/// step of slack on either side.
pub open spec fn candidate_in_range(v: int) -> bool {
    -POS_LIMIT - 1_000_000 <= v <= POS_LIMIT + 1_000_000
}

/// Is the point strictly inside the open footprint of cell `(row, col)`?
pub open spec fn point_strictly_in_cell(px: int, py: int, row: int, col: int) -> bool {
    &&& row * CELL_UNITS < px < (row + 1) * CELL_UNITS
    &&& col * CELL_UNITS < py < (col + 1) * CELL_UNITS
}

/// Does a corner of the square around `(x, y)` inflated by `half_width`
/// land inside the footprint of cell `(row, col)`?
pub open spec fn corner_overlaps_cell(x: int, y: int, half_width: int, row: int, col: int) -> bool {
    ||| point_strictly_in_cell(x + half_width, y + half_width, row, col)
    ||| point_strictly_in_cell(x - half_width, y - half_width, row, col)
    ||| point_strictly_in_cell(x + half_width, y - half_width, row, col)
    ||| point_strictly_in_cell(x - half_width, y + half_width, row, col)
}

/// A destination is blocked exactly when some wall cell catches a corner of
/// the inflated bounding box.
pub open spec fn move_blocked(map: GameMap, x: int, y: int, half_width: int) -> bool {
    exists|r: int, c: int|
        #[trigger] map.is_wall(r, c) && corner_overlaps_cell(x, y, half_width, r, c)
}

/// Scan every cell of the map and accept the destination `(x, y)` if and
/// only if no wall cell overlaps a corner of the inflated bounding box.
pub fn validate(map: &GameMap, x: i64, y: i64, half_width: i64) -> (ok: bool)
    requires
        map.wf(),
        candidate_in_range(x as int),
        candidate_in_range(y as int),
        0 <= half_width <= 1_000_000,
    ensures
        ok <==> !move_blocked(*map, x as int, y as int, half_width as int),
{
    let size = map.size();
    let mut i: usize = 0;
    while i < size
        invariant
            map.wf(),
            size == map.spec_size(),
            i <= size,
            candidate_in_range(x as int),
            candidate_in_range(y as int),
            0 <= half_width <= 1_000_000,
            forall|r: int, c: int|
                #[trigger] map.is_wall(r, c) && r < i
                    ==> !corner_overlaps_cell(x as int, y as int, half_width as int, r, c),
        decreases size - i,
    {
        let mut j: usize = 0;
        while j < size
            invariant
                map.wf(),
                size == map.spec_size(),
                i < size,
                j <= size,
                candidate_in_range(x as int),
                candidate_in_range(y as int),
                0 <= half_width <= 1_000_000,
                forall|r: int, c: int|
                    #[trigger] map.is_wall(r, c) && r < i
                        ==> !corner_overlaps_cell(x as int, y as int, half_width as int, r, c),
                forall|c: int|
                    #[trigger] map.is_wall(i as int, c) && c < j
                        ==> !corner_overlaps_cell(x as int, y as int, half_width as int, i as int, c),
            decreases size - j,
        {
            if map.get(i, j) == CellState::Wall {
                let beg_x: i64 = (i as i64) * 1000;
                let end_x: i64 = (i as i64) * 1000 + 1000;
                let beg_y: i64 = (j as i64) * 1000;
                let end_y: i64 = (j as i64) * 1000 + 1000;
                let hi_x: i64 = x + half_width;
                let lo_x: i64 = x - half_width;
                let hi_y: i64 = y + half_width;
                let lo_y: i64 = y - half_width;
                let in_hi_x = beg_x < hi_x && hi_x < end_x;
                let in_lo_x = beg_x < lo_x && lo_x < end_x;
                let in_hi_y = beg_y < hi_y && hi_y < end_y;
                let in_lo_y = beg_y < lo_y && lo_y < end_y;
                if (in_hi_x && in_hi_y) || (in_lo_x && in_lo_y) || (in_hi_x && in_lo_y) || (
                in_lo_x && in_hi_y) {
                    proof {
                        assert(map.is_wall(i as int, j as int));
                        assert(corner_overlaps_cell(
                            x as int,
                            y as int,
                            half_width as int,
                            i as int,
                            j as int,
                        ));
                    }
                    return false;
                }
            }
            j = j + 1;
        }
        i = i + 1;
    }
    proof {
        if move_blocked(*map, x as int, y as int, half_width as int) {
            let (r, c) = choose|r: int, c: int|
                #[trigger] map.is_wall(r, c) && corner_overlaps_cell(
                    x as int,
                    y as int,
                    half_width as int,
                    r,
                    c,
                );
            assert(!corner_overlaps_cell(x as int, y as int, half_width as int, r, c));
        }
    }
    true
}

/// Signed displacement `step * trig / TRIG_ONE`, computed on magnitudes so
/// the rounding is always toward zero.
pub open spec fn scaled_step(step: int, trig: int) -> int {
    if trig >= 0 {
        step * trig / TRIG_ONE as int
    } else {
        -(step * -trig / TRIG_ONE as int)
    }
}

/// One movement component from the step length and a scaled sine or cosine.
fn scaled_step_x(step: u64, trig: i64) -> (r: i64)
    requires
        step <= 1_000_000,
        -(TRIG_ONE as i64) <= trig <= TRIG_ONE as i64,
    ensures
        r == scaled_step(step as int, trig as int),
        -(step as int) <= r <= step as int,
{
    proof {
        let t = if trig >= 0 {
            trig as int
        } else {
            -trig as int
        };
        assert(step * t <= step * TRIG_ONE) by (nonlinear_arith)
            requires
                0 <= t <= TRIG_ONE,
                0 <= step,
        ;
        assert(0 <= step * t) by (nonlinear_arith)
            requires
                0 <= t,
                0 <= step,
        ;
        vstd::arithmetic::div_mod::lemma_div_is_ordered(
            step * t,
            step * TRIG_ONE,
            TRIG_ONE as int,
        );
        vstd::arithmetic::div_mod::lemma_div_by_multiple(step as int, TRIG_ONE as int);
        vstd::arithmetic::div_mod::lemma_div_pos_is_pos(step * t, TRIG_ONE as int);
    }
    if trig >= 0 {
        ((step * (trig as u64)) / 1_000_000) as i64
    } else {
        -(((step * ((-trig) as u64)) / 1_000_000) as i64)
    }
}

/// The player: a position, a collision half-width, a whole-degree heading,
/// and a view ray whose origin tracks the position on every accepted move.
pub struct Player {
    pub pos_x: i64,
    pub pos_y: i64,
    pub half_width: i64,
    pub heading: u32,
    pub view: Ray,
}

impl Player {
    pub open spec fn wf(&self) -> bool {
        &&& self.heading < 360
        &&& -POS_LIMIT <= self.pos_x <= POS_LIMIT
        &&& -POS_LIMIT <= self.pos_y <= POS_LIMIT
        &&& 0 <= self.half_width <= CELL_UNITS
        &&& self.view.origin_x == self.pos_x
        &&& self.view.origin_y == self.pos_y
        &&& self.view.heading == self.heading
    }

    /// A player standing at `(x, y)` with the given heading and half-width.
    pub fn new(x: i64, y: i64, heading: u32, half_width: i64) -> (p: Player)
        requires
            -POS_LIMIT <= x <= POS_LIMIT,
            -POS_LIMIT <= y <= POS_LIMIT,
            heading < 360,
            0 <= half_width <= CELL_UNITS,
        ensures
            p.wf(),
            p.pos_x == x,
            p.pos_y == y,
            p.heading == heading,
            p.half_width == half_width,
            p.view.length == LINE_LENGTH,
    {
        Player {
            pos_x: x,
            pos_y: y,
            half_width,
            heading,
            view: Ray { origin_x: x, origin_y: y, heading, length: LINE_LENGTH },
        }
    }

    /// Where a forward move of `step` units would land: the heading vector
    /// is `(-sin, cos)` scaled by the step.
    pub open spec fn forward_target(&self, step: int) -> (int, int) {
        (
            self.pos_x - scaled_step(step, sin_deg(self.heading as int)),
            self.pos_y + scaled_step(step, cos_deg(self.heading as int)),
        )
    }

    /// Where a backward move of `step` units would land.
    pub open spec fn backward_target(&self, step: int) -> (int, int) {
        (
            self.pos_x + scaled_step(step, sin_deg(self.heading as int)),
            self.pos_y - scaled_step(step, cos_deg(self.heading as int)),
        )
    }

    /// Does the player, at its current position and half-width, commit a
    /// move to `(nx, ny)` against this map? Only free, in-range
    /// destinations are committed.
    pub open spec fn commits(&self, map: GameMap, nx: int, ny: int) -> bool {
        &&& !move_blocked(map, nx, ny, self.half_width as int)
        &&& -POS_LIMIT <= nx <= POS_LIMIT
        &&& -POS_LIMIT <= ny <= POS_LIMIT
    }

    /// The state after a move attempt toward `(nx, ny)`: position and view
    /// origin move together when the move commits; nothing changes when it
    /// is rejected.
    pub open spec fn moved_to(&self, map: GameMap, old_self: Player, nx: int, ny: int) -> bool {
        &&& self.heading == old_self.heading
        &&& self.half_width == old_self.half_width
        &&& self.view.heading == old_self.view.heading
        &&& self.view.length == old_self.view.length
        &&& if old_self.commits(map, nx, ny) {
            self.pos_x == nx && self.pos_y == ny
        } else {
            self.pos_x == old_self.pos_x && self.pos_y == old_self.pos_y
        }
        &&& self.view.origin_x == self.pos_x
        &&& self.view.origin_y == self.pos_y
    }

    /// Validate `(nx, ny)` against the map and commit it only when accepted
    /// and in range; the view ray origin follows every accepted move.
    fn try_move(&mut self, map: &GameMap, nx: i64, ny: i64)
        requires
            old(self).wf(),
            map.wf(),
            candidate_in_range(nx as int),
            candidate_in_range(ny as int),
        ensures
            final(self).wf(),
            final(self).moved_to(*map, *old(self), nx as int, ny as int),
    {
        let free = validate(map, nx, ny, self.half_width);
        if free && -POS_LIMIT <= nx && nx <= POS_LIMIT && -POS_LIMIT <= ny && ny <= POS_LIMIT {
            self.pos_x = nx;
            self.pos_y = ny;
            self.view.origin_x = nx;
            self.view.origin_y = ny;
        }
    }

    /// Step `step` units along the heading vector, committing the new
    /// position only when the movement validator accepts it.
    pub fn move_forward(&mut self, map: &GameMap, step: u64)
        requires
            old(self).wf(),
            map.wf(),
            step <= 1_000_000,
        ensures
            final(self).wf(),
            final(self).moved_to(
                *map,
                *old(self),
                old(self).forward_target(step as int).0,
                old(self).forward_target(step as int).1,
            ),
    {
        let dx = scaled_step_x(step, sin_signed(self.heading));
        let dy = scaled_step_x(step, cos_signed(self.heading));
        let nx = self.pos_x - dx;
        let ny = self.pos_y + dy;
        self.try_move(map, nx, ny);
    }

    /// Step `step` units against the heading vector, committing the new
    /// position only when the movement validator accepts it.
    pub fn move_backward(&mut self, map: &GameMap, step: u64)
        requires
            old(self).wf(),
            map.wf(),
            step <= 1_000_000,
        ensures
            final(self).wf(),
            final(self).moved_to(
                *map,
                *old(self),
                old(self).backward_target(step as int).0,
                old(self).backward_target(step as int).1,
            ),
    {
        let dx = scaled_step_x(step, sin_signed(self.heading));
        let dy = scaled_step_x(step, cos_signed(self.heading));
        let nx = self.pos_x + dx;
        let ny = self.pos_y - dy;
        self.try_move(map, nx, ny);
    }

    /// Add `delta` degrees to the heading, wrapping into `[0, 360)`; the
    /// view ray turns with the player. Never rejected.
    pub fn rotate(&mut self, delta: i32)
        requires
            old(self).wf(),
        ensures
            final(self).wf(),
            final(self).heading == (old(self).heading + delta) % 360,
            final(self).pos_x == old(self).pos_x,
            final(self).pos_y == old(self).pos_y,
            final(self).half_width == old(self).half_width,
            final(self).view.origin_x == old(self).view.origin_x,
            final(self).view.origin_y == old(self).view.origin_y,
            final(self).view.length == old(self).view.length,
    {
        let d: i64 = delta as i64;
        let m: i64 = if d >= 0 {
            ((d as u64) % 360) as i64
        } else {
            -((((-d) as u64) % 360) as i64)
        };
        let h2: i64 = self.heading as i64 + m;
        let h3: i64 = if h2 < 0 {
            h2 + 360
        } else if h2 >= 360 {
            h2 - 360
        } else {
            h2
        };
        proof {
            let x = old(self).heading + delta;
            if d >= 0 {
                let q0 = d / 360;
                vstd::arithmetic::div_mod::lemma_fundamental_div_mod(d as int, 360);
                if h2 >= 360 {
                    vstd::arithmetic::div_mod::lemma_fundamental_div_mod_converse(
                        x,
                        360,
                        q0 + 1,
                        h3 as int,
                    );
                } else {
                    vstd::arithmetic::div_mod::lemma_fundamental_div_mod_converse(
                        x,
                        360,
                        q0,
                        h3 as int,
                    );
                }
            } else {
                let q0 = (-d) / 360;
                vstd::arithmetic::div_mod::lemma_fundamental_div_mod((-d) as int, 360);
                if h2 < 0 {
                    vstd::arithmetic::div_mod::lemma_fundamental_div_mod_converse(
                        x,
                        360,
                        -q0 - 1,
                        h3 as int,
                    );
                } else {
                    vstd::arithmetic::div_mod::lemma_fundamental_div_mod_converse(
                        x,
                        360,
                        -q0,
                        h3 as int,
                    );
                }
            }
        }
        self.heading = h3 as u32;
        self.view.heading = self.heading;
    }

    /// A move attempt never parks the player inside a blocked position:
    /// either nothing changed, or the destination was validated free.
    pub proof fn lemma_move_never_enters_walls(
        p2: Player,
        map: GameMap,
        p1: Player,
        nx: int,
        ny: int,
    )
        requires
            p2.moved_to(map, p1, nx, ny),
        ensures
            (p2.pos_x == p1.pos_x && p2.pos_y == p1.pos_y) || !move_blocked(
                map,
                p2.pos_x as int,
                p2.pos_y as int,
                p2.half_width as int,
            ),
    {
    }

    /// Collision scan for a proposed destination, using this player's
    /// half-width: true exactly when no wall cell overlaps the inflated
    /// bounding box there.
    pub fn validate_move(&self, x: i64, y: i64, map: &GameMap) -> (ok: bool)
        requires
            self.wf(),
            map.wf(),
            candidate_in_range(x as int),
            candidate_in_range(y as int),
        ensures
            ok <==> !move_blocked(*map, x as int, y as int, self.half_width as int),
    {
        validate(map, x, y, self.half_width)
    }
}

} // verus!
