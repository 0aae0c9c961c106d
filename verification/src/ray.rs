//! Ray casting by incremental grid traversal (DDA).
//!
//! A ray walks the grid one cell-boundary crossing at a time, always
//! advancing along the axis whose next boundary is nearer, and stops as soon
//! as it enters a wall cell, reporting the accumulated length of the
//! terminating step and which axis it crossed. Iteration is capped at
//! [`MAX_RAY_STEPS`]; when the cap is reached without a hit, the last
//! computed length is returned as a best-effort value, not an error.
//!
//! Exactly axis-aligned rays never cross one of the two axes; that axis
//! gets the sentinel length [`LEN_INF`] and never advances, which is how the
//! singular tangents at the cardinal angles are avoided.

use vstd::prelude::*;
use crate::grid::GameMap;
use crate::trig::{
    abs_cos, abs_cos_deg, abs_sin, abs_sin_deg, axis_step_len, lemma_trig_range, step_len_of,
};
use crate::util::cell_and_offset;
use crate::{CELL_UNITS, DIST_LIMIT, LEN_INF, MAX_RAY_STEPS, POS_LIMIT, STEP_LEN_MAX, TRIG_ONE};

verus! {

/// Which grid-line the terminating DDA step crossed: `Shaded` for a crossing
/// along the row axis, `Lit` for one along the column axis. Chooses a
/// shading variant only; no physical lighting.
#[derive(Clone, Copy, Debug, PartialEq, Eq, Structural)]
pub enum Lighting {
    Shaded,
    Lit,
}

/// A single ray: origin in length units and a whole-degree heading.
/// `length` is the accumulated (or drawn) length, carried for rendering.
pub struct Ray {
    pub origin_x: i64,
    pub origin_y: i64,
    pub heading: u32,
    pub length: u64,
}

/// Mid-traversal DDA state: the current cell and, per axis, the total ray
/// length consumed when that axis next crosses a cell boundary.
pub struct DdaState {
    pub row: int,
    pub col: int,
    pub acc_row: int,
    pub acc_col: int,
}

/// What a cast reports: the distance and side classification of the last
/// step taken, whether a wall was entered, and the cell the ray stopped in.
pub struct RayOutcome {
    pub distance: int,
    pub side: Lighting,
    pub hit: bool,
    pub row: int,
    pub col: int,
}

/// Row-index step sign for a heading: toward smaller rows in the half turn
/// right after zero, toward larger rows otherwise.
pub open spec fn step_row_of(heading: int) -> int {
    if 0 < heading <= 180 {
        -1
    } else {
        1
    }
}

/// Column-index step sign for a heading.
pub open spec fn step_col_of(heading: int) -> int {
    if heading <= 90 || heading > 270 {
        1
    } else {
        -1
    }
}

/// Initial length to the first boundary of an axis: the fractional offset
/// within the starting cell scaled by the axis step length, or the sentinel
/// for an axis that is never crossed.
pub open spec fn axis_init_len(frac_part: int, len: int) -> int {
    if len == LEN_INF {
        LEN_INF as int
    } else {
        frac_part * len / CELL_UNITS as int
    }
}

/// One DDA advance: step the axis whose boundary is nearer, report the
/// length consumed and the axis crossed.
pub open spec fn dda_rec(
    map: GameMap,
    srow: int,
    scol: int,
    len_row: int,
    len_col: int,
    st: DdaState,
    dist: int,
    side: Lighting,
    fuel: nat,
) -> RayOutcome
    decreases fuel,
{
    if fuel == 0 {
        RayOutcome { distance: dist, side, hit: false, row: st.row, col: st.col }
    } else {
        let row_first = st.acc_row < st.acc_col;
        let st2 = if row_first {
            DdaState {
                row: st.row + srow,
                col: st.col,
                acc_row: st.acc_row + len_row,
                acc_col: st.acc_col,
            }
        } else {
            DdaState {
                row: st.row,
                col: st.col + scol,
                acc_row: st.acc_row,
                acc_col: st.acc_col + len_col,
            }
        };
        let d2 = if row_first {
            st.acc_row
        } else {
            st.acc_col
        };
        let s2 = if row_first {
            Lighting::Shaded
        } else {
            Lighting::Lit
        };
        if map.is_wall(st2.row, st2.col) {
            RayOutcome { distance: d2, side: s2, hit: true, row: st2.row, col: st2.col }
        } else {
            dda_rec(map, srow, scol, len_row, len_col, st2, d2, s2, (fuel - 1) as nat)
        }
    }
}

/// The traversal state a cast starts from.
pub open spec fn ray_start(ox: int, oy: int, heading: int) -> DdaState {
    let len_row = step_len_of(abs_sin_deg(heading));
    let len_col = step_len_of(abs_cos_deg(heading));
    let frac_x = ox % CELL_UNITS as int;
    let frac_y = oy % CELL_UNITS as int;
    DdaState {
        row: ox / CELL_UNITS as int,
        col: oy / CELL_UNITS as int,
        acc_row: axis_init_len(
            if step_row_of(heading) == -1 {
                frac_x
            } else {
                CELL_UNITS - frac_x
            },
            len_row,
        ),
        acc_col: axis_init_len(
            if step_col_of(heading) == 1 {
                CELL_UNITS - frac_y
            } else {
                frac_y
            },
            len_col,
        ),
    }
}

/// The full cast: what [`Ray::collision`] returns.
pub open spec fn ray_cast(map: GameMap, ox: int, oy: int, heading: int) -> RayOutcome {
    dda_rec(
        map,
        step_row_of(heading),
        step_col_of(heading),
        step_len_of(abs_sin_deg(heading)),
        step_len_of(abs_cos_deg(heading)),
        ray_start(ox, oy, heading),
        0,
        Lighting::Shaded,
        MAX_RAY_STEPS as nat,
    )
}

/// When a cast reports a hit, the cell it stopped in really holds a wall.
pub proof fn lemma_dda_hit_is_wall(
    map: GameMap,
    srow: int,
    scol: int,
    len_row: int,
    len_col: int,
    st: DdaState,
    dist: int,
    side: Lighting,
    fuel: nat,
)
    ensures
        dda_rec(map, srow, scol, len_row, len_col, st, dist, side, fuel).hit
            ==> map.is_wall(
            dda_rec(map, srow, scol, len_row, len_col, st, dist, side, fuel).row,
            dda_rec(map, srow, scol, len_row, len_col, st, dist, side, fuel).col,
        ),
    decreases fuel,
{
    if fuel > 0 {
        let row_first = st.acc_row < st.acc_col;
        let st2 = if row_first {
            DdaState {
                row: st.row + srow,
                col: st.col,
                acc_row: st.acc_row + len_row,
                acc_col: st.acc_col,
            }
        } else {
            DdaState {
                row: st.row,
                col: st.col + scol,
                acc_row: st.acc_row,
                acc_col: st.acc_col + len_col,
            }
        };
        let d2 = if row_first {
            st.acc_row
        } else {
            st.acc_col
        };
        let s2 = if row_first {
            Lighting::Shaded
        } else {
            Lighting::Lit
        };
        if !map.is_wall(st2.row, st2.col) {
            lemma_dda_hit_is_wall(
                map,
                srow,
                scol,
                len_row,
                len_col,
                st2,
                d2,
                s2,
                (fuel - 1) as nat,
            );
        }
    }
}

/// A cast hit entered a wall cell.
pub proof fn lemma_cast_hit_is_wall(map: GameMap, ox: int, oy: int, heading: int)
    ensures
        ray_cast(map, ox, oy, heading).hit ==> map.is_wall(
            ray_cast(map, ox, oy, heading).row,
            ray_cast(map, ox, oy, heading).col,
        ),
{
    lemma_dda_hit_is_wall(
        map,
        step_row_of(heading),
        step_col_of(heading),
        step_len_of(abs_sin_deg(heading)),
        step_len_of(abs_cos_deg(heading)),
        ray_start(ox, oy, heading),
        0,
        Lighting::Shaded,
        MAX_RAY_STEPS as nat,
    );
}

/// While the row axis carries the never-crossed sentinel, the traversal
/// marches cell by cell toward larger columns: it stops in the first wall
/// cell along that direction, the reported distance growing by one column
/// step length per cell crossed.
proof fn lemma_dda_col_march_pos(
    map: GameMap,
    srow: int,
    len_row: int,
    len_col: int,
    st: DdaState,
    dist: int,
    side: Lighting,
    fuel: nat,
    k: int,
)
    requires
        st.acc_row == LEN_INF,
        0 < len_col,
        0 <= st.acc_col,
        1 <= k <= fuel,
        st.acc_col + (k - 1) * len_col < LEN_INF,
        forall|c: int| st.col + 1 <= c < st.col + k ==> !map.is_wall(st.row, c),
        map.is_wall(st.row, st.col + k),
    ensures
        dda_rec(map, srow, 1, len_row, len_col, st, dist, side, fuel) == (RayOutcome {
            distance: st.acc_col + (k - 1) * len_col,
            side: Lighting::Lit,
            hit: true,
            row: st.row,
            col: st.col + k,
        }),
    decreases k,
{
    assert(0 <= (k - 1) * len_col) by (nonlinear_arith)
        requires
            1 <= k,
            0 < len_col,
    ;
    let st2 = DdaState {
        row: st.row,
        col: st.col + 1,
        acc_row: st.acc_row,
        acc_col: st.acc_col + len_col,
    };
    if k == 1 {
        assert(map.is_wall(st2.row, st2.col));
        assert((k - 1) * len_col == 0) by (nonlinear_arith)
            requires
                k == 1,
        ;
    } else {
        assert(!map.is_wall(st.row, st.col + 1));
        assert((st.acc_col + len_col) + (k - 2) * len_col == st.acc_col + (k - 1) * len_col)
            by (nonlinear_arith);
        assert(st2.acc_col + (k - 2) * len_col == st.acc_col + (k - 1) * len_col);
        lemma_dda_col_march_pos(
            map,
            srow,
            len_row,
            len_col,
            st2,
            st.acc_col,
            Lighting::Lit,
            (fuel - 1) as nat,
            k - 1,
        );
    }
}

/// A ray cast straight along the positive column axis (heading zero) at the
/// first wall in its path reports exactly the Euclidean distance from its
/// origin to that wall cell's near edge, and a column-axis crossing.
pub proof fn lemma_straight_cast_exact(
    map: GameMap,
    ox: int,
    oy: int,
    row0: int,
    col0: int,
    k: int,
)
    requires
        row0 == ox / CELL_UNITS as int,
        col0 == oy / CELL_UNITS as int,
        1 <= k <= MAX_RAY_STEPS,
        forall|c: int| col0 + 1 <= c < col0 + k ==> !map.is_wall(row0, c),
        map.is_wall(row0, col0 + k),
    ensures
        ray_cast(map, ox, oy, 0) == (RayOutcome {
            distance: (col0 + k) * CELL_UNITS - oy,
            side: Lighting::Lit,
            hit: true,
            row: row0,
            col: col0 + k,
        }),
{
    crate::trig::lemma_trig_cardinal();
    vstd::arithmetic::div_mod::lemma_mod_bound(ox, CELL_UNITS as int);
    vstd::arithmetic::div_mod::lemma_mod_bound(oy, CELL_UNITS as int);
    vstd::arithmetic::div_mod::lemma_fundamental_div_mod(oy, CELL_UNITS as int);
    vstd::arithmetic::div_mod::lemma_div_by_multiple(CELL_UNITS as int, TRIG_ONE as int);
    assert(step_len_of(abs_cos_deg(0)) == CELL_UNITS);
    let frac_y = oy % CELL_UNITS as int;
    vstd::arithmetic::div_mod::lemma_div_by_multiple(
        CELL_UNITS as int - frac_y,
        CELL_UNITS as int,
    );
    let st = ray_start(ox, oy, 0);
    assert(st.acc_col == CELL_UNITS - frac_y);
    lemma_dda_col_march_pos(
        map,
        step_row_of(0),
        step_len_of(abs_sin_deg(0)),
        CELL_UNITS as int,
        st,
        0,
        Lighting::Shaded,
        MAX_RAY_STEPS as nat,
        k,
    );
}

/// Toggling a cell to a wall moves a straight cast's hit from the wall
/// behind it to the toggled cell: with the wall present the cast stops
/// there, at a finite distance smaller than the map's span (and so than its
/// diagonal); with it absent the cast reports the next wall behind, farther
/// away. `m_on` and `m_off` differ in the one toggled cell `(row0, col0 + k1)`.
pub proof fn lemma_wall_toggle_straight_cast(
    m_on: GameMap,
    m_off: GameMap,
    ox: int,
    oy: int,
    row0: int,
    col0: int,
    k1: int,
    k2: int,
)
    requires
        row0 == ox / CELL_UNITS as int,
        col0 == oy / CELL_UNITS as int,
        0 <= oy,
        1 <= k1 < k2 <= MAX_RAY_STEPS,
        m_on.spec_size() == m_off.spec_size(),
        forall|r: int, c: int|
            m_off.in_bounds(r, c) && !(r == row0 && c == col0 + k1)
                ==> m_on.spec_cell(r, c) == m_off.spec_cell(r, c),
        m_on.is_wall(row0, col0 + k1),
        !m_off.is_wall(row0, col0 + k1),
        forall|c: int| col0 + 1 <= c < col0 + k2 && c != col0 + k1 ==> !m_off.is_wall(row0, c),
        m_off.is_wall(row0, col0 + k2),
    ensures
        ray_cast(m_on, ox, oy, 0).hit,
        ray_cast(m_on, ox, oy, 0).distance == (col0 + k1) * CELL_UNITS - oy,
        ray_cast(m_on, ox, oy, 0).distance < m_on.spec_size() * CELL_UNITS,
        ray_cast(m_off, ox, oy, 0).hit,
        ray_cast(m_off, ox, oy, 0).distance == (col0 + k2) * CELL_UNITS - oy,
        ray_cast(m_on, ox, oy, 0).distance < ray_cast(m_off, ox, oy, 0).distance,
{
    assert forall|c: int| col0 + 1 <= c < col0 + k1 implies !m_on.is_wall(row0, c) by {
        assert(!m_off.is_wall(row0, c));
        if m_on.in_bounds(row0, c) {
            assert(m_on.spec_cell(row0, c) == m_off.spec_cell(row0, c));
        }
    }
    lemma_straight_cast_exact(m_on, ox, oy, row0, col0, k1);
    lemma_straight_cast_exact(m_off, ox, oy, row0, col0, k2);
    assert(col0 + k1 < m_on.spec_size());
}

impl Ray {
    pub open spec fn wf(&self) -> bool {
        &&& self.heading < 360
        &&& -POS_LIMIT <= self.origin_x <= POS_LIMIT
        &&& -POS_LIMIT <= self.origin_y <= POS_LIMIT
    }

    /// The outcome this ray's cast against `map` is specified to produce.
    pub open spec fn spec_cast(&self, map: GameMap) -> RayOutcome {
        ray_cast(map, self.origin_x as int, self.origin_y as int, self.heading as int)
    }

    /// Cast this ray through the map: walk cell boundaries until a wall cell
    /// is entered or the step cap is reached, and report the accumulated
    /// length of the last step together with its side classification.
    pub fn collision(&self, map: &GameMap) -> (r: (u64, Lighting))
        requires
            map.wf(),
            self.wf(),
        ensures
            r.0 == self.spec_cast(*map).distance,
            r.1 == self.spec_cast(*map).side,
            r.0 <= DIST_LIMIT,
    {
        let heading = self.heading;
        let ghost target = self.spec_cast(*map);
        proof {
            lemma_trig_range(heading as int);
        }
        let srow: i64 = if 0 < heading && heading <= 180 {
            -1
        } else {
            1
        };
        let scol: i64 = if heading <= 90 || heading > 270 {
            1
        } else {
            -1
        };
        let len_row: u64 = axis_step_len(abs_sin(heading));
        let len_col: u64 = axis_step_len(abs_cos(heading));
        let (row0, frac_x) = cell_and_offset(self.origin_x);
        let (col0, frac_y) = cell_and_offset(self.origin_y);
        let fr_row: u64 = if srow == -1 {
            frac_x
        } else {
            1000 - frac_x
        };
        let fr_col: u64 = if scol == 1 {
            1000 - frac_y
        } else {
            frac_y
        };
        proof {
            if len_row != LEN_INF {
                assert(fr_row * len_row <= 1000 * len_row) by (nonlinear_arith)
                    requires
                        0 <= fr_row <= 1000,
                        0 <= len_row,
                ;
                vstd::arithmetic::div_mod::lemma_div_is_ordered(
                    fr_row * len_row,
                    1000 * len_row,
                    1000,
                );
                vstd::arithmetic::div_mod::lemma_div_by_multiple(len_row as int, 1000);
                vstd::arithmetic::div_mod::lemma_div_pos_is_pos(fr_row * len_row, 1000);
            }
            if len_col != LEN_INF {
                assert(fr_col * len_col <= 1000 * len_col) by (nonlinear_arith)
                    requires
                        0 <= fr_col <= 1000,
                        0 <= len_col,
                ;
                vstd::arithmetic::div_mod::lemma_div_is_ordered(
                    fr_col * len_col,
                    1000 * len_col,
                    1000,
                );
                vstd::arithmetic::div_mod::lemma_div_by_multiple(len_col as int, 1000);
                vstd::arithmetic::div_mod::lemma_div_pos_is_pos(fr_col * len_col, 1000);
            }
        }
        let mut acc_row: u64 = if len_row == LEN_INF {
            LEN_INF
        } else {
            fr_row * len_row / 1000
        };
        let mut acc_col: u64 = if len_col == LEN_INF {
            LEN_INF
        } else {
            fr_col * len_col / 1000
        };
        proof {
            assert(DdaState {
                row: row0 as int,
                col: col0 as int,
                acc_row: acc_row as int,
                acc_col: acc_col as int,
            } == ray_start(self.origin_x as int, self.origin_y as int, heading as int));
        }
        let size = map.size();
        let mut row: i64 = row0;
        let mut col: i64 = col0;
        let mut dist: u64 = 0;
        let mut side: Lighting = Lighting::Shaded;
        let mut found: bool = false;
        let mut iter: usize = 0;
        while !found && iter < MAX_RAY_STEPS
            invariant
                map.wf(),
                size == map.spec_size(),
                iter <= MAX_RAY_STEPS,
                srow == step_row_of(heading as int),
                scol == step_col_of(heading as int),
                len_row == step_len_of(abs_sin_deg(heading as int)),
                len_col == step_len_of(abs_cos_deg(heading as int)),
                len_row == LEN_INF || CELL_UNITS <= len_row <= STEP_LEN_MAX,
                len_col == LEN_INF || CELL_UNITS <= len_col <= STEP_LEN_MAX,
                !(len_row == LEN_INF && len_col == LEN_INF),
                len_row == LEN_INF ==> acc_row == LEN_INF,
                len_col == LEN_INF ==> acc_col == LEN_INF,
                len_row != LEN_INF ==> acc_row <= STEP_LEN_MAX + iter * STEP_LEN_MAX,
                len_col != LEN_INF ==> acc_col <= STEP_LEN_MAX + iter * STEP_LEN_MAX,
                dist <= STEP_LEN_MAX + MAX_RAY_STEPS * STEP_LEN_MAX,
                -POS_LIMIT - 1001 - iter <= row <= POS_LIMIT + 1001 + iter,
                -POS_LIMIT - 1001 - iter <= col <= POS_LIMIT + 1001 + iter,
                !found ==> dda_rec(
                    *map,
                    srow as int,
                    scol as int,
                    len_row as int,
                    len_col as int,
                    DdaState {
                        row: row as int,
                        col: col as int,
                        acc_row: acc_row as int,
                        acc_col: acc_col as int,
                    },
                    dist as int,
                    side,
                    (MAX_RAY_STEPS - iter) as nat,
                ) == target,
                found ==> (RayOutcome {
                    distance: dist as int,
                    side,
                    hit: true,
                    row: row as int,
                    col: col as int,
                }) == target,
            decreases MAX_RAY_STEPS - iter,
        {
            if acc_row < acc_col {
                row = row + srow;
                dist = acc_row;
                side = Lighting::Shaded;
                acc_row = acc_row + len_row;
            } else {
                col = col + scol;
                dist = acc_col;
                side = Lighting::Lit;
                acc_col = acc_col + len_col;
            }
            if row >= 0 && col >= 0 && (row as usize) < size && (col as usize) < size {
                if map.get(row as usize, col as usize) == crate::grid::CellState::Wall {
                    found = true;
                }
            }
            iter = iter + 1;
        }
        (dist, side)
    }
}

} // verus!
