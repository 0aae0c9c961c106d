//! The occupancy grid: a square, row-major field of `Empty` / `Wall` cells.

use vstd::prelude::*;
use crate::MAX_GRID;

verus! {

/// Occupancy state of one grid cell.
#[derive(Clone, Copy, Debug, PartialEq, Eq, Structural)]
pub enum CellState {
    Empty,
    Wall,
}

/// A square grid of cell states, addressed by `(row, col)`.
///
/// The row index follows the world x axis and the column index the world y
/// axis: cell `(row, col)` covers the world-unit box
/// `[row * CELL_UNITS, (row + 1) * CELL_UNITS] x [col * CELL_UNITS, (col + 1) * CELL_UNITS]`.
/// Dimensions are fixed for the grid's lifetime; cell values are mutable.
pub struct GameMap {
    size: usize,
    cells: Vec<CellState>,
}

impl GameMap {
    /// Number of cells along each side.
    pub closed spec fn spec_size(&self) -> int {
        self.size as int
    }

    /// The state of cell `(row, col)`; meaningful only in bounds.
    pub closed spec fn spec_cell(&self, row: int, col: int) -> CellState {
        self.cells@[row * self.size + col]
    }

    pub open spec fn in_bounds(&self, row: int, col: int) -> bool {
        0 <= row < self.spec_size() && 0 <= col < self.spec_size()
    }

    /// True when `(row, col)` lies inside the grid and holds a wall.
    /// Out-of-bounds cells count as empty, so rays and moves pass them.
    pub open spec fn is_wall(&self, row: int, col: int) -> bool {
        self.in_bounds(row, col) && self.spec_cell(row, col) == CellState::Wall
    }

    pub closed spec fn inv(&self) -> bool {
        self.cells@.len() == self.size * self.size
    }

    pub open spec fn wf(&self) -> bool {
        &&& self.inv()
        &&& 1 <= self.spec_size() <= MAX_GRID
    }

    proof fn lemma_index_in_range(&self, row: int, col: int)
        requires
            self.wf(),
            self.in_bounds(row, col),
        ensures
            0 <= row * self.size + col < self.cells@.len(),
            row * self.size + col < 0x1000000,
    {
        assert(row * self.size + col < self.size * self.size) by (nonlinear_arith)
            requires
                0 <= row < self.size,
                0 <= col < self.size,
        ;
        assert(0 <= row * self.size) by (nonlinear_arith)
            requires
                0 <= row,
                0 <= self.size,
        ;
        assert(self.size * self.size <= 0x1000000) by (nonlinear_arith)
            requires
                0 <= self.size <= 4096,
        ;
    }

    /// A `size` x `size` grid of empty cells.
    pub fn new_empty(size: usize) -> (m: GameMap)
        requires
            1 <= size <= MAX_GRID,
        ensures
            m.wf(),
            m.spec_size() == size,
            forall|r: int, c: int| m.in_bounds(r, c) ==> m.spec_cell(r, c) == CellState::Empty,
    {
        proof {
            assert(size * size <= 0x1000000) by (nonlinear_arith)
                requires
                    0 <= size <= 4096,
            ;
        }
        let total: usize = size * size;
        let mut cells: Vec<CellState> = Vec::new();
        let mut k: usize = 0;
        while k < total
            invariant
                k <= total,
                cells@.len() == k,
                forall|i: int| 0 <= i < k ==> cells@[i] == CellState::Empty,
            decreases total - k,
        {
            cells.push(CellState::Empty);
            k = k + 1;
        }
        let m = GameMap { size, cells };
        proof {
            assert forall|r: int, c: int| m.in_bounds(r, c)
                implies m.spec_cell(r, c) == CellState::Empty by {
                m.lemma_index_in_range(r, c);
            }
        }
        m
    }

    /// Read cell `(row, col)`. Callers must bounds-check: indices outside the
    /// grid are rejected by the precondition.
    pub fn get(&self, row: usize, col: usize) -> (c: CellState)
        requires
            self.wf(),
            self.in_bounds(row as int, col as int),
        ensures
            c == self.spec_cell(row as int, col as int),
    {
        proof {
            self.lemma_index_in_range(row as int, col as int);
        }
        self.cells[row * self.size + col]
    }

    /// Overwrite cell `(row, col)` unconditionally; no resizing ever happens.
    pub fn set(&mut self, row: usize, col: usize, state: CellState)
        requires
            old(self).wf(),
            old(self).in_bounds(row as int, col as int),
        ensures
            final(self).wf(),
            final(self).spec_size() == old(self).spec_size(),
            final(self).spec_cell(row as int, col as int) == state,
            forall|r: int, c: int|
                old(self).in_bounds(r, c) && !(r == row && c == col)
                    ==> final(self).spec_cell(r, c) == old(self).spec_cell(r, c),
    {
        proof {
            self.lemma_index_in_range(row as int, col as int);
        }
        let idx: usize = row * self.size + col;
        self.cells.set(idx, state);
        proof {
            assert forall|r: int, c: int|
                old(self).in_bounds(r, c) && !(r == row && c == col)
                    implies self.spec_cell(r, c) == old(self).spec_cell(r, c) by {
                old(self).lemma_index_in_range(r, c);
                assert(r * self.size + c != row * self.size + col) by (nonlinear_arith)
                    requires
                        0 <= r < self.size,
                        0 <= c < self.size,
                        0 <= row < self.size,
                        0 <= col < self.size,
                        !(r == row && c == col),
                ;
            }
        }
    }

    /// The default arena: every border cell a wall, the interior empty.
    pub fn bordered(size: usize) -> (m: GameMap)
        requires
            2 <= size <= MAX_GRID,
        ensures
            m.wf(),
            m.spec_size() == size,
            forall|r: int, c: int|
                m.in_bounds(r, c) ==> (m.spec_cell(r, c) == CellState::Wall
                    <==> (r == 0 || c == 0 || r == size - 1 || c == size - 1)),
    {
        let mut m = GameMap::new_empty(size);
        let mut i: usize = 0;
        while i < size
            invariant
                m.wf(),
                m.spec_size() == size,
                2 <= size <= MAX_GRID,
                i <= size,
                forall|r: int, c: int|
                    m.in_bounds(r, c) ==> (m.spec_cell(r, c) == CellState::Wall
                        <==> ((c == 0 || c == size - 1) && r < i)
                            || ((r == 0 || r == size - 1) && c < i)),
            decreases size - i,
        {
            m.set(i, 0, CellState::Wall);
            m.set(i, size - 1, CellState::Wall);
            m.set(0, i, CellState::Wall);
            m.set(size - 1, i, CellState::Wall);
            i = i + 1;
        }
        m
    }

    /// Strict row-major order on cell addresses.
    pub open spec fn cell_before(x: (usize, usize), y: (usize, usize)) -> bool {
        x.0 < y.0 || (x.0 == y.0 && x.1 < y.1)
    }

    /// Every wall cell of the grid, each exactly once, in strict row-major
    /// order; this is what a top-down map view draws, one square per wall.
    pub fn wall_cells(&self) -> (out: Vec<(usize, usize)>)
        requires
            self.wf(),
        ensures
            forall|k: int|
                0 <= k < out@.len() ==> self.is_wall(out@[k].0 as int, out@[k].1 as int),
            forall|r: int, c: int|
                self.is_wall(r, c) ==> out@.contains((r as usize, c as usize)),
            forall|a: int, b: int|
                #![trigger out@[a], out@[b]]
                0 <= a < b < out@.len() ==> GameMap::cell_before(out@[a], out@[b]),
    {
        let size = self.size();
        let mut out: Vec<(usize, usize)> = Vec::new();
        let mut i: usize = 0;
        while i < size
            invariant
                self.wf(),
                size == self.spec_size(),
                i <= size,
                forall|k: int|
                    0 <= k < out@.len() ==> self.is_wall(out@[k].0 as int, out@[k].1 as int),
                forall|r: int, c: int|
                    self.is_wall(r, c) && r < i ==> out@.contains((r as usize, c as usize)),
                forall|k: int| 0 <= k < out@.len() ==> (#[trigger] out@[k]).0 < i,
                forall|a: int, b: int|
                    #![trigger out@[a], out@[b]]
                    0 <= a < b < out@.len() ==> GameMap::cell_before(out@[a], out@[b]),
            decreases size - i,
        {
            let mut j: usize = 0;
            while j < size
                invariant
                    self.wf(),
                    size == self.spec_size(),
                    i < size,
                    j <= size,
                    forall|k: int|
                        0 <= k < out@.len() ==> self.is_wall(out@[k].0 as int, out@[k].1 as int),
                    forall|r: int, c: int|
                        self.is_wall(r, c) && r < i ==> out@.contains((r as usize, c as usize)),
                    forall|c: int|
                        self.is_wall(i as int, c) && c < j ==> out@.contains((i, c as usize)),
                    forall|k: int|
                        0 <= k < out@.len() ==> (#[trigger] out@[k]).0 < i || (out@[k].0 == i
                            && out@[k].1 < j),
                    forall|a: int, b: int|
                        #![trigger out@[a], out@[b]]
                        0 <= a < b < out@.len() ==> GameMap::cell_before(out@[a], out@[b]),
                decreases size - j,
            {
                if self.get(i, j) == CellState::Wall {
                    let ghost prev = out@;
                    out.push((i, j));
                    proof {
                        assert forall|x: (usize, usize)| prev.contains(x)
                            implies out@.contains(x) by {
                            let k = choose|k: int| 0 <= k < prev.len() && prev[k] == x;
                            assert(out@[k] == x);
                        }
                        assert(out@[out@.len() - 1] == (i, j));
                        assert forall|a: int, b: int|
                            #![trigger out@[a], out@[b]]
                            0 <= a < b < out@.len() implies GameMap::cell_before(
                            out@[a],
                            out@[b],
                        ) by {
                            if b < out@.len() - 1 {
                                assert(out@[a] == prev[a] && out@[b] == prev[b]);
                            } else {
                                assert(out@[a] == prev[a]);
                                assert(prev[a].0 < i || (prev[a].0 == i && prev[a].1 < j));
                            }
                        }
                    }
                }
                j = j + 1;
            }
            i = i + 1;
        }
        out
    }

    /// Side length as an executable value.
    pub fn size(&self) -> (s: usize)
        ensures
            s == self.spec_size(),
    {
        self.size
    }
}

} // verus!
