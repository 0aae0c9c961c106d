//! A first-person, grid-based raycasting explorer.
//!
//! A player moves and rotates inside a square occupancy grid. Each frame a
//! fan of rays is cast from the player's viewpoint with an incremental
//! grid-traversal algorithm (DDA); the resulting distances are
//! fisheye-corrected and projected into screen columns. Cells can be turned
//! into walls and back, except where that would trap the player.
//!
//! All geometry is fixed-point: one grid cell spans [`CELL_UNITS`] length
//! units, angles are whole degrees, and the trigonometric tables are scaled
//! by [`TRIG_ONE`]. Rendering and window plumbing live outside the library;
//! it computes distances, columns and cell lists as plain values.

use vstd::prelude::*;

pub mod editor;
pub mod game;
pub mod grid;
pub mod player;
pub mod projection;
pub mod ray;
pub mod trig;
pub mod util;

verus! {

/// Fixed-point resolution of all lengths: one grid cell spans this many units.
pub const CELL_UNITS: u64 = 1000;

/// Scale of the trigonometric tables: an entry is the sine or cosine times this.
pub const TRIG_ONE: u64 = 1_000_000;

/// Largest accepted grid side, so that index arithmetic stays far from overflow.
pub const MAX_GRID: usize = 4096;

/// Iteration cap of a single ray cast; guarantees bounded work on any map.
pub const MAX_RAY_STEPS: usize = 50;

/// Sentinel accumulated length for an axis a ray never crosses
/// (axis-aligned rays); larger than any reachable finite length.
pub const LEN_INF: u64 = 1_000_000_000_000;

/// Largest length a ray consumes crossing one cell: `CELL_UNITS * TRIG_ONE`
/// divided by the smallest nonzero table sine (one degree).
pub const STEP_LEN_MAX: u64 = 57300;

/// Every finite distance a cast returns stays at or below this bound.
pub const DIST_LIMIT: u64 = 3_000_000;

/// Numerator of the inverse distance-to-column-height relation. Chosen at
/// least `DIST_LIMIT * DIST_LIMIT` so that the height is strictly decreasing
/// over the whole range of reachable distances.
pub const HEIGHT_SCALE: u64 = 9_000_000_000_000;

/// Positions are kept within this many units of the origin in each axis;
/// a machine bound far beyond any grid, never reached while walls confine
/// the player.
pub const POS_LIMIT: i64 = 1_000_000_000;

} // verus!
