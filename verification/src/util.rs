//! Small numeric helpers shared by the geometry modules.

use vstd::prelude::*;
use crate::CELL_UNITS;

verus! {

/// Linearly rescale `value` from the range `[old_lo, old_hi]` into
/// `[new_lo, new_hi]` (floor-rounded fixed-point interpolation).
pub fn convert_range(value: i64, old_lo: i64, old_hi: i64, new_lo: i64, new_hi: i64) -> (r: i64)
    requires
        old_lo < old_hi,
        old_lo <= value <= old_hi,
        new_lo <= new_hi,
        -0x4000_0000 <= old_lo && old_hi <= 0x4000_0000,
        -0x4000_0000 <= new_lo && new_hi <= 0x4000_0000,
    ensures
        r == (value - old_lo) * (new_hi - new_lo) / (old_hi - old_lo) + new_lo,
        new_lo <= r <= new_hi,
{
    proof {
        assert(0 <= (value - old_lo) * (new_hi - new_lo) <= (old_hi - old_lo) * (new_hi - new_lo))
            by (nonlinear_arith)
            requires
                0 <= value - old_lo <= old_hi - old_lo,
                0 <= new_hi - new_lo,
        ;
        assert((old_hi - old_lo) * (new_hi - new_lo) <= 0x4000_0000_0000_0000) by (nonlinear_arith)
            requires
                0 < old_hi - old_lo <= 0x8000_0000,
                0 <= new_hi - new_lo <= 0x8000_0000,
        ;
    }
    let num: i64 = (value - old_lo) * (new_hi - new_lo);
    let den: i64 = old_hi - old_lo;
    proof {
        vstd::arithmetic::div_mod::lemma_div_pos_is_pos(num as int, den as int);
        vstd::arithmetic::div_mod::lemma_div_is_ordered(
            num as int,
            (old_hi - old_lo) * (new_hi - new_lo),
            den as int,
        );
        vstd::arithmetic::div_mod::lemma_div_by_multiple(new_hi - new_lo, den as int);
        assert((old_hi - old_lo) * (new_hi - new_lo) == (new_hi - new_lo) * (old_hi - old_lo))
            by (nonlinear_arith);
    }
    num / den + new_lo
}

/// Euclidean division of a coordinate by the cell span: the containing cell
/// index and the nonnegative offset within that cell.
pub fn cell_and_offset(a: i64) -> (r: (i64, u64))
    requires
        -0x1000_0000_0000 <= a <= 0x1000_0000_0000,
    ensures
        r.0 == a as int / CELL_UNITS as int,
        r.1 == a as int % CELL_UNITS as int,
        a == r.0 * CELL_UNITS + r.1,
        0 <= r.1 < CELL_UNITS,
        -0x1000_0000_0001 <= r.0 <= 0x1000_0000_0000,
{
    if a >= 0 {
            let q: u64 = (a as u64) / 1000;
            let rem: u64 = (a as u64) % 1000;
            proof {
                vstd::arithmetic::div_mod::lemma_fundamental_div_mod(a as int, 1000);
            }
            (q as i64, rem)
        } else {
            let m: u64 = (-a) as u64;
            let q: u64 = m / 1000;
            let rem: u64 = m % 1000;
            proof {
                vstd::arithmetic::div_mod::lemma_fundamental_div_mod(m as int, 1000);
            }
            if rem == 0 {
                proof {
                    vstd::arithmetic::div_mod::lemma_fundamental_div_mod_converse(
                        a as int,
                        1000,
                        -(q as int),
                        0,
                    );
                }
                (-(q as i64), 0)
            } else {
                proof {
                    vstd::arithmetic::div_mod::lemma_fundamental_div_mod_converse(
                        a as int,
                        1000,
                        -(q as int) - 1,
                        1000 - rem as int,
                    );
                }
                (-(q as i64) - 1, 1000 - rem)
            }
        }
}

} // verus!

