//! Fixed-point units and the dimensions of the play area.
//!
//! A length or a velocity is an `i32` that counts tenths of a cell (per
//! tick, for a velocity). Sums that leave the range of `i32` stop at its
//! ends, so no step of the simulation can overflow.

use vstd::prelude::*;

verus! {

/// Tenths in one cell of the grid.
pub const TENTHS_PER_CELL: i32 = 10;

/// Width of the play area, in cells.
pub const SCREEN_WIDTH: i32 = 80;

/// Height of the play area, in cells.
pub const SCREEN_HEIGHT: i32 = 50;

/// Half the side of the square around the ball that reacts to a click, in cells.
pub const BALL_RADIUS: i32 = 2;

/// The value of `i32` nearest to `v`.
pub open spec fn saturate(v: int) -> i32 {
    if v < i32::MIN {
        i32::MIN
    } else if v > i32::MAX {
        i32::MAX
    } else {
        v as i32
    }
}

/// The cell that holds a coordinate given in tenths: the coordinate divided
/// by ten, rounded toward zero.
pub open spec fn cell_of(tenths: int) -> int {
    if tenths >= 0 {
        tenths / 10
    } else {
        -((-tenths) / 10)
    }
}

/// Adds two fixed-point numbers, stopping at the ends of `i32`.
pub fn saturating_sum(a: i32, b: i32) -> (sum: i32)
    ensures
        sum == saturate(a + b),
{
    let wide: i64 = a as i64 + b as i64;
    if wide < i32::MIN as i64 {
        i32::MIN
    } else if wide > i32::MAX as i64 {
        i32::MAX
    } else {
        wide as i32
    }
}

/// Negates a fixed-point number; the negation of `i32::MIN` is `i32::MAX`.
pub fn saturating_negation(a: i32) -> (negated: i32)
    ensures
        negated == saturate(-a),
{
    if a == i32::MIN {
        i32::MAX
    } else {
        -a
    }
}

/// Truncates a coordinate in tenths to the cell that holds it.
pub fn to_cell(tenths: i32) -> (cell: i32)
    ensures
        cell == cell_of(tenths as int),
{
    tenths / TENTHS_PER_CELL
}

} // verus!
