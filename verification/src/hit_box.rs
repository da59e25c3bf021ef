//! The test that decides whether a click lands on the ball.

use vstd::prelude::*;

verus! {

/// The distance between two coordinates on one axis.
pub open spec fn distance(a: int, b: int) -> int {
    if a >= b {
        a - b
    } else {
        b - a
    }
}

/// Whether `mouse` lies in the square of cells centred on `ball` that
/// reaches `radius` cells to every side, edges included.
pub open spec fn in_hit_box(ball: (i32, i32), mouse: (i32, i32), radius: i32) -> bool {
    &&& distance(mouse.0 as int, ball.0 as int) <= radius
    &&& distance(mouse.1 as int, ball.1 as int) <= radius
}

/// Tells whether a pointer at cell `mouse` is within `radius` cells of the
/// cell `ball` on both axes.
pub fn calculate_hit_box(ball: (i32, i32), mouse: (i32, i32), radius: i32) -> (hit: bool)
    ensures
        hit == in_hit_box(ball, mouse, radius),
{
    let dx: i64 = mouse.0 as i64 - ball.0 as i64;
    let dy: i64 = mouse.1 as i64 - ball.1 as i64;
    let reach: i64 = radius as i64;
    -reach <= dx && dx <= reach && -reach <= dy && dy <= reach
}

} // verus!
