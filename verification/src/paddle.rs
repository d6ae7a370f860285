//! Paddle movement: one fixed step per held key, guarded so the paddle stays
//! near the playfield.
//!
//! The guard tests the pre-move position, so at the bottom edge the centre can
//! come to rest one step past the nominal limit; this keeps the original
//! boundary behaviour rather than clamping exactly.

use vstd::prelude::*;

verus! {

use crate::HEIGHT;
use crate::PADDLE_V;
use crate::RECT_HEIGHT;

/// Where a paddle centre ends up after one held "up" key.
pub open spec fn move_up_spec(y: int) -> int {
    if PADDLE_V + RECT_HEIGHT as int / 2 <= y {
        y - PADDLE_V
    } else {
        y
    }
}

/// Where a paddle centre ends up after one held "down" key.
pub open spec fn move_down_spec(y: int) -> int {
    if y < HEIGHT as int - RECT_HEIGHT as int / 2 {
        y + PADDLE_V
    } else {
        y
    }
}

/// One held "up" key: the centre moves up one step unless that would take it
/// past the top margin.
pub fn paddle_move_up(y: i32) -> (r: i32)
    ensures
        r == move_up_spec(y as int),
{
    if PADDLE_V + RECT_HEIGHT / 2 <= y {
        y - PADDLE_V
    } else {
        y
    }
}

/// One held "down" key: the centre moves down one step unless it already sits
/// at or past the bottom margin.
pub fn paddle_move_down(y: i32) -> (r: i32)
    ensures
        r == move_down_spec(y as int),
{
    if y < HEIGHT - RECT_HEIGHT / 2 {
        y + PADDLE_V
    } else {
        y
    }
}

/// Law: within the playfield band, moving up then down (or down then up)
/// returns the paddle centre to where it started; at a clamped edge the
/// clamped direction is a no-op.
pub proof fn lemma_paddle_up_down_roundtrip(y: int)
    requires
        RECT_HEIGHT as int / 2 <= y <= HEIGHT as int - RECT_HEIGHT as int / 2,
    ensures
        PADDLE_V + RECT_HEIGHT as int / 2 <= y ==> move_down_spec(move_up_spec(y)) == y,
        y < PADDLE_V + RECT_HEIGHT as int / 2 ==> move_up_spec(y) == y,
        y < HEIGHT as int - RECT_HEIGHT as int / 2 ==> move_up_spec(move_down_spec(y)) == y,
        HEIGHT as int - RECT_HEIGHT as int / 2 <= y ==> move_down_spec(y) == y,
{
}

} // verus!
