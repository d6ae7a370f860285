//! Verified simulation core for a fixed-resolution two-player Pong game.
//!
//! The playfield is a 512x512 integer coordinate space. Each frame, held keys
//! move the paddles, then the ball advances one step: a scoring check, a wall
//! bounce, a paddle deflection, and an integer-truncated position update.
//! Everything here is plain integer state; rendering and input live outside
//! the library.

use vstd::prelude::*;

pub mod ball;
pub mod paddle;
pub mod state;

verus! {

/// Width of the playfield in pixels.
pub const WIDTH: i32 = 512;

/// Height of the playfield in pixels.
pub const HEIGHT: i32 = 512;

/// Side length of the square ball.
pub const BALL_SIZE: i32 = 8;

/// Width of each paddle.
pub const RECT_WIDTH: i32 = 16;

/// Height of each paddle.
pub const RECT_HEIGHT: i32 = 64;

/// Vertical distance a paddle moves for one held key, per frame.
pub const PADDLE_V: i32 = 8;

/// Speed the ball serves at after every reset.
pub const BASE_SPEED: i32 = 4;

/// Divisor turning the contact offset from a paddle's centre into a
/// deflection direction.
pub const DEFLECT_DIVISOR: i32 = 8;

} // verus!
