//! The simulation state: two paddles, the ball, and the score.

use vstd::prelude::*;

verus! {

use crate::BASE_SPEED;
use crate::HEIGHT;
use crate::WIDTH;

/// An integer point (or vector) in playfield pixel coordinates.
#[derive(Clone, Copy, Debug, PartialEq, Eq, Structural)]
pub struct Point {
    pub x: i32,
    pub y: i32,
}

impl Point {
    pub fn new(x: i32, y: i32) -> (p: Point)
        ensures
            p.x == x,
            p.y == y,
    {
        Point { x, y }
    }
}

/// Mathematical view of a [`State`]: every field as an unbounded integer.
pub ghost struct Model {
    /// Left player's score.
    pub score_l: int,
    /// Right player's score.
    pub score_r: int,
    pub p1_x: int,
    pub p1_y: int,
    pub p2_x: int,
    pub p2_y: int,
    pub ball_x: int,
    pub ball_y: int,
    /// Horizontal component of the ball's direction vector.
    pub dir_x: int,
    /// Vertical component of the ball's direction vector.
    pub dir_y: int,
    pub speed: int,
}

/// The whole game state, owned by the frame loop and updated in place.
pub struct State {
    /// Scores of the left and right player, in that order.
    pub score: (u8, u8),
    /// Centre of the left paddle.
    pub p1_centre: Point,
    /// Centre of the right paddle.
    pub p2_centre: Point,
    /// Centre of the ball.
    pub ball_centre: Point,
    /// Direction vector of the ball.
    pub ball_d: Point,
    /// Speed scalar of the ball; grows by one on every paddle contact.
    pub ball_s: i32,
}

impl View for State {
    type V = Model;

    open spec fn view(&self) -> Model {
        Model {
            score_l: self.score.0 as int,
            score_r: self.score.1 as int,
            p1_x: self.p1_centre.x as int,
            p1_y: self.p1_centre.y as int,
            p2_x: self.p2_centre.x as int,
            p2_y: self.p2_centre.y as int,
            ball_x: self.ball_centre.x as int,
            ball_y: self.ball_centre.y as int,
            dir_x: self.ball_d.x as int,
            dir_y: self.ball_d.y as int,
            speed: self.ball_s as int,
        }
    }
}

/// The state a fresh game starts from: no points, paddles vertically centred
/// near their walls, ball at the playfield centre serving to the right.
pub open spec fn init_model() -> Model {
    Model {
        score_l: 0,
        score_r: 0,
        p1_x: 32,
        p1_y: HEIGHT as int / 2,
        p2_x: WIDTH as int - 32,
        p2_y: HEIGHT as int / 2,
        ball_x: WIDTH as int / 2,
        ball_y: HEIGHT as int / 2,
        dir_x: 1,
        dir_y: 0,
        speed: BASE_SPEED as int,
    }
}

impl State {
    /// A fresh game state.
    pub fn new() -> (s: State)
        ensures
            s@ == init_model(),
    {
        State {
            score: (0u8, 0u8),
            p1_centre: Point { x: 32, y: HEIGHT / 2 },
            p2_centre: Point { x: WIDTH - 32, y: HEIGHT / 2 },
            ball_centre: Point { x: WIDTH / 2, y: HEIGHT / 2 },
            ball_d: Point { x: 1, y: 0 },
            ball_s: BASE_SPEED,
        }
    }
}

/// Top-left corner of a `w` by `h` rectangle centred at `c`; rendering places
/// every rectangle of the scene this way.
pub fn centred_rect_corner(c: Point, w: i32, h: i32) -> (r: Point)
    requires
        0 <= w,
        0 <= h,
        i32::MIN + w / 2 <= c.x,
        i32::MIN + h / 2 <= c.y,
    ensures
        r.x == c.x - w / 2,
        r.y == c.y - h / 2,
{
    Point { x: c.x - w / 2, y: c.y - h / 2 }
}

} // verus!
