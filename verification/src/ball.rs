//! Ball physics: scoring, wall bounce, paddle deflection, and movement.

use vstd::prelude::*;

verus! {

use crate::state::Model;
use crate::state::Point;
use crate::state::State;
use crate::BALL_SIZE;
use crate::BASE_SPEED;
use crate::DEFLECT_DIVISOR;
use crate::HEIGHT;
use crate::RECT_HEIGHT;
use crate::RECT_WIDTH;
use crate::WIDTH;

/// Truncating integer division (rounding toward zero), as the machine
/// division on `i32` computes it; `d` must be positive.
pub open spec fn div_trunc(a: int, d: int) -> int
    recommends
        d > 0,
{
    if a >= 0 {
        a / d
    } else {
        -((-a) / d)
    }
}

/// Serve direction after `total` points have been scored in all: even totals
/// serve toward the right, odd totals toward the left.
pub open spec fn serve_dir(total: int) -> int {
    if total % 2 == 0 {
        1
    } else {
        -1
    }
}

/// The state after a ball reset: ball at the exact playfield centre, base
/// speed, no vertical motion, serve direction by parity of the total score.
pub open spec fn reset_model(m: Model) -> Model {
    Model {
        ball_x: WIDTH as int / 2,
        ball_y: HEIGHT as int / 2,
        dir_x: serve_dir(m.score_l + m.score_r),
        dir_y: 0,
        speed: BASE_SPEED as int,
        ..m
    }
}

/// Puts the ball back at the playfield centre for a new serve, leaving the
/// score and the paddles alone.
pub fn ball_reset(state: &mut State)
    requires
        old(state).score.0 + old(state).score.1 <= 255,
    ensures
        final(state)@ == reset_model(old(state)@),
{
    if (state.score.0 + state.score.1) % 2 == 0 {
        state.ball_d = Point { x: 1, y: 0 };
    } else {
        state.ball_d = Point { x: -1, y: 0 };
    }
    state.ball_s = BASE_SPEED;
    state.ball_centre = Point { x: WIDTH / 2, y: HEIGHT / 2 };
}

/// The scoring stage of a frame: a ball at or past a side threshold gives the
/// opposite player a point and is reset for the next serve.
pub open spec fn score_stage(m: Model) -> Model {
    if m.ball_x <= BALL_SIZE as int {
        reset_model(Model { score_r: m.score_r + 1, ..m })
    } else if m.ball_x >= WIDTH as int - BALL_SIZE as int {
        reset_model(Model { score_l: m.score_l + 1, ..m })
    } else {
        m
    }
}

/// The wall stage of a frame: a ball within `BALL_SIZE + speed` of the top or
/// bottom edge has its vertical direction inverted, nothing else changes.
pub open spec fn wall_stage(m: Model) -> Model {
    if m.ball_y <= BALL_SIZE as int + m.speed || m.ball_y >= HEIGHT as int - (
    BALL_SIZE as int + m.speed) {
        Model { dir_y: -m.dir_y, ..m }
    } else {
        m
    }
}

/// Whether the ball's bounding box overlaps a paddle's, both given by their
/// centres; edges that merely touch do not count as contact.
pub open spec fn paddle_box_hit(ball_x: int, ball_y: int, pad_x: int, pad_y: int) -> bool {
    &&& ball_x - BALL_SIZE as int / 2 < pad_x + RECT_WIDTH as int / 2
    &&& pad_x - RECT_WIDTH as int / 2 < ball_x + BALL_SIZE as int / 2
    &&& ball_y - BALL_SIZE as int / 2 < pad_y + RECT_HEIGHT as int / 2
    &&& pad_y - RECT_HEIGHT as int / 2 < ball_y + BALL_SIZE as int / 2
}

/// One paddle's stage of a frame: on contact, the direction is recomputed
/// from the offset between ball centre and paddle centre, biased horizontally
/// away from the paddle, and the speed grows by one.
pub open spec fn bounce_stage(m: Model, pad_x: int, pad_y: int, bias: int) -> Model {
    if paddle_box_hit(m.ball_x, m.ball_y, pad_x, pad_y) {
        Model {
            dir_x: div_trunc(m.ball_x - pad_x, DEFLECT_DIVISOR as int) + bias,
            dir_y: div_trunc(m.ball_y - pad_y, DEFLECT_DIVISOR as int),
            speed: m.speed + 1,
            ..m
        }
    } else {
        m
    }
}

/// The movement stage of a frame: the ball advances by its direction vector
/// scaled by `speed / BASE_SPEED`, truncating; below the base speed it does
/// not move at all.
pub open spec fn move_stage(m: Model) -> Model {
    Model {
        ball_x: m.ball_x + m.dir_x * div_trunc(m.speed, BASE_SPEED as int),
        ball_y: m.ball_y + m.dir_y * div_trunc(m.speed, BASE_SPEED as int),
        ..m
    }
}

/// A whole frame of ball physics, the four stages in their fixed order.
pub open spec fn ball_step(m: Model) -> Model {
    let m1 = score_stage(m);
    let m2 = wall_stage(m1);
    let m3 = bounce_stage(m2, m2.p1_x, m2.p1_y, 1);
    let m4 = bounce_stage(m3, m3.p2_x, m3.p2_y, -1);
    move_stage(m4)
}

/// Coordinates and direction components this far inside the `i32` range keep
/// every frame computation free of overflow.
pub open spec fn coord_ok(c: int) -> bool {
    -100_000 <= c <= 100_000
}

/// Bounds under which one frame of ball physics stays within machine limits:
/// positions and directions well inside the `i32` range, a speed the wall
/// formula accepts, and scores that can still take the point a scoring frame
/// would award.
pub open spec fn in_bounds(m: Model) -> bool {
    &&& coord_ok(m.ball_x)
    &&& coord_ok(m.ball_y)
    &&& coord_ok(m.p1_x)
    &&& coord_ok(m.p1_y)
    &&& coord_ok(m.p2_x)
    &&& coord_ok(m.p2_y)
    &&& coord_ok(m.dir_x)
    &&& coord_ok(m.dir_y)
    &&& 0 <= m.speed <= HEIGHT as int - BALL_SIZE as int
    &&& ((m.ball_x <= BALL_SIZE as int || m.ball_x >= WIDTH as int - BALL_SIZE as int) ==> m.score_l
        + m.score_r <= 254)
}

/// Whether one frame of ball physics may run on this state without leaving
/// machine limits; the frame loop checks this before every step.
pub fn in_bounds_check(state: &State) -> (b: bool)
    ensures
        b == in_bounds(state@),
{
    let coords_ok = -100_000 <= state.ball_centre.x && state.ball_centre.x <= 100_000
        && -100_000 <= state.ball_centre.y && state.ball_centre.y <= 100_000
        && -100_000 <= state.p1_centre.x && state.p1_centre.x <= 100_000
        && -100_000 <= state.p1_centre.y && state.p1_centre.y <= 100_000
        && -100_000 <= state.p2_centre.x && state.p2_centre.x <= 100_000
        && -100_000 <= state.p2_centre.y && state.p2_centre.y <= 100_000
        && -100_000 <= state.ball_d.x && state.ball_d.x <= 100_000
        && -100_000 <= state.ball_d.y && state.ball_d.y <= 100_000;
    let speed_ok = 0 <= state.ball_s && state.ball_s <= HEIGHT - BALL_SIZE;
    let score_ok = !(state.ball_centre.x <= BALL_SIZE || state.ball_centre.x >= WIDTH - BALL_SIZE)
        || state.score.0 as u16 + state.score.1 as u16 <= 254;
    coords_ok && speed_ok && score_ok
}

/// One frame of ball physics: scoring, wall bounce, paddle deflection, and
/// integer-truncated movement, exactly [`ball_step`] on the state's view.
pub fn ball_handle(state: &mut State)
    requires
        in_bounds(old(state)@),
    ensures
        final(state)@ == ball_step(old(state)@),
{
    let ghost m0 = state@;

    // Scoring
    if state.ball_centre.x <= BALL_SIZE {
        state.score.1 = state.score.1 + 1;
        ball_reset(state);
    } else if state.ball_centre.x >= WIDTH - BALL_SIZE {
        state.score.0 = state.score.0 + 1;
        ball_reset(state);
    }
    let ghost m1 = score_stage(m0);
    assert(state@ == m1);

    // Top and bottom wall collisions
    if state.ball_centre.y <= BALL_SIZE + state.ball_s {
        state.ball_d.y = -state.ball_d.y;
    } else if state.ball_centre.y >= HEIGHT - (BALL_SIZE + state.ball_s) {
        state.ball_d.y = -state.ball_d.y;
    }
    let ghost m2 = wall_stage(m1);
    assert(state@ == m2);

    // Left paddle contact
    if ball_hits_paddle(state.ball_centre, state.p1_centre) {
        state.ball_d = Point {
            x: (state.ball_centre.x - state.p1_centre.x) / DEFLECT_DIVISOR + 1,
            y: (state.ball_centre.y - state.p1_centre.y) / DEFLECT_DIVISOR,
        };
        state.ball_s = state.ball_s + 1;
    }
    let ghost m3 = bounce_stage(m2, m2.p1_x, m2.p1_y, 1);
    assert(state@ == m3);

    // Right paddle contact
    if ball_hits_paddle(state.ball_centre, state.p2_centre) {
        state.ball_d = Point {
            x: (state.ball_centre.x - state.p2_centre.x) / DEFLECT_DIVISOR - 1,
            y: (state.ball_centre.y - state.p2_centre.y) / DEFLECT_DIVISOR,
        };
        state.ball_s = state.ball_s + 1;
    }
    let ghost m4 = bounce_stage(m3, m3.p2_x, m3.p2_y, -1);
    assert(state@ == m4);

    // Movement
    let step = state.ball_s / BASE_SPEED;
    proof {
        assert(m4.dir_x * div_trunc(m4.speed, BASE_SPEED as int) <= 100_000 * 130
            && -100_000 * 130 <= m4.dir_x * div_trunc(m4.speed, BASE_SPEED as int)) by (nonlinear_arith)
            requires
                -100_000 <= m4.dir_x <= 100_000,
                0 <= div_trunc(m4.speed, BASE_SPEED as int) <= 130,
        ;
        assert(m4.dir_y * div_trunc(m4.speed, BASE_SPEED as int) <= 100_000 * 130
            && -100_000 * 130 <= m4.dir_y * div_trunc(m4.speed, BASE_SPEED as int)) by (nonlinear_arith)
            requires
                -100_000 <= m4.dir_y <= 100_000,
                0 <= div_trunc(m4.speed, BASE_SPEED as int) <= 130,
        ;
    }
    state.ball_centre.x = state.ball_centre.x + state.ball_d.x * step;
    state.ball_centre.y = state.ball_centre.y + state.ball_d.y * step;
    assert(state@ == move_stage(m4));
}

/// Law: a reset always places the ball at the exact playfield centre, at base
/// speed, with no vertical direction component, and serves by parity of the
/// total score; score and paddles are untouched.
pub proof fn lemma_reset_centres(m: Model)
    ensures
        reset_model(m).ball_x == WIDTH as int / 2,
        reset_model(m).ball_y == HEIGHT as int / 2,
        reset_model(m).speed == BASE_SPEED as int,
        reset_model(m).dir_y == 0,
        reset_model(m).dir_x == serve_dir(m.score_l + m.score_r),
        reset_model(m).score_l == m.score_l,
        reset_model(m).score_r == m.score_r,
        reset_model(m).p1_y == m.p1_y,
        reset_model(m).p2_y == m.p2_y,
{
}

/// Law: the serve direction alternates deterministically; each point scored
/// flips it to the other side, and an even total always serves right.
pub proof fn lemma_serve_alternates(total: int)
    requires
        total >= 0,
    ensures
        serve_dir(total + 1) == -serve_dir(total),
        total % 2 == 0 ==> serve_dir(total) == 1,
        total % 2 == 1 ==> serve_dir(total) == -1,
{
}

/// Law: every paddle contact raises the ball's speed by exactly one, with no
/// cap, so a long rally accelerates without bound.
pub proof fn lemma_bounce_raises_speed(m: Model, pad_x: int, pad_y: int, bias: int)
    requires
        paddle_box_hit(m.ball_x, m.ball_y, pad_x, pad_y),
    ensures
        bounce_stage(m, pad_x, pad_y, bias).speed == m.speed + 1,
{
}

/// Law: two paddle contacts without an intervening reset raise the speed by
/// exactly two in all.
pub proof fn lemma_two_bounces_raise_speed_by_two(
    m: Model,
    pad_x: int,
    pad_y: int,
    bias: int,
    pad_x2: int,
    pad_y2: int,
    bias2: int,
)
    requires
        paddle_box_hit(m.ball_x, m.ball_y, pad_x, pad_y),
        paddle_box_hit(
            bounce_stage(m, pad_x, pad_y, bias).ball_x,
            bounce_stage(m, pad_x, pad_y, bias).ball_y,
            pad_x2,
            pad_y2,
        ),
    ensures
        bounce_stage(bounce_stage(m, pad_x, pad_y, bias), pad_x2, pad_y2, bias2).speed == m.speed
            + 2,
{
}

/// Law: position integration truncates, so below the base speed the ball does
/// not move at all, whatever its direction.
pub proof fn lemma_slow_ball_stays(m: Model)
    requires
        0 <= m.speed < BASE_SPEED as int,
    ensures
        move_stage(m).ball_x == m.ball_x,
        move_stage(m).ball_y == m.ball_y,
{
    let d = div_trunc(m.speed, BASE_SPEED as int);
    assert(d == 0);
    assert(m.dir_x * d == 0 && m.dir_y * d == 0) by (nonlinear_arith)
        requires
            d == 0,
    ;
}

/// Law: neither score ever goes down across a frame of ball physics.
pub proof fn lemma_scores_monotonic(m: Model)
    ensures
        ball_step(m).score_l >= m.score_l,
        ball_step(m).score_r >= m.score_r,
{
}

/// Whether the ball's bounding box overlaps a paddle's, the executable side
/// of [`paddle_box_hit`].
pub fn ball_hits_paddle(ball: Point, pad: Point) -> (hit: bool)
    requires
        coord_ok(ball.x as int),
        coord_ok(ball.y as int),
        coord_ok(pad.x as int),
        coord_ok(pad.y as int),
    ensures
        hit == paddle_box_hit(ball.x as int, ball.y as int, pad.x as int, pad.y as int),
{
    ball.x - BALL_SIZE / 2 < pad.x + RECT_WIDTH / 2 && pad.x - RECT_WIDTH / 2 < ball.x + BALL_SIZE
        / 2 && ball.y - BALL_SIZE / 2 < pad.y + RECT_HEIGHT / 2 && pad.y - RECT_HEIGHT / 2 < ball.y
        + BALL_SIZE / 2
}

} // verus!
