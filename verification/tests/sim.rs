use pong::ball::{ball_handle, ball_hits_paddle, ball_reset, in_bounds_check};
use pong::paddle::{paddle_move_down, paddle_move_up};
use pong::state::{centred_rect_corner, Point, State};

#[test]
fn initial_state() {
    let s = State::new();
    assert_eq!(s.score, (0, 0));
    assert_eq!(s.p1_centre, Point { x: 32, y: 256 });
    assert_eq!(s.p2_centre, Point { x: 480, y: 256 });
    assert_eq!(s.ball_centre, Point { x: 256, y: 256 });
    assert_eq!(s.ball_d, Point { x: 1, y: 0 });
    assert_eq!(s.ball_s, 4);
}

#[test]
fn reset_centres_ball() {
    let mut s = State::new();
    s.ball_centre = Point { x: 100, y: 77 };
    s.ball_d = Point { x: 3, y: -2 };
    s.ball_s = 19;
    ball_reset(&mut s);
    assert_eq!(s.ball_centre, Point { x: 256, y: 256 });
    assert_eq!(s.ball_s, 4);
    assert_eq!(s.ball_d.y, 0);
}

#[test]
fn serve_right_on_even_total() {
    let mut s = State::new();
    s.score = (3, 1);
    ball_reset(&mut s);
    assert_eq!(s.ball_d, Point { x: 1, y: 0 });
}

#[test]
fn serve_left_on_odd_total() {
    let mut s = State::new();
    s.score = (3, 2);
    ball_reset(&mut s);
    assert_eq!(s.ball_d, Point { x: -1, y: 0 });
}

#[test]
fn right_scores_at_left_edge() {
    let mut s = State::new();
    s.ball_centre = Point { x: 4, y: 256 };
    ball_handle(&mut s);
    assert_eq!(s.score, (0, 1));
    assert_eq!(s.ball_s, 4);
    // One point in all: the serve goes left, and the first movement step has
    // already been taken from the centre.
    assert_eq!(s.ball_d, Point { x: -1, y: 0 });
    assert_eq!(s.ball_centre, Point { x: 255, y: 256 });
}

#[test]
fn left_scores_at_right_edge() {
    let mut s = State::new();
    s.ball_centre = Point { x: 508, y: 256 };
    ball_handle(&mut s);
    assert_eq!(s.score, (1, 0));
    assert_eq!(s.ball_s, 4);
    assert_eq!(s.ball_d, Point { x: -1, y: 0 });
    assert_eq!(s.ball_centre, Point { x: 255, y: 256 });
}

#[test]
fn single_contact_raises_speed_by_one() {
    let mut s = State::new();
    s.ball_centre = Point { x: 36, y: 256 };
    ball_handle(&mut s);
    assert_eq!(s.ball_s, 5);
    // Deflection from dead centre of the left paddle: straight right.
    assert_eq!(s.ball_d, Point { x: 1, y: 0 });
}

#[test]
fn two_contacts_raise_speed_by_two() {
    let mut s = State::new();
    s.ball_centre = Point { x: 36, y: 256 };
    ball_handle(&mut s);
    assert_eq!(s.ball_s, 5);
    assert_eq!(s.ball_centre, Point { x: 37, y: 256 });
    ball_handle(&mut s);
    assert_eq!(s.ball_s, 6);
    assert_eq!(s.score, (0, 0));
}

#[test]
fn deflection_scales_with_contact_offset() {
    let mut s = State::new();
    // Ball strikes the left paddle 17 pixels below its centre.
    s.ball_centre = Point { x: 36, y: 273 };
    ball_handle(&mut s);
    assert_eq!(s.ball_d, Point { x: 1, y: 2 });
    assert_eq!(s.ball_s, 5);
    assert_eq!(s.ball_centre, Point { x: 37, y: 275 });
}

#[test]
fn slow_ball_does_not_move() {
    let mut s = State::new();
    s.ball_centre = Point { x: 200, y: 200 };
    s.ball_d = Point { x: 1, y: 1 };
    s.ball_s = 3;
    ball_handle(&mut s);
    assert_eq!(s.ball_centre, Point { x: 200, y: 200 });
}

#[test]
fn wall_bounce_inverts_vertical() {
    let mut s = State::new();
    s.ball_centre = Point { x: 256, y: 10 };
    s.ball_d = Point { x: 1, y: 1 };
    ball_handle(&mut s);
    assert_eq!(s.ball_d, Point { x: 1, y: -1 });
    assert_eq!(s.ball_centre, Point { x: 257, y: 9 });
}

#[test]
fn bottom_wall_bounce_inverts_vertical() {
    let mut s = State::new();
    s.ball_centre = Point { x: 256, y: 502 };
    s.ball_d = Point { x: 1, y: 1 };
    ball_handle(&mut s);
    assert_eq!(s.ball_d, Point { x: 1, y: -1 });
    assert_eq!(s.ball_centre, Point { x: 257, y: 501 });
}

#[test]
fn paddle_up_down_roundtrip() {
    assert_eq!(paddle_move_up(100), 92);
    assert_eq!(paddle_move_down(92), 100);
    assert_eq!(paddle_move_down(100), 108);
    assert_eq!(paddle_move_up(108), 100);
}

#[test]
fn paddle_up_clamps_at_top() {
    let mut y = 256;
    for _ in 0..100 {
        y = paddle_move_up(y);
    }
    assert_eq!(y, 32);
    // Further presses stay no-ops.
    assert_eq!(paddle_move_up(y), 32);
}

#[test]
fn paddle_down_guard_uses_premove_position() {
    // The guard tests the position before the move, so one step past the
    // nominal bottom limit of 480 is reachable.
    assert_eq!(paddle_move_down(479), 487);
    assert_eq!(paddle_move_down(487), 487);
    assert_eq!(paddle_move_down(480), 480);
}

#[test]
fn paddle_contact_excludes_touching_edges() {
    let pad = Point { x: 32, y: 256 };
    // Ball boxes that merely touch the paddle's box do not count as contact.
    assert!(!ball_hits_paddle(Point { x: 20, y: 256 }, pad));
    assert!(ball_hits_paddle(Point { x: 21, y: 256 }, pad));
    assert!(!ball_hits_paddle(Point { x: 32, y: 292 }, pad));
    assert!(ball_hits_paddle(Point { x: 32, y: 291 }, pad));
}

#[test]
fn bounds_check_accepts_fresh_state() {
    let s = State::new();
    assert!(in_bounds_check(&s));
}

#[test]
fn bounds_check_rejects_excess_speed() {
    let mut s = State::new();
    s.ball_s = 505;
    assert!(!in_bounds_check(&s));
    s.ball_s = 504;
    assert!(in_bounds_check(&s));
    s.ball_s = -1;
    assert!(!in_bounds_check(&s));
}

#[test]
fn bounds_check_rejects_full_score_on_scoring_frame() {
    let mut s = State::new();
    s.score = (200, 55);
    s.ball_centre = Point { x: 4, y: 256 };
    assert!(!in_bounds_check(&s));
    s.score = (200, 54);
    assert!(in_bounds_check(&s));
    // Away from the thresholds the score does not matter.
    s.score = (255, 255);
    s.ball_centre = Point { x: 256, y: 256 };
    assert!(in_bounds_check(&s));
}

#[test]
fn rect_corner_centres_rectangle() {
    let corner = centred_rect_corner(Point { x: 256, y: 256 }, 8, 8);
    assert_eq!(corner, Point { x: 252, y: 252 });
    let corner = centred_rect_corner(Point { x: 32, y: 256 }, 16, 64);
    assert_eq!(corner, Point { x: 24, y: 224 });
}
