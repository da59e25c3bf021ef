use kick_ups::ball::{
    Ball, Direction, GRAVITY, KICK_VELOCITY, KICK_X_SPEED, TERMINAL_VELOCITY,
};
use kick_ups::draw::{Color, DrawCall};

fn ball(x: i32, y: i32, velocity: i32, x_velocity: i32, x_direction: Direction) -> Ball {
    Ball { x, y, velocity, x_velocity, x_direction }
}

#[test]
fn new_ball_rests_facing_right() {
    let b = Ball::new(400, 250);
    assert_eq!(b, ball(400, 250, 0, 0, Direction::Right));
}

#[test]
fn first_tick_from_rest_adds_gravity() {
    let mut b = Ball::new(400, 250);
    b.gravity_and_move();
    assert_eq!(b.velocity, 2);
    assert_eq!(b.y, 252);
    assert_eq!(b.x, 400);
    assert_eq!(b.x_velocity, 0);
}

#[test]
fn tick_never_leaves_ball_above_top_row() {
    let mut b = ball(400, 5, -20, 0, Direction::Right);
    b.gravity_and_move();
    assert_eq!(b.velocity, -18);
    assert_eq!(b.y, 0);

    let mut far = ball(400, -1000, -500, 0, Direction::Right);
    far.gravity_and_move();
    assert_eq!(far.y, 0);
    assert_eq!(far.velocity, -498);
}

#[test]
fn velocity_stops_at_terminal_velocity() {
    let mut b = Ball::new(400, 250);
    for tick in 1..=100 {
        b.gravity_and_move();
        assert!(b.velocity <= TERMINAL_VELOCITY);
        let expected = if tick < 10 { GRAVITY * tick } else { TERMINAL_VELOCITY };
        assert_eq!(b.velocity, expected);
        assert!(b.y >= 0);
    }
}

#[test]
fn velocity_recovers_to_terminal_after_kick() {
    let mut b = Ball::new(400, 250);
    b.kick(Direction::Right, true);
    for _ in 0..20 {
        b.gravity_and_move();
    }
    assert_eq!(b.velocity, 20);
    b.gravity_and_move();
    assert_eq!(b.velocity, 20);
}

#[test]
fn tick_at_terminal_velocity_keeps_it_and_falls_by_it() {
    let mut b = ball(400, 100, 20, 0, Direction::Right);
    b.gravity_and_move();
    assert_eq!(b.velocity, 20);
    assert_eq!(b.y, 120);
    b.gravity_and_move();
    assert_eq!(b.velocity, 20);
    assert_eq!(b.y, 140);
}

#[test]
fn kick_off_center_resets_horizontal_velocity() {
    let mut left = ball(400, 250, 6, 7, Direction::Right);
    left.kick(Direction::Left, false);
    assert_eq!(left, ball(400, 250, -20, -20, Direction::Left));

    let mut right = ball(400, 250, 6, -7, Direction::Left);
    right.kick(Direction::Right, false);
    assert_eq!(right, ball(400, 250, -20, 20, Direction::Right));
    assert_eq!(right.velocity, KICK_VELOCITY);
    assert_eq!(right.x_velocity, KICK_X_SPEED);
}

#[test]
fn kick_on_center_multiplies_horizontal_velocity_by_sign() {
    let mut kept = ball(400, 250, 6, 7, Direction::Left);
    kept.kick(Direction::Right, true);
    assert_eq!(kept, ball(400, 250, -20, 7, Direction::Right));

    let mut turned = ball(400, 250, 6, 7, Direction::Right);
    turned.kick(Direction::Left, true);
    assert_eq!(turned, ball(400, 250, -20, -7, Direction::Left));

    let mut still = Ball::new(400, 250);
    still.kick(Direction::Left, true);
    assert_eq!(still, ball(400, 250, -20, 0, Direction::Left));
}

#[test]
fn kick_on_center_saturates_at_the_end_of_the_range() {
    let mut b = ball(400, 250, 0, i32::MIN, Direction::Right);
    b.kick(Direction::Left, true);
    assert_eq!(b.x_velocity, i32::MAX);
}

#[test]
fn drag_slows_a_velocity_that_agrees_with_the_direction() {
    let mut b = Ball::new(400, 250);
    b.kick(Direction::Right, false);
    b.gravity_and_move();
    assert_eq!(b.x_velocity, 19);
    assert_eq!(b.x, 419);
    assert_eq!(b.y, 232);
    b.gravity_and_move();
    assert_eq!(b.x_velocity, 18);
    assert_eq!(b.x, 437);

    let mut l = Ball::new(400, 250);
    l.kick(Direction::Left, false);
    l.gravity_and_move();
    assert_eq!(l.x_velocity, -19);
    assert_eq!(l.x, 381);
}

#[test]
fn drag_brings_the_ball_to_a_horizontal_stop() {
    let mut b = ball(400, 0, 0, 2, Direction::Right);
    b.gravity_and_move();
    assert_eq!((b.x, b.x_velocity), (401, 1));
    b.gravity_and_move();
    assert_eq!((b.x, b.x_velocity), (401, 0));
    b.gravity_and_move();
    assert_eq!((b.x, b.x_velocity), (401, 0));
}

#[test]
fn velocity_against_the_direction_moves_once_and_stops() {
    let mut b = ball(400, 250, 0, -5, Direction::Right);
    b.gravity_and_move();
    assert_eq!(b.x, 394);
    assert_eq!(b.x_velocity, 0);

    let mut l = ball(400, 250, 0, 5, Direction::Left);
    l.gravity_and_move();
    assert_eq!(l.x, 406);
    assert_eq!(l.x_velocity, 0);
}

#[test]
fn horizontal_velocity_is_limited_before_drag() {
    let mut b = ball(400, 250, 0, 50, Direction::Right);
    b.gravity_and_move();
    assert_eq!(b.x_velocity, 19);
    assert_eq!(b.x, 419);

    let mut l = ball(400, 250, 0, -50, Direction::Left);
    l.gravity_and_move();
    assert_eq!(l.x_velocity, -19);
    assert_eq!(l.x, 381);
}

#[test]
fn positions_stop_at_the_ends_of_the_range() {
    let mut b = ball(i32::MAX - 3, i32::MAX - 3, 20, 20, Direction::Right);
    b.gravity_and_move();
    assert_eq!(b.x, i32::MAX);
    assert_eq!(b.y, i32::MAX);
    assert_eq!(b.velocity, 20);

    let mut l = ball(i32::MIN + 3, 0, 0, -20, Direction::Left);
    l.gravity_and_move();
    assert_eq!(l.x, i32::MIN);
}

#[test]
fn velocity_and_direction_agree_when_their_product_is_positive() {
    assert!(ball(0, 0, 0, 3, Direction::Right).check_velocity_and_direction());
    assert!(ball(0, 0, 0, -3, Direction::Left).check_velocity_and_direction());
    assert!(!ball(0, 0, 0, -3, Direction::Right).check_velocity_and_direction());
    assert!(!ball(0, 0, 0, 3, Direction::Left).check_velocity_and_direction());
    assert!(!ball(0, 0, 0, 0, Direction::Right).check_velocity_and_direction());
    assert!(!ball(0, 0, 0, 0, Direction::Left).check_velocity_and_direction());
}

#[test]
fn position_truncates_toward_zero() {
    assert_eq!(Ball::new(400, 250).position(), (40, 25));
    assert_eq!(Ball::new(409, 259).position(), (40, 25));
    assert_eq!(Ball::new(410, 0).position(), (41, 0));
    assert_eq!(Ball::new(-5, 9).position(), (0, 0));
    assert_eq!(Ball::new(-15, 10).position(), (-1, 1));
    assert_eq!(Ball::new(i32::MIN, i32::MAX).position(), (-214748364, 214748364));
}

#[test]
fn render_draws_the_letter_o_in_the_ball_cell() {
    let call = Ball::new(407, 252).render();
    assert_eq!(
        call,
        DrawCall::Glyph { x: 40, y: 25, fg: Color::White, bg: Color::WhiteSmoke, glyph: 79 }
    );
}

#[test]
fn right_wall_sends_the_ball_left() {
    let mut b = ball(780, 250, 4, 20, Direction::Right);
    b.bounce();
    assert_eq!(b, ball(780, 250, 4, 18, Direction::Left));
    b.bounce();
    assert_eq!(b, ball(780, 250, 4, 16, Direction::Left));

    let mut near = ball(779, 250, 4, 20, Direction::Right);
    near.bounce();
    assert_eq!(near, ball(779, 250, 4, 20, Direction::Right));
}

#[test]
fn left_wall_reflects_and_sends_the_ball_right() {
    let mut b = ball(29, 250, 4, -7, Direction::Left);
    b.bounce();
    assert_eq!(b, ball(29, 250, 4, 9, Direction::Right));

    let mut already = ball(0, 250, 4, 5, Direction::Right);
    already.bounce();
    assert_eq!(already, ball(0, 250, 4, 7, Direction::Right));

    let mut resting = ball(10, 250, 4, 0, Direction::Left);
    resting.bounce();
    assert_eq!(resting, ball(10, 250, 4, 2, Direction::Right));

    let mut near = ball(30, 250, 4, -7, Direction::Left);
    near.bounce();
    assert_eq!(near, ball(30, 250, 4, -7, Direction::Left));
}

#[test]
fn wall_nudges_stop_at_the_ends_of_the_range() {
    let mut r = ball(790, 0, 0, i32::MIN + 1, Direction::Right);
    r.bounce();
    assert_eq!(r.x_velocity, i32::MIN);

    let mut l = ball(0, 0, 0, i32::MIN, Direction::Left);
    l.bounce();
    assert_eq!(l.x_velocity, i32::MAX);
}
