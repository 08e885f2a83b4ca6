use pong::arena::{WALL_BOTTOM, WALL_LEFT, WALL_RIGHT, WALL_THICKNESS, WALL_TOP};
use pong::ball::Ball;
use pong::control::{
    move_paddle, player_paddle_movement, run_cpu_logic, Input, AI_SPEED, PLAYER_SPEED,
};
use pong::geometry::Vec2;
use pong::paddle::{
    Controller, Paddle, PaddleBundle, PaddleLocation, LEFT_PADDLE, PADDLE_HEIGHT, PADDLE_PADDING,
    PADDLE_WIDTH, RIGHT_PADDLE,
};
use pong::units::{UNIT, UNIT_PER_SECOND};

const DT: u32 = 5;
const UPPER: i64 = 206_500_000;
const LOWER: i64 = -206_500_000;
const NONE: Input = Input { up: false, down: false };
const UP: Input = Input { up: true, down: false };
const DOWN: Input = Input { up: false, down: true };
const BOTH: Input = Input { up: true, down: true };

fn paddle_at(y: i64, side: PaddleLocation, controller: Controller) -> Paddle {
    let mut paddle = Paddle::spawn(PaddleBundle::new(side), controller);
    paddle.position.y = y;
    paddle
}

fn ball_at(y: i64, vx: i64) -> Ball {
    Ball {
        position: Vec2::new(0, y),
        velocity: Vec2::new(vx, 0),
        half_extent: Vec2::new(5 * UNIT, 5 * UNIT),
    }
}

#[test]
fn paddle_constants() {
    assert_eq!(LEFT_PADDLE, -425 * UNIT);
    assert_eq!(RIGHT_PADDLE, 425 * UNIT);
    assert_eq!(PADDLE_PADDING, UNIT);
    assert_eq!(PADDLE_HEIGHT, 175 * UNIT);
    assert_eq!(PADDLE_WIDTH, 5 * UNIT);
    assert_eq!(PLAYER_SPEED, 500 * UNIT_PER_SECOND);
    assert_eq!(AI_SPEED, 200 * UNIT_PER_SECOND);
}

#[test]
fn bounds_follow_from_walls_and_paddle() {
    assert_eq!(UPPER, WALL_TOP - WALL_THICKNESS / 2 - PADDLE_HEIGHT / 2 - PADDLE_PADDING);
    assert_eq!(LOWER, WALL_BOTTOM + WALL_THICKNESS / 2 + PADDLE_HEIGHT / 2 + PADDLE_PADDING);
}

#[test]
fn bundle_describes_a_resting_paddle() {
    let left = PaddleBundle::new(PaddleLocation::Left);
    assert_eq!(left.location, PaddleLocation::Left);
    assert_eq!(left.translation, Vec2::new(-425 * UNIT, 0));
    assert_eq!(left.scale, Vec2::new(5 * UNIT, 175 * UNIT));
    assert_eq!(left.velocity, Vec2::new(0, 0));
    let right = PaddleBundle::new(PaddleLocation::Right);
    assert_eq!(right.location, PaddleLocation::Right);
    assert_eq!(right.translation, Vec2::new(425 * UNIT, 0));
    assert_eq!(right.scale, Vec2::new(5 * UNIT, 175 * UNIT));
    assert_eq!(right.velocity, Vec2::new(0, 0));
}

#[test]
fn paddles_stand_inside_the_walls_and_mirror_each_other() {
    let left = PaddleBundle::new(PaddleLocation::Left);
    let right = PaddleBundle::new(PaddleLocation::Right);
    assert!(WALL_LEFT < left.translation.x);
    assert!(right.translation.x < WALL_RIGHT);
    assert_eq!(left.translation.x, -right.translation.x);
    assert_eq!(PaddleLocation::Left.position(), left.translation);
    assert_eq!(PaddleLocation::Right.position(), right.translation);
}

#[test]
fn a_paddle_reaches_half_its_size_to_each_side() {
    let paddle = Paddle::spawn(PaddleBundle::new(PaddleLocation::Right), Controller::Ai);
    assert_eq!(paddle.position, Vec2::new(425 * UNIT, 0));
    assert_eq!(paddle.velocity, Vec2::new(0, 0));
    assert_eq!(paddle.half_extent, Vec2::new(2_500_000, 87_500_000));
    assert_eq!(paddle.side, PaddleLocation::Right);
    assert_eq!(paddle.controller, Controller::Ai);
}

#[test]
fn up_key_moves_the_paddle_up() {
    let mut paddle = paddle_at(0, PaddleLocation::Left, Controller::Human);
    paddle.velocity.x = 17;
    player_paddle_movement(&mut paddle, UP, DT);
    // 500 units per second for 5 milliseconds.
    assert_eq!(paddle.position, Vec2::new(-425 * UNIT, 2_500_000));
    assert_eq!(paddle.velocity, Vec2::new(17, 500_000));
    assert_eq!(paddle.half_extent, Vec2::new(2_500_000, 87_500_000));
    assert_eq!(paddle.side, PaddleLocation::Left);
    assert_eq!(paddle.controller, Controller::Human);
}

#[test]
fn down_key_moves_the_paddle_down() {
    let mut paddle = paddle_at(10 * UNIT, PaddleLocation::Left, Controller::Human);
    player_paddle_movement(&mut paddle, DOWN, DT);
    assert_eq!(paddle.position, Vec2::new(-425 * UNIT, 7_500_000));
    assert_eq!(paddle.velocity, Vec2::new(0, -500_000));
}

#[test]
fn no_key_or_both_keys_hold_the_paddle() {
    let mut paddle = paddle_at(10 * UNIT, PaddleLocation::Left, Controller::Human);
    paddle.velocity.y = 500_000;
    player_paddle_movement(&mut paddle, NONE, DT);
    assert_eq!(paddle.position.y, 10 * UNIT);
    assert_eq!(paddle.velocity.y, 0);
    paddle.velocity.y = -500_000;
    player_paddle_movement(&mut paddle, BOTH, DT);
    assert_eq!(paddle.position.y, 10 * UNIT);
    assert_eq!(paddle.velocity.y, 0);
}

#[test]
fn the_paddle_stops_at_its_bounds() {
    let mut paddle = paddle_at(205 * UNIT, PaddleLocation::Left, Controller::Human);
    player_paddle_movement(&mut paddle, UP, DT);
    assert_eq!(paddle.position.y, UPPER);
    // The velocity says what was asked for, not what the bounds allowed.
    assert_eq!(paddle.velocity.y, 500_000);
    let mut paddle = paddle_at(-206 * UNIT, PaddleLocation::Left, Controller::Human);
    player_paddle_movement(&mut paddle, DOWN, DT);
    assert_eq!(paddle.position.y, LOWER);
    assert_eq!(paddle.velocity.y, -500_000);
}

#[test]
fn a_held_key_never_takes_the_paddle_out_of_bounds() {
    let mut paddle = paddle_at(0, PaddleLocation::Left, Controller::Human);
    for _ in 0..10_000 {
        player_paddle_movement(&mut paddle, UP, DT);
        assert!(LOWER <= paddle.position.y && paddle.position.y <= UPPER);
    }
    assert_eq!(paddle.position.y, UPPER);
    for _ in 0..10_000 {
        player_paddle_movement(&mut paddle, DOWN, DT);
        assert!(LOWER <= paddle.position.y && paddle.position.y <= UPPER);
    }
    assert_eq!(paddle.position.y, LOWER);
}

#[test]
fn a_paddle_out_of_bounds_is_brought_back() {
    let mut paddle = paddle_at(i64::MAX, PaddleLocation::Left, Controller::Human);
    player_paddle_movement(&mut paddle, UP, DT);
    assert_eq!(paddle.position.y, UPPER);
    let mut paddle = paddle_at(i64::MIN, PaddleLocation::Left, Controller::Human);
    player_paddle_movement(&mut paddle, DOWN, DT);
    assert_eq!(paddle.position.y, LOWER);
    let mut paddle = paddle_at(i64::MIN, PaddleLocation::Left, Controller::Human);
    player_paddle_movement(&mut paddle, NONE, DT);
    assert_eq!(paddle.position.y, LOWER);
}

#[test]
fn the_longest_tick_keeps_the_paddle_in_bounds() {
    let mut paddle = paddle_at(0, PaddleLocation::Left, Controller::Human);
    player_paddle_movement(&mut paddle, UP, u32::MAX);
    assert_eq!(paddle.position.y, UPPER);
    player_paddle_movement(&mut paddle, DOWN, u32::MAX);
    assert_eq!(paddle.position.y, LOWER);
    player_paddle_movement(&mut paddle, UP, 0);
    assert_eq!(paddle.position.y, LOWER);
    assert_eq!(paddle.velocity.y, 500_000);
}

#[test]
fn the_policy_moves_toward_an_approaching_ball() {
    let mut paddle = paddle_at(0, PaddleLocation::Right, Controller::Ai);
    let ball = ball_at(50 * UNIT, 200_000);
    run_cpu_logic(&mut paddle, &ball, DT);
    // 200 units per second for 5 milliseconds, well below the upper bound.
    assert_eq!(paddle.position, Vec2::new(425 * UNIT, UNIT));
    assert_eq!(paddle.position.y, UPPER.min(0 + AI_SPEED * DT as i64));
    assert_eq!(paddle.velocity, Vec2::new(0, 200_000));
    let ball = ball_at(-50 * UNIT, 200_000);
    run_cpu_logic(&mut paddle, &ball, DT);
    assert_eq!(paddle.position.y, 0);
    assert_eq!(paddle.velocity.y, -200_000);
}

#[test]
fn the_policy_stops_at_the_bounds() {
    let mut paddle = paddle_at(206 * UNIT, PaddleLocation::Right, Controller::Ai);
    let ball = ball_at(300 * UNIT, 200_000);
    run_cpu_logic(&mut paddle, &ball, DT);
    assert_eq!(paddle.position.y, UPPER);
    assert_eq!(paddle.velocity.y, 200_000);
    let mut paddle = paddle_at(-206 * UNIT, PaddleLocation::Right, Controller::Ai);
    let ball = ball_at(-300 * UNIT, 200_000);
    run_cpu_logic(&mut paddle, &ball, DT);
    assert_eq!(paddle.position.y, LOWER);
    assert_eq!(paddle.velocity.y, -200_000);
}

#[test]
fn the_policy_rests_within_the_margin() {
    // The margin is a twentieth of the paddle's height: 8.75 units.
    let margin: i64 = PADDLE_HEIGHT / 20;
    assert_eq!(margin, 8_750_000);
    for gap in [0, 1, margin - 1, margin, -1, -margin + 1, -margin] {
        let mut paddle = paddle_at(10 * UNIT, PaddleLocation::Right, Controller::Ai);
        paddle.velocity.y = 200_000;
        let ball = ball_at(10 * UNIT + gap, 200_000);
        run_cpu_logic(&mut paddle, &ball, DT);
        assert_eq!(paddle.position.y, 10 * UNIT);
        assert_eq!(paddle.velocity.y, 0);
    }
    let mut paddle = paddle_at(10 * UNIT, PaddleLocation::Right, Controller::Ai);
    run_cpu_logic(&mut paddle, &ball_at(10 * UNIT + margin + 1, 200_000), DT);
    assert_eq!(paddle.position.y, 11 * UNIT);
    let mut paddle = paddle_at(10 * UNIT, PaddleLocation::Right, Controller::Ai);
    run_cpu_logic(&mut paddle, &ball_at(10 * UNIT - margin - 1, 200_000), DT);
    assert_eq!(paddle.position.y, 9 * UNIT);
}

#[test]
fn the_policy_rests_while_the_ball_moves_away() {
    let mut paddle = paddle_at(0, PaddleLocation::Right, Controller::Ai);
    paddle.velocity.y = 200_000;
    run_cpu_logic(&mut paddle, &ball_at(100 * UNIT, -200_000), DT);
    assert_eq!(paddle.position.y, 0);
    assert_eq!(paddle.velocity.y, 0);
    // Resting still keeps the paddle within its bounds.
    let mut paddle = paddle_at(250 * UNIT, PaddleLocation::Right, Controller::Ai);
    run_cpu_logic(&mut paddle, &ball_at(0, -1), DT);
    assert_eq!(paddle.position.y, UPPER);
    assert_eq!(paddle.velocity.y, 0);
}

#[test]
fn the_policy_follows_a_ball_with_no_sideways_motion() {
    let mut paddle = paddle_at(0, PaddleLocation::Right, Controller::Ai);
    run_cpu_logic(&mut paddle, &ball_at(100 * UNIT, 0), DT);
    assert_eq!(paddle.position.y, UNIT);
    let mut paddle = paddle_at(0, PaddleLocation::Left, Controller::Ai);
    run_cpu_logic(&mut paddle, &ball_at(100 * UNIT, 0), DT);
    assert_eq!(paddle.position.y, UNIT);
}

#[test]
fn a_policy_on_the_left_reads_the_ball_the_other_way_round() {
    let mut paddle = paddle_at(0, PaddleLocation::Left, Controller::Ai);
    run_cpu_logic(&mut paddle, &ball_at(100 * UNIT, 200_000), DT);
    assert_eq!(paddle.position.y, 0);
    assert_eq!(paddle.velocity.y, 0);
    run_cpu_logic(&mut paddle, &ball_at(100 * UNIT, -200_000), DT);
    assert_eq!(paddle.position, Vec2::new(-425 * UNIT, UNIT));
    assert_eq!(paddle.velocity.y, 200_000);
}

#[test]
fn the_policy_copes_with_the_widest_gap() {
    let mut paddle = paddle_at(i64::MIN, PaddleLocation::Right, Controller::Ai);
    run_cpu_logic(&mut paddle, &ball_at(i64::MAX, 1), DT);
    assert_eq!(paddle.position.y, LOWER);
    assert_eq!(paddle.velocity.y, 200_000);
    let mut paddle = paddle_at(i64::MAX, PaddleLocation::Right, Controller::Ai);
    run_cpu_logic(&mut paddle, &ball_at(i64::MIN, 1), DT);
    assert_eq!(paddle.position.y, UPPER);
    assert_eq!(paddle.velocity.y, -200_000);
}

#[test]
fn a_paddle_moves_as_its_controller_decides() {
    let ball = ball_at(-100 * UNIT, 200_000);
    let mut human = paddle_at(0, PaddleLocation::Right, Controller::Human);
    move_paddle(&mut human, UP, &ball, DT);
    assert_eq!(human.position.y, 2_500_000);
    assert_eq!(human.velocity.y, 500_000);
    let mut policy = paddle_at(0, PaddleLocation::Right, Controller::Ai);
    move_paddle(&mut policy, UP, &ball, DT);
    assert_eq!(policy.position.y, -UNIT);
    assert_eq!(policy.velocity.y, -200_000);
}

#[test]
fn the_policy_does_not_swing_about_a_resting_ball() {
    for start in [0, 9 * UNIT, -9 * UNIT, 100 * UNIT, -100 * UNIT, UPPER, LOWER] {
        let mut paddle = paddle_at(start, PaddleLocation::Right, Controller::Ai);
        let ball = ball_at(3_333_333, 0);
        let mut last: i64 = 0;
        for _ in 0..500 {
            let before: i64 = paddle.position.y;
            run_cpu_logic(&mut paddle, &ball, DT);
            let moved: i64 = (paddle.position.y - before).signum();
            assert!(moved * last >= 0);
            assert!((paddle.position.y - before).abs() <= AI_SPEED * DT as i64);
            if moved != 0 {
                last = moved;
            }
        }
        // It has come to rest within the margin of the ball.
        assert!((paddle.position.y - 3_333_333).abs() <= PADDLE_HEIGHT / 20);
        assert_eq!(paddle.velocity.y, 0);
    }
}
