//! Paddle movement: the player's keys and the policy that plays against them.

use vstd::prelude::*;
use crate::arena::{WALL_BOTTOM, WALL_THICKNESS, WALL_TOP};
use crate::ball::Ball;
use crate::geometry::Vec2;
use crate::paddle::{
    paddle_lower_bound,
    paddle_upper_bound,
    Controller,
    Paddle,
    PaddleLocation,
    PADDLE_HEIGHT,
    PADDLE_PADDING,
};
use crate::units::{clamp, clamp_wide, magnitude, travel};

verus! {

/// The speed of the paddle that the player moves.
pub const PLAYER_SPEED: i64 = 500_000;

/// The speed of the paddle that plays against the player: slower, so that it can be beaten.
pub const AI_SPEED: i64 = 200_000;

/// The keys that the player holds during a tick.
#[derive(Clone, Copy, Debug, PartialEq, Eq, Structural)]
pub struct Input {
    pub up: bool,
    pub down: bool,
}

/// How far the ball's center must be from the paddle's, along y, before the policy
/// moves: a twentieth of a paddle's height. Nearer than that the paddle rests, so that it
/// does not swing about the ball.
pub open spec fn movement_margin() -> int {
    PADDLE_HEIGHT / 20
}

/// The way the held keys point: `1` up, `-1` down, `0` for none or both.
pub open spec fn human_direction(input: Input) -> int {
    (if input.up { 1int } else { 0int }) - (if input.down { 1int } else { 0int })
}

/// Whether a ball with x-velocity `vx` moves away from a paddle on `side`.
pub open spec fn recedes(side: PaddleLocation, vx: int) -> bool {
    match side {
        PaddleLocation::Left => vx > 0,
        PaddleLocation::Right => vx < 0,
    }
}

/// The way the policy moves `paddle`: not at all while the ball moves away or is within
/// the margin, else toward the ball.
pub open spec fn ai_direction(paddle: Paddle, ball: Ball) -> int {
    if recedes(paddle.side, ball.velocity.x as int) {
        0
    } else if magnitude(ball.position.y - paddle.position.y) > movement_margin() {
        if ball.position.y > paddle.position.y {
            1
        } else {
            -1
        }
    } else {
        0
    }
}

/// `paddle` after a tick of `dt_ms` milliseconds in which it goes `direction` at
/// `speed`: its center moves along y by `direction * speed * dt_ms` and is then kept
/// within the bounds; its y-velocity is `direction * speed`.
pub open spec fn driven(paddle: Paddle, direction: int, speed: int, dt_ms: u32) -> Paddle {
    Paddle {
        position: Vec2 {
            x: paddle.position.x,
            y: clamp(
                paddle.position.y + direction * speed * dt_ms,
                paddle_lower_bound(),
                paddle_upper_bound(),
            ) as i64,
        },
        velocity: Vec2 { x: paddle.velocity.x, y: (direction * speed) as i64 },
        ..paddle
    }
}

/// `paddle` after a tick under its controller.
pub open spec fn moved(paddle: Paddle, input: Input, ball: Ball, dt_ms: u32) -> Paddle {
    match paddle.controller {
        Controller::Human => driven(paddle, human_direction(input), PLAYER_SPEED as int, dt_ms),
        Controller::Ai => driven(paddle, ai_direction(paddle, ball), AI_SPEED as int, dt_ms),
    }
}

/// Moves `paddle` for one tick in the given direction, which is `-1`, `0` or `1`.
fn drive(paddle: &mut Paddle, direction: i64, speed: i64, dt_ms: u32)
    requires
        -1 <= direction <= 1,
        0 <= speed,
    ensures
        *final(paddle) == driven(*old(paddle), direction as int, speed as int, dt_ms),
        final(paddle).in_bounds(),
{
    let step: i64 = if direction > 0 {
        speed
    } else if direction < 0 {
        -speed
    } else {
        0
    };
    assert(step == direction * speed) by (nonlinear_arith)
        requires
            step == (if direction > 0 { speed as int } else if direction < 0 { -speed } else { 0 }),
            -1 <= direction <= 1,
    ;
    let target: i128 = paddle.position.y as i128 + travel(step, dt_ms);
    let upper_bound: i64 = WALL_TOP - WALL_THICKNESS / 2 - PADDLE_HEIGHT / 2 - PADDLE_PADDING;
    let lower_bound: i64 = WALL_BOTTOM + WALL_THICKNESS / 2 + PADDLE_HEIGHT / 2 + PADDLE_PADDING;
    paddle.position.y = clamp_wide(target, lower_bound, upper_bound);
    paddle.velocity.y = step;
}

/// Moves the player's paddle by the keys held.
pub fn player_paddle_movement(paddle: &mut Paddle, input: Input, dt_ms: u32)
    ensures
        *final(paddle) == driven(*old(paddle), human_direction(input), PLAYER_SPEED as int, dt_ms),
        final(paddle).in_bounds(),
{
    let mut direction: i64 = 0;
    if input.up {
        direction += 1;
    }
    if input.down {
        direction -= 1;
    }
    drive(paddle, direction, PLAYER_SPEED, dt_ms);
}

/// Moves the other paddle by its policy: it follows the ball while the ball approaches.
pub fn run_cpu_logic(paddle: &mut Paddle, ball: &Ball, dt_ms: u32)
    ensures
        *final(paddle) == driven(*old(paddle), ai_direction(*old(paddle), *ball), AI_SPEED as int, dt_ms),
        final(paddle).in_bounds(),
{
    let movement_margin: i128 = (PADDLE_HEIGHT / 20) as i128;
    let receding = match paddle.side {
        PaddleLocation::Left => ball.velocity.x > 0,
        PaddleLocation::Right => ball.velocity.x < 0,
    };
    let gap: i128 = ball.position.y as i128 - paddle.position.y as i128;
    let mut direction: i64 = 0;
    if !receding {
        if gap > movement_margin {
            direction += 1;
        } else if gap < -movement_margin {
            direction -= 1;
        }
    }
    drive(paddle, direction, AI_SPEED, dt_ms);
}

/// Moves a paddle for one tick, as its controller decides.
pub fn move_paddle(paddle: &mut Paddle, input: Input, ball: &Ball, dt_ms: u32)
    ensures
        *final(paddle) == moved(*old(paddle), input, *ball, dt_ms),
        final(paddle).in_bounds(),
{
    match paddle.controller {
        Controller::Human => player_paddle_movement(paddle, input, dt_ms),
        Controller::Ai => run_cpu_logic(paddle, ball, dt_ms),
    }
}

/// A paddle within its bounds moves in a tick no further than its speed allows, never
/// against the direction asked for, and not at all where none is asked for.
pub proof fn lemma_paddle_moves_as_asked(paddle: Paddle, direction: int, speed: int, dt_ms: u32)
    requires
        paddle.in_bounds(),
        -1 <= direction <= 1,
        speed >= 0,
    ensures
        ({
            let after = driven(paddle, direction, speed, dt_ms);
            &&& after.in_bounds()
            &&& magnitude(after.position.y - paddle.position.y) <= speed * dt_ms
            &&& direction == 0 ==> after.position.y == paddle.position.y
            &&& direction > 0 ==> after.position.y >= paddle.position.y
            &&& direction < 0 ==> after.position.y <= paddle.position.y
        }),
{
    let dt = dt_ms as int;
    assert(speed * dt >= 0) by (nonlinear_arith)
        requires
            speed >= 0,
            dt >= 0,
    ;
    if direction == 1 {
        assert(direction * speed * dt == speed * dt) by (nonlinear_arith)
            requires
                direction == 1,
        ;
    } else if direction == 0 {
        assert(direction * speed * dt == 0) by (nonlinear_arith)
            requires
                direction == 0,
        ;
    } else {
        assert(direction * speed * dt == -(speed * dt)) by (nonlinear_arith)
            requires
                direction == -1,
        ;
    }
}

/// The margin keeps the policy from swinging about a ball that stays where it is: as
/// long as a tick's move is no longer than twice the margin, a paddle within its bounds
/// never moves one way in one tick and the other way in the next.
pub proof fn lemma_margin_prevents_swing(paddle: Paddle, ball: Ball, dt_ms: u32)
    requires
        paddle.in_bounds(),
        AI_SPEED * dt_ms <= 2 * movement_margin(),
    ensures
        ({
            let first = ai_direction(paddle, ball);
            let second = ai_direction(driven(paddle, first, AI_SPEED as int, dt_ms), ball);
            !(first > 0 && second < 0) && !(first < 0 && second > 0)
        }),
{
    lemma_paddle_moves_as_asked(paddle, ai_direction(paddle, ball), AI_SPEED as int, dt_ms);
}

} // verus!
