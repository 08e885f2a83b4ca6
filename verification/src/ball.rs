//! The ball and its motion between collisions.

use vstd::prelude::*;
use crate::geometry::{Aabb, Vec2};
use crate::units::{fits, narrow, saturate, travel};

verus! {

/// The width and the height of the ball that a session starts with.
pub const BALL_SIZE: i64 = 10_000_000;

/// The speed, along each axis, of the ball that a session starts with.
pub const BALL_START_SPEED: i64 = 200_000;

/// The ball: where it is, how fast it moves and how far it reaches from its center.
#[derive(Clone, Copy, Debug, PartialEq, Eq, Structural)]
pub struct Ball {
    pub position: Vec2,
    pub velocity: Vec2,
    pub half_extent: Vec2,
}

impl Ball {
    /// The box that is tested against the colliders.
    pub open spec fn bounds(self) -> Aabb {
        Aabb { center: self.position, half_size: self.half_extent }
    }

    /// The ball a session starts with: at the center of the arena, moving up and to the
    /// right.
    pub open spec fn spec_spawn() -> Ball {
        Ball {
            position: Vec2 { x: 0, y: 0 },
            velocity: Vec2 { x: BALL_START_SPEED, y: BALL_START_SPEED },
            half_extent: Vec2 { x: (BALL_SIZE / 2) as i64, y: (BALL_SIZE / 2) as i64 },
        }
    }

    /// The ball after `dt_ms` milliseconds of free motion: `position + velocity * dt_ms`
    /// on each axis, with the velocity and the size as they were.
    pub open spec fn advanced(self, dt_ms: u32) -> Ball {
        Ball {
            position: Vec2 {
                x: saturate(self.position.x + self.velocity.x * dt_ms) as i64,
                y: saturate(self.position.y + self.velocity.y * dt_ms) as i64,
            },
            ..self
        }
    }

    /// Creates the ball that a session starts with.
    pub fn spawn() -> (ball: Ball)
        ensures
            ball == Ball::spec_spawn(),
    {
        Ball {
            position: Vec2 { x: 0, y: 0 },
            velocity: Vec2 { x: BALL_START_SPEED, y: BALL_START_SPEED },
            half_extent: Vec2 { x: BALL_SIZE / 2, y: BALL_SIZE / 2 },
        }
    }

    /// The ball's box where the ball now is.
    pub fn aabb(&self) -> (b: Aabb)
        ensures
            b == self.bounds(),
    {
        Aabb { center: self.position, half_size: self.half_extent }
    }
}

/// Advances the ball by its velocity over one tick of `dt_ms` milliseconds. Nothing
/// holds the ball back here: keeping it inside the arena is the work of the collisions.
pub fn apply_velocity(ball: &mut Ball, dt_ms: u32)
    ensures
        *final(ball) == old(ball).advanced(dt_ms),
        fits(old(ball).position.x + old(ball).velocity.x * dt_ms) ==> final(ball).position.x
            == old(ball).position.x + old(ball).velocity.x * dt_ms,
        fits(old(ball).position.y + old(ball).velocity.y * dt_ms) ==> final(ball).position.y
            == old(ball).position.y + old(ball).velocity.y * dt_ms,
{
    let x: i128 = ball.position.x as i128 + travel(ball.velocity.x, dt_ms);
    let y: i128 = ball.position.y as i128 + travel(ball.velocity.y, dt_ms);
    ball.position = Vec2 { x: narrow(x), y: narrow(y) };
}

} // verus!
