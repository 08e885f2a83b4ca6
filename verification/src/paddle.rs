//! The paddles: where they stand, what they are created with and who moves them.

use vstd::prelude::*;
use crate::arena::{WALL_BOTTOM, WALL_LEFT, WALL_RIGHT, WALL_THICKNESS, WALL_TOP};
use crate::geometry::{Aabb, Vec2};
use crate::units::{magnitude, quotient};

verus! {

/// The x coordinate of the left paddle's center.
pub const LEFT_PADDLE: i64 = -425_000_000;

/// The x coordinate of the right paddle's center.
pub const RIGHT_PADDLE: i64 = 425_000_000;

/// The gap that a paddle keeps from the top and the bottom wall.
pub const PADDLE_PADDING: i64 = 1_000_000;

/// The height of a paddle.
pub const PADDLE_HEIGHT: i64 = 175_000_000;

/// The width of a paddle.
pub const PADDLE_WIDTH: i64 = 5_000_000;

/// The highest y coordinate that a paddle's center may take: below the top wall's inner
/// face by half a paddle and the padding.
pub open spec fn paddle_upper_bound() -> int {
    WALL_TOP - WALL_THICKNESS / 2 - PADDLE_HEIGHT / 2 - PADDLE_PADDING
}

/// The lowest y coordinate that a paddle's center may take.
pub open spec fn paddle_lower_bound() -> int {
    WALL_BOTTOM + WALL_THICKNESS / 2 + PADDLE_HEIGHT / 2 + PADDLE_PADDING
}

/// The side of the arena that a paddle guards.
#[derive(Clone, Copy, Debug, PartialEq, Eq, Structural)]
pub enum PaddleLocation {
    Left,
    Right,
}

/// Who decides where a paddle moves.
#[derive(Clone, Copy, Debug, PartialEq, Eq, Structural)]
pub enum Controller {
    /// The keys held by the player.
    Human,
    /// A policy that follows the ball while it approaches.
    Ai,
}

impl PaddleLocation {
    /// Where a paddle on this side stands when a session starts: level with the center
    /// of the arena, a little inside the side wall.
    pub open spec fn spec_position(self) -> Vec2 {
        match self {
            PaddleLocation::Left => Vec2 { x: LEFT_PADDLE, y: 0 },
            PaddleLocation::Right => Vec2 { x: RIGHT_PADDLE, y: 0 },
        }
    }

    /// The center of a paddle on this side when a session starts.
    pub fn position(&self) -> (p: Vec2)
        ensures
            p == self.spec_position(),
    {
        match self {
            PaddleLocation::Left => Vec2 { x: LEFT_PADDLE, y: 0 },
            PaddleLocation::Right => Vec2 { x: RIGHT_PADDLE, y: 0 },
        }
    }
}

/// What a paddle is created with: its side, where it stands, how large it is and how
/// fast it moves.
#[derive(Clone, Copy, Debug, PartialEq, Eq, Structural)]
pub struct PaddleBundle {
    pub location: PaddleLocation,
    pub translation: Vec2,
    pub scale: Vec2,
    pub velocity: Vec2,
}

impl PaddleBundle {
    /// What a paddle on the given side is created with.
    pub open spec fn spec_new(paddle_location: PaddleLocation) -> PaddleBundle {
        PaddleBundle {
            location: paddle_location,
            translation: paddle_location.spec_position(),
            scale: Vec2 { x: PADDLE_WIDTH, y: PADDLE_HEIGHT },
            velocity: Vec2 { x: 0, y: 0 },
        }
    }

    /// A resting paddle on the given side. It stands between the side walls, as far from
    /// the center line as the paddle of the other side, and within the bounds that its
    /// movement keeps.
    pub fn new(paddle_location: PaddleLocation) -> (bundle: PaddleBundle)
        ensures
            bundle == PaddleBundle::spec_new(paddle_location),
            WALL_LEFT < bundle.translation.x < WALL_RIGHT,
            magnitude(bundle.translation.x as int) == magnitude(
                PaddleBundle::spec_new(PaddleLocation::Left).translation.x as int,
            ),
            magnitude(bundle.translation.x as int) == magnitude(
                PaddleBundle::spec_new(PaddleLocation::Right).translation.x as int,
            ),
            paddle_lower_bound() <= bundle.translation.y <= paddle_upper_bound(),
    {
        PaddleBundle {
            location: paddle_location,
            translation: paddle_location.position(),
            scale: Vec2 { x: PADDLE_WIDTH, y: PADDLE_HEIGHT },
            velocity: Vec2 { x: 0, y: 0 },
        }
    }
}

/// A paddle in play.
#[derive(Clone, Copy, Debug, PartialEq, Eq, Structural)]
pub struct Paddle {
    pub position: Vec2,
    /// Set by the paddle's movement and read when the ball meets the paddle; the
    /// paddle's position does not follow from it.
    pub velocity: Vec2,
    pub half_extent: Vec2,
    pub side: PaddleLocation,
    pub controller: Controller,
}

impl Paddle {
    /// A paddle has no negative extent.
    pub open spec fn wf(self) -> bool {
        self.bounds().wf()
    }

    /// The box that the ball is tested against.
    pub open spec fn bounds(self) -> Aabb {
        Aabb { center: self.position, half_size: self.half_extent }
    }

    /// Whether the paddle's center is where its movement keeps it.
    pub open spec fn in_bounds(self) -> bool {
        paddle_lower_bound() <= self.position.y <= paddle_upper_bound()
    }

    /// The paddle that `bundle` describes, moved by `controller`: it reaches half of the
    /// bundle's size to each side of where the bundle stands.
    pub open spec fn spec_spawn(bundle: PaddleBundle, controller: Controller) -> Paddle {
        Paddle {
            position: bundle.translation,
            velocity: bundle.velocity,
            half_extent: Vec2 {
                x: quotient(bundle.scale.x as int, 2) as i64,
                y: quotient(bundle.scale.y as int, 2) as i64,
            },
            side: bundle.location,
            controller,
        }
    }

    /// Creates the paddle that `bundle` describes and hands it to `controller`. Half of
    /// an odd size is rounded toward zero.
    pub fn spawn(bundle: PaddleBundle, controller: Controller) -> (paddle: Paddle)
        ensures
            paddle == Paddle::spec_spawn(bundle, controller),
            bundle.scale.x >= 0 && bundle.scale.y >= 0 ==> paddle.wf(),
    {
        Paddle {
            position: bundle.translation,
            velocity: bundle.velocity,
            half_extent: Vec2 { x: bundle.scale.x / 2, y: bundle.scale.y / 2 },
            side: bundle.location,
            controller,
        }
    }
}

} // verus!
