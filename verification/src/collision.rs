//! What happens when the ball meets a paddle or a wall: the ball turns back, a moving
//! paddle hands on part of its speed, and a side wall counts a point.

use vstd::prelude::*;
use crate::arena::{Wall, WallLocation};
use crate::ball::Ball;
use crate::geometry::{collide_with_side, side_of_impact, Aabb, Collision, Vec2};
use crate::paddle::Paddle;
use crate::units::{fits, magnitude, narrow, negate, quotient, saturate};

verus! {

/// Of a collider's own y-velocity, the part that the ball takes over is one in this many.
pub const SPIN_DIVISOR: i64 = 5;

/// The points counted so far. Neither count ever falls.
#[derive(Clone, Copy, Debug, PartialEq, Eq, Structural)]
pub struct Scoreboard {
    pub player_score: u64,
    pub computer_score: u64,
}

/// One of the two counts of the scoreboard.
#[derive(Clone, Copy, Debug, PartialEq, Eq, Structural)]
pub enum ScoreType {
    Player,
    Computer,
}

/// Anything that the ball is tested against: a box, the wall that it belongs to if it
/// is one, and its velocity if it has one.
#[derive(Clone, Copy, Debug, PartialEq, Eq)]
pub struct Collider {
    pub bounds: Aabb,
    pub wall: Option<WallLocation>,
    pub velocity: Option<Vec2>,
}

/// A count raised by one; a count that is full stays as it is.
pub open spec fn raised(count: u64) -> u64 {
    if count < u64::MAX {
        (count + 1) as u64
    } else {
        count
    }
}

/// The scoreboard after the ball has met a collider that is the wall `wall`, or no wall.
/// The left wall counts for the player and the right wall for the computer; the top and
/// the bottom wall count for nobody, nor does a paddle.
pub open spec fn awarded(score: Scoreboard, wall: Option<WallLocation>) -> Scoreboard {
    match wall {
        Some(WallLocation::Left) => Scoreboard { player_score: raised(score.player_score), ..score },
        Some(WallLocation::Right) => Scoreboard {
            computer_score: raised(score.computer_score),
            ..score
        },
        _ => score,
    }
}

/// Whether a ball with this velocity moves into the side `side` of a collider.
pub open spec fn drives_into(velocity: Vec2, side: Collision) -> bool {
    match side {
        Collision::Left => velocity.x > 0,
        Collision::Right => velocity.x < 0,
        Collision::Bottom => velocity.y > 0,
        Collision::Top => velocity.y < 0,
    }
}

/// The part of a collider's velocity that the ball takes over along y: a fifth of the
/// collider's y-velocity, rounded toward zero. A collider without a velocity hands on
/// nothing.
pub open spec fn spin(carried: Option<Vec2>) -> int {
    match carried {
        Some(v) => quotient(v.y as int, SPIN_DIVISOR as int),
        None => 0,
    }
}

/// The ball's velocity after it has met the side `side` of a collider that moves at
/// `carried`, if it moves at all.
///
/// The component along the axis of `side` is reversed where the ball moves into that
/// side, and only then, so that a ball still overlapping on a later tick is not turned
/// round again. The collider's spin is added to the y component before that reversal,
/// which is decided by the y-velocity that the ball arrived with.
pub open spec fn rebound(velocity: Vec2, side: Collision, carried: Option<Vec2>) -> Vec2 {
    let spun = saturate(velocity.y + spin(carried));
    Vec2 {
        x: if (side is Left || side is Right) && drives_into(velocity, side) {
            saturate(-velocity.x) as i64
        } else {
            velocity.x
        },
        y: if (side is Top || side is Bottom) && drives_into(velocity, side) {
            saturate(-spun) as i64
        } else {
            spun as i64
        },
    }
}

/// The ball and the scoreboard after the ball has been tested against one collider.
/// Where the two do not intersect nothing changes.
pub open spec fn struck(ball: Ball, score: Scoreboard, collider: Collider) -> (Ball, Scoreboard) {
    match side_of_impact(ball.bounds(), collider.bounds) {
        None => (ball, score),
        Some(side) => (
            Ball { velocity: rebound(ball.velocity, side, collider.velocity), ..ball },
            awarded(score, collider.wall),
        ),
    }
}

/// The ball and the scoreboard after the ball has been tested against each of
/// `colliders` in turn. Each test starts from what the one before it left, so where two
/// colliders turn the same component the later one decides.
pub open spec fn struck_all(ball: Ball, score: Scoreboard, colliders: Seq<Collider>) -> (
    Ball,
    Scoreboard,
)
    decreases colliders.len(),
{
    if colliders.len() == 0 {
        (ball, score)
    } else {
        let before = struck_all(ball, score, colliders.drop_last());
        struck(before.0, before.1, colliders.last())
    }
}

/// Whether every box of `colliders` is a proper box.
pub open spec fn all_wf(colliders: Seq<Collider>) -> bool {
    forall|i: int| 0 <= i < colliders.len() ==> (#[trigger] colliders[i]).bounds.wf()
}

impl Scoreboard {
    /// The scoreboard of a session that starts.
    pub fn new() -> (score: Scoreboard)
        ensures
            score == (Scoreboard { player_score: 0, computer_score: 0 }),
    {
        Scoreboard { player_score: 0, computer_score: 0 }
    }

    /// The count to show for `score_type`.
    pub fn count(&self, score_type: ScoreType) -> (count: u64)
        ensures
            count == match score_type {
                ScoreType::Player => self.player_score,
                ScoreType::Computer => self.computer_score,
            },
    {
        match score_type {
            ScoreType::Player => self.player_score,
            ScoreType::Computer => self.computer_score,
        }
    }

    /// Counts the point, if any, that meeting `wall` is worth.
    pub fn award(&mut self, wall: Option<WallLocation>)
        ensures
            *final(self) == awarded(*old(self), wall),
            final(self).player_score >= old(self).player_score,
            final(self).computer_score >= old(self).computer_score,
    {
        match wall {
            Some(WallLocation::Left) => {
                if self.player_score < u64::MAX {
                    self.player_score += 1;
                }
            },
            Some(WallLocation::Right) => {
                if self.computer_score < u64::MAX {
                    self.computer_score += 1;
                }
            },
            _ => {},
        }
    }
}

impl Default for Scoreboard {
    fn default() -> (score: Scoreboard)
        ensures
            score == (Scoreboard { player_score: 0, computer_score: 0 }),
    {
        Scoreboard::new()
    }
}

impl Collider {
    /// A wall as a collider.
    pub open spec fn of_wall(wall: Wall) -> Collider {
        Collider { bounds: wall.bounds(), wall: Some(wall.location), velocity: None }
    }

    /// A paddle as a collider.
    pub open spec fn of_paddle(paddle: Paddle) -> Collider {
        Collider { bounds: paddle.bounds(), wall: None, velocity: Some(paddle.velocity) }
    }

    /// A wall as a collider: it stands still and may count a point.
    pub fn from_wall(wall: &Wall) -> (collider: Collider)
        ensures
            collider == Collider::of_wall(*wall),
    {
        Collider {
            bounds: Aabb { center: wall.position, half_size: wall.half_extent },
            wall: Some(wall.location),
            velocity: None,
        }
    }

    /// A paddle as a collider: it carries its velocity and counts no point.
    pub fn from_paddle(paddle: &Paddle) -> (collider: Collider)
        ensures
            collider == Collider::of_paddle(*paddle),
    {
        Collider {
            bounds: Aabb { center: paddle.position, half_size: paddle.half_extent },
            wall: None,
            velocity: Some(paddle.velocity),
        }
    }
}

/// Turns the ball's velocity for one impact.
pub fn bounce(velocity: Vec2, side: Collision, carried: Option<Vec2>) -> (turned: Vec2)
    ensures
        turned == rebound(velocity, side, carried),
{
    let reflect_x = match side {
        Collision::Left => velocity.x > 0,
        Collision::Right => velocity.x < 0,
        _ => false,
    };
    let reflect_y = match side {
        Collision::Bottom => velocity.y > 0,
        Collision::Top => velocity.y < 0,
        _ => false,
    };
    let mut new_y: i64 = velocity.y;
    if let Some(carried_velocity) = carried {
        new_y = narrow(velocity.y as i128 + (carried_velocity.y / SPIN_DIVISOR) as i128);
    }
    if reflect_y {
        new_y = negate(new_y);
    }
    let new_x: i64 = if reflect_x {
        negate(velocity.x)
    } else {
        velocity.x
    };
    Vec2 { x: new_x, y: new_y }
}

/// Tests the ball against each collider in turn and, where they meet, turns the ball
/// and counts the point. The ball's position and size are left as they are.
pub fn check_collision(ball: &mut Ball, colliders: &[Collider], scoreboard: &mut Scoreboard)
    requires
        all_wf(colliders@),
    ensures
        (*final(ball), *final(scoreboard)) == struck_all(
            *old(ball),
            *old(scoreboard),
            colliders@,
        ),
        final(ball).position == old(ball).position,
        final(ball).half_extent == old(ball).half_extent,
        final(scoreboard).player_score >= old(scoreboard).player_score,
        final(scoreboard).computer_score >= old(scoreboard).computer_score,
{
    let mut i: usize = 0;
    while i < colliders.len()
        invariant
            i <= colliders.len(),
            all_wf(colliders@),
            (*ball, *scoreboard) == struck_all(
                *old(ball),
                *old(scoreboard),
                colliders@.take(i as int),
            ),
            ball.position == old(ball).position,
            ball.half_extent == old(ball).half_extent,
            scoreboard.player_score >= old(scoreboard).player_score,
            scoreboard.computer_score >= old(scoreboard).computer_score,
        decreases colliders.len() - i,
    {
        let collider = &colliders[i];
        let collision = collide_with_side(ball.aabb(), collider.bounds);
        if let Some(side) = collision {
            scoreboard.award(collider.wall);
            ball.velocity = bounce(ball.velocity, side, collider.velocity);
        }
        proof {
            assert(colliders@.take(i + 1).drop_last() =~= colliders@.take(i as int));
        }
        i += 1;
    }
    proof {
        assert(colliders@.take(colliders.len() as int) =~= colliders@);
    }
}

/// How many of `colliders` are the wall `location` and intersect the box `bounds`.
pub open spec fn wall_hits(bounds: Aabb, colliders: Seq<Collider>, location: WallLocation) -> nat
    decreases colliders.len(),
{
    if colliders.len() == 0 {
        0
    } else {
        let last = colliders.last();
        let hit: nat = if last.wall == Some(location) && bounds.overlaps(last.bounds) {
            1
        } else {
            0
        };
        wall_hits(bounds, colliders.drop_last(), location) + hit
    }
}

/// A count raised `times` times: it grows by one each time until it is full.
pub open spec fn raised_by(count: u64, times: nat) -> int {
    if count + times <= u64::MAX {
        count + times
    } else {
        u64::MAX as int
    }
}

/// After a rebound the ball does not move into the side that it struck: never along x,
/// and along y where the collider has no velocity of its own to hand on.
pub proof fn lemma_rebound_turns_away(velocity: Vec2, side: Collision, carried: Option<Vec2>)
    ensures
        side is Left || side is Right || carried is None ==> !drives_into(
            rebound(velocity, side, carried),
            side,
        ),
{
}

/// Testing the same side once more does not turn the ball again. Against a collider
/// that stands still the second rebound changes nothing; against any collider it leaves
/// the x component as the first rebound set it.
pub proof fn lemma_rebound_idempotent(
    velocity: Vec2,
    side: Collision,
    first: Option<Vec2>,
    second: Option<Vec2>,
)
    ensures
        rebound(rebound(velocity, side, None), side, None) == rebound(velocity, side, None),
        rebound(rebound(velocity, side, first), side, second).x == rebound(
            velocity,
            side,
            first,
        ).x,
{
}

/// Testing the ball against a resting collider twice in a row turns it no further than
/// testing it once: after the first test the ball no longer moves into the side it met.
pub proof fn lemma_retest_turns_no_further(
    ball: Ball,
    score: Scoreboard,
    later: Scoreboard,
    collider: Collider,
)
    requires
        collider.velocity is None,
    ensures
        struck(struck(ball, score, collider).0, later, collider).0 == struck(
            ball,
            score,
            collider,
        ).0,
{
}

/// A rebound reverses a component only where the ball moves into the side struck, and
/// then exactly: the x component changes sign against a left or right side and the y
/// component is otherwise left to the spin alone.
pub proof fn lemma_rebound_reverses(velocity: Vec2, side: Collision, carried: Option<Vec2>)
    ensures
        side is Right && i64::MIN < velocity.x < 0 ==> rebound(velocity, side, carried).x
            == -velocity.x,
        side is Left && velocity.x > 0 ==> rebound(velocity, side, carried).x == -velocity.x,
        !drives_into(velocity, side) ==> rebound(velocity, side, carried).x == velocity.x,
        !drives_into(velocity, side) ==> rebound(velocity, side, carried).y == saturate(
            velocity.y + spin(carried),
        ),
        side is Top || side is Bottom ==> rebound(velocity, side, carried).x == velocity.x,
        (side is Left || side is Right) && carried is None ==> rebound(velocity, side, carried).y
            == velocity.y,
{
}

/// A ball whose center is level with a collider and beside it meets the collider's
/// left or right side, whichever the ball is on.
pub proof fn lemma_side_when_level(ball: Aabb, collider: Aabb)
    requires
        collider.wf(),
        ball.overlaps(collider),
        collider.min_y() <= ball.center.y <= collider.max_y(),
    ensures
        ball.center.x > collider.max_x() ==> side_of_impact(ball, collider) == Some(
            Collision::Right,
        ),
        ball.center.x < collider.min_x() ==> side_of_impact(ball, collider) == Some(
            Collision::Left,
        ),
{
}

/// A ball that moves toward a side wall and meets it from inside the arena is turned
/// back, and the wall's point is counted: a ball that moves left and meets the left wall
/// moves right afterwards, and so for the right wall.
pub proof fn lemma_side_wall_returns_ball(ball: Ball, score: Scoreboard, location: WallLocation)
    requires
        location is Left || location is Right,
        ball.bounds().overlaps(Wall::at(location).bounds()),
        Wall::at(location).bounds().min_y() <= ball.position.y <= Wall::at(
            location,
        ).bounds().max_y(),
        location is Left ==> ball.position.x > Wall::at(location).bounds().max_x()
            && ball.velocity.x < 0,
        location is Right ==> ball.position.x < Wall::at(location).bounds().min_x()
            && ball.velocity.x > 0,
    ensures
        ({
            let after = struck(ball, score, Collider::of_wall(Wall::at(location)));
            &&& location is Left ==> after.0.velocity.x > 0
            &&& location is Right ==> after.0.velocity.x < 0
            &&& after.0.velocity.x == saturate(-ball.velocity.x)
            &&& after.0.velocity.y == ball.velocity.y
            &&& after.0.position == ball.position
            &&& after.1 == awarded(score, Some(location))
        }),
{
    lemma_side_when_level(ball.bounds(), Wall::at(location).bounds());
}

/// No test against a collider changes how fast the ball moves along x, only which way:
/// a rally never speeds the ball up or slows it down sideways.
pub proof fn lemma_struck_all_keeps_x_speed(ball: Ball, score: Scoreboard, colliders: Seq<Collider>)
    requires
        ball.velocity.x > i64::MIN,
    ensures
        magnitude(struck_all(ball, score, colliders).0.velocity.x as int) == magnitude(
            ball.velocity.x as int,
        ),
    decreases colliders.len(),
{
    if colliders.len() > 0 {
        lemma_struck_all_keeps_x_speed(ball, score, colliders.drop_last());
    }
}

/// Testing the ball against colliders changes neither where it is nor how large it is,
/// so each collider is tested against the same box.
pub proof fn lemma_struck_all_keeps_bounds(ball: Ball, score: Scoreboard, colliders: Seq<Collider>)
    ensures
        struck_all(ball, score, colliders).0.bounds() == ball.bounds(),
    decreases colliders.len(),
{
    if colliders.len() > 0 {
        lemma_struck_all_keeps_bounds(ball, score, colliders.drop_last());
    }
}

/// Each count is raised once for every collider that is its wall and that the ball
/// intersects, and by nothing else: the left wall for the player, the right wall for
/// the computer.
pub proof fn lemma_scores_count_wall_hits(ball: Ball, score: Scoreboard, colliders: Seq<Collider>)
    ensures
        struck_all(ball, score, colliders).1.player_score == raised_by(
            score.player_score,
            wall_hits(ball.bounds(), colliders, WallLocation::Left),
        ),
        struck_all(ball, score, colliders).1.computer_score == raised_by(
            score.computer_score,
            wall_hits(ball.bounds(), colliders, WallLocation::Right),
        ),
    decreases colliders.len(),
{
    if colliders.len() > 0 {
        lemma_scores_count_wall_hits(ball, score, colliders.drop_last());
        lemma_struck_all_keeps_bounds(ball, score, colliders.drop_last());
    }
}

/// A ball that intersects none of the colliders comes out as it went in, and so does
/// the scoreboard.
pub proof fn lemma_no_impact_no_change(ball: Ball, score: Scoreboard, colliders: Seq<Collider>)
    requires
        forall|i: int|
            0 <= i < colliders.len() ==> !ball.bounds().overlaps((#[trigger] colliders[i]).bounds),
    ensures
        struck_all(ball, score, colliders) == (ball, score),
    decreases colliders.len(),
{
    if colliders.len() > 0 {
        lemma_no_impact_no_change(ball, score, colliders.drop_last());
    }
}

/// A ball that was clear of a resting collider, then met the side it came from and was
/// turned round, is clear of the collider again one tick later: the impact is not
/// counted twice and the ball is not turned twice.
///
/// The ball is taken before the tick that brings it to the collider. It is clear on the
/// right where its box lies wholly to the right of the collider's, and so for the other
/// sides. For the top and the bottom side the collider must have no velocity to hand on.
/// Both ticks are as long as each other, and the ball's way in them fits the range of
/// positions.
pub proof fn lemma_bounce_clears_collider(
    ball: Ball,
    score: Scoreboard,
    collider: Collider,
    dt_ms: u32,
)
    requires
        fits(ball.position.x + ball.velocity.x * dt_ms),
        fits(ball.position.y + ball.velocity.y * dt_ms),
        ball.velocity.x > i64::MIN,
        ball.velocity.y > i64::MIN,
        match side_of_impact(ball.advanced(dt_ms).bounds(), collider.bounds) {
            Some(Collision::Right) => ball.bounds().min_x() > collider.bounds.max_x(),
            Some(Collision::Left) => ball.bounds().max_x() < collider.bounds.min_x(),
            Some(Collision::Top) => collider.velocity is None && ball.bounds().min_y()
                > collider.bounds.max_y(),
            Some(Collision::Bottom) => collider.velocity is None && ball.bounds().max_y()
                < collider.bounds.min_y(),
            None => false,
        },
    ensures
        ({
            let turned = struck(ball.advanced(dt_ms), score, collider);
            let next = turned.0.advanced(dt_ms);
            &&& !next.bounds().overlaps(collider.bounds)
            &&& struck(next, turned.1, collider) == (next, turned.1)
        }),
{
    let dt = dt_ms as int;
    let vx = ball.velocity.x as int;
    let vy = ball.velocity.y as int;
    assert((-vx) * dt == -(vx * dt)) by (nonlinear_arith);
    assert((-vy) * dt == -(vy * dt)) by (nonlinear_arith);
    assert(vx >= 0 ==> vx * dt >= 0) by (nonlinear_arith)
        requires
            dt >= 0,
    ;
    assert(vx <= 0 ==> vx * dt <= 0) by (nonlinear_arith)
        requires
            dt >= 0,
    ;
    assert(vy >= 0 ==> vy * dt >= 0) by (nonlinear_arith)
        requires
            dt >= 0,
    ;
    assert(vy <= 0 ==> vy * dt <= 0) by (nonlinear_arith)
        requires
            dt >= 0,
    ;
}

} // verus!
