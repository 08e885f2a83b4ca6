//! The whole of a session's state and the tick that advances it.

use vstd::prelude::*;
use crate::arena::{arena_walls, spawn_walls, Wall, WallLocation};
use crate::ball::{apply_velocity, Ball};
use crate::collision::{
    all_wf,
    check_collision,
    lemma_no_impact_no_change,
    lemma_scores_count_wall_hits,
    raised,
    struck_all,
    wall_hits,
    Collider,
    Scoreboard,
};
use crate::control::{move_paddle, moved, Input};
use crate::paddle::{Controller, Paddle, PaddleBundle, PaddleLocation};
use crate::units::fits;

verus! {

/// The length of a tick, in milliseconds, that sessions are meant to run at.
pub const TICK_MILLIS: u32 = 5;

/// Everything that a tick reads and writes.
#[derive(Clone, Debug, PartialEq, Eq)]
pub struct World {
    pub left_paddle: Paddle,
    pub right_paddle: Paddle,
    pub ball: Ball,
    /// The walls, in the order in which the ball is tested against them. A tick never
    /// changes them.
    pub walls: Vec<Wall>,
    pub scoreboard: Scoreboard,
}

impl World {
    /// Every paddle and wall has a proper box.
    pub open spec fn wf(self) -> bool {
        &&& self.left_paddle.wf()
        &&& self.right_paddle.wf()
        &&& forall|i: int| 0 <= i < self.walls@.len() ==> (#[trigger] self.walls@[i]).wf()
    }

    /// What the ball is tested against, in order: the left paddle, the right paddle, then
    /// the walls.
    pub open spec fn colliders(self) -> Seq<Collider> {
        seq![Collider::of_paddle(self.left_paddle), Collider::of_paddle(self.right_paddle)]
            + self.walls@.map_values(|wall: Wall| Collider::of_wall(wall))
    }

    /// The state a session starts in: a resting paddle on each side, the left one for
    /// the player, the ball at the center, the four walls and no points.
    pub open spec fn is_start(self) -> bool {
        &&& self.left_paddle == Paddle::spec_spawn(
            PaddleBundle::spec_new(PaddleLocation::Left),
            Controller::Human,
        )
        &&& self.right_paddle == Paddle::spec_spawn(
            PaddleBundle::spec_new(PaddleLocation::Right),
            Controller::Ai,
        )
        &&& self.ball == Ball::spec_spawn()
        &&& self.walls@ == arena_walls()
        &&& self.scoreboard == (Scoreboard { player_score: 0, computer_score: 0 })
    }

    /// The world one tick of `dt_ms` milliseconds later. The steps come in a fixed
    /// order: both paddles move, reading the ball where it was; the ball advances; the
    /// ball, where it now is, is tested against the paddles, where they now are, and
    /// the walls.
    pub open spec fn stepped(self, input: Input, dt_ms: u32) -> World {
        let paddles_moved = World {
            left_paddle: moved(self.left_paddle, input, self.ball, dt_ms),
            right_paddle: moved(self.right_paddle, input, self.ball, dt_ms),
            ..self
        };
        let outcome = struck_all(
            self.ball.advanced(dt_ms),
            self.scoreboard,
            paddles_moved.colliders(),
        );
        World { ball: outcome.0, scoreboard: outcome.1, ..paddles_moved }
    }

    /// The world after one tick for each of `inputs`, in order.
    pub open spec fn after(self, inputs: Seq<Input>, dt_ms: u32) -> World
        decreases inputs.len(),
    {
        if inputs.len() == 0 {
            self
        } else {
            self.after(inputs.drop_last(), dt_ms).stepped(inputs.last(), dt_ms)
        }
    }

    /// Tests whether a tick can be run on this world.
    pub fn is_wf(&self) -> (ok: bool)
        ensures
            ok == self.wf(),
    {
        if !(self.left_paddle.half_extent.x >= 0 && self.left_paddle.half_extent.y >= 0) {
            return false;
        }
        if !(self.right_paddle.half_extent.x >= 0 && self.right_paddle.half_extent.y >= 0) {
            return false;
        }
        let mut i: usize = 0;
        while i < self.walls.len()
            invariant
                i <= self.walls.len(),
                forall|k: int| 0 <= k < i ==> (#[trigger] self.walls@[k]).wf(),
            decreases self.walls.len() - i,
        {
            let wall = &self.walls[i];
            if !(wall.half_extent.x >= 0 && wall.half_extent.y >= 0) {
                return false;
            }
            i += 1;
        }
        true
    }

    /// The colliders of this tick, in testing order.
    pub fn collect_colliders(&self) -> (colliders: Vec<Collider>)
        requires
            self.wf(),
        ensures
            colliders@ == self.colliders(),
            all_wf(colliders@),
    {
        let mut colliders: Vec<Collider> = Vec::new();
        colliders.push(Collider::from_paddle(&self.left_paddle));
        colliders.push(Collider::from_paddle(&self.right_paddle));
        let mut i: usize = 0;
        while i < self.walls.len()
            invariant
                i <= self.walls.len(),
                self.wf(),
                colliders@ == seq![
                    Collider::of_paddle(self.left_paddle),
                    Collider::of_paddle(self.right_paddle),
                ] + self.walls@.take(i as int).map_values(|wall: Wall| Collider::of_wall(wall)),
                all_wf(colliders@),
            decreases self.walls.len() - i,
        {
            let ghost before = colliders@;
            colliders.push(Collider::from_wall(&self.walls[i]));
            proof {
                let paddles = seq![
                    Collider::of_paddle(self.left_paddle),
                    Collider::of_paddle(self.right_paddle),
                ];
                let f = |wall: Wall| Collider::of_wall(wall);
                assert(self.walls@.take(i + 1).map_values(f) =~= self.walls@.take(
                    i as int,
                ).map_values(f).push(Collider::of_wall(self.walls@[i as int])));
                assert(colliders@ =~= paddles + self.walls@.take(i + 1).map_values(f));
            }
            i += 1;
        }
        proof {
            assert(self.walls@.take(self.walls.len() as int) =~= self.walls@);
        }
        colliders
    }

    /// Advances the session by one tick.
    pub fn tick(&mut self, input: Input, dt_ms: u32)
        requires
            old(self).wf(),
        ensures
            *final(self) == old(self).stepped(input, dt_ms),
            final(self).wf(),
            final(self).left_paddle.in_bounds(),
            final(self).right_paddle.in_bounds(),
            final(self).walls == old(self).walls,
            final(self).scoreboard.player_score >= old(self).scoreboard.player_score,
            final(self).scoreboard.computer_score >= old(self).scoreboard.computer_score,
    {
        move_paddle(&mut self.left_paddle, input, &self.ball, dt_ms);
        move_paddle(&mut self.right_paddle, input, &self.ball, dt_ms);
        apply_velocity(&mut self.ball, dt_ms);
        let colliders = self.collect_colliders();
        check_collision(&mut self.ball, colliders.as_slice(), &mut self.scoreboard);
    }

    /// Advances the session by one tick for each of `inputs`, in order.
    pub fn run(&mut self, inputs: &[Input], dt_ms: u32)
        requires
            old(self).wf(),
        ensures
            *final(self) == old(self).after(inputs@, dt_ms),
            final(self).wf(),
            inputs@.len() > 0 ==> final(self).left_paddle.in_bounds(),
            inputs@.len() > 0 ==> final(self).right_paddle.in_bounds(),
            final(self).walls == old(self).walls,
            final(self).scoreboard.player_score >= old(self).scoreboard.player_score,
            final(self).scoreboard.computer_score >= old(self).scoreboard.computer_score,
    {
        let mut i: usize = 0;
        while i < inputs.len()
            invariant
                i <= inputs.len(),
                self.wf(),
                *self == old(self).after(inputs@.take(i as int), dt_ms),
                i > 0 ==> self.left_paddle.in_bounds() && self.right_paddle.in_bounds(),
                self.walls == old(self).walls,
                self.scoreboard.player_score >= old(self).scoreboard.player_score,
                self.scoreboard.computer_score >= old(self).scoreboard.computer_score,
            decreases inputs.len() - i,
        {
            self.tick(inputs[i], dt_ms);
            proof {
                assert(inputs@.take(i + 1).drop_last() =~= inputs@.take(i as int));
            }
            i += 1;
        }
        proof {
            assert(inputs@.take(inputs.len() as int) =~= inputs@);
        }
    }
}

/// Creates the world that a session starts in.
pub fn setup() -> (world: World)
    ensures
        world.is_start(),
        world.wf(),
        world.left_paddle.in_bounds(),
        world.right_paddle.in_bounds(),
{
    World {
        left_paddle: Paddle::spawn(PaddleBundle::new(PaddleLocation::Left), Controller::Human),
        right_paddle: Paddle::spawn(PaddleBundle::new(PaddleLocation::Right), Controller::Ai),
        ball: Ball::spawn(),
        walls: spawn_walls(),
        scoreboard: Scoreboard::new(),
    }
}

/// After any number of ticks, one at least, both paddles are within their bounds,
/// whatever the keys held, wherever the ball is and wherever the paddles started.
pub proof fn lemma_paddles_stay_in_bounds(world: World, inputs: Seq<Input>, dt_ms: u32)
    requires
        inputs.len() > 0,
    ensures
        world.after(inputs, dt_ms).left_paddle.in_bounds(),
        world.after(inputs, dt_ms).right_paddle.in_bounds(),
{
}

/// No number of ticks makes a count fall, and none changes the walls.
pub proof fn lemma_scores_never_fall(world: World, inputs: Seq<Input>, dt_ms: u32)
    ensures
        world.after(inputs, dt_ms).scoreboard.player_score >= world.scoreboard.player_score,
        world.after(inputs, dt_ms).scoreboard.computer_score >= world.scoreboard.computer_score,
        world.after(inputs, dt_ms).walls == world.walls,
    decreases inputs.len(),
{
    if inputs.len() > 0 {
        lemma_scores_never_fall(world, inputs.drop_last(), dt_ms);
        let before = world.after(inputs.drop_last(), dt_ms);
        let next = before.stepped(inputs.last(), dt_ms);
        lemma_scores_count_wall_hits(
            before.ball.advanced(dt_ms),
            before.scoreboard,
            next.colliders(),
        );
    }
}

/// In a tick in which the ball, once advanced, intersects no collider, the ball's new
/// position is `position + velocity * dt_ms` (as far as that fits), its velocity is
/// unchanged and no point is counted.
pub proof fn lemma_free_flight(world: World, input: Input, dt_ms: u32)
    requires
        forall|i: int|
            0 <= i < world.stepped(input, dt_ms).colliders().len() ==> !world.ball.advanced(
                dt_ms,
            ).bounds().overlaps((#[trigger] world.stepped(input, dt_ms).colliders()[i]).bounds),
    ensures
        world.stepped(input, dt_ms).ball == world.ball.advanced(dt_ms),
        world.stepped(input, dt_ms).ball.velocity == world.ball.velocity,
        world.stepped(input, dt_ms).scoreboard == world.scoreboard,
        fits(world.ball.position.x + world.ball.velocity.x * dt_ms) ==> world.stepped(
            input,
            dt_ms,
        ).ball.position.x == world.ball.position.x + world.ball.velocity.x * dt_ms,
        fits(world.ball.position.y + world.ball.velocity.y * dt_ms) ==> world.stepped(
            input,
            dt_ms,
        ).ball.position.y == world.ball.position.y + world.ball.velocity.y * dt_ms,
{
    lemma_no_impact_no_change(
        world.ball.advanced(dt_ms),
        world.scoreboard,
        world.stepped(input, dt_ms).colliders(),
    );
}

/// Between the arena's four walls a tick raises the player's count by one where the
/// ball, once advanced, intersects the left wall, and the computer's count by one where
/// it intersects the right wall; no tick raises a count by more, or for another reason.
pub proof fn lemma_tick_scores_once_per_wall(world: World, input: Input, dt_ms: u32)
    requires
        world.walls@ == arena_walls(),
    ensures
        ({
            let ball = world.ball.advanced(dt_ms).bounds();
            let score = world.stepped(input, dt_ms).scoreboard;
            &&& score.player_score == if ball.overlaps(Wall::at(WallLocation::Left).bounds()) {
                raised(world.scoreboard.player_score)
            } else {
                world.scoreboard.player_score
            }
            &&& score.computer_score == if ball.overlaps(
                Wall::at(WallLocation::Right).bounds(),
            ) {
                raised(world.scoreboard.computer_score)
            } else {
                world.scoreboard.computer_score
            }
        }),
{
    let colliders = world.stepped(input, dt_ms).colliders();
    let ball = world.ball.advanced(dt_ms);
    lemma_scores_count_wall_hits(ball, world.scoreboard, colliders);
    assert(colliders.len() == 6);
    reveal_with_fuel(wall_hits, 8);
    let c5 = colliders;
    let c4 = c5.drop_last();
    let c3 = c4.drop_last();
    let c2 = c3.drop_last();
    let c1 = c2.drop_last();
    let c0 = c1.drop_last();
    assert(c0.drop_last().len() == 0);
    assert(c5.last() == Collider::of_wall(Wall::at(WallLocation::Bottom)));
    assert(c4.last() == Collider::of_wall(Wall::at(WallLocation::Top)));
    assert(c3.last() == Collider::of_wall(Wall::at(WallLocation::Right)));
    assert(c2.last() == Collider::of_wall(Wall::at(WallLocation::Left)));
    assert(c1.last() == Collider::of_paddle(world.stepped(input, dt_ms).right_paddle));
    assert(c0.last() == Collider::of_paddle(world.stepped(input, dt_ms).left_paddle));
}

} // verus!
