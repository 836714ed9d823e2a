//! The ball, how it answers a collision, and the collision pass of a tick.

use vstd::prelude::*;
use crate::board::{Goal, GoalOwner};
use crate::collider::{collide, collision, obstacles, Collider, Collision, Obstacle};
use crate::fixed::{negate, saturate, PIXEL, PIXEL_PER_SECOND};
use crate::scoreboard::{incremented, Score, Scoreboard};
use crate::transform::{Placement, Transform};
use crate::vec2::{Point, Vec2};
use crate::velocity::Velocity;

verus! {

/// The width and the height of the ball.
pub const BALL_SIZE: i64 = 30 * PIXEL;

/// The speed at which the ball is served.
pub const BALL_SPEED: i64 = 400 * PIXEL_PER_SECOND;

/// What each component of the serve measures: the ball is served along the
/// diagonal that points right and down, so both components have this size.
pub const BALL_SERVE_COMPONENT: i64 = 282_843;

/// Whether `component` is the whole number nearest to `speed / sqrt(2)`: the
/// size of both components of a diagonal vector of length `speed`.
pub open spec fn is_diagonal_component(component: int, speed: int) -> bool {
    &&& component >= 1
    &&& 2 * ((2 * component - 1) * (2 * component - 1)) <= (2 * speed) * (2 * speed)
    &&& (2 * speed) * (2 * speed) <= 2 * ((2 * component + 1) * (2 * component + 1))
}

/// Where the ball is served from: the centre of the board.
pub open spec fn starting_position() -> Point {
    Point { x: 0, y: 0 }
}

/// The velocity with which the ball is served.
pub open spec fn serve_velocity() -> Point {
    Point { x: BALL_SERVE_COMPONENT as int, y: -BALL_SERVE_COMPONENT }
}

/// The serve has the length `BALL_SPEED`, to the nearest unit in each
/// component, and points right and down along the diagonal.
pub proof fn lemma_serve_has_ball_speed()
    ensures
        is_diagonal_component(serve_velocity().x, BALL_SPEED as int),
        serve_velocity().y == -serve_velocity().x,
{
    assert(2 * ((2 * 282_843 - 1) * (2 * 282_843 - 1)) <= (2 * 400_000) * (2 * 400_000))
        by (nonlinear_arith);
    assert((2 * 400_000) * (2 * 400_000) <= 2 * ((2 * 282_843 + 1) * (2 * 282_843 + 1)))
        by (nonlinear_arith);
}

/// What a [`Ball`] stands for in contracts.
pub ghost struct BallModel {
    pub placement: Placement,
    pub velocity: Point,
}

/// The ball: where it is, how large it is, and how it moves.
#[derive(Clone, Copy, Debug, PartialEq, Eq, Structural)]
pub struct Ball {
    pub transform: Transform,
    pub velocity: Velocity,
}

impl View for Ball {
    type V = BallModel;

    open spec fn view(&self) -> BallModel {
        BallModel { placement: self.transform@, velocity: self.velocity@ }
    }
}

impl BallModel {
    /// The ball put back to the centre and served again, its size kept.
    pub open spec fn served(self) -> BallModel {
        BallModel {
            placement: Placement { translation: starting_position(), scale: self.placement.scale },
            velocity: serve_velocity(),
        }
    }
}

/// The ball and the score together: what a collision pass changes.
pub ghost struct Rally {
    pub ball: BallModel,
    pub score: Score,
}

/// The velocity after a collision with a wall or a paddle.
///
/// The component across the side that was hit changes sign, but only where
/// the ball is moving into that side; a ball that is already leaving keeps
/// its velocity. Being inside changes nothing.
pub open spec fn bounced(velocity: Point, collision: Collision) -> Point {
    match collision {
        Collision::Left => if velocity.x > 0 {
            Point { x: saturate(-velocity.x), y: velocity.y }
        } else {
            velocity
        },
        Collision::Right => if velocity.x < 0 {
            Point { x: saturate(-velocity.x), y: velocity.y }
        } else {
            velocity
        },
        Collision::Top => if velocity.y < 0 {
            Point { x: velocity.x, y: saturate(-velocity.y) }
        } else {
            velocity
        },
        Collision::Bottom => if velocity.y > 0 {
            Point { x: velocity.x, y: saturate(-velocity.y) }
        } else {
            velocity
        },
        Collision::Inside => velocity,
    }
}

/// The rally after the ball has answered the outcome `hit` of a test against
/// an entity that is a goal where `goal` says so.
///
/// Without a collision nothing changes. A collision with a goal, on whatever
/// side, serves the ball again and credits the side that does not own the
/// goal. A collision with anything else bounces the ball.
pub open spec fn answered(rally: Rally, hit: Option<Collision>, goal: Option<Goal>) -> Rally {
    match hit {
        None => rally,
        Some(side) => match goal {
            Some(goal) => Rally {
                ball: rally.ball.served(),
                score: rally.score.credited(goal.goal_owner.opponent()),
            },
            None => Rally {
                ball: BallModel {
                    placement: rally.ball.placement,
                    velocity: bounced(rally.ball.velocity, side),
                },
                score: rally.score,
            },
        },
    }
}

/// The rally after the ball has been tested against one obstacle and has
/// answered what the test found.
pub open spec fn struck(rally: Rally, obstacle: Obstacle) -> Rally {
    answered(rally, collision(rally.ball.placement, obstacle.placement), obstacle.goal)
}

/// The rally after the ball has been tested against each obstacle in turn.
pub open spec fn after_collisions(rally: Rally, obstacles: Seq<Obstacle>) -> Rally
    decreases obstacles.len(),
{
    if obstacles.len() == 0 {
        rally
    } else {
        struck(after_collisions(rally, obstacles.drop_last()), obstacles.last())
    }
}

/// A ball that collides with a goal, on whatever side and however it was
/// moving, is served again: it stands at the centre of the board, and its
/// velocity has the length `BALL_SPEED`, to the nearest unit in each
/// component, along the diagonal that points right and down.
pub proof fn lemma_goal_serves_ball(rally: Rally, side: Collision, goal: Goal)
    ensures
        answered(rally, Some(side), Some(goal)).ball.placement.translation == starting_position(),
        answered(rally, Some(side), Some(goal)).ball.velocity == serve_velocity(),
        is_diagonal_component(
            answered(rally, Some(side), Some(goal)).ball.velocity.x,
            BALL_SPEED as int,
        ),
        answered(rally, Some(side), Some(goal)).ball.velocity.y == -answered(
            rally,
            Some(side),
            Some(goal),
        ).ball.velocity.x,
{
    lemma_serve_has_ball_speed();
}

/// A ball that collides with a goal scores for the other side: the player's
/// goal adds a goal to the enemy's counter, the enemy's goal adds one to the
/// player's, and the counter of the goal's owner stays as it is. A counter
/// that has reached `usize::MAX` stays there.
pub proof fn lemma_goal_credits_opponent(rally: Rally, side: Collision, goal: Goal)
    ensures
        goal.goal_owner == GoalOwner::Player ==> {
            &&& answered(rally, Some(side), Some(goal)).score.player == rally.score.player
            &&& answered(rally, Some(side), Some(goal)).score.enemy == incremented(
                rally.score.enemy,
            )
            &&& rally.score.enemy < usize::MAX ==> answered(
                rally,
                Some(side),
                Some(goal),
            ).score.enemy == rally.score.enemy + 1
        },
        goal.goal_owner == GoalOwner::Enemy ==> {
            &&& answered(rally, Some(side), Some(goal)).score.enemy == rally.score.enemy
            &&& answered(rally, Some(side), Some(goal)).score.player == incremented(
                rally.score.player,
            )
            &&& rally.score.player < usize::MAX ==> answered(
                rally,
                Some(side),
                Some(goal),
            ).score.player == rally.score.player + 1
        },
{
}

/// Whether a ball placed at `ball` collides with `obstacle`.
pub open spec fn touches(ball: Placement, obstacle: Obstacle) -> bool {
    collision(ball, obstacle.placement) is Some
}

/// Whether a ball placed at `ball` collides with one of `obstacles`.
pub open spec fn touches_any(ball: Placement, obstacles: Seq<Obstacle>) -> bool {
    exists|i: int| 0 <= i < obstacles.len() && touches(ball, #[trigger] obstacles[i])
}

/// Answering the same collision twice is answering it once: after the first
/// answer the ball is leaving the side, and the second changes nothing.
pub proof fn lemma_bounce_is_idempotent(velocity: Point, side: Collision)
    ensures
        bounced(bounced(velocity, side), side) == bounced(velocity, side),
{
}

/// Testing against one more obstacle is one more step after the others.
pub proof fn lemma_after_collisions_push(rally: Rally, obstacles: Seq<Obstacle>, last: Obstacle)
    ensures
        after_collisions(rally, obstacles.push(last)) == struck(
            after_collisions(rally, obstacles),
            last,
        ),
{
    assert(obstacles.push(last).drop_last() == obstacles);
}

/// A pass against walls and paddles that the ball hits on one and the same
/// side, however many of them there are, bounces the ball exactly once: its
/// velocity is the one that a single collision on that side gives, and
/// neither its place nor the score changes. A pass in which the ball hits
/// nothing changes nothing.
///
/// So a ball that moves left into the right side of one or several boxes
/// leaves the pass with the sign of its horizontal velocity changed once and
/// its vertical velocity as it was.
pub proof fn lemma_same_side_bounces_once(rally: Rally, obstacles: Seq<Obstacle>, side: Collision)
    requires
        forall|i: int|
            0 <= i < obstacles.len() && touches(rally.ball.placement, #[trigger] obstacles[i])
                ==> obstacles[i].goal is None && collision(
                rally.ball.placement,
                obstacles[i].placement,
            ) == Some(side),
    ensures
        after_collisions(rally, obstacles) == if touches_any(rally.ball.placement, obstacles) {
            Rally {
                ball: BallModel {
                    placement: rally.ball.placement,
                    velocity: bounced(rally.ball.velocity, side),
                },
                score: rally.score,
            }
        } else {
            rally
        },
    decreases obstacles.len(),
{
    if obstacles.len() > 0 {
        let earlier = obstacles.drop_last();
        let last = obstacles.last();
        assert forall|i: int|
            0 <= i < earlier.len() && touches(
                rally.ball.placement,
                #[trigger] earlier[i],
            ) implies earlier[i].goal is None && collision(
            rally.ball.placement,
            earlier[i].placement,
        ) == Some(side) by {
            assert(earlier[i] == obstacles[i]);
        }
        lemma_same_side_bounces_once(rally, earlier, side);
        lemma_bounce_is_idempotent(rally.ball.velocity, side);
        if touches_any(rally.ball.placement, earlier) {
            let i = choose|i: int|
                0 <= i < earlier.len() && touches(rally.ball.placement, #[trigger] earlier[i]);
            assert(touches(rally.ball.placement, obstacles[i]));
        }
        if touches(rally.ball.placement, last) {
            assert(touches(rally.ball.placement, obstacles[obstacles.len() - 1]));
        }
        if touches_any(rally.ball.placement, obstacles) {
            let i = choose|i: int|
                0 <= i < obstacles.len() && touches(rally.ball.placement, #[trigger] obstacles[i]);
            if i < earlier.len() {
                assert(touches(rally.ball.placement, earlier[i]));
            }
        }
    }
}

/// Whether a ball placed at `ball` collides with one of `obstacles` on `side`.
pub open spec fn hits_side(ball: Placement, obstacles: Seq<Obstacle>, side: Collision) -> bool {
    exists|i: int|
        0 <= i < obstacles.len() && collision(ball, (#[trigger] obstacles[i]).placement) == Some(
            side,
        )
}

/// In a corner the ball bounces once along each axis. Where a pass meets no
/// goal, every collision across is on the side `across` and every collision
/// along is on the side `along`, the horizontal velocity is what one
/// collision on `across` gives if there was one and is unchanged if there
/// was none, and the same holds of the vertical velocity and `along`,
/// however many colliders were hit and in whatever order they were tested.
pub proof fn lemma_each_axis_bounces_once(
    rally: Rally,
    obstacles: Seq<Obstacle>,
    across: Collision,
    along: Collision,
)
    requires
        across == Collision::Left || across == Collision::Right,
        along == Collision::Top || along == Collision::Bottom,
        forall|i: int|
            0 <= i < obstacles.len() && touches(rally.ball.placement, #[trigger] obstacles[i])
                ==> obstacles[i].goal is None && {
                let hit = collision(rally.ball.placement, obstacles[i].placement);
                hit == Some(across) || hit == Some(along) || hit == Some(Collision::Inside)
            },
    ensures
        after_collisions(rally, obstacles) == (Rally {
            ball: BallModel {
                placement: rally.ball.placement,
                velocity: Point {
                    x: if hits_side(rally.ball.placement, obstacles, across) {
                        bounced(rally.ball.velocity, across).x
                    } else {
                        rally.ball.velocity.x
                    },
                    y: if hits_side(rally.ball.placement, obstacles, along) {
                        bounced(rally.ball.velocity, along).y
                    } else {
                        rally.ball.velocity.y
                    },
                },
            },
            score: rally.score,
        }),
    decreases obstacles.len(),
{
    let place = rally.ball.placement;
    if obstacles.len() > 0 {
        let earlier = obstacles.drop_last();
        let last = obstacles.last();
        assert forall|i: int|
            0 <= i < earlier.len() && touches(place, #[trigger] earlier[i]) implies earlier[i].goal
            is None && {
            let hit = collision(place, earlier[i].placement);
            hit == Some(across) || hit == Some(along) || hit == Some(Collision::Inside)
        } by {
            assert(earlier[i] == obstacles[i]);
        }
        lemma_each_axis_bounces_once(rally, earlier, across, along);
        assert(last == obstacles[obstacles.len() - 1]);
        assert forall|side: Collision|
            hits_side(place, obstacles, side) <==> (hits_side(place, earlier, side) || collision(
                place,
                last.placement,
            ) == Some(side)) by {
            if hits_side(place, earlier, side) {
                let i = choose|i: int|
                    0 <= i < earlier.len() && collision(place, (#[trigger] earlier[i]).placement)
                        == Some(side);
                assert(collision(place, obstacles[i].placement) == Some(side));
            }
            if hits_side(place, obstacles, side) {
                let i = choose|i: int|
                    0 <= i < obstacles.len() && collision(
                        place,
                        (#[trigger] obstacles[i]).placement,
                    ) == Some(side);
                if i < earlier.len() {
                    assert(collision(place, earlier[i].placement) == Some(side));
                }
            }
        }
    } else {
        assert(!hits_side(place, obstacles, across));
        assert(!hits_side(place, obstacles, along));
    }
}

/// A pass in which the ball hits no goal leaves the ball where it is and the
/// score as it is.
pub proof fn lemma_no_goal_keeps_place_and_score(rally: Rally, obstacles: Seq<Obstacle>)
    requires
        forall|i: int|
            0 <= i < obstacles.len() && touches(rally.ball.placement, #[trigger] obstacles[i])
                ==> obstacles[i].goal is None,
    ensures
        after_collisions(rally, obstacles).ball.placement == rally.ball.placement,
        after_collisions(rally, obstacles).score == rally.score,
    decreases obstacles.len(),
{
    if obstacles.len() > 0 {
        let earlier = obstacles.drop_last();
        assert forall|i: int|
            0 <= i < earlier.len() && touches(
                rally.ball.placement,
                #[trigger] earlier[i],
            ) implies earlier[i].goal is None by {
            assert(earlier[i] == obstacles[i]);
        }
        lemma_no_goal_keeps_place_and_score(rally, earlier);
        assert(obstacles.last() == obstacles[obstacles.len() - 1]);
    }
}

/// No pass changes the size of the ball.
pub proof fn lemma_pass_keeps_ball_size(rally: Rally, obstacles: Seq<Obstacle>)
    ensures
        after_collisions(rally, obstacles).ball.placement.scale == rally.ball.placement.scale,
    decreases obstacles.len(),
{
    if obstacles.len() > 0 {
        lemma_pass_keeps_ball_size(rally, obstacles.drop_last());
    }
}

impl Ball {
    /// The ball as it is served at the start: at the centre of the board.
    pub fn new() -> (ball: Ball)
        ensures
            ball@.placement.translation == starting_position(),
            ball@.placement.scale == (Point { x: BALL_SIZE as int, y: BALL_SIZE as int }),
            ball@.velocity == serve_velocity(),
    {
        Ball {
            transform: Transform {
                translation: Vec2::new(0, 0),
                scale: Vec2::new(BALL_SIZE, BALL_SIZE),
            },
            velocity: Velocity(Vec2::new(BALL_SERVE_COMPONENT, -BALL_SERVE_COMPONENT)),
        }
    }

    /// Puts the ball back to the centre and serves it again.
    pub fn serve(&mut self)
        ensures
            final(self)@ == old(self)@.served(),
    {
        self.velocity = Velocity(Vec2::new(BALL_SERVE_COMPONENT, -BALL_SERVE_COMPONENT));
        self.transform.translation.x = 0;
        self.transform.translation.y = 0;
    }

    /// Answers a collision with a wall or a paddle.
    pub fn bounce(&mut self, collision: Collision)
        ensures
            final(self)@.velocity == bounced(old(self)@.velocity, collision),
            final(self).transform == old(self).transform,
    {
        let mut reflect_x = false;
        let mut reflect_y = false;
        match collision {
            Collision::Left => {
                reflect_x = self.velocity.0.x > 0;
            },
            Collision::Right => {
                reflect_x = self.velocity.0.x < 0;
            },
            Collision::Top => {
                reflect_y = self.velocity.0.y < 0;
            },
            Collision::Bottom => {
                reflect_y = self.velocity.0.y > 0;
            },
            Collision::Inside => {},
        }
        if reflect_x {
            self.velocity.0.x = negate(self.velocity.0.x);
        }
        if reflect_y {
            self.velocity.0.y = negate(self.velocity.0.y);
        }
    }

    /// Answers the outcome `hit` of a test against an entity that is a goal
    /// where `goal` says so: serves and scores at a goal, bounces elsewhere.
    pub fn respond(&mut self, hit: Option<Collision>, goal: Option<Goal>, scoreboard: &mut Scoreboard)
        ensures
            (Rally { ball: final(self)@, score: final(scoreboard)@ }) == answered(
                Rally { ball: old(self)@, score: old(scoreboard)@ },
                hit,
                goal,
            ),
            hit is Some && goal is Some ==> {
                &&& final(self)@ == old(self)@.served()
                &&& final(scoreboard)@ == old(scoreboard)@.credited(goal->0.goal_owner.opponent())
            },
            hit is None ==> {
                &&& *final(self) == *old(self)
                &&& *final(scoreboard) == *old(scoreboard)
            },
    {
        if let Some(side) = hit {
            if let Some(goal) = goal {
                self.serve();
                scoreboard.credit(goal.goal_owner.scorer());
            } else {
                self.bounce(side);
            }
        }
    }

    /// Tests the ball against one collider and answers what it finds.
    pub fn strike(&mut self, collider: &Collider, scoreboard: &mut Scoreboard)
        ensures
            (Rally { ball: final(self)@, score: final(scoreboard)@ }) == struck(
                Rally { ball: old(self)@, score: old(scoreboard)@ },
                collider@,
            ),
            touches(old(self)@.placement, collider@) && collider.goal is Some ==> {
                &&& final(self)@ == old(self)@.served()
                &&& final(scoreboard)@ == old(scoreboard)@.credited(
                    collider.goal->0.goal_owner.opponent(),
                )
            },
            !touches(old(self)@.placement, collider@) ==> {
                &&& *final(self) == *old(self)
                &&& *final(scoreboard) == *old(scoreboard)
            },
    {
        let hit = collide(
            self.transform.translation,
            self.transform.scale,
            collider.transform.translation,
            collider.transform.scale,
        );
        self.respond(hit, collider.goal, scoreboard);
    }
}

/// The collision pass of a tick: tests the ball against every collider in
/// turn, bounces it off walls and paddles, and on a goal serves it again and
/// credits the side that scored.
pub fn check_for_collisions(ball: &mut Ball, colliders: &Vec<Collider>, scoreboard: &mut Scoreboard)
    ensures
        (Rally { ball: final(ball)@, score: final(scoreboard)@ }) == after_collisions(
            Rally { ball: old(ball)@, score: old(scoreboard)@ },
            obstacles(colliders@),
        ),
{
    let ghost start = Rally { ball: ball@, score: scoreboard@ };
    let ghost all = obstacles(colliders@);
    let mut i: usize = 0;
    while i < colliders.len()
        invariant
            i <= colliders.len(),
            all == obstacles(colliders@),
            (Rally { ball: ball@, score: scoreboard@ }) == after_collisions(
                start,
                all.subrange(0, i as int),
            ),
        decreases colliders.len() - i,
    {
        proof {
            let done = all.subrange(0, i + 1);
            assert(done.drop_last() == all.subrange(0, i as int));
            assert(done.last() == colliders@[i as int]@);
        }
        ball.strike(&colliders[i], scoreboard);
        i = i + 1;
    }
    proof {
        assert(all.subrange(0, i as int) == all);
    }
}

} // verus!
