//! The whole game: one ball, two paddles, the walls, the goals and the
//! score, and the order in which a tick moves them.

use vstd::prelude::*;
use crate::ball::{
    after_collisions, check_for_collisions, lemma_after_collisions_push,
    lemma_pass_keeps_ball_size, touches, Ball, BallModel, Rally, BALL_SIZE,
};
use crate::board::{Goal, GoalBundle, GoalLocation, GoalOwner, WallBundle, WallLocation};
use crate::collider::{obstacles, Collider, Obstacle};
use crate::enemy::{move_enemy, EnemyBundle, EnemyDirection, EnemyModel};
use crate::paddle::{slid, within_bounds, PaddleColor, PaddleLocation};
use crate::player::{move_player, KeyboardInput, PlayerBundle};
use crate::scoreboard::{Score, Scoreboard};
use crate::transform::Placement;
use crate::vec2::Point;
use crate::velocity::{apply_velocity, integrated};

verus! {

/// What a [`Game`] stands for in contracts.
pub ghost struct GameModel {
    pub ball: BallModel,
    pub player: Placement,
    pub enemy: Placement,
    pub enemy_direction: EnemyDirection,
    /// What never moves: the walls, then the goals.
    pub fixtures: Seq<Obstacle>,
    pub score: Score,
}

/// The state of a game between two ticks.
pub struct Game {
    pub ball: Ball,
    pub player: PlayerBundle,
    pub enemy: EnemyBundle,
    pub walls: Vec<WallBundle>,
    pub goals: Vec<GoalBundle>,
    pub scoreboard: Scoreboard,
}

/// The obstacles that walls stand for, in the same order.
pub open spec fn wall_obstacles(walls: Seq<WallBundle>) -> Seq<Obstacle> {
    Seq::new(walls.len(), |i: int| Obstacle { placement: walls[i].transform@, goal: None })
}

/// The obstacles that goals stand for, in the same order.
pub open spec fn goal_obstacles(goals: Seq<GoalBundle>) -> Seq<Obstacle> {
    Seq::new(
        goals.len(),
        |i: int| Obstacle { placement: goals[i].transform@, goal: Some(goals[i].goal) },
    )
}

/// A paddle standing at `y` instead of where it stood.
pub open spec fn raised(paddle: Placement, y: int) -> Placement {
    Placement { translation: Point { x: paddle.translation.x, y }, scale: paddle.scale }
}

/// A wall of the standard board.
pub open spec fn wall_at(location: WallLocation) -> Obstacle {
    Obstacle {
        placement: Placement {
            translation: location.spec_position(),
            scale: location.spec_size(),
        },
        goal: None,
    }
}

/// A goal of the standard board.
pub open spec fn goal_at(location: GoalLocation, goal_owner: GoalOwner) -> Obstacle {
    Obstacle {
        placement: Placement {
            translation: location.spec_position(),
            scale: location.spec_size(),
        },
        goal: Some(Goal { goal_owner }),
    }
}

/// The fixtures of the standard board: the four walls, then the player's
/// goal on the left and the enemy's goal on the right.
pub open spec fn standard_fixtures() -> Seq<Obstacle> {
    seq![
        wall_at(WallLocation::Left),
        wall_at(WallLocation::Right),
        wall_at(WallLocation::Bottom),
        wall_at(WallLocation::Top),
        goal_at(GoalLocation::Left, GoalOwner::Player),
        goal_at(GoalLocation::Right, GoalOwner::Enemy),
    ]
}

impl View for Game {
    type V = GameModel;

    open spec fn view(&self) -> GameModel {
        GameModel {
            ball: self.ball@,
            player: self.player.paddle_bundle.transform@,
            enemy: self.enemy.paddle_bundle.transform@,
            enemy_direction: self.enemy.enemy_controller.direction,
            fixtures: wall_obstacles(self.walls@) + goal_obstacles(self.goals@),
            score: self.scoreboard@,
        }
    }
}

impl GameModel {
    /// Whether this is a game on the standard board: the standard fixtures,
    /// a ball of the standard size, and each paddle of the standard size in
    /// front of its wall, at a height within the bounds of its travel.
    pub open spec fn is_standard(self) -> bool {
        &&& self.fixtures == standard_fixtures()
        &&& self.ball.placement.scale == (Point { x: BALL_SIZE as int, y: BALL_SIZE as int })
        &&& self.player.translation.x == PaddleLocation::Left.spec_position().x
        &&& self.player.scale == PaddleLocation::Left.spec_size()
        &&& within_bounds(self.player.translation.y)
        &&& self.enemy.translation.x == PaddleLocation::Right.spec_position().x
        &&& self.enemy.scale == PaddleLocation::Right.spec_size()
        &&& within_bounds(self.enemy.translation.y)
    }

    /// Everything that the ball is tested against, in the order of the
    /// tests: the fixtures, the player's paddle, the enemy's paddle.
    pub open spec fn colliders(self) -> Seq<Obstacle> {
        self.fixtures.push(Obstacle { placement: self.player, goal: None }).push(
            Obstacle { placement: self.enemy, goal: None },
        )
    }

    /// The game after the paddles have moved for a tick of length `dt`.
    pub open spec fn paddles_moved(self, keys: KeyboardInput, dt: int) -> GameModel {
        let enemy = (EnemyModel {
            y: self.enemy.translation.y,
            direction: self.enemy_direction,
        }).stepped(dt);
        GameModel {
            player: raised(
                self.player,
                slid(
                    self.player.translation.y,
                    keys.spec_direction() * crate::player::MOVEMENT_SPEED,
                    dt,
                ),
            ),
            enemy: raised(self.enemy, enemy.y),
            enemy_direction: enemy.direction,
            ..self
        }
    }

    /// The game after the ball has moved by its velocity for `dt`.
    pub open spec fn ball_moved(self, dt: int) -> GameModel {
        GameModel {
            ball: BallModel {
                placement: Placement {
                    translation: integrated(
                        self.ball.placement.translation,
                        self.ball.velocity,
                        dt,
                    ),
                    scale: self.ball.placement.scale,
                },
                velocity: self.ball.velocity,
            },
            ..self
        }
    }

    /// The game after the ball has been tested against every collider.
    pub open spec fn collisions_checked(self) -> GameModel {
        let rally = after_collisions(
            Rally { ball: self.ball, score: self.score },
            self.colliders(),
        );
        GameModel { ball: rally.ball, score: rally.score, ..self }
    }

    /// The game one tick of length `dt` later: first the paddles move, then
    /// the ball moves, then the ball is tested against every collider as
    /// they now stand.
    pub open spec fn ticked(self, keys: KeyboardInput, dt: int) -> GameModel {
        self.paddles_moved(keys, dt).ball_moved(dt).collisions_checked()
    }
}

/// Whatever the keys and however long the tick, both paddles end it within
/// the bounds of their travel: also with no time passed, and also where a
/// paddle started outside them.
pub proof fn lemma_tick_keeps_paddles_within_bounds(game: GameModel, keys: KeyboardInput, dt: int)
    ensures
        within_bounds(game.ticked(keys, dt).player.translation.y),
        within_bounds(game.ticked(keys, dt).enemy.translation.y),
{
}

/// A tick of a game on the standard board leaves a game on the standard
/// board: one ball of its size, two paddles within bounds in front of their
/// walls, and the fixtures where they were.
pub proof fn lemma_tick_keeps_standard_board(game: GameModel, keys: KeyboardInput, dt: int)
    requires
        game.is_standard(),
    ensures
        game.ticked(keys, dt).is_standard(),
{
    let moved = game.paddles_moved(keys, dt).ball_moved(dt);
    lemma_pass_keeps_ball_size(Rally { ball: moved.ball, score: moved.score }, moved.colliders());
}

/// On the standard board a ball that, after it has moved, overlaps a goal is
/// served again from the centre at the serve velocity, and the tick credits
/// the side that does not own the goal, once: the enemy for the player's
/// goal on the left, the player for the enemy's goal on the right.
pub proof fn lemma_goal_serves_ball_and_credits_opponent(
    game: GameModel,
    keys: KeyboardInput,
    dt: int,
    location: GoalLocation,
    goal_owner: GoalOwner,
)
    requires
        game.is_standard(),
        (location == GoalLocation::Left && goal_owner == GoalOwner::Player) || (location
            == GoalLocation::Right && goal_owner == GoalOwner::Enemy),
        touches(
            game.paddles_moved(keys, dt).ball_moved(dt).ball.placement,
            goal_at(location, goal_owner),
        ),
    ensures
        game.ticked(keys, dt).ball == game.paddles_moved(keys, dt).ball_moved(dt).ball.served(),
        game.ticked(keys, dt).ball.placement.translation == crate::ball::starting_position(),
        game.ticked(keys, dt).ball.velocity == crate::ball::serve_velocity(),
        game.ticked(keys, dt).score == game.score.credited(goal_owner.opponent()),
{
    let moved = game.paddles_moved(keys, dt).ball_moved(dt);
    let start = Rally { ball: moved.ball, score: moved.score };
    let left_wall = wall_at(WallLocation::Left);
    let right_wall = wall_at(WallLocation::Right);
    let bottom_wall = wall_at(WallLocation::Bottom);
    let top_wall = wall_at(WallLocation::Top);
    let left_goal = goal_at(GoalLocation::Left, GoalOwner::Player);
    let right_goal = goal_at(GoalLocation::Right, GoalOwner::Enemy);
    let player = Obstacle { placement: moved.player, goal: None };
    let enemy = Obstacle { placement: moved.enemy, goal: None };
    let s0 = Seq::<Obstacle>::empty();
    let s1 = s0.push(left_wall);
    let s2 = s1.push(right_wall);
    let s3 = s2.push(bottom_wall);
    let s4 = s3.push(top_wall);
    let s5 = s4.push(left_goal);
    let s6 = s5.push(right_goal);
    let s7 = s6.push(player);
    let s8 = s7.push(enemy);
    assert(s6 =~= standard_fixtures());
    assert(s8 == moved.colliders());
    assert(after_collisions(start, s0) == start);
    lemma_after_collisions_push(start, s0, left_wall);
    lemma_after_collisions_push(start, s1, right_wall);
    lemma_after_collisions_push(start, s2, bottom_wall);
    lemma_after_collisions_push(start, s3, top_wall);
    lemma_after_collisions_push(start, s4, left_goal);
    lemma_after_collisions_push(start, s5, right_goal);
    lemma_after_collisions_push(start, s6, player);
    lemma_after_collisions_push(start, s7, enemy);
    // The walls leave the ball where it is. The goal that it overlaps serves
    // it, and from the centre it reaches neither the other goal nor a paddle.
    let after_walls = after_collisions(start, s4);
    assert(after_walls.ball.placement == start.ball.placement);
    assert(after_walls.score == start.score);
    let served = moved.ball.served();
    assert(!touches(served.placement, right_goal));
    assert(!touches(served.placement, player));
    assert(!touches(served.placement, enemy));
    assert(!(touches(start.ball.placement, left_goal) && touches(
        start.ball.placement,
        right_goal,
    )));
}

impl Game {
    /// A game at its start, the enemy's paddle travelling in `direction`:
    /// the ball served from the centre, both paddles half way up, the four
    /// walls and the two goals in place, and no score.
    pub fn with_enemy_direction(direction: EnemyDirection) -> (game: Game)
        ensures
            game@.ball.placement.translation == crate::ball::starting_position(),
            game@.ball.velocity == crate::ball::serve_velocity(),
            game@.player.translation == PaddleLocation::Left.spec_position(),
            game@.enemy.translation == PaddleLocation::Right.spec_position(),
            game.player.paddle_bundle.color == PaddleColor::Player,
            game.enemy.paddle_bundle.color == PaddleColor::Enemy,
            game@.score == (Score { player: 0, enemy: 0 }),
            game@.enemy_direction == direction,
            game@.is_standard(),
    {
        let mut walls: Vec<WallBundle> = Vec::new();
        walls.push(WallBundle::new(WallLocation::Left));
        walls.push(WallBundle::new(WallLocation::Right));
        walls.push(WallBundle::new(WallLocation::Bottom));
        walls.push(WallBundle::new(WallLocation::Top));
        let mut goals: Vec<GoalBundle> = Vec::new();
        goals.push(GoalBundle::new(GoalLocation::Left, GoalOwner::Player));
        goals.push(GoalBundle::new(GoalLocation::Right, GoalOwner::Enemy));
        let game = Game {
            ball: Ball::new(),
            player: PlayerBundle::new(),
            enemy: EnemyBundle::with_direction(direction),
            walls,
            goals,
            scoreboard: Scoreboard::new(),
        };
        proof {
            assert(game@.fixtures =~= standard_fixtures());
        }
        game
    }

    /// A game at its start, the enemy's paddle travelling in a direction
    /// drawn at random.
    pub fn new() -> (game: Game)
        ensures
            game@.ball.placement.translation == crate::ball::starting_position(),
            game@.ball.velocity == crate::ball::serve_velocity(),
            game@.player.translation == PaddleLocation::Left.spec_position(),
            game@.enemy.translation == PaddleLocation::Right.spec_position(),
            game.player.paddle_bundle.color == PaddleColor::Player,
            game.enemy.paddle_bundle.color == PaddleColor::Enemy,
            game@.score == (Score { player: 0, enemy: 0 }),
            game@.is_standard(),
    {
        let enemy = EnemyBundle::new();
        Self::with_enemy_direction(enemy.enemy_controller.direction)
    }

    /// Everything that the ball is tested against, in the order of the tests.
    pub fn colliders(&self) -> (all: Vec<Collider>)
        ensures
            obstacles(all@) == self@.colliders(),
    {
        let mut all: Vec<Collider> = Vec::new();
        let mut i: usize = 0;
        while i < self.walls.len()
            invariant
                i <= self.walls.len(),
                obstacles(all@) == wall_obstacles(self.walls@).subrange(0, i as int),
            decreases self.walls.len() - i,
        {
            let ghost before = obstacles(all@);
            let wall = self.walls[i].collider();
            all.push(wall);
            i = i + 1;
            assert(obstacles(all@) =~= before.push(wall@));
            assert(wall@ == wall_obstacles(self.walls@)[i - 1]);
            assert(obstacles(all@) =~= wall_obstacles(self.walls@).subrange(0, i as int));
        }
        assert(obstacles(all@) =~= wall_obstacles(self.walls@));
        let mut j: usize = 0;
        while j < self.goals.len()
            invariant
                j <= self.goals.len(),
                obstacles(all@) == wall_obstacles(self.walls@) + goal_obstacles(
                    self.goals@,
                ).subrange(0, j as int),
            decreases self.goals.len() - j,
        {
            let ghost before = obstacles(all@);
            let goal = self.goals[j].collider();
            all.push(goal);
            j = j + 1;
            assert(obstacles(all@) =~= before.push(goal@));
            assert(goal@ == goal_obstacles(self.goals@)[j - 1]);
            assert(obstacles(all@) =~= wall_obstacles(self.walls@) + goal_obstacles(
                self.goals@,
            ).subrange(0, j as int));
        }
        assert(obstacles(all@) =~= self@.fixtures);
        all.push(self.player.paddle_bundle.collider());
        all.push(self.enemy.paddle_bundle.collider());
        assert(obstacles(all@) =~= self@.colliders());
        all
    }

    /// Advances the game by one tick of length `dt`: the paddles move, then
    /// the ball moves, then the ball is tested against every collider.
    pub fn tick(&mut self, keyboard_input: &KeyboardInput, dt: u32)
        ensures
            final(self)@ == old(self)@.ticked(*keyboard_input, dt as int),
            within_bounds(final(self)@.player.translation.y),
            within_bounds(final(self)@.enemy.translation.y),
            final(self).walls == old(self).walls,
            final(self).goals == old(self).goals,
            final(self).player.paddle_bundle.color == old(self).player.paddle_bundle.color,
            final(self).enemy.paddle_bundle.color == old(self).enemy.paddle_bundle.color,
            old(self)@.is_standard() ==> final(self)@.is_standard(),
    {
        proof {
            if self@.is_standard() {
                lemma_tick_keeps_standard_board(self@, *keyboard_input, dt as int);
            }
        }
        move_player(keyboard_input, &mut self.player.paddle_bundle.transform, dt);
        move_enemy(&mut self.enemy.paddle_bundle.transform, &mut self.enemy.enemy_controller, dt);
        apply_velocity(&mut self.ball.transform, &self.ball.velocity, dt);
        let colliders = self.colliders();
        check_for_collisions(&mut self.ball, &colliders, &mut self.scoreboard);
    }
}

} // verus!
