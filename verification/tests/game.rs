use pong::ball::Ball;
use pong::board::{GoalBundle, GoalLocation, GoalOwner, WallBundle, WallLocation};
use pong::enemy::{EnemyBundle, EnemyDirection};
use pong::fixed::PIXEL;
use pong::game::Game;
use pong::player::{KeyboardInput, PlayerBundle};
use pong::scoreboard::Scoreboard;
use pong::vec2::Vec2;
use pong::velocity::Velocity;

const NO_KEYS: KeyboardInput = KeyboardInput { up: false, down: false };
const UP: KeyboardInput = KeyboardInput { up: true, down: false };

fn assert_standard_board(game: &Game) {
    assert_eq!(
        game.walls,
        vec![
            WallBundle::new(WallLocation::Left),
            WallBundle::new(WallLocation::Right),
            WallBundle::new(WallLocation::Bottom),
            WallBundle::new(WallLocation::Top),
        ]
    );
    assert_eq!(
        game.goals,
        vec![
            GoalBundle::new(GoalLocation::Left, GoalOwner::Player),
            GoalBundle::new(GoalLocation::Right, GoalOwner::Enemy),
        ]
    );
    assert_eq!(game.ball.transform.scale, Vec2::new(30 * PIXEL, 30 * PIXEL));
    assert_eq!(game.player.paddle_bundle.transform.translation.x, -390 * PIXEL);
    assert_eq!(game.enemy.paddle_bundle.transform.translation.x, 390 * PIXEL);
    assert_eq!(game.player.paddle_bundle.transform.scale, Vec2::new(40 * PIXEL, 120 * PIXEL));
    assert_eq!(game.enemy.paddle_bundle.transform.scale, Vec2::new(40 * PIXEL, 120 * PIXEL));
    for y in [game.player.paddle_bundle.transform.translation.y, game.enemy.paddle_bundle.transform.translation.y] {
        assert!(-185 * PIXEL <= y && y <= 185 * PIXEL);
    }
}

#[test]
fn game_starts_on_the_standard_board() {
    let game = Game::with_enemy_direction(EnemyDirection::Up);
    assert_standard_board(&game);
    assert_eq!(game.ball, Ball::new());
    assert_eq!(game.player, PlayerBundle::new());
    assert_eq!(game.enemy, EnemyBundle::with_direction(EnemyDirection::Up));
    assert_eq!(game.scoreboard, Scoreboard::new());
}

#[test]
fn game_with_a_drawn_direction_starts_on_the_standard_board() {
    let game = Game::new();
    assert_standard_board(&game);
    assert_eq!(game.ball, Ball::new());
    assert_eq!(game.scoreboard, Scoreboard::new());
}

#[test]
fn colliders_are_the_walls_the_goals_and_the_paddles() {
    let game = Game::with_enemy_direction(EnemyDirection::Down);
    let colliders = game.colliders();
    assert_eq!(colliders.len(), 8);
    for (i, wall) in game.walls.iter().enumerate() {
        assert_eq!(colliders[i], wall.collider());
    }
    assert_eq!(colliders[4], game.goals[0].collider());
    assert_eq!(colliders[5], game.goals[1].collider());
    assert_eq!(colliders[6], game.player.paddle_bundle.collider());
    assert_eq!(colliders[7], game.enemy.paddle_bundle.collider());
}

#[test]
fn first_tick_moves_the_ball_and_the_paddles() {
    let mut game = Game::with_enemy_direction(EnemyDirection::Up);
    game.tick(&UP, 16_667);
    assert_eq!(game.ball.transform.translation, Vec2::new(4_714_144_281, -4_714_144_281));
    assert_eq!(game.ball.velocity, Velocity(Vec2::new(282_843, -282_843)));
    assert_eq!(game.player.paddle_bundle.transform.translation, Vec2::new(-390 * PIXEL, 11_666_900_000));
    assert_eq!(game.enemy.paddle_bundle.transform.translation, Vec2::new(390 * PIXEL, 5_500_110_000));
    assert_eq!(game.enemy.enemy_controller.direction, EnemyDirection::Up);
    assert_eq!(game.scoreboard, Scoreboard::new());
    assert_standard_board(&game);
}

#[test]
fn tick_tests_the_ball_where_it_is_after_it_has_moved() {
    // Before the tick the ball is clear of the top wall; after it has moved it is not.
    let mut game = Game::with_enemy_direction(EnemyDirection::Up);
    game.ball.transform.translation = Vec2::new(0, 229 * PIXEL);
    game.ball.velocity = Velocity(Vec2::new(0, 283_000));
    game.tick(&NO_KEYS, 16_667);
    assert_eq!(game.ball.transform.translation, Vec2::new(0, 229 * PIXEL + 4_716_761_000));
    assert_eq!(game.ball.velocity, Velocity(Vec2::new(0, -283_000)));
}

#[test]
fn tick_tests_the_ball_against_the_paddles_where_they_are_after_they_have_moved() {
    // The player's paddle reaches the ball only by moving up in this tick.
    let mut game = Game::with_enemy_direction(EnemyDirection::Up);
    game.ball.transform.translation = Vec2::new(-360 * PIXEL, 80 * PIXEL);
    game.ball.velocity = Velocity(Vec2::new(-1_000, 0));
    let mut resting = Game::with_enemy_direction(EnemyDirection::Up);
    resting.ball = game.ball;
    game.tick(&UP, 16_667);
    resting.tick(&NO_KEYS, 16_667);
    assert_eq!(game.ball.velocity, Velocity(Vec2::new(1_000, 0)));
    assert_eq!(resting.ball.velocity, Velocity(Vec2::new(-1_000, 0)));
}

#[test]
fn ball_in_the_player_goal_is_served_again_and_the_enemy_scores() {
    let mut game = Game::with_enemy_direction(EnemyDirection::Down);
    game.ball.transform.translation = Vec2::new(-430 * PIXEL, 0);
    game.ball.velocity = Velocity(Vec2::new(-283_000, 0));
    game.tick(&NO_KEYS, 16_667);
    assert_eq!(game.ball, Ball::new());
    assert_eq!(game.scoreboard, Scoreboard { player_score: 0, enemy_score: 1 });
    assert_standard_board(&game);
}

#[test]
fn ball_in_the_enemy_goal_is_served_again_and_the_player_scores() {
    let mut game = Game::with_enemy_direction(EnemyDirection::Down);
    game.ball.transform.translation = Vec2::new(430 * PIXEL, 50 * PIXEL);
    game.ball.velocity = Velocity(Vec2::new(283_000, 283_000));
    game.scoreboard = Scoreboard { player_score: 6, enemy_score: 2 };
    game.tick(&NO_KEYS, 16_667);
    assert_eq!(game.ball, Ball::new());
    assert_eq!(game.scoreboard, Scoreboard { player_score: 7, enemy_score: 2 });
}

#[test]
fn ball_bounces_off_the_side_wall_beside_the_goal() {
    let mut game = Game::with_enemy_direction(EnemyDirection::Down);
    game.ball.transform.translation = Vec2::new(430 * PIXEL, 150 * PIXEL);
    game.ball.velocity = Velocity(Vec2::new(283_000, 0));
    game.tick(&NO_KEYS, 16_667);
    assert_eq!(game.ball.transform.translation, Vec2::new(430 * PIXEL + 4_716_761_000, 150 * PIXEL));
    assert_eq!(game.ball.velocity, Velocity(Vec2::new(-283_000, 0)));
    assert_eq!(game.scoreboard, Scoreboard::new());
}

#[test]
fn tick_of_no_time_moves_nothing_but_may_turn_the_enemy() {
    let mut game = Game::with_enemy_direction(EnemyDirection::Up);
    game.enemy.paddle_bundle.transform.translation.y = 185 * PIXEL;
    game.tick(&UP, 0);
    assert_eq!(game.ball, Ball::new());
    assert_eq!(game.player, PlayerBundle::new());
    assert_eq!(game.enemy.paddle_bundle.transform.translation, Vec2::new(390 * PIXEL, 185 * PIXEL));
    assert_eq!(game.enemy.enemy_controller.direction, EnemyDirection::Down);
}

#[test]
fn served_ball_stays_in_the_arena_and_the_paddles_within_bounds() {
    let mut game = Game::with_enemy_direction(EnemyDirection::Up);
    for n in 0..3_000u32 {
        let keys = KeyboardInput { up: n % 200 < 120, down: n % 200 >= 100 };
        game.tick(&keys, 16_667);
        assert_standard_board(&game);
        let at = game.ball.transform.translation;
        assert!(-450 * PIXEL < at.x && at.x < 450 * PIXEL);
        assert!(-250 * PIXEL < at.y && at.y < 250 * PIXEL);
    }
    assert!(game.scoreboard.player_score + game.scoreboard.enemy_score > 0);
}
