use pong::enemy::{move_enemy, EnemyBundle, EnemyController, EnemyDirection};
use pong::fixed::PIXEL;
use pong::paddle::{slide, PaddleBundle, PaddleColor, PaddleLocation};
use pong::player::{move_player, KeyboardInput};
use pong::transform::Transform;
use pong::vec2::Vec2;

const TOP: i64 = 185 * PIXEL;
const BOTTOM: i64 = -185 * PIXEL;

fn paddle_at(y: i64) -> Transform {
    Transform { translation: Vec2::new(-390 * PIXEL, y), scale: Vec2::new(40 * PIXEL, 120 * PIXEL) }
}

fn keys(up: bool, down: bool) -> KeyboardInput {
    KeyboardInput { up, down }
}

fn player_after(y: i64, up: bool, down: bool, dt: u32) -> Transform {
    let mut paddle = paddle_at(y);
    move_player(&keys(up, down), &mut paddle, dt);
    paddle
}

fn enemy_after(y: i64, direction: EnemyDirection, dt: u32) -> (i64, EnemyDirection) {
    let mut paddle = paddle_at(y);
    let mut controller = EnemyController { direction };
    move_enemy(&mut paddle, &mut controller, dt);
    assert_eq!(paddle.translation.x, -390 * PIXEL);
    assert_eq!(paddle.scale, Vec2::new(40 * PIXEL, 120 * PIXEL));
    (paddle.translation.y, controller.direction)
}

#[test]
fn keys_give_a_direction() {
    assert_eq!(keys(true, false).direction(), 1);
    assert_eq!(keys(false, true).direction(), -1);
    assert_eq!(keys(false, false).direction(), 0);
    assert_eq!(keys(true, true).direction(), 1);
}

#[test]
fn player_moves_by_speed_times_dt() {
    // 700 pixels per second for a sixtieth of a second
    assert_eq!(player_after(0, true, false, 16_667), paddle_at(11_666_900_000));
    assert_eq!(player_after(0, false, true, 16_667), paddle_at(-11_666_900_000));
    assert_eq!(player_after(10 * PIXEL, true, false, 1_000), paddle_at(10 * PIXEL + 700_000_000));
}

#[test]
fn player_rests_without_a_key() {
    assert_eq!(player_after(42, false, false, 16_667), paddle_at(42));
    assert_eq!(player_after(42, false, false, u32::MAX), paddle_at(42));
}

#[test]
fn player_with_both_keys_moves_up() {
    assert_eq!(player_after(0, true, true, 1_000), paddle_at(700_000_000));
}

#[test]
fn player_stops_at_the_bounds() {
    assert_eq!(player_after(180 * PIXEL, true, false, 16_667), paddle_at(TOP));
    assert_eq!(player_after(-180 * PIXEL, false, true, 16_667), paddle_at(BOTTOM));
    assert_eq!(player_after(TOP, true, false, 16_667), paddle_at(TOP));
    assert_eq!(player_after(BOTTOM, false, true, 16_667), paddle_at(BOTTOM));
}

#[test]
fn player_stays_within_bounds_for_extreme_inputs() {
    assert_eq!(player_after(0, true, false, u32::MAX), paddle_at(TOP));
    assert_eq!(player_after(0, false, true, u32::MAX), paddle_at(BOTTOM));
    assert_eq!(player_after(i64::MAX, true, false, u32::MAX), paddle_at(TOP));
    assert_eq!(player_after(i64::MIN, false, true, u32::MAX), paddle_at(BOTTOM));
    assert_eq!(player_after(i64::MAX, false, false, 0), paddle_at(TOP));
    assert_eq!(player_after(i64::MIN, false, false, 0), paddle_at(BOTTOM));
    assert_eq!(player_after(i64::MIN, true, false, u32::MAX), paddle_at(BOTTOM));
}

#[test]
fn player_does_not_move_in_no_time() {
    assert_eq!(player_after(7 * PIXEL, true, false, 0), paddle_at(7 * PIXEL));
    assert_eq!(player_after(TOP, false, true, 0), paddle_at(TOP));
}

#[test]
fn held_key_keeps_the_paddle_at_the_bound() {
    let mut paddle = paddle_at(0);
    for _ in 0..100 {
        move_player(&keys(true, false), &mut paddle, 16_667);
        assert!(BOTTOM <= paddle.translation.y && paddle.translation.y <= TOP);
    }
    assert_eq!(paddle, paddle_at(TOP));
}

#[test]
fn slide_moves_within_bounds_and_keeps_the_rest() {
    let mut paddle = paddle_at(0);
    slide(&mut paddle, 5, 3);
    assert_eq!(paddle, paddle_at(15));
    slide(&mut paddle, i64::MIN, u32::MAX);
    assert_eq!(paddle, paddle_at(BOTTOM));
    slide(&mut paddle, i64::MAX, u32::MAX);
    assert_eq!(paddle, paddle_at(TOP));
}

#[test]
fn enemy_moves_by_speed_times_dt_in_its_direction() {
    // 330 pixels per second for a sixtieth of a second
    assert_eq!(enemy_after(0, EnemyDirection::Up, 16_667), (5_500_110_000, EnemyDirection::Up));
    assert_eq!(enemy_after(0, EnemyDirection::Down, 16_667), (-5_500_110_000, EnemyDirection::Down));
}

#[test]
fn enemy_turns_on_the_bound_that_it_was_travelling_to() {
    assert_eq!(enemy_after(TOP, EnemyDirection::Up, 1_000), (TOP - 330_000_000, EnemyDirection::Down));
    assert_eq!(enemy_after(BOTTOM, EnemyDirection::Down, 1_000), (BOTTOM + 330_000_000, EnemyDirection::Up));
}

#[test]
fn enemy_does_not_turn_on_the_bound_that_it_is_leaving() {
    assert_eq!(enemy_after(TOP, EnemyDirection::Down, 1_000), (TOP - 330_000_000, EnemyDirection::Down));
    assert_eq!(enemy_after(BOTTOM, EnemyDirection::Up, 1_000), (BOTTOM + 330_000_000, EnemyDirection::Up));
}

#[test]
fn enemy_does_not_turn_short_of_the_bound() {
    assert_eq!(enemy_after(TOP - 1, EnemyDirection::Up, 1_000), (TOP, EnemyDirection::Up));
    assert_eq!(enemy_after(BOTTOM + 1, EnemyDirection::Down, 1_000), (BOTTOM, EnemyDirection::Down));
    assert_eq!(enemy_after(TOP + 1, EnemyDirection::Up, 1_000), (TOP, EnemyDirection::Up));
}

#[test]
fn enemy_turns_in_no_time_but_does_not_move() {
    assert_eq!(enemy_after(TOP, EnemyDirection::Up, 0), (TOP, EnemyDirection::Down));
    assert_eq!(enemy_after(0, EnemyDirection::Up, 0), (0, EnemyDirection::Up));
}

#[test]
fn enemy_stays_within_bounds_for_extreme_inputs() {
    assert_eq!(enemy_after(0, EnemyDirection::Up, u32::MAX), (TOP, EnemyDirection::Up));
    assert_eq!(enemy_after(0, EnemyDirection::Down, u32::MAX), (BOTTOM, EnemyDirection::Down));
    assert_eq!(enemy_after(i64::MAX, EnemyDirection::Up, u32::MAX), (TOP, EnemyDirection::Up));
    assert_eq!(enemy_after(i64::MIN, EnemyDirection::Down, 0), (BOTTOM, EnemyDirection::Down));
}

#[test]
fn enemy_traces_a_triangle_wave_that_repeats() {
    // A stride of 33 pixels: twelve strides are the least that cover the 370 pixels between the bounds.
    let dt: u32 = 100_000;
    let stride: i64 = 33 * PIXEL;
    let mut paddle = paddle_at(BOTTOM);
    let mut controller = EnemyController { direction: EnemyDirection::Down };
    let mut heights: Vec<i64> = Vec::new();
    for _ in 0..48 {
        move_enemy(&mut paddle, &mut controller, dt);
        heights.push(paddle.translation.y);
    }
    for n in 1..=11usize {
        assert_eq!(heights[n - 1], BOTTOM + n as i64 * stride);
        assert_eq!(heights[12 + n - 1], TOP - n as i64 * stride);
    }
    assert_eq!(heights[11], TOP);
    assert_eq!(heights[23], BOTTOM);
    for n in 0..24usize {
        assert_eq!(heights[n + 24], heights[n]);
    }
    assert_eq!(controller.direction, EnemyDirection::Down);
}

#[test]
fn a_drawn_number_stands_for_a_direction() {
    assert_eq!(EnemyDirection::from_sample(0), EnemyDirection::Up);
    assert_eq!(EnemyDirection::from_sample(1), EnemyDirection::Down);
    assert_eq!(EnemyDirection::from_sample(-1), EnemyDirection::Down);
    assert_eq!(EnemyDirection::from_sample(i32::MAX), EnemyDirection::Down);
}

#[test]
fn sampling_draws_both_directions() {
    let mut rng = rand::thread_rng();
    let mut ups: u32 = 0;
    let mut downs: u32 = 0;
    for _ in 0..400 {
        match EnemyDirection::sample(&mut rng) {
            EnemyDirection::Up => ups += 1,
            EnemyDirection::Down => downs += 1,
        }
    }
    assert_eq!(ups + downs, 400);
    assert!(ups > 0);
    assert!(downs > 0);
}

#[test]
fn enemy_bundle_is_the_right_paddle_in_the_enemy_colour() {
    let enemy = EnemyBundle::with_direction(EnemyDirection::Down);
    assert_eq!(enemy.paddle_bundle, PaddleBundle::new(PaddleLocation::Right, PaddleColor::Enemy));
    assert_eq!(enemy.enemy_controller, EnemyController { direction: EnemyDirection::Down });
    let drawn = EnemyBundle::new();
    assert_eq!(drawn.paddle_bundle, enemy.paddle_bundle);
    assert!(matches!(drawn.enemy_controller.direction, EnemyDirection::Up | EnemyDirection::Down));
}
