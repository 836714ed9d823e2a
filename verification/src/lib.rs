//! A two-paddle ball game on a fixed board, as a tick-driven simulation:
//! one ball, two paddles, four walls, two goals and a score.
//!
//! A tick of length `dt` moves the paddles, then moves the ball by its
//! velocity, then tests the ball against everything that it can hit: it
//! bounces off walls and paddles, and in a goal it is served again while
//! the other side scores.
//!
//! All quantities are whole numbers. A length counts nanopixels, a time
//! counts microseconds, and a velocity counts nanopixels per microsecond, so
//! that a displacement `velocity * dt` is an exact length. Nothing overflows:
//! a coordinate, a velocity or a score that would leave the range of its
//! type stays at the end of the range.

pub mod ball;
pub mod board;
pub mod collider;
pub mod enemy;
pub mod fixed;
pub mod game;
pub mod paddle;
pub mod player;
pub mod scoreboard;
pub mod transform;
pub mod vec2;
pub mod velocity;
