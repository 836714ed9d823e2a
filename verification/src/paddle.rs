//! Paddles: where they stand, how far they may travel, and how they move.

use vstd::prelude::*;
use crate::board::{BOTTOM_WALL, LEFT_WALL, RIGHT_WALL, TOP_WALL, WALL_THICKNESS};
use crate::collider::Collider;
use crate::fixed::{clamped, PIXEL};
use crate::transform::Transform;
use crate::vec2::{Point, Vec2};

verus! {

/// The distance between a paddle's centre and the centre line of the wall
/// behind it.
pub const GAP_BETWEEN_PADDLE_AND_WALL: i64 = 60 * PIXEL;

/// How high a paddle is.
pub const PADDLE_HEIGHT: i64 = 120 * PIXEL;

/// How wide a paddle is.
pub const PADDLE_WIDTH: i64 = 40 * PIXEL;

/// The highest y that a paddle's centre may have: the top wall's centre line,
/// lowered by half a wall and half a paddle.
pub open spec fn top_bound() -> int {
    TOP_WALL - WALL_THICKNESS / 2 - PADDLE_HEIGHT / 2
}

/// The lowest y that a paddle's centre may have: the bottom wall's centre
/// line, raised by half a wall and half a paddle.
pub open spec fn bottom_bound() -> int {
    BOTTOM_WALL + WALL_THICKNESS / 2 + PADDLE_HEIGHT / 2
}

/// Whether `y` is a height at which a paddle may stand.
pub open spec fn within_bounds(y: int) -> bool {
    bottom_bound() <= y <= top_bound()
}

/// The height of a paddle that was at `y` and has moved at `velocity` for
/// `dt`: as far as the bounds let it.
pub open spec fn slid(y: int, velocity: int, dt: int) -> int {
    clamped(y + velocity * dt, bottom_bound(), top_bound())
}

/// Wherever a paddle was and however far it was moved, it ends within bounds.
pub proof fn lemma_slid_within_bounds(y: int, velocity: int, dt: int)
    ensures
        within_bounds(slid(y, velocity, dt)),
{
}

/// The bounds of a paddle's travel, lowest first.
pub fn bounds() -> (r: (i64, i64))
    ensures
        r.0 == bottom_bound(),
        r.1 == top_bound(),
        r.0 <= r.1,
{
    let top: i64 = TOP_WALL - WALL_THICKNESS / 2 - PADDLE_HEIGHT / 2;
    let bottom: i64 = BOTTOM_WALL + WALL_THICKNESS / 2 + PADDLE_HEIGHT / 2;
    (bottom, top)
}

/// Moves a paddle at `velocity` for `dt`, as far as the bounds let it, and
/// changes nothing but its height.
pub fn slide(paddle: &mut Transform, velocity: i64, dt: u32)
    ensures
        final(paddle).translation.y == slid(
            old(paddle).translation.y as int,
            velocity as int,
            dt as int,
        ),
        within_bounds(final(paddle).translation.y as int),
        final(paddle).translation.x == old(paddle).translation.x,
        final(paddle).scale == old(paddle).scale,
{
    proof {
        crate::fixed::lemma_product_bounds(velocity as int, dt as int);
    }
    let (bottom, top) = bounds();
    let target: i128 = paddle.translation.y as i128 + (velocity as i128) * (dt as i128);
    if target < bottom as i128 {
        paddle.translation.y = bottom;
    } else if target > top as i128 {
        paddle.translation.y = top;
    } else {
        paddle.translation.y = target as i64;
    }
}

/// The side of the board on which a paddle stands.
#[derive(Clone, Copy, Debug, PartialEq, Eq, Structural)]
pub enum PaddleLocation {
    Left,
    Right,
}

/// Whose colour a paddle wears: that of the side that owns it.
#[derive(Clone, Copy, Debug, PartialEq, Eq, Structural)]
pub enum PaddleColor {
    Player,
    Enemy,
}

impl PaddleLocation {
    /// Where a paddle starts: in front of its wall, half way up.
    pub open spec fn spec_position(self) -> Point {
        match self {
            PaddleLocation::Left => Point { x: LEFT_WALL + GAP_BETWEEN_PADDLE_AND_WALL, y: 0 },
            PaddleLocation::Right => Point { x: RIGHT_WALL - GAP_BETWEEN_PADDLE_AND_WALL, y: 0 },
        }
    }

    /// The extent of a paddle.
    pub open spec fn spec_size(self) -> Point {
        Point { x: PADDLE_WIDTH as int, y: PADDLE_HEIGHT as int }
    }

    /// Where a paddle on this side starts.
    pub fn position(&self) -> (p: Vec2)
        ensures
            p@ == self.spec_position(),
    {
        match self {
            PaddleLocation::Left => Vec2::new(LEFT_WALL + GAP_BETWEEN_PADDLE_AND_WALL, 0),
            PaddleLocation::Right => Vec2::new(RIGHT_WALL - GAP_BETWEEN_PADDLE_AND_WALL, 0),
        }
    }

    /// The width and the height of a paddle.
    pub fn size(&self) -> (s: Vec2)
        ensures
            s@ == self.spec_size(),
    {
        Vec2::new(PADDLE_WIDTH, PADDLE_HEIGHT)
    }
}

/// A paddle as it is placed on the board.
#[derive(Clone, Copy, Debug, PartialEq, Eq, Structural)]
pub struct PaddleBundle {
    pub transform: Transform,
    pub color: PaddleColor,
}

impl PaddleBundle {
    /// A paddle at its start on the side `location`, in the colour `color`.
    pub fn new(location: PaddleLocation, color: PaddleColor) -> (paddle: PaddleBundle)
        ensures
            paddle.transform@.translation == location.spec_position(),
            paddle.transform@.scale == location.spec_size(),
            paddle.color == color,
            within_bounds(paddle.transform.translation.y as int),
    {
        PaddleBundle {
            transform: Transform { translation: location.position(), scale: location.size() },
            color,
        }
    }

    /// The paddle as the ball meets it: a collider that is no goal.
    pub fn collider(&self) -> (c: Collider)
        ensures
            c.transform == self.transform,
            c.goal is None,
    {
        Collider { transform: self.transform, goal: None }
    }
}

} // verus!
