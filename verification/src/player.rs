//! The paddle that the keyboard moves.

use vstd::prelude::*;
use crate::fixed::PIXEL_PER_SECOND;
use crate::paddle::{slid, slide, within_bounds, PaddleBundle, PaddleColor, PaddleLocation};
use crate::transform::Transform;

verus! {

/// How fast the player's paddle moves while a key is held.
pub const MOVEMENT_SPEED: i64 = 700 * PIXEL_PER_SECOND;

/// Which of the two keys are held down at this moment.
#[derive(Clone, Copy, Debug, PartialEq, Eq, Structural)]
pub struct KeyboardInput {
    pub up: bool,
    pub down: bool,
}

impl KeyboardInput {
    /// The direction that the keys ask for: `1` is up, `-1` is down, `0` is
    /// rest. Where both keys are held, up wins.
    pub open spec fn spec_direction(self) -> int {
        if self.up {
            1
        } else if self.down {
            -1
        } else {
            0
        }
    }

    /// The direction that the keys ask for.
    pub fn direction(&self) -> (d: i64)
        ensures
            d == self.spec_direction(),
    {
        if self.up {
            1
        } else if self.down {
            -1
        } else {
            0
        }
    }
}

/// Marks the paddle that the keyboard moves.
#[derive(Clone, Copy, Debug, PartialEq, Eq, Structural)]
pub struct PlayerController;

/// The player's paddle as it is placed on the board.
#[derive(Clone, Copy, Debug, PartialEq, Eq, Structural)]
pub struct PlayerBundle {
    pub paddle_bundle: PaddleBundle,
    pub player_controller: PlayerController,
}

impl PlayerBundle {
    /// The player's paddle at its start: on the left, in the player's colour.
    pub fn new() -> (player: PlayerBundle)
        ensures
            player.paddle_bundle.transform@.translation == PaddleLocation::Left.spec_position(),
            player.paddle_bundle.transform@.scale == PaddleLocation::Left.spec_size(),
            player.paddle_bundle.color == PaddleColor::Player,
    {
        PlayerBundle {
            paddle_bundle: PaddleBundle::new(PaddleLocation::Left, PaddleColor::Player),
            player_controller: PlayerController,
        }
    }
}

/// Moves the player's paddle for one tick of length `dt` as the keys ask,
/// within the bounds of its travel. The paddle keeps no memory of earlier
/// ticks: its new height depends on its height, the keys and `dt` alone.
pub fn move_player(keyboard_input: &KeyboardInput, paddle: &mut Transform, dt: u32)
    ensures
        final(paddle).translation.y == slid(
            old(paddle).translation.y as int,
            keyboard_input.spec_direction() * MOVEMENT_SPEED,
            dt as int,
        ),
        within_bounds(final(paddle).translation.y as int),
        final(paddle).translation.x == old(paddle).translation.x,
        final(paddle).scale == old(paddle).scale,
{
    let direction: i64 = keyboard_input.direction();
    slide(paddle, direction * MOVEMENT_SPEED, dt);
}

} // verus!
