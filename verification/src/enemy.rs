//! The paddle that moves by itself, up and down between the bounds.

use vstd::prelude::*;
use rand::Rng;
use rand::rngs::ThreadRng;
use crate::fixed::{clamped, PIXEL_PER_SECOND};
use crate::paddle::{
    bottom_bound, bounds, slid, slide, top_bound, within_bounds, PaddleBundle, PaddleColor,
    PaddleLocation,
};
use crate::transform::Transform;

verus! {

/// How fast the enemy's paddle moves.
pub const MOVEMENT_SPEED: i64 = 330 * PIXEL_PER_SECOND;

/// `rand::rngs::ThreadRng`, the generator of random numbers that `rand`
/// keeps for each thread. Nothing is known of what is inside.
#[verifier::external_type_specification]
#[verifier::external_body]
pub struct ExThreadRng(rand::rngs::ThreadRng);

/// `rand::thread_rng` hands out the calling thread's generator. Nothing is
/// claimed of it. It panics where the system has no randomness to seed the
/// generator with, which no argument can prevent.
pub assume_specification[ rand::thread_rng ]() -> (rng: ThreadRng);

/// `Rng::gen_range` on an inclusive range of `i32`: the number drawn lies in
/// the range. Which number it is depends on chance, so no more is claimed.
/// The outside function panics on an empty range, which `requires` excludes.
#[verifier::external_body]
fn gen_range_inclusive(rng: &mut ThreadRng, low: i32, high: i32) -> (n: i32)
    requires
        low <= high,
    ensures
        low <= n <= high,
{
    rng.gen_range(low..=high)
}

/// The way the enemy's paddle is travelling.
#[derive(Clone, Copy, Debug, PartialEq, Eq, Structural)]
pub enum EnemyDirection {
    Up,
    Down,
}

impl EnemyDirection {
    /// The direction that a drawn number stands for.
    pub open spec fn spec_from_sample(n: int) -> EnemyDirection {
        if n == 0 {
            EnemyDirection::Up
        } else {
            EnemyDirection::Down
        }
    }

    /// `1` for up and `-1` for down.
    pub open spec fn sign(self) -> int {
        match self {
            EnemyDirection::Up => 1,
            EnemyDirection::Down => -1,
        }
    }

    /// The direction after the paddle has looked at its height `y`: it turns
    /// round exactly where it stands on the bound that it was travelling to.
    pub open spec fn turned(self, y: int) -> EnemyDirection {
        match self {
            EnemyDirection::Up => if y == top_bound() {
                EnemyDirection::Down
            } else {
                EnemyDirection::Up
            },
            EnemyDirection::Down => if y == bottom_bound() {
                EnemyDirection::Up
            } else {
                EnemyDirection::Down
            },
        }
    }

    /// Turns a drawn number into a direction: `0` is up, anything else down.
    pub fn from_sample(n: i32) -> (direction: EnemyDirection)
        ensures
            direction == Self::spec_from_sample(n as int),
    {
        match n {
            0 => EnemyDirection::Up,
            _ => EnemyDirection::Down,
        }
    }

    /// Draws a direction from `rng`: the number drawn is 0 or 1, and the
    /// direction is the one that it stands for.
    pub fn sample(rng: &mut ThreadRng) -> (direction: EnemyDirection)
        ensures
            direction == Self::spec_from_sample(0) || direction == Self::spec_from_sample(1),
    {
        Self::from_sample(gen_range_inclusive(rng, 0, 1))
    }
}

/// What the enemy's paddle is from tick to tick: a height and a direction.
pub ghost struct EnemyModel {
    pub y: int,
    pub direction: EnemyDirection,
}

/// How far the enemy's paddle travels in a tick of length `dt`, the bounds
/// permitting.
pub open spec fn stride(dt: int) -> int {
    MOVEMENT_SPEED * dt
}

/// The distance between the two bounds of a paddle's travel.
pub open spec fn span() -> int {
    top_bound() - bottom_bound()
}

impl EnemyModel {
    /// The paddle one tick of length `dt` later.
    pub open spec fn stepped(self, dt: int) -> EnemyModel {
        let direction = self.direction.turned(self.y);
        EnemyModel { y: slid(self.y, direction.sign() * MOVEMENT_SPEED, dt), direction }
    }

    /// The paddle after `ticks` ticks of length `dt` each.
    pub open spec fn run(self, dt: int, ticks: nat) -> EnemyModel
        decreases ticks,
    {
        if ticks == 0 {
            self
        } else {
            self.run(dt, (ticks - 1) as nat).stepped(dt)
        }
    }

    /// The paddle standing on the lower bound and about to turn upwards.
    pub open spec fn at_bottom() -> EnemyModel {
        EnemyModel { y: bottom_bound(), direction: EnemyDirection::Down }
    }

    /// The paddle standing on the upper bound and about to turn downwards.
    pub open spec fn at_top() -> EnemyModel {
        EnemyModel { y: top_bound(), direction: EnemyDirection::Up }
    }
}

/// Running `first + then` ticks is running `first` ticks and then `then` more.
pub proof fn lemma_run_splits(start: EnemyModel, dt: int, first: nat, then: nat)
    ensures
        start.run(dt, first + then) == start.run(dt, first).run(dt, then),
    decreases then,
{
    if then > 0 {
        lemma_run_splits(start, dt, first, (then - 1) as nat);
        assert((first + then - 1) as nat == first + (then - 1) as nat);
    }
}

/// One tick, written out: the paddle turns round where it stands on the
/// bound that it was travelling to, and then moves one stride in the
/// direction that it now has, the bounds permitting.
pub proof fn lemma_enemy_step(start: EnemyModel, dt: int)
    ensures
        start.stepped(dt) == (EnemyModel {
            y: match start.direction.turned(start.y) {
                EnemyDirection::Up => clamped(start.y + stride(dt), bottom_bound(), top_bound()),
                EnemyDirection::Down => clamped(start.y - stride(dt), bottom_bound(), top_bound()),
            },
            direction: start.direction.turned(start.y),
        }),
        start.direction.turned(start.y) != start.direction <==> {
            ||| start.direction == EnemyDirection::Up && start.y == top_bound()
            ||| start.direction == EnemyDirection::Down && start.y == bottom_bound()
        },
        within_bounds(start.stepped(dt).y),
{
    assert((1 * MOVEMENT_SPEED) * dt == 1 * (MOVEMENT_SPEED * dt)) by (nonlinear_arith);
    assert((-1 * MOVEMENT_SPEED) * dt == -1 * (MOVEMENT_SPEED * dt)) by (nonlinear_arith);
}

/// How whole numbers of strides add up.
proof fn lemma_strides(count: int, d: int)
    by (nonlinear_arith)
    requires
        count >= 1,
        d > 0,
    ensures
        (count - 1) * d + d == count * d,
        (count - 1) * d >= 0,
        count == 1 ==> (count - 1) * d == 0,
{
}

/// The rising edge of the wave: a paddle that travels upwards below the
/// upper bound rises by one stride each tick and keeps its direction, until
/// the tick that takes it to the bound, where it stops.
pub proof fn lemma_enemy_rises(y: int, dt: int, ticks: nat)
    requires
        dt > 0,
        bottom_bound() <= y,
        ticks >= 1,
        y + (ticks - 1) * stride(dt) < top_bound(),
    ensures
        (EnemyModel { y, direction: EnemyDirection::Up }).run(dt, ticks) == (EnemyModel {
            y: if y + ticks * stride(dt) < top_bound() {
                y + ticks * stride(dt)
            } else {
                top_bound()
            },
            direction: EnemyDirection::Up,
        }),
    decreases ticks,
{
    let start = EnemyModel { y, direction: EnemyDirection::Up };
    let before = start.run(dt, (ticks - 1) as nat);
    assert(start.run(dt, ticks) == before.stepped(dt));
    lemma_strides(ticks as int, stride(dt));
    if ticks > 1 {
        lemma_strides(ticks - 1, stride(dt));
        lemma_enemy_rises(y, dt, (ticks - 1) as nat);
    }
    assert(before == (EnemyModel {
        y: y + (ticks - 1) * stride(dt),
        direction: EnemyDirection::Up,
    }));
    lemma_enemy_step(before, dt);
}

/// The falling edge of the wave: a paddle that travels downwards above the
/// lower bound falls by one stride each tick and keeps its direction, until
/// the tick that takes it to the bound, where it stops.
pub proof fn lemma_enemy_falls(y: int, dt: int, ticks: nat)
    requires
        dt > 0,
        y <= top_bound(),
        ticks >= 1,
        y - (ticks - 1) * stride(dt) > bottom_bound(),
    ensures
        (EnemyModel { y, direction: EnemyDirection::Down }).run(dt, ticks) == (EnemyModel {
            y: if y - ticks * stride(dt) > bottom_bound() {
                y - ticks * stride(dt)
            } else {
                bottom_bound()
            },
            direction: EnemyDirection::Down,
        }),
    decreases ticks,
{
    let start = EnemyModel { y, direction: EnemyDirection::Down };
    let before = start.run(dt, (ticks - 1) as nat);
    assert(start.run(dt, ticks) == before.stepped(dt));
    lemma_strides(ticks as int, stride(dt));
    if ticks > 1 {
        lemma_strides(ticks - 1, stride(dt));
        lemma_enemy_falls(y, dt, (ticks - 1) as nat);
    }
    assert(before == (EnemyModel {
        y: y - (ticks - 1) * stride(dt),
        direction: EnemyDirection::Down,
    }));
    lemma_enemy_step(before, dt);
}

/// From the lower bound the paddle reaches the upper bound in the least
/// number of ticks whose strides cover the span, travelling upwards.
pub proof fn lemma_enemy_crosses_upwards(dt: int, half: nat)
    requires
        dt > 0,
        half >= 1,
        (half - 1) * stride(dt) < span() <= half * stride(dt),
    ensures
        EnemyModel::at_bottom().run(dt, half) == EnemyModel::at_top(),
{
    let start = EnemyModel::at_bottom();
    let first = start.stepped(dt);
    assert(start.run(dt, 1) == start.run(dt, 0).stepped(dt));
    lemma_enemy_step(start, dt);
    lemma_strides(half as int, stride(dt));
    if half > 1 {
        lemma_strides(half - 1, stride(dt));
        lemma_enemy_rises(first.y, dt, (half - 1) as nat);
        lemma_run_splits(start, dt, 1, (half - 1) as nat);
    }
}

/// From the upper bound the paddle reaches the lower bound in the same
/// number of ticks, travelling downwards.
pub proof fn lemma_enemy_crosses_downwards(dt: int, half: nat)
    requires
        dt > 0,
        half >= 1,
        (half - 1) * stride(dt) < span() <= half * stride(dt),
    ensures
        EnemyModel::at_top().run(dt, half) == EnemyModel::at_bottom(),
{
    let start = EnemyModel::at_top();
    let first = start.stepped(dt);
    assert(start.run(dt, 1) == start.run(dt, 0).stepped(dt));
    lemma_enemy_step(start, dt);
    lemma_strides(half as int, stride(dt));
    if half > 1 {
        lemma_strides(half - 1, stride(dt));
        lemma_enemy_falls(first.y, dt, (half - 1) as nat);
        lemma_run_splits(start, dt, 1, (half - 1) as nat);
    }
}

/// With ticks of one length the enemy's paddle traces a triangle wave that
/// repeats: where `half` ticks are the least whose strides cover the span, a
/// paddle that starts on the lower bound is on the upper bound after `half`
/// ticks, back where it started after `2 * half`, and from then on does
/// again what it did before.
pub proof fn lemma_enemy_wave_is_periodic(dt: int, half: nat, ticks: nat)
    requires
        dt > 0,
        half >= 1,
        (half - 1) * stride(dt) < span() <= half * stride(dt),
    ensures
        EnemyModel::at_bottom().run(dt, half) == EnemyModel::at_top(),
        EnemyModel::at_bottom().run(dt, 2 * half) == EnemyModel::at_bottom(),
        EnemyModel::at_bottom().run(dt, 2 * half + ticks) == EnemyModel::at_bottom().run(
            dt,
            ticks,
        ),
{
    lemma_enemy_crosses_upwards(dt, half);
    lemma_enemy_crosses_downwards(dt, half);
    lemma_run_splits(EnemyModel::at_bottom(), dt, half, half);
    lemma_run_splits(EnemyModel::at_bottom(), dt, 2 * half, ticks);
}

/// The one thing that the enemy's paddle remembers from tick to tick.
#[derive(Clone, Copy, Debug, PartialEq, Eq, Structural)]
pub struct EnemyController {
    pub direction: EnemyDirection,
}

/// The enemy's paddle as it is placed on the board.
#[derive(Clone, Copy, Debug, PartialEq, Eq, Structural)]
pub struct EnemyBundle {
    pub paddle_bundle: PaddleBundle,
    pub enemy_controller: EnemyController,
}

impl EnemyBundle {
    /// The enemy's paddle at its start, travelling in `direction`: on the
    /// right, in the enemy's colour.
    pub fn with_direction(direction: EnemyDirection) -> (enemy: EnemyBundle)
        ensures
            enemy.paddle_bundle.transform@.translation == PaddleLocation::Right.spec_position(),
            enemy.paddle_bundle.transform@.scale == PaddleLocation::Right.spec_size(),
            enemy.paddle_bundle.color == PaddleColor::Enemy,
            enemy.enemy_controller.direction == direction,
    {
        EnemyBundle {
            paddle_bundle: PaddleBundle::new(PaddleLocation::Right, PaddleColor::Enemy),
            enemy_controller: EnemyController { direction },
        }
    }

    /// The enemy's paddle at its start, travelling in a direction drawn at
    /// random.
    pub fn new() -> (enemy: EnemyBundle)
        ensures
            enemy.paddle_bundle.transform@.translation == PaddleLocation::Right.spec_position(),
            enemy.paddle_bundle.transform@.scale == PaddleLocation::Right.spec_size(),
            enemy.paddle_bundle.color == PaddleColor::Enemy,
    {
        let mut rng = rand::thread_rng();
        Self::with_direction(EnemyDirection::sample(&mut rng))
    }
}

/// Moves the enemy's paddle for one tick of length `dt`.
///
/// The paddle first looks at where it stands: on the bound that it was
/// travelling to it turns round, anywhere else it keeps its direction. Then
/// it moves in the direction that it now has, within the bounds of its
/// travel.
pub fn move_enemy(paddle: &mut Transform, controller: &mut EnemyController, dt: u32)
    ensures
        (EnemyModel {
            y: final(paddle).translation.y as int,
            direction: final(controller).direction,
        }) == (EnemyModel {
            y: old(paddle).translation.y as int,
            direction: old(controller).direction,
        }).stepped(dt as int),
        final(controller).direction != old(controller).direction <==> {
            ||| old(controller).direction == EnemyDirection::Up && old(paddle).translation.y
                == top_bound()
            ||| old(controller).direction == EnemyDirection::Down && old(paddle).translation.y
                == bottom_bound()
        },
        within_bounds(final(paddle).translation.y as int),
        final(paddle).translation.x == old(paddle).translation.x,
        final(paddle).scale == old(paddle).scale,
{
    let (bottom, top) = bounds();
    let velocity: i64 = match controller.direction {
        EnemyDirection::Up => {
            if paddle.translation.y == top {
                controller.direction = EnemyDirection::Down;
                -MOVEMENT_SPEED
            } else {
                MOVEMENT_SPEED
            }
        },
        EnemyDirection::Down => {
            if paddle.translation.y == bottom {
                controller.direction = EnemyDirection::Up;
                MOVEMENT_SPEED
            } else {
                -MOVEMENT_SPEED
            }
        },
    };
    slide(paddle, velocity, dt);
}

} // verus!
