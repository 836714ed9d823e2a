//! Velocities and the integrator that moves an entity by its velocity.

use vstd::prelude::*;
use crate::fixed::{advance, displaced};
use crate::transform::Transform;
use crate::vec2::{Point, Vec2};

verus! {

/// A velocity, in length units per unit of time along each axis.
#[derive(Clone, Copy, Debug, PartialEq, Eq, Structural)]
pub struct Velocity(pub Vec2);

impl View for Velocity {
    type V = Point;

    open spec fn view(&self) -> Point {
        self.0@
    }
}

/// The position reached from `position` after `dt` at `velocity`, each
/// coordinate saturated.
pub open spec fn integrated(position: Point, velocity: Point, dt: int) -> Point {
    Point {
        x: displaced(position.x, velocity.x, dt),
        y: displaced(position.y, velocity.y, dt),
    }
}

/// Whether `position + velocity * dt` is representable along both axes.
pub open spec fn reachable(position: Point, velocity: Point, dt: int) -> bool {
    &&& i64::MIN <= position.x + velocity.x * dt <= i64::MAX
    &&& i64::MIN <= position.y + velocity.y * dt <= i64::MAX
}

/// Advances `transform` by `velocity * dt` and changes nothing else.
pub fn apply_velocity(transform: &mut Transform, velocity: &Velocity, dt: u32)
    ensures
        final(transform)@.translation == integrated(
            old(transform)@.translation,
            velocity@,
            dt as int,
        ),
        final(transform).scale == old(transform).scale,
        reachable(old(transform)@.translation, velocity@, dt as int) ==> {
            &&& final(transform).translation.x == old(transform).translation.x + velocity.0.x * dt
            &&& final(transform).translation.y == old(transform).translation.y + velocity.0.y * dt
        },
{
    transform.translation.x = advance(transform.translation.x, velocity.0.x, dt);
    transform.translation.y = advance(transform.translation.y, velocity.0.y, dt);
}

/// Integration is linear in time while the positions stay representable:
/// two steps of `dt1` and `dt2` reach what one step of `dt1 + dt2` reaches.
pub proof fn lemma_integration_is_additive(position: Point, velocity: Point, dt1: int, dt2: int)
    requires
        reachable(position, velocity, dt1),
        reachable(position, velocity, dt1 + dt2),
    ensures
        integrated(integrated(position, velocity, dt1), velocity, dt2) == integrated(
            position,
            velocity,
            dt1 + dt2,
        ),
        integrated(position, velocity, dt1 + dt2) == (Point {
            x: position.x + velocity.x * (dt1 + dt2),
            y: position.y + velocity.y * (dt1 + dt2),
        }),
{
    assert(velocity.x * (dt1 + dt2) == velocity.x * dt1 + velocity.x * dt2) by (nonlinear_arith);
    assert(velocity.y * (dt1 + dt2) == velocity.y * dt1 + velocity.y * dt2) by (nonlinear_arith);
}

} // verus!
