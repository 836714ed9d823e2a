//! Collidable boxes and the classification of an overlap between two of them.

use vstd::prelude::*;
use crate::board::Goal;
use crate::transform::{Placement, Transform};
use crate::vec2::Vec2;

verus! {

/// The side of the second box that the first box has run into.
#[derive(Clone, Copy, Debug, PartialEq, Eq, Structural)]
pub enum Collision {
    Left,
    Right,
    Top,
    Bottom,
    /// The boxes overlap, and along neither axis does the first box straddle
    /// exactly one edge of the second.
    Inside,
}

/// What a [`Collider`] stands for in contracts.
pub ghost struct Obstacle {
    pub placement: Placement,
    pub goal: Option<Goal>,
}

/// An entity that the ball can hit: a wall, a paddle, or a goal.
#[derive(Clone, Copy, Debug, PartialEq, Eq, Structural)]
pub struct Collider {
    pub transform: Transform,
    /// Present where hitting the entity scores instead of bouncing.
    pub goal: Option<Goal>,
}

impl View for Collider {
    type V = Obstacle;

    open spec fn view(&self) -> Obstacle {
        Obstacle { placement: self.transform@, goal: self.goal }
    }
}

/// The obstacles that a sequence of colliders stands for, in the same order.
pub open spec fn obstacles(colliders: Seq<Collider>) -> Seq<Obstacle> {
    Seq::new(colliders.len(), |i: int| colliders[i]@)
}

/// Twice the lower edge of an interval with the given centre and extent.
///
/// Edges are doubled so that an odd extent loses nothing to halving.
pub open spec fn low_edge(centre: int, extent: int) -> int {
    2 * centre - extent
}

/// Twice the upper edge of an interval with the given centre and extent.
pub open spec fn high_edge(centre: int, extent: int) -> int {
    2 * centre + extent
}

/// Whether the intervals `a` and `b` meet: each starts before the other ends.
pub open spec fn intervals_overlap(a_centre: int, a_extent: int, b_centre: int, b_extent: int) -> bool {
    &&& low_edge(a_centre, a_extent) < high_edge(b_centre, b_extent)
    &&& high_edge(a_centre, a_extent) > low_edge(b_centre, b_extent)
}

/// Whether `a` straddles the lower edge of `b` and no other: it starts before
/// `b` does and ends strictly inside it.
pub open spec fn straddles_low(a_centre: int, a_extent: int, b_centre: int, b_extent: int) -> bool {
    &&& low_edge(a_centre, a_extent) < low_edge(b_centre, b_extent)
    &&& low_edge(b_centre, b_extent) < high_edge(a_centre, a_extent)
    &&& high_edge(a_centre, a_extent) < high_edge(b_centre, b_extent)
}

/// Whether `a` straddles the upper edge of `b` and no other: it starts
/// strictly inside `b` and ends after it.
pub open spec fn straddles_high(a_centre: int, a_extent: int, b_centre: int, b_extent: int) -> bool {
    &&& low_edge(b_centre, b_extent) < low_edge(a_centre, a_extent)
    &&& low_edge(a_centre, a_extent) < high_edge(b_centre, b_extent)
    &&& high_edge(b_centre, b_extent) < high_edge(a_centre, a_extent)
}

/// Twice how far `a` reaches into `b` across the one edge of `b` that it
/// straddles; `None` where it straddles none or both.
pub open spec fn penetration(a_centre: int, a_extent: int, b_centre: int, b_extent: int) -> Option<int> {
    if straddles_low(a_centre, a_extent, b_centre, b_extent) {
        Some(high_edge(a_centre, a_extent) - low_edge(b_centre, b_extent))
    } else if straddles_high(a_centre, a_extent, b_centre, b_extent) {
        Some(high_edge(b_centre, b_extent) - low_edge(a_centre, a_extent))
    } else {
        None
    }
}

/// Whether the boxes `a` and `b` overlap: along each axis, each of them
/// starts before the other ends.
pub open spec fn overlaps(a: Placement, b: Placement) -> bool {
    &&& intervals_overlap(a.translation.x, a.scale.x, b.translation.x, b.scale.x)
    &&& intervals_overlap(a.translation.y, a.scale.y, b.translation.y, b.scale.y)
}

/// The side of `b` that `a` has hit along the horizontal axis, if any.
pub open spec fn horizontal_side(a: Placement, b: Placement) -> Option<Collision> {
    if straddles_low(a.translation.x, a.scale.x, b.translation.x, b.scale.x) {
        Some(Collision::Left)
    } else if straddles_high(a.translation.x, a.scale.x, b.translation.x, b.scale.x) {
        Some(Collision::Right)
    } else {
        None
    }
}

/// The side of `b` that `a` has hit along the vertical axis, if any.
pub open spec fn vertical_side(a: Placement, b: Placement) -> Option<Collision> {
    if straddles_low(a.translation.y, a.scale.y, b.translation.y, b.scale.y) {
        Some(Collision::Bottom)
    } else if straddles_high(a.translation.y, a.scale.y, b.translation.y, b.scale.y) {
        Some(Collision::Top)
    } else {
        None
    }
}

/// How box `a` collides with box `b`.
///
/// Boxes that do not overlap do not collide. Where they do, the side is the
/// one hit along the axis on which `a` reaches less far into `b`; an axis
/// along which no single edge is straddled does not count, and a tie goes to
/// the horizontal axis. Where neither axis counts the result is `Inside`.
pub open spec fn collision(a: Placement, b: Placement) -> Option<Collision> {
    if !overlaps(a, b) {
        None
    } else {
        let across = penetration(a.translation.x, a.scale.x, b.translation.x, b.scale.x);
        let along = penetration(a.translation.y, a.scale.y, b.translation.y, b.scale.y);
        match (across, along) {
            (None, None) => Some(Collision::Inside),
            (Some(_), None) => horizontal_side(a, b),
            (None, Some(_)) => vertical_side(a, b),
            (Some(dx), Some(dy)) => if dy < dx {
                vertical_side(a, b)
            } else {
                horizontal_side(a, b)
            },
        }
    }
}

/// The doubled edges of an interval, computed without overflow.
fn edges(centre: i64, extent: i64) -> (r: (i128, i128))
    ensures
        r.0 == low_edge(centre as int, extent as int),
        r.1 == high_edge(centre as int, extent as int),
{
    let twice: i128 = 2 * (centre as i128);
    (twice - extent as i128, twice + extent as i128)
}

/// Whether two intervals meet.
fn meet(a_centre: i64, a_extent: i64, b_centre: i64, b_extent: i64) -> (r: bool)
    ensures
        r == intervals_overlap(a_centre as int, a_extent as int, b_centre as int, b_extent as int),
{
    let (a_min, a_max) = edges(a_centre, a_extent);
    let (b_min, b_max) = edges(b_centre, b_extent);
    a_min < b_max && a_max > b_min
}

/// The doubled depth by which `a` reaches into `b` along one axis, and
/// whether the edge that it straddles is the lower one.
fn depth(a_centre: i64, a_extent: i64, b_centre: i64, b_extent: i64) -> (r: (Option<i128>, bool))
    ensures
        match r.0 {
            Some(d) => penetration(
                a_centre as int,
                a_extent as int,
                b_centre as int,
                b_extent as int,
            ) == Some(d as int),
            None => penetration(a_centre as int, a_extent as int, b_centre as int, b_extent as int)
                is None,
        },
        r.1 == straddles_low(a_centre as int, a_extent as int, b_centre as int, b_extent as int),
{
    let (a_min, a_max) = edges(a_centre, a_extent);
    let (b_min, b_max) = edges(b_centre, b_extent);
    if a_min < b_min && a_max > b_min && a_max < b_max {
        (Some(a_max - b_min), true)
    } else if a_min > b_min && a_min < b_max && a_max > b_max {
        (Some(b_max - a_min), false)
    } else {
        (None, false)
    }
}

/// Tests the box at `a_pos` of size `a_size` against the box at `b_pos` of
/// size `b_size`, and says which side of the second the first has hit.
pub fn collide(a_pos: Vec2, a_size: Vec2, b_pos: Vec2, b_size: Vec2) -> (r: Option<Collision>)
    ensures
        r == collision(
            Placement { translation: a_pos@, scale: a_size@ },
            Placement { translation: b_pos@, scale: b_size@ },
        ),
{
    if !meet(a_pos.x, a_size.x, b_pos.x, b_size.x) || !meet(a_pos.y, a_size.y, b_pos.y, b_size.y) {
        return None;
    }
    let (across, left) = depth(a_pos.x, a_size.x, b_pos.x, b_size.x);
    let (along, bottom) = depth(a_pos.y, a_size.y, b_pos.y, b_size.y);
    let x_side = if left {
        Collision::Left
    } else {
        Collision::Right
    };
    let y_side = if bottom {
        Collision::Bottom
    } else {
        Collision::Top
    };
    match (across, along) {
        (None, None) => Some(Collision::Inside),
        (Some(_), None) => Some(x_side),
        (None, Some(_)) => Some(y_side),
        (Some(dx), Some(dy)) => if dy < dx {
            Some(y_side)
        } else {
            Some(x_side)
        },
    }
}

} // verus!
