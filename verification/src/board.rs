//! The board: its bounds, its four walls and its two goals.

use vstd::prelude::*;
use crate::collider::Collider;
use crate::fixed::PIXEL;
use crate::scoreboard::ScoreOwner;
use crate::transform::Transform;
use crate::vec2::{Point, Vec2};

verus! {

/// How thick a wall is.
pub const WALL_THICKNESS: i64 = 10 * PIXEL;

/// How thick a goal is: one and a half walls.
pub const GOAL_THICKNESS: i64 = 15 * PIXEL;

/// The x coordinate of the left wall's centre line.
pub const LEFT_WALL: i64 = -450 * PIXEL;

/// The x coordinate of the right wall's centre line.
pub const RIGHT_WALL: i64 = 450 * PIXEL;

/// The y coordinate of the bottom wall's centre line.
pub const BOTTOM_WALL: i64 = -250 * PIXEL;

/// The y coordinate of the top wall's centre line.
pub const TOP_WALL: i64 = 250 * PIXEL;

/// How high a goal's opening is.
pub const GOAL_HEIGHT: i64 = 150 * PIXEL;

/// Which side of the board a goal belongs to.
#[derive(Clone, Copy, Debug, PartialEq, Eq, Structural)]
pub enum GoalOwner {
    Player,
    Enemy,
}

impl GoalOwner {
    /// Who scores when the ball enters a goal of this owner: the other side.
    pub open spec fn opponent(self) -> ScoreOwner {
        match self {
            GoalOwner::Player => ScoreOwner::Enemy,
            GoalOwner::Enemy => ScoreOwner::Player,
        }
    }

    /// Who scores when the ball enters a goal of this owner.
    pub fn scorer(&self) -> (s: ScoreOwner)
        ensures
            s == self.opponent(),
    {
        match self {
            GoalOwner::Player => ScoreOwner::Enemy,
            GoalOwner::Enemy => ScoreOwner::Player,
        }
    }
}

/// Marks a collider as a goal and says whose it is.
#[derive(Clone, Copy, Debug, PartialEq, Eq, Structural)]
pub struct Goal {
    pub goal_owner: GoalOwner,
}

/// The four walls.
#[derive(Clone, Copy, Debug, PartialEq, Eq, Structural)]
pub enum WallLocation {
    Left,
    Right,
    Bottom,
    Top,
}

impl WallLocation {
    /// The centre of the wall.
    pub open spec fn spec_position(self) -> Point {
        match self {
            WallLocation::Left => Point { x: LEFT_WALL as int, y: 0 },
            WallLocation::Right => Point { x: RIGHT_WALL as int, y: 0 },
            WallLocation::Bottom => Point { x: 0, y: BOTTOM_WALL as int },
            WallLocation::Top => Point { x: 0, y: TOP_WALL as int },
        }
    }

    /// The extent of the wall: as long as the arena plus one thickness, so
    /// that the corners are closed.
    pub open spec fn spec_size(self) -> Point {
        match self {
            WallLocation::Left | WallLocation::Right => Point {
                x: WALL_THICKNESS as int,
                y: TOP_WALL - BOTTOM_WALL + WALL_THICKNESS,
            },
            WallLocation::Bottom | WallLocation::Top => Point {
                x: RIGHT_WALL - LEFT_WALL + WALL_THICKNESS,
                y: WALL_THICKNESS as int,
            },
        }
    }

    /// The centre of the wall.
    pub fn position(&self) -> (p: Vec2)
        ensures
            p@ == self.spec_position(),
    {
        match self {
            WallLocation::Left => Vec2::new(LEFT_WALL, 0),
            WallLocation::Right => Vec2::new(RIGHT_WALL, 0),
            WallLocation::Bottom => Vec2::new(0, BOTTOM_WALL),
            WallLocation::Top => Vec2::new(0, TOP_WALL),
        }
    }

    /// The width and the height of the wall.
    pub fn size(&self) -> (s: Vec2)
        ensures
            s@ == self.spec_size(),
            s.x > 0,
            s.y > 0,
    {
        let arena_height: i64 = TOP_WALL - BOTTOM_WALL;
        let arena_width: i64 = RIGHT_WALL - LEFT_WALL;
        match self {
            WallLocation::Left | WallLocation::Right => Vec2::new(
                WALL_THICKNESS,
                arena_height + WALL_THICKNESS,
            ),
            WallLocation::Bottom | WallLocation::Top => Vec2::new(
                arena_width + WALL_THICKNESS,
                WALL_THICKNESS,
            ),
        }
    }
}

/// A wall as it is placed on the board.
#[derive(Clone, Copy, Debug, PartialEq, Eq, Structural)]
pub struct WallBundle {
    pub transform: Transform,
}

impl WallBundle {
    /// The wall at `location`, where it stands and as large as it is.
    pub fn new(location: WallLocation) -> (wall: WallBundle)
        ensures
            wall.transform@.translation == location.spec_position(),
            wall.transform@.scale == location.spec_size(),
    {
        WallBundle { transform: Transform { translation: location.position(), scale: location.size() } }
    }

    /// The wall as the ball meets it: a collider that is no goal.
    pub fn collider(&self) -> (c: Collider)
        ensures
            c.transform == self.transform,
            c.goal is None,
    {
        Collider { transform: self.transform, goal: None }
    }
}

/// The two goals.
#[derive(Clone, Copy, Debug, PartialEq, Eq, Structural)]
pub enum GoalLocation {
    Left,
    Right,
}

impl GoalLocation {
    /// The centre of the goal: on the centre line of the wall behind it.
    pub open spec fn spec_position(self) -> Point {
        match self {
            GoalLocation::Left => Point { x: LEFT_WALL as int, y: 0 },
            GoalLocation::Right => Point { x: RIGHT_WALL as int, y: 0 },
        }
    }

    /// The extent of a goal.
    pub open spec fn spec_size(self) -> Point {
        Point { x: GOAL_THICKNESS as int, y: GOAL_HEIGHT + GOAL_THICKNESS }
    }

    /// The centre of the goal.
    pub fn position(&self) -> (p: Vec2)
        ensures
            p@ == self.spec_position(),
    {
        match self {
            GoalLocation::Left => Vec2::new(LEFT_WALL, 0),
            GoalLocation::Right => Vec2::new(RIGHT_WALL, 0),
        }
    }

    /// The width and the height of the goal.
    pub fn size(&self) -> (s: Vec2)
        ensures
            s@ == self.spec_size(),
    {
        Vec2::new(GOAL_THICKNESS, GOAL_HEIGHT + GOAL_THICKNESS)
    }
}

/// A goal as it is placed on the board.
#[derive(Clone, Copy, Debug, PartialEq, Eq, Structural)]
pub struct GoalBundle {
    pub transform: Transform,
    pub goal: Goal,
}

impl GoalBundle {
    /// The goal of `goal_owner` at `location`.
    pub fn new(location: GoalLocation, goal_owner: GoalOwner) -> (bundle: GoalBundle)
        ensures
            bundle.transform@.translation == location.spec_position(),
            bundle.transform@.scale == location.spec_size(),
            bundle.goal.goal_owner == goal_owner,
    {
        GoalBundle {
            transform: Transform { translation: location.position(), scale: location.size() },
            goal: Goal { goal_owner },
        }
    }

    /// The goal as the ball meets it.
    pub fn collider(&self) -> (c: Collider)
        ensures
            c.transform == self.transform,
            c.goal == Some(self.goal),
    {
        Collider { transform: self.transform, goal: Some(self.goal) }
    }
}

} // verus!
