//! Where an entity is and how large it is.

use vstd::prelude::*;
use crate::vec2::{Point, Vec2};

verus! {

/// What a [`Transform`] stands for in contracts: the centre of an
/// axis-aligned box and its extent along each axis.
pub ghost struct Placement {
    pub translation: Point,
    pub scale: Point,
}

/// The centre of an entity's box and the box's width and height.
#[derive(Clone, Copy, Debug, PartialEq, Eq, Structural)]
pub struct Transform {
    pub translation: Vec2,
    pub scale: Vec2,
}

impl View for Transform {
    type V = Placement;

    open spec fn view(&self) -> Placement {
        Placement { translation: self.translation@, scale: self.scale@ }
    }
}

} // verus!
