//! The fixed foot of a turret.

use vstd::prelude::*;
use super::geometry::Point;

verus! {

/// Where a turret stands. Its `y` is the baseline of the zone that the turret defends:
/// what has passed below it is out of reach.
#[derive(Clone, Copy, Debug, PartialEq, Eq, Structural)]
pub struct Base {
    pub x: i32,
    pub y: i32,
}

impl Base {
    /// Whether a position is still on the turret's side of the baseline, the line itself
    /// included.
    pub open spec fn in_zone(self, position: Point) -> bool {
        position.y <= self.y
    }

    /// A base at the given place.
    pub fn new(x: i32, y: i32) -> (base: Self)
        ensures
            base == (Base { x, y }),
    {
        Self { x, y }
    }

    /// The second coordinate of the base: the baseline.
    pub fn y(&self) -> (y: i32)
        ensures
            y == self.y,
    {
        self.y
    }

    /// Whether a position is still on the turret's side of the baseline.
    pub fn covers(&self, position: Point) -> (covered: bool)
        ensures
            covered == self.in_zone(position),
    {
        position.y <= self.y
    }
}

} // verus!
