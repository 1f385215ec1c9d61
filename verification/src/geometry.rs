//! Fixed-point planar geometry.
//!
//! World coordinates are `i64` micro-units: `FP_ONE` units stand for 1.0 of
//! the simulation's world space.  Keeping positions integral lets every
//! coordinate computation in the crate be exact.

use vstd::prelude::*;

verus! {

/// Number of fixed-point micro-units in one world unit.
pub const FP_ONE: i64 = 1_000_000;

/// Largest coordinate magnitude the crate works with; keeps all the
/// fixed-point arithmetic on positions comfortably inside `i64`.
pub const COORD_MAX: i64 = 1_000_000_000_000_000;

/// A point (or displacement) of the simulation's world plane.
#[derive(Clone, Copy, Debug, PartialEq, Eq, Structural)]
pub struct Position {
    pub x: i64,
    pub y: i64,
}

impl Position {
    /// True when both coordinates are within the crate's working range.
    pub open spec fn in_range(self) -> bool {
        -COORD_MAX <= self.x <= COORD_MAX && -COORD_MAX <= self.y <= COORD_MAX
    }

    pub fn new(x: i64, y: i64) -> (p: Position)
        ensures
            p.x == x,
            p.y == y,
    {
        Position { x, y }
    }

    /// Componentwise vector sum.
    pub fn add(self, other: Position) -> (p: Position)
        requires
            i64::MIN <= self.x + other.x <= i64::MAX,
            i64::MIN <= self.y + other.y <= i64::MAX,
        ensures
            p.x == self.x + other.x,
            p.y == self.y + other.y,
    {
        Position { x: self.x + other.x, y: self.y + other.y }
    }
}

} // verus!
