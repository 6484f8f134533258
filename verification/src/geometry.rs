//! Two-dimensional coordinates for pointer locations and surface origins.
//!
//! All coordinates live in compositor space and are measured in integral
//! units; an embedding that works with subpixel positions chooses its own
//! fixed-point scale and converts at the boundary. Coordinates handled by
//! the routing core are kept within [`COORD_LIMIT`] so that translating a
//! location by a surface origin can never overflow.

use vstd::prelude::*;

verus! {

/// Coordinates accepted by the routing core stay within this bound.
pub const COORD_LIMIT: i64 = 0x100_0000_0000;

/// A point in compositor space: either an absolute pointer location or the
/// origin offset of a surface.
#[derive(Debug, Clone, Copy, PartialEq, Eq, Structural)]
pub struct Point {
    pub x: i64,
    pub y: i64,
}

impl Point {
    /// Both coordinates are within the range the core accepts.
    pub open spec fn in_range(self) -> bool {
        &&& -COORD_LIMIT <= self.x <= COORD_LIMIT
        &&& -COORD_LIMIT <= self.y <= COORD_LIMIT
    }

    /// Componentwise difference, as the contracts state it.
    pub open spec fn spec_minus(self, other: Point) -> Point {
        Point { x: (self.x - other.x) as i64, y: (self.y - other.y) as i64 }
    }

    /// The origin of compositor space.
    pub fn origin() -> (r: Point)
        ensures
            r == (Point { x: 0, y: 0 }),
    {
        Point { x: 0, y: 0 }
    }

    /// Componentwise difference; used to translate an absolute location
    /// into coordinates local to a surface placed at `other`.
    pub fn minus(self, other: Point) -> (r: Point)
        requires
            self.in_range(),
            other.in_range(),
        ensures
            r == self.spec_minus(other),
            r.x == self.x - other.x,
            r.y == self.y - other.y,
    {
        Point { x: self.x - other.x, y: self.y - other.y }
    }
}

} // verus!
