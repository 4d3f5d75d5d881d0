//! Plain screen geometry: pointer positions and the anchor point at which
//! the annotation text is painted.

use vstd::prelude::*;

verus! {

/// Horizontal offset, in pointer-coordinate units, between the stored
/// pointer position and the annotation's anchor.
pub const OFFSET_X: i64 = 10;

/// Vertical offset between the stored pointer position and the
/// annotation's anchor.
pub const OFFSET_Y: i64 = 10;

/// A pointer position in whole coordinate units.
#[derive(Clone, Copy, PartialEq, Eq, Structural, Debug)]
pub struct Point {
    pub x: i32,
    pub y: i32,
}

/// Where a frame's text should be painted: the anchor point handed to the
/// paint primitive. Coordinates are wide enough that offsetting any
/// `Point` can never overflow.
#[derive(Clone, Copy, PartialEq, Eq, Structural, Debug)]
pub struct DrawCommand {
    pub x: i64,
    pub y: i64,
}

impl Point {
    /// The origin, where the stored position starts out.
    pub fn origin() -> (p: Point)
        ensures
            p.x == 0,
            p.y == 0,
    {
        Point { x: 0, y: 0 }
    }

    /// The anchor at which text for this position is painted.
    pub open spec fn spec_anchor(self) -> DrawCommand {
        DrawCommand { x: (self.x + OFFSET_X) as i64, y: (self.y + OFFSET_Y) as i64 }
    }

    /// Offsets the position by the fixed annotation offset.
    pub fn anchor(self) -> (d: DrawCommand)
        ensures
            d == self.spec_anchor(),
            d.x == self.x + OFFSET_X,
            d.y == self.y + OFFSET_Y,
    {
        DrawCommand { x: self.x as i64 + OFFSET_X, y: self.y as i64 + OFFSET_Y }
    }
}

} // verus!
