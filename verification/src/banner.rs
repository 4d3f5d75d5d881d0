//! The degenerate variant of the annotator: no idle timer and no movement
//! comparison. Every frame, whatever text the caller paints goes at the
//! fixed offset from the last observed pointer position, unconditionally.

use vstd::prelude::*;
use crate::geom::{DrawCommand, Point};

verus! {

/// The whole state of the always-on variant: just the last observed
/// pointer position.
#[derive(Clone, Copy, PartialEq, Eq, Structural, Debug)]
pub struct BannerState {
    /// Last observed pointer position; starts at the origin.
    pub position: Point,
}

impl BannerState {
    /// The position after one frame: a present sample overwrites it, an
    /// absent one leaves it.
    pub open spec fn spec_step(self, sample: Option<Point>) -> BannerState {
        match sample {
            Some(p) => BannerState { position: p },
            None => self,
        }
    }

    /// The start state: position at the origin.
    pub fn new() -> (s: BannerState)
        ensures
            s.position == (Point { x: 0, y: 0 }),
    {
        BannerState { position: Point::origin() }
    }

    /// One whole frame: record the sample if one is present, then emit
    /// the draw call — every frame gets one, with no dependency on
    /// elapsed time.
    pub fn frame(&mut self, sample: Option<Point>) -> (d: DrawCommand)
        ensures
            *final(self) == old(self).spec_step(sample),
            d == final(self).position.spec_anchor(),
    {
        if let Some(p) = sample {
            self.position = p;
        }
        self.position.anchor()
    }
}

/// The fixed decorative literal that the always-on variant paints.
pub fn banner_text() -> (s: &'static str)
    ensures
        s@ == "Hello from the pointer"@,
{
    "Hello from the pointer"
}

} // verus!
