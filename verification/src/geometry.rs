//! Rectangles in unscaled frame pixels.

use vstd::prelude::*;

verus! {

/// A position in frame pixels.
#[derive(Clone, Copy, Debug, PartialEq, Eq, Structural)]
pub struct Point {
    pub x: i32,
    pub y: i32,
}

/// An axis-aligned rectangle, given by its origin and its size.
///
/// Coordinates are frame pixels before the renderer's scale factor is
/// applied.
#[derive(Clone, Copy, Debug, PartialEq, Eq, Structural)]
pub struct Rect {
    pub x: i32,
    pub y: i32,
    pub width: i32,
    pub height: i32,
}

impl Rect {
    /// The rectangle at the origin that covers nothing.
    pub open spec fn spec_zero() -> Rect {
        Rect { x: 0, y: 0, width: 0, height: 0 }
    }

    /// The rectangle at the origin that covers nothing.
    #[verifier::when_used_as_spec(spec_zero)]
    pub fn zero() -> (r: Rect)
        ensures
            r == Rect::spec_zero(),
    {
        Rect { x: 0, y: 0, width: 0, height: 0 }
    }
}

} // verus!
