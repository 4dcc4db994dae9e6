//! Relative displacements in the plane.

use vstd::prelude::*;
use crate::arith::{abs, fits_i32};

verus! {

/// Mathematical model of an [`Offset`]: a displacement whose components are
/// unbounded integers.
pub struct OffsetView {
    pub x: int,
    pub y: int,
}

impl OffsetView {
    /// Whether both components can be stored in an [`Offset`].
    pub open spec fn fits(self) -> bool {
        fits_i32(self.x) && fits_i32(self.y)
    }

    /// The displacement with each component replaced by its absolute value.
    pub open spec fn abs(self) -> OffsetView {
        OffsetView { x: abs(self.x), y: abs(self.y) }
    }
}

/// Relative offset in 2D space.
#[derive(Copy, Clone, Debug, PartialEq, Eq, Structural)]
pub struct Offset {
    pub x: i32,
    pub y: i32,
}

impl View for Offset {
    type V = OffsetView;

    open spec fn view(&self) -> OffsetView {
        OffsetView { x: self.x as int, y: self.y as int }
    }
}

impl Offset {
    /// The displacement by `x` to the right and `y` down.
    pub fn new(x: i32, y: i32) -> (o: Offset)
        ensures
            o.x == x,
            o.y == y,
    {
        Offset { x, y }
    }

    /// Replaces both components by their absolute values.
    ///
    /// The absolute value of `i32::MIN` is not an `i32`, so neither component
    /// may be `i32::MIN`.
    pub fn abs(self) -> (r: Offset)
        requires
            self@.abs().fits(),
        ensures
            r@ == self@.abs(),
    {
        let x: i32 = if self.x < 0 { -self.x } else { self.x };
        let y: i32 = if self.y < 0 { -self.y } else { self.y };
        Offset { x, y }
    }
}

} // verus!
