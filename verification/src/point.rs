//! Absolute positions in the plane.

use vstd::prelude::*;
use vstd::std_specs::ops::{AddSpec, SubSpec};
use crate::arith::{div_toward_zero, fits_i32};
use crate::offset::{Offset, OffsetView};

verus! {

/// Mathematical model of a [`Point`]: a position whose coordinates are
/// unbounded integers.
pub struct PointView {
    pub x: int,
    pub y: int,
}

impl PointView {
    /// Whether both coordinates can be stored in a [`Point`].
    pub open spec fn fits(self) -> bool {
        fits_i32(self.x) && fits_i32(self.y)
    }

    /// The point halfway between `self` and `rhs`; each coordinate of the
    /// exact midpoint is rounded toward zero.
    pub open spec fn midpoint(self, rhs: PointView) -> PointView {
        PointView {
            x: div_toward_zero(self.x + rhs.x, 2),
            y: div_toward_zero(self.y + rhs.y, 2),
        }
    }

    /// The point reached from `self` by moving along `by`.
    pub open spec fn translate(self, by: OffsetView) -> PointView {
        PointView { x: self.x + by.x, y: self.y + by.y }
    }

    /// The point from which moving along `by` reaches `self`.
    pub open spec fn translate_back(self, by: OffsetView) -> PointView {
        PointView { x: self.x - by.x, y: self.y - by.y }
    }

    /// The displacement that leads from `origin` to `self`.
    pub open spec fn offset_from(self, origin: PointView) -> OffsetView {
        OffsetView { x: self.x - origin.x, y: self.y - origin.y }
    }
}

/// A point in 2D space defined by the `x` and `y` coordinate.
#[derive(Copy, Clone, Debug, PartialEq, Eq, Structural)]
pub struct Point {
    pub x: i32,
    pub y: i32,
}

impl View for Point {
    type V = PointView;

    open spec fn view(&self) -> PointView {
        PointView { x: self.x as int, y: self.y as int }
    }
}

impl Point {
    /// The point with the coordinates `x` and `y`.
    pub fn new(x: i32, y: i32) -> (p: Point)
        ensures
            p.x == x,
            p.y == y,
    {
        Point { x, y }
    }

    /// The point halfway between `self` and `rhs`, rounded toward zero in each
    /// coordinate: the midpoint of `(0, 0)` and `(3, 3)` is `(1, 1)`, that of
    /// `(-3, -3)` and `(0, 0)` is `(-1, -1)`.
    pub fn midpoint(self, rhs: Point) -> (m: Point)
        ensures
            m@ == self@.midpoint(rhs@),
    {
        let x: i64 = (self.x as i64 + rhs.x as i64) / 2;
        let y: i64 = (self.y as i64 + rhs.y as i64) / 2;
        Point { x: x as i32, y: y as i32 }
    }
}

impl vstd::std_specs::ops::AddSpecImpl<Offset> for Point {
    open spec fn obeys_add_spec() -> bool {
        true
    }

    open spec fn add_req(self, rhs: Offset) -> bool {
        self@.translate(rhs@).fits()
    }

    open spec fn add_spec(self, rhs: Offset) -> Point {
        Point { x: (self.x + rhs.x) as i32, y: (self.y + rhs.y) as i32 }
    }
}

impl core::ops::Add<Offset> for Point {
    type Output = Point;

    /// Moves the point along `rhs`. The point reached must fit `i32`
    /// coordinates.
    fn add(self, rhs: Offset) -> (r: Point)
        ensures
            r@ == self@.translate(rhs@),
    {
        Point { x: self.x + rhs.x, y: self.y + rhs.y }
    }
}

impl vstd::std_specs::ops::SubSpecImpl<Offset> for Point {
    open spec fn obeys_sub_spec() -> bool {
        true
    }

    open spec fn sub_req(self, rhs: Offset) -> bool {
        self@.translate_back(rhs@).fits()
    }

    open spec fn sub_spec(self, rhs: Offset) -> Point {
        Point { x: (self.x - rhs.x) as i32, y: (self.y - rhs.y) as i32 }
    }
}

impl core::ops::Sub<Offset> for Point {
    type Output = Point;

    /// Moves the point against `rhs`. The point reached must fit `i32`
    /// coordinates.
    fn sub(self, rhs: Offset) -> (r: Point)
        ensures
            r@ == self@.translate_back(rhs@),
    {
        Point { x: self.x - rhs.x, y: self.y - rhs.y }
    }
}

impl vstd::std_specs::ops::SubSpecImpl<Point> for Point {
    open spec fn obeys_sub_spec() -> bool {
        true
    }

    open spec fn sub_req(self, rhs: Point) -> bool {
        self@.offset_from(rhs@).fits()
    }

    open spec fn sub_spec(self, rhs: Point) -> Offset {
        Offset { x: (self.x - rhs.x) as i32, y: (self.y - rhs.y) as i32 }
    }
}

impl core::ops::Sub<Point> for Point {
    type Output = Offset;

    /// The displacement that leads from `rhs` to `self`, which must fit
    /// `i32` components.
    fn sub(self, rhs: Point) -> (r: Offset)
        ensures
            r@ == self@.offset_from(rhs@),
    {
        Offset { x: self.x - rhs.x, y: self.y - rhs.y }
    }
}

/// The midpoint of two points does not depend on their order, and each of its
/// coordinates lies between those of the two points: no midpoint is out of
/// the range of `i32` coordinates.
pub proof fn lemma_midpoint_between(p: Point, q: Point)
    ensures
        p@.midpoint(q@) == q@.midpoint(p@),
        p.x <= q.x ==> p.x <= p@.midpoint(q@).x <= q.x,
        q.x <= p.x ==> q.x <= p@.midpoint(q@).x <= p.x,
        p.y <= q.y ==> p.y <= p@.midpoint(q@).y <= q.y,
        q.y <= p.y ==> q.y <= p@.midpoint(q@).y <= p.y,
        p@.midpoint(q@).fits(),
{
}

/// Moving a point `p` along the displacement that leads from `p` to `q`
/// arrives at `q`.
///
/// Whenever that displacement can be stored in an [`Offset`], `q - p` may be
/// computed, `p + (q - p)` may be computed as well, and it equals `q`.
pub proof fn lemma_offset_round_trip(p: Point, q: Point)
    ensures
        p@.translate(q@.offset_from(p@)) == q@,
        q.sub_req(p) ==> p.add_req(q.sub_spec(p)) && p.add_spec(q.sub_spec(p)) == q,
{
}

/// Moving a point `p` along a displacement `o` and then back against it
/// returns to `p`.
///
/// Whenever `p + o` may be computed, `(p + o) - o` may be computed as well,
/// and it equals `p`.
pub proof fn lemma_translate_round_trip(p: Point, o: Offset)
    ensures
        p@.translate(o@).translate_back(o@) == p@,
        p.add_req(o) ==> p.add_spec(o).sub_req(o) && p.add_spec(o).sub_spec(o) == p,
{
}

} // verus!
