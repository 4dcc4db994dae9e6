//! Axis-aligned rectangles.

use vstd::prelude::*;
use crate::arith::fits_i32;
use crate::point::{Point, PointView};

verus! {

/// Mathematical model of a [`Rect`]: the rectangle between the corners
/// `(x0, y0)` and `(x1, y1)`, with unbounded integer coordinates.
pub struct RectView {
    pub x0: int,
    pub y0: int,
    pub x1: int,
    pub y1: int,
}

impl RectView {
    /// Whether all four coordinates can be stored in a [`Rect`].
    pub open spec fn fits(self) -> bool {
        fits_i32(self.x0) && fits_i32(self.y0) && fits_i32(self.x1) && fits_i32(self.y1)
    }

    /// Whether the first corner lies above and to the left of the second, so
    /// that width and height are not negative.
    pub open spec fn well_formed(self) -> bool {
        self.x0 <= self.x1 && self.y0 <= self.y1
    }

    /// The rectangle with top-left corner `p0` and bottom-right corner `p1`.
    pub open spec fn new(p0: PointView, p1: PointView) -> RectView {
        RectView { x0: p0.x, y0: p0.y, x1: p1.x, y1: p1.y }
    }

    /// The rectangle that covers a display of the given size.
    pub open spec fn screen(width: int, height: int) -> RectView {
        RectView { x0: 0, y0: 0, x1: width, y1: height }
    }

    /// The horizontal extent, negative if the rectangle is inverted.
    pub open spec fn width(self) -> int {
        self.x1 - self.x0
    }

    /// The vertical extent, negative if the rectangle is inverted.
    pub open spec fn height(self) -> int {
        self.y1 - self.y0
    }

    /// The corner `(x0, y0)`.
    pub open spec fn top_left(self) -> PointView {
        PointView { x: self.x0, y: self.y0 }
    }

    /// The corner `(x1, y0)`.
    pub open spec fn top_right(self) -> PointView {
        PointView { x: self.x1, y: self.y0 }
    }

    /// The corner `(x0, y1)`.
    pub open spec fn bottom_left(self) -> PointView {
        PointView { x: self.x0, y: self.y1 }
    }

    /// The corner `(x1, y1)`.
    pub open spec fn bottom_right(self) -> PointView {
        PointView { x: self.x1, y: self.y1 }
    }

    /// The midpoint of the top-left and bottom-right corners, rounded toward
    /// zero in each coordinate.
    pub open spec fn midpoint(self) -> PointView {
        self.top_left().midpoint(self.bottom_right())
    }

    /// Whether `p` lies inside the rectangle. The left and top edges belong to
    /// the rectangle, the right and bottom edges do not.
    pub open spec fn contains(self, p: PointView) -> bool {
        self.x0 <= p.x < self.x1 && self.y0 <= p.y < self.y1
    }

    /// The rectangle with every side moved inward by `amount`; a negative
    /// `amount` moves the sides outward.
    pub open spec fn inset(self, amount: int) -> RectView {
        RectView {
            x0: self.x0 + amount,
            y0: self.y0 + amount,
            x1: self.x1 - amount,
            y1: self.y1 - amount,
        }
    }
}

/// A rectangle in 2D space defined by the top-left point `x0`,`y0` and the
/// bottom-right point `x1`,`y1`.
///
/// Nothing forces `x0 <= x1` or `y0 <= y1`: an inverted rectangle has a
/// negative width or height and contains no point.
#[derive(Copy, Clone, Debug, PartialEq, Eq, Structural)]
pub struct Rect {
    pub x0: i32,
    pub y0: i32,
    pub x1: i32,
    pub y1: i32,
}

impl View for Rect {
    type V = RectView;

    open spec fn view(&self) -> RectView {
        RectView { x0: self.x0 as int, y0: self.y0 as int, x1: self.x1 as int, y1: self.y1 as int }
    }
}

impl Rect {
    /// The rectangle between the corners `p0` and `p1`, which are stored as
    /// given, in whatever order they lie.
    pub fn new(p0: Point, p1: Point) -> (r: Rect)
        ensures
            r@ == RectView::new(p0@, p1@),
    {
        Rect { x0: p0.x, y0: p0.y, x1: p1.x, y1: p1.y }
    }

    /// The rectangle that covers a display `width` pixels wide and `height`
    /// pixels high, with its top-left corner at the origin.
    pub fn screen(width: i32, height: i32) -> (r: Rect)
        ensures
            r@ == RectView::screen(width as int, height as int),
    {
        Rect { x0: 0, y0: 0, x1: width, y1: height }
    }

    /// The horizontal extent `x1 - x0`, negative for an inverted rectangle.
    /// The extent must fit an `i32`.
    pub fn width(&self) -> (w: i32)
        requires
            fits_i32(self@.width()),
        ensures
            w == self@.width(),
    {
        self.x1 - self.x0
    }

    /// The vertical extent `y1 - y0`, negative for an inverted rectangle.
    /// The extent must fit an `i32`.
    pub fn height(&self) -> (h: i32)
        requires
            fits_i32(self@.height()),
        ensures
            h == self@.height(),
    {
        self.y1 - self.y0
    }

    /// The corner `(x0, y0)`.
    pub fn top_left(&self) -> (p: Point)
        ensures
            p@ == self@.top_left(),
    {
        Point::new(self.x0, self.y0)
    }

    /// The corner `(x1, y0)`.
    pub fn top_right(&self) -> (p: Point)
        ensures
            p@ == self@.top_right(),
    {
        Point::new(self.x1, self.y0)
    }

    /// The corner `(x0, y1)`.
    pub fn bottom_left(&self) -> (p: Point)
        ensures
            p@ == self@.bottom_left(),
    {
        Point::new(self.x0, self.y1)
    }

    /// The corner `(x1, y1)`.
    pub fn bottom_right(&self) -> (p: Point)
        ensures
            p@ == self@.bottom_right(),
    {
        Point::new(self.x1, self.y1)
    }

    /// The midpoint of the top-left and bottom-right corners, rounded toward
    /// zero in each coordinate.
    pub fn midpoint(&self) -> (p: Point)
        ensures
            p@ == self@.midpoint(),
    {
        self.top_left().midpoint(self.bottom_right())
    }

    /// Whether `point` lies inside the rectangle: on or right of the left
    /// edge, on or below the top edge, and strictly before the right and
    /// bottom edges.
    pub fn contains(&self, point: Point) -> (b: bool)
        ensures
            b == self@.contains(point@),
    {
        point.x >= self.x0 && point.x < self.x1 && point.y >= self.y0 && point.y < self.y1
    }

    /// Moves every side inward by `uniform`, or outward if `uniform` is
    /// negative. An inset larger than half the width or height yields an
    /// inverted rectangle, which is returned as it is. The four new
    /// coordinates must fit `i32`.
    pub fn inset(&self, uniform: i32) -> (r: Rect)
        requires
            self@.inset(uniform as int).fits(),
        ensures
            r@ == self@.inset(uniform as int),
            uniform == 0 ==> r == *self,
    {
        Rect {
            x0: self.x0 + uniform,
            y0: self.y0 + uniform,
            x1: self.x1 - uniform,
            y1: self.y1 - uniform,
        }
    }
}

/// A rectangle built from two corners gives them back as its top-left and
/// bottom-right corners, whether or not the first lies above and to the left
/// of the second.
pub proof fn lemma_new_keeps_corners(a: Point, b: Point)
    ensures
        RectView::new(a@, b@).top_left() == a@,
        RectView::new(a@, b@).bottom_right() == b@,
{
}

/// Insetting by zero leaves a rectangle unchanged.
pub proof fn lemma_inset_zero(r: Rect)
    ensures
        r@.inset(0) == r@,
{
}

/// Insetting by `n` and then by `-n` gives the rectangle back, even where the
/// rectangle in between is inverted.
pub proof fn lemma_inset_round_trip(r: Rect, n: int)
    ensures
        r@.inset(n).inset(-n) == r@,
{
}

} // verus!
