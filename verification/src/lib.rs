//! Integer geometry for laying out and hit-testing rectangular regions of a
//! display: points and offsets, axis-aligned rectangles, and regular grids
//! of cells.
//!
//! Every type comes with a mathematical model over unbounded integers (its
//! view), and every function states its result in terms of these models. A
//! function whose result might not fit the `i32` coordinates requires that
//! it does.

pub mod align;
pub mod arith;
pub mod grid;
pub mod offset;
pub mod point;
pub mod record;
pub mod rect;

pub use crate::align::Align;
pub use crate::grid::{Grid, GridView};
pub use crate::offset::{Offset, OffsetView};
pub use crate::point::{Point, PointView};
pub use crate::record::{Error, Field, Record, Value};
pub use crate::rect::{Rect, RectView};
