//! Horizontal placement within a cell.

use vstd::prelude::*;

verus! {

/// Where a layout places its content horizontally.
#[derive(Copy, Clone, Debug, PartialEq, Eq, Structural)]
pub enum Align {
    Left,
    Right,
    Center,
}

} // verus!
