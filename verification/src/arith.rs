//! Integer helpers shared by the geometric types.

use vstd::prelude::*;

verus! {

/// Whether `v` can be stored in an `i32` coordinate.
pub open spec fn fits_i32(v: int) -> bool {
    i32::MIN <= v <= i32::MAX
}

/// The absolute value of `v`.
pub open spec fn abs(v: int) -> int {
    if v < 0 {
        -v
    } else {
        v
    }
}

/// The quotient of `a` by a positive divisor `d`, rounded toward zero.
///
/// For a non-negative `a` this is the floor of `a / d`; for a negative `a` it
/// is the ceiling, so `div_toward_zero(-7, 2) == -3`.
pub open spec fn div_toward_zero(a: int, d: int) -> int
    recommends
        d > 0,
{
    if a >= 0 {
        a / d
    } else {
        -((-a) / d)
    }
}

} // verus!
