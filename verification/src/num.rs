//! Integer helpers shared by the game rules: Rust's truncating division,
//! and the minimum and maximum of two integers, as spec functions.
use vstd::prelude::*;

verus! {

/// Division that rounds toward zero, as Rust's `/` does on signed integers.
pub open spec fn tdiv(a: int, b: int) -> int
    recommends
        b > 0,
{
    if a >= 0 {
        a / b
    } else {
        -((-a) / b)
    }
}

pub open spec fn imin(a: int, b: int) -> int {
    if a <= b {
        a
    } else {
        b
    }
}

pub open spec fn imax(a: int, b: int) -> int {
    if a >= b {
        a
    } else {
        b
    }
}

} // verus!
