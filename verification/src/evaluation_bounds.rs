use vstd::prelude::*;

verus! {

/// The smallest evaluation a position can have (a certain loss).
pub const NEGATIVE_INFINITY: i32 = -1_000_000;

/// The largest evaluation a position can have (a certain win).
pub const POSITIVE_INFINITY: i32 = 1_000_000;

/// The smaller of two integers.
pub open spec fn min_int(a: int, b: int) -> int {
    if a <= b {
        a
    } else {
        b
    }
}

/// The larger of two integers.
pub open spec fn max_int(a: int, b: int) -> int {
    if a >= b {
        a
    } else {
        b
    }
}

/// Integer division rounding towards zero (the division of Rust's integers)
/// by a positive divisor.
pub open spec fn div_toward_zero(a: int, divisor: int) -> int {
    if a >= 0 {
        a / divisor
    } else {
        -((-a) / divisor)
    }
}

} // verus!
