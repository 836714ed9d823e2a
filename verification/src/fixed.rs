//! Scalar arithmetic on lengths and velocities.
//!
//! Every operation is total: a result that would leave the range of `i64`
//! stays at the end of the range it crossed.

use vstd::prelude::*;

verus! {

/// Length units in one pixel.
pub const PIXEL: i64 = 1_000_000_000;

/// Time units in one second.
pub const SECOND: u32 = 1_000_000;

/// Velocity units in one pixel per second. A velocity unit is one length
/// unit per time unit.
pub const PIXEL_PER_SECOND: i64 = 1_000;

/// The `i64` nearest to `x`.
pub open spec fn saturate(x: int) -> int {
    if x < i64::MIN {
        i64::MIN as int
    } else if x > i64::MAX {
        i64::MAX as int
    } else {
        x
    }
}

/// `x` limited to the interval from `lo` to `hi`; `lo` where the interval is empty.
pub open spec fn clamped(x: int, lo: int, hi: int) -> int {
    if x < lo {
        lo
    } else if x > hi {
        hi
    } else {
        x
    }
}

/// The coordinate reached from `start` after `dt` at `velocity`, saturated.
pub open spec fn displaced(start: int, velocity: int, dt: int) -> int {
    saturate(start + velocity * dt)
}

/// A product of an `i64` and a `u32` stays well inside `i128`.
pub proof fn lemma_product_bounds(v: int, dt: int)
    requires
        i64::MIN <= v <= i64::MAX,
        0 <= dt <= u32::MAX,
    ensures
        -0x8000_0000_0000_0000_0000_0000 <= v * dt <= 0x8000_0000_0000_0000_0000_0000,
{
    assert(v * dt <= 0x8000_0000_0000_0000 * dt) by (nonlinear_arith)
        requires
            v <= 0x8000_0000_0000_0000,
            0 <= dt,
    ;
    assert(v * dt >= -0x8000_0000_0000_0000 * dt) by (nonlinear_arith)
        requires
            v >= -0x8000_0000_0000_0000,
            0 <= dt,
    ;
}

/// Narrows a wide intermediate result to `i64`, saturating.
pub fn narrow(x: i128) -> (r: i64)
    ensures
        r == saturate(x as int),
{
    if x < i64::MIN as i128 {
        i64::MIN
    } else if x > i64::MAX as i128 {
        i64::MAX
    } else {
        x as i64
    }
}

/// Moves `start` by `velocity * dt`.
pub fn advance(start: i64, velocity: i64, dt: u32) -> (r: i64)
    ensures
        r == displaced(start as int, velocity as int, dt as int),
        i64::MIN <= start + velocity * dt <= i64::MAX ==> r == start + velocity * dt,
{
    proof {
        lemma_product_bounds(velocity as int, dt as int);
    }
    let step: i128 = (velocity as i128) * (dt as i128);
    narrow(start as i128 + step)
}

/// The opposite of `v`, saturated: the opposite of `i64::MIN` is `i64::MAX`.
pub fn negate(v: i64) -> (r: i64)
    ensures
        r == saturate(-v),
        v > i64::MIN ==> r == -v,
{
    if v == i64::MIN {
        i64::MAX
    } else {
        -v
    }
}

} // verus!
