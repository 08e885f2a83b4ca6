//! The fixed-point scale of the simulation and the integer arithmetic built on it.
//!
//! Lengths are whole numbers of steps, [`UNIT`] steps to one world unit. Velocities count
//! steps per millisecond, so that a velocity times a duration in milliseconds is a length
//! with nothing lost. Where a result leaves the range of `i64` it is pinned at the end of
//! the range it left by.

use vstd::prelude::*;

verus! {

/// Steps in one world unit of length.
pub const UNIT: i64 = 1_000_000;

/// Velocity steps (length steps per millisecond) in one world unit per second.
pub const UNIT_PER_SECOND: i64 = 1_000;

/// Whether `x` can be held in an `i64`.
pub open spec fn fits(x: int) -> bool {
    i64::MIN <= x <= i64::MAX
}

/// The value an `i64` can hold that is nearest to `x`.
pub open spec fn saturate(x: int) -> int {
    if x < i64::MIN {
        i64::MIN as int
    } else if x > i64::MAX {
        i64::MAX as int
    } else {
        x
    }
}

/// `x` moved into `[lower, upper]` by the shortest way.
pub open spec fn clamp(x: int, lower: int, upper: int) -> int {
    if x < lower {
        lower
    } else if x > upper {
        upper
    } else {
        x
    }
}

/// The distance of `x` from zero.
pub open spec fn magnitude(x: int) -> int {
    if x < 0 {
        -x
    } else {
        x
    }
}

/// `x` divided by a positive `d`, rounded toward zero.
pub open spec fn quotient(x: int, d: int) -> int {
    if x >= 0 {
        x / d
    } else {
        -((-x) / d)
    }
}

/// Narrows a wide intermediate result to `i64`.
pub fn narrow(x: i128) -> (r: i64)
    ensures
        r == saturate(x as int),
{
    if x < i64::MIN as i128 {
        i64::MIN
    } else if x > i64::MAX as i128 {
        i64::MAX
    } else {
        x as i64
    }
}

/// Moves a wide intermediate result into `[lower, upper]`.
pub fn clamp_wide(x: i128, lower: i64, upper: i64) -> (r: i64)
    requires
        lower <= upper,
    ensures
        r == clamp(x as int, lower as int, upper as int),
        lower <= r <= upper,
{
    if x < lower as i128 {
        lower
    } else if x > upper as i128 {
        upper
    } else {
        x as i64
    }
}

/// The exact product of a velocity and a duration in milliseconds: the way gone at that
/// velocity in that time.
pub fn travel(velocity: i64, dt_ms: u32) -> (r: i128)
    ensures
        r == velocity * dt_ms,
        -0x8000_0000_0000_0000_0000_0000 <= r <= 0x8000_0000_0000_0000_0000_0000,
{
    assert(-0x8000_0000_0000_0000 * 0x1_0000_0000 <= velocity * dt_ms
        <= 0x8000_0000_0000_0000 * 0x1_0000_0000) by (nonlinear_arith)
        requires
            -0x8000_0000_0000_0000 <= velocity <= 0x8000_0000_0000_0000,
            0 <= dt_ms <= 0x1_0000_0000,
    ;
    (velocity as i128) * (dt_ms as i128)
}

/// `-v`, pinned at `i64::MAX` for the one value whose negation does not fit.
pub fn negate(v: i64) -> (r: i64)
    ensures
        r == saturate(-v),
{
    if v == i64::MIN {
        i64::MAX
    } else {
        -v
    }
}

} // verus!
