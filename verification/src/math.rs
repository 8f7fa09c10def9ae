//! Fixed-point quantities.
//!
//! Lengths and the components of direction vectors are counted in thousandths of a
//! world unit. Time is counted in nanoseconds. A rate is a quantity per second, so a
//! rate multiplied by a time is counted in billionths of the rate's own unit: linear
//! velocity in units of 10⁻¹² world units per second, angular velocity in
//! nanoradians per second, angles in nanoradians and rotations in units of 10⁻¹⁸
//! radians. No product is ever rounded.
use vstd::prelude::*;

verus! {

/// Thousandths in one world unit.
pub const UNIT: i32 = 1000;

/// Nanoseconds in one second.
pub const NANOS_PER_SECOND: u64 = 1_000_000_000;

/// A point or a direction, in thousandths of a world unit.
#[derive(Clone, Copy, Debug, PartialEq, Eq, Structural)]
pub struct Vec3 {
    pub x: i32,
    pub y: i32,
    pub z: i32,
}

impl Vec3 {
    pub fn new(x: i32, y: i32, z: i32) -> (v: Vec3)
        ensures
            v == (Vec3 { x, y, z }),
    {
        Vec3 { x, y, z }
    }
}

/// The nearest value of the `i128` range to `v`.
pub open spec fn clamp_i128(v: int) -> int {
    if v > i128::MAX {
        i128::MAX as int
    } else if v < i128::MIN {
        i128::MIN as int
    } else {
        v
    }
}

/// Adds `b` to `a` and stops at the ends of the `i128` range.
pub fn saturating_add_i128(a: i128, b: i128) -> (sum: i128)
    ensures
        sum == clamp_i128(a + b),
{
    match a.checked_add(b) {
        Some(sum) => sum,
        None => if b > 0 {
            i128::MAX
        } else {
            i128::MIN
        },
    }
}

} // verus!
