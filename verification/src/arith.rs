//! Small clamped-arithmetic helpers shared by the scoring code.
//!
//! All score and counter updates in the engine saturate instead of
//! wrapping or failing: scores floor at zero and counters cap at the
//! widest value their type can hold.

use vstd::prelude::*;

verus! {

/// A mathematical value clamped into the `u32` range.
pub open spec fn cap_u32(x: int) -> int {
    if x < 0 {
        0
    } else if x > u32::MAX {
        u32::MAX as int
    } else {
        x
    }
}

/// A mathematical value clamped into the `i32` range.
pub open spec fn cap_i32(x: int) -> int {
    if x < i32::MIN {
        i32::MIN as int
    } else if x > i32::MAX {
        i32::MAX as int
    } else {
        x
    }
}

/// Add a signed delta to an unsigned total, clamping into the `u32` range.
pub fn u32_add_i64_clamped(a: u32, delta: i64) -> (r: u32)
    ensures
        r == cap_u32(a + delta),
{
    let wide: i128 = a as i128 + delta as i128;
    if wide < 0 {
        0
    } else if wide > u32::MAX as i128 {
        u32::MAX
    } else {
        wide as u32
    }
}

/// Add a signed delta to a signed total, clamping into the `i32` range.
pub fn i32_add_i64_clamped(a: i32, delta: i64) -> (r: i32)
    ensures
        r == cap_i32(a + delta),
{
    let wide: i128 = a as i128 + delta as i128;
    if wide < i32::MIN as i128 {
        i32::MIN
    } else if wide > i32::MAX as i128 {
        i32::MAX
    } else {
        wide as i32
    }
}

/// Saturating multiplication on `u32`.
pub fn u32_mul_saturating(a: u32, b: u32) -> (r: u32)
    ensures
        r == if a * b > u32::MAX { u32::MAX as int } else { a * b },
{
    assert(a as int * b as int <= u32::MAX as int * u32::MAX as int) by (nonlinear_arith)
        requires
            a <= u32::MAX,
            b <= u32::MAX,
    ;
    let wide: u64 = a as u64 * b as u64;
    if wide > u32::MAX as u64 {
        u32::MAX
    } else {
        wide as u32
    }
}

/// The smaller of two `u32` values.
pub fn u32_min(a: u32, b: u32) -> (r: u32)
    ensures
        r == if a <= b { a } else { b },
{
    if a <= b {
        a
    } else {
        b
    }
}

} // verus!
