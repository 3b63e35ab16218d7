//! Small integer functions.

use vstd::prelude::*;

verus! {

/// `v`, brought within `lo` and `hi`.
pub open spec fn clamped(v: int, lo: int, hi: int) -> int {
    if v < lo {
        lo
    } else if v > hi {
        hi
    } else {
        v
    }
}

/// The quotient of `a` by `b`, rounded towards zero.
pub open spec fn quotient(a: int, b: int) -> int
    recommends
        b > 0,
{
    if a < 0 {
        -((-a) / b)
    } else {
        a / b
    }
}

/// The larger of `v` and one.
pub open spec fn at_least_one(v: int) -> int {
    if v < 1 {
        1
    } else {
        v
    }
}

/// Brings a number within an `i8`.
pub fn clamp_to_i8(v: i16) -> (c: i8)
    ensures
        c == clamped(v as int, i8::MIN as int, i8::MAX as int),
{
    if v < i8::MIN as i16 {
        i8::MIN
    } else if v > i8::MAX as i16 {
        i8::MAX
    } else {
        v as i8
    }
}

/// Brings a number within an `i16`.
pub fn clamp_to_i16(v: i32) -> (c: i16)
    ensures
        c == clamped(v as int, i16::MIN as int, i16::MAX as int),
{
    if v < i16::MIN as i32 {
        i16::MIN
    } else if v > i16::MAX as i32 {
        i16::MAX
    } else {
        v as i16
    }
}

/// The distance of `v` from zero.
pub fn magnitude_of(v: i16) -> (m: i32)
    ensures
        m == crate::pointing::magnitude(v as int),
{
    if v < 0 {
        -(v as i32)
    } else {
        v as i32
    }
}

} // verus!
