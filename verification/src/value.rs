//! Parameter values as raw bit patterns.
//!
//! Every parameter value in this crate is the 32-bit pattern of an IEEE-754
//! single-precision number. Holding the pattern instead of the number keeps
//! equality exact (two values are the same value only if all 32 bits agree)
//! and lets the ordering used for clamping be stated over integers.

use vstd::prelude::*;

verus! {

/// The bit that carries the sign of a value.
pub const SIGN_BIT: u32 = 0x8000_0000;

/// The pattern of positive infinity: every magnitude above it is not a number.
pub const INFINITY_BITS: u32 = 0x7F80_0000;

/// The pattern with its sign bit cleared.
pub open spec fn magnitude(bits: u32) -> int {
    if bits >= SIGN_BIT {
        bits - SIGN_BIT
    } else {
        bits as int
    }
}

/// Whether the sign bit of the pattern is set.
pub open spec fn is_negative(bits: u32) -> bool {
    bits >= SIGN_BIT
}

/// Whether the pattern encodes no number at all (quiet or signaling).
pub open spec fn is_nan(bits: u32) -> bool {
    magnitude(bits) > INFINITY_BITS
}

/// An integer that orders patterns as the numbers they encode are ordered:
/// for two patterns that are numbers, the one with the smaller rank encodes
/// the smaller number, and the two zeros share rank 0.
pub open spec fn rank(bits: u32) -> int {
    if is_negative(bits) {
        -magnitude(bits)
    } else {
        magnitude(bits)
    }
}

/// Strictly-less on patterns. Nothing is below, or has anything below it,
/// once either side is not a number.
pub open spec fn below(a: u32, b: u32) -> bool {
    !is_nan(a) && !is_nan(b) && rank(a) < rank(b)
}

/// A pair of bounds that can bracket a value: both are numbers and the lower
/// one does not exceed the upper one.
pub open spec fn ordered_bounds(min: u32, max: u32) -> bool {
    !is_nan(min) && !is_nan(max) && rank(min) <= rank(max)
}

/// The value pulled into `[min, max]`: `min` if it lies below `min`, `max` if
/// it lies above `max`, and otherwise the value itself, bit for bit. A
/// pattern that is not a number lies neither below nor above and so passes
/// through unchanged.
pub open spec fn clamped(value: u32, min: u32, max: u32) -> u32 {
    if below(value, min) {
        min
    } else if below(max, value) {
        max
    } else {
        value
    }
}

/// Whether the value is a number inside `[min, max]`.
pub open spec fn within(value: u32, min: u32, max: u32) -> bool {
    !is_nan(value) && rank(min) <= rank(value) <= rank(max)
}

/// Executable test for a pattern that is not a number.
pub fn not_a_number(bits: u32) -> (r: bool)
    ensures
        r == is_nan(bits),
{
    let magnitude: u32 = if bits >= SIGN_BIT {
        bits - SIGN_BIT
    } else {
        bits
    };
    magnitude > INFINITY_BITS
}

/// Executable form of [`rank`].
pub fn rank_of(bits: u32) -> (r: i64)
    ensures
        r == rank(bits),
{
    if bits >= SIGN_BIT {
        let magnitude: u32 = bits - SIGN_BIT;
        -(magnitude as i64)
    } else {
        bits as i64
    }
}

/// Executable form of [`below`].
pub fn is_below(a: u32, b: u32) -> (r: bool)
    ensures
        r == below(a, b),
{
    !not_a_number(a) && !not_a_number(b) && rank_of(a) < rank_of(b)
}

/// Pulls `value` into `[min, max]`.
pub fn clamp(value: u32, min: u32, max: u32) -> (r: u32)
    requires
        ordered_bounds(min, max),
    ensures
        r == clamped(value, min, max),
{
    if is_below(value, min) {
        min
    } else if is_below(max, value) {
        max
    } else {
        value
    }
}

/// Clamping a number always lands inside the bounds, leaves a value that is
/// already inside untouched, and changes nothing when applied twice.
pub proof fn lemma_clamped_is_within(value: u32, min: u32, max: u32)
    requires
        ordered_bounds(min, max),
    ensures
        !is_nan(value) ==> within(clamped(value, min, max), min, max),
        is_nan(value) ==> clamped(value, min, max) == value,
        within(value, min, max) ==> clamped(value, min, max) == value,
        clamped(clamped(value, min, max), min, max) == clamped(value, min, max),
{
}

} // verus!
