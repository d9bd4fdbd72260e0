//! The engine's view of IEEE-754 single-precision values.
//!
//! The host hands every buffer element over as its raw bit pattern (`u32`).
//! All predicates the engine decides on — finiteness, the magnitude bound,
//! the spike threshold, the window gate — are stated directly on the pattern:
//! for patterns whose exponent field is not all ones the encoded value is
//! finite, and among finite values of equal sign the integer order of the
//! magnitude bits is the order of the magnitudes themselves.

use vstd::prelude::*;

verus! {

/// Bit pattern of the value 1000.0: the magnitude bound on activation inputs.
pub const MAX_MAGNITUDE_BITS: u32 = 0x447A_0000;

/// Bit pattern of the value 0.1: the spike threshold.
pub const SPIKE_THRESHOLD_BITS: u32 = 0x3DCC_CCCD;

/// The exponent field of a single-precision pattern: bits 23 to 30.
pub open spec fn exponent_field(b: u32) -> u32 {
    (b >> 23) & 0xFF
}

/// The sign bit of a pattern.
pub open spec fn sign_bit(b: u32) -> u32 {
    b >> 31
}

/// The pattern with its sign bit cleared: the magnitude bits.
pub open spec fn magnitude_bits(b: u32) -> u32 {
    b & 0x7FFF_FFFF
}

/// A pattern encodes a finite value: its exponent field is not all ones.
/// (An all-ones exponent encodes an infinity or a NaN.)
pub open spec fn is_finite_bits(b: u32) -> bool {
    exponent_field(b) != 0xFF
}

/// A pattern encodes a NaN: all-ones exponent with a non-zero fraction.
pub open spec fn is_nan_bits(b: u32) -> bool {
    exponent_field(b) == 0xFF && (b & 0x007F_FFFF) != 0
}

/// The encoded value has magnitude at most 1000.0. Meaningful for non-NaN
/// patterns: magnitudes of such values order as their magnitude bits do.
pub open spec fn within_magnitude_bound(b: u32) -> bool {
    magnitude_bits(b) <= MAX_MAGNITUDE_BITS
}

/// The encoded value compares strictly greater than 0.1: it is not a NaN
/// (every comparison on a NaN is false), its sign is positive, and its
/// magnitude bits lie above the threshold's pattern.
pub open spec fn is_spike_bits(b: u32) -> bool {
    &&& !is_nan_bits(b)
    &&& sign_bit(b) == 0
    &&& b > SPIKE_THRESHOLD_BITS
}

/// The encoded value compares less than or equal to zero: it is not a NaN
/// and is either a zero of some sign or carries a negative sign.
pub open spec fn is_le_zero_bits(b: u32) -> bool {
    &&& !is_nan_bits(b)
    &&& (magnitude_bits(b) == 0 || sign_bit(b) == 1)
}

/// Decides `is_finite_bits`.
pub fn finite_bits(b: u32) -> (r: bool)
    ensures
        r == is_finite_bits(b),
{
    (b >> 23) & 0xFF != 0xFF
}

/// Decides `is_nan_bits`.
pub fn nan_bits(b: u32) -> (r: bool)
    ensures
        r == is_nan_bits(b),
{
    (b >> 23) & 0xFF == 0xFF && (b & 0x007F_FFFF) != 0
}

/// Decides `within_magnitude_bound`.
pub fn magnitude_bounded(b: u32) -> (r: bool)
    ensures
        r == within_magnitude_bound(b),
{
    (b & 0x7FFF_FFFF) <= MAX_MAGNITUDE_BITS
}

/// Decides `is_spike_bits`.
pub fn spike_bits(b: u32) -> (r: bool)
    ensures
        r == is_spike_bits(b),
{
    !nan_bits(b) && (b >> 31) == 0 && b > SPIKE_THRESHOLD_BITS
}

/// Decides `is_le_zero_bits`.
pub fn le_zero_bits(b: u32) -> (r: bool)
    ensures
        r == is_le_zero_bits(b),
{
    !nan_bits(b) && ((b & 0x7FFF_FFFF) == 0 || (b >> 31) == 1)
}

} // verus!
