//! Processor usage as the bit pattern of an IEEE 754 single-precision number.
//!
//! A usage percentage is carried as the 32 bits of its binary32 encoding, and
//! compared the way the hardware compares the numbers those bits stand for:
//! a NaN is never at most anything, and the two zeros are equal.

use vstd::prelude::*;

verus! {

/// The sign bit of a binary32 encoding.
pub const SIGN_BIT: u32 = 0x8000_0000;

/// The encoding of positive infinity; every larger magnitude encodes a NaN.
pub const INFINITY_BITS: u32 = 0x7f80_0000;

/// The encoding of 95.0, the usage up to which a processor counts as available
/// unless a policy says otherwise.
pub const DEFAULT_USAGE_THRESHOLD: u32 = 0x42be_0000;

/// The encoding with its sign bit cleared.
pub open spec fn magnitude(bits: u32) -> int {
    if bits >= SIGN_BIT {
        bits - SIGN_BIT
    } else {
        bits as int
    }
}

/// Whether `bits` encodes a NaN.
pub open spec fn is_nan(bits: u32) -> bool {
    magnitude(bits) > INFINITY_BITS
}

/// An integer that orders the encodings of numbers as the numbers are ordered:
/// the magnitude, negated where the sign bit is set. Both zeros have rank 0.
pub open spec fn rank(bits: u32) -> int {
    if bits >= SIGN_BIT {
        -magnitude(bits)
    } else {
        magnitude(bits)
    }
}

/// `a <= b` for the numbers that `a` and `b` encode.
pub open spec fn spec_at_most(a: u32, b: u32) -> bool {
    !is_nan(a) && !is_nan(b) && rank(a) <= rank(b)
}

/// Whether a raw sample value is a usage at most `threshold`. A value that
/// does not fit in 32 bits encodes no usage and is never within a threshold.
pub open spec fn spec_within(raw: u64, threshold: u32) -> bool {
    raw <= u32::MAX && spec_at_most(raw as u32, threshold)
}

/// Whether `bits` encodes a NaN.
pub fn encodes_nan(bits: u32) -> (r: bool)
    ensures
        r == is_nan(bits),
{
    let m: u32 = if bits >= SIGN_BIT { bits - SIGN_BIT } else { bits };
    m > INFINITY_BITS
}

/// Compares two encodings as the numbers they stand for.
pub fn at_most(a: u32, b: u32) -> (r: bool)
    ensures
        r == spec_at_most(a, b),
{
    if encodes_nan(a) || encodes_nan(b) {
        return false;
    }
    let a_negative: bool = a >= SIGN_BIT;
    let b_negative: bool = b >= SIGN_BIT;
    if a_negative && b_negative {
        // both negative: the larger magnitude is the smaller number
        a >= b
    } else if a_negative {
        true
    } else if b_negative {
        // only b is negative: a is at most b where both are zero
        a == 0 && b == SIGN_BIT
    } else {
        a <= b
    }
}

/// Whether a raw sample value is a usage at most `threshold`.
pub fn within(raw: u64, threshold: u32) -> (r: bool)
    ensures
        r == spec_within(raw, threshold),
{
    if raw > 0xffff_ffff {
        false
    } else {
        at_most(raw as u32, threshold)
    }
}

/// A usage equal to the threshold is within it, whatever finite threshold is
/// chosen: the comparison is inclusive.
pub proof fn lemma_threshold_is_inclusive(threshold: u32)
    requires
        !is_nan(threshold),
    ensures
        spec_at_most(threshold, threshold),
        spec_within(threshold as u64, threshold),
{
}

/// Among positive encodings a larger bit pattern is a larger number or no
/// number at all, so a usage whose encoding exceeds a positive threshold's is
/// not within it.
pub proof fn lemma_above_threshold_is_excluded(usage: u32, threshold: u32)
    requires
        threshold < usage < SIGN_BIT,
    ensures
        !spec_at_most(usage, threshold),
        !spec_within(usage as u64, threshold),
{
}

/// Under the default threshold a processor is available exactly if its usage
/// is a number from negative infinity up to 95.0, both included: 95.0 counts,
/// the next number above it does not, and a NaN never does.
pub proof fn lemma_default_threshold(usage: u32)
    ensures
        spec_within(usage as u64, DEFAULT_USAGE_THRESHOLD) <==> usage <= DEFAULT_USAGE_THRESHOLD
            || SIGN_BIT <= usage <= SIGN_BIT + INFINITY_BITS,
{
}

} // verus!
