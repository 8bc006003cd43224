//! Integer model of IEEE-754 binary64 comparison.
//!
//! A `u64` in this crate stands for the `f64` with that bit pattern.  For
//! comparison purposes a binary64 value is fully described by two integer
//! facts about its bits: whether it is a NaN, and its sign-magnitude key
//! (negative values keep their magnitude but flip its sign; the two zeros
//! share the key 0).  Two non-NaN values compare under IEEE-754 `<` exactly
//! as their keys compare as integers, and any comparison with a NaN is
//! false.  The executable comparisons below are plain integer arithmetic,
//! verified against those definitions.

use vstd::prelude::*;

verus! {

/// The sign bit of a binary64 bit pattern.
pub const F64_SIGN_BIT: u64 = 0x8000_0000_0000_0000;

/// The exponent field of a binary64 bit pattern, all ones.
pub const F64_EXP_MASK: u64 = 0x7FF0_0000_0000_0000;

/// The bit pattern of +0.0.
pub const F64_POS_ZERO: u64 = 0;

/// Magnitude of a bit pattern: the pattern with its sign bit cleared.
pub open spec fn fmag(b: u64) -> int {
    if b >= F64_SIGN_BIT {
        b - F64_SIGN_BIT
    } else {
        b as int
    }
}

/// The sign bit is set (true of every negative value, of -0.0 and of NaNs
/// with a set sign bit).
pub open spec fn sign_negative_bits(b: u64) -> bool {
    b >= F64_SIGN_BIT
}

/// A pattern encodes a NaN iff its exponent field is all ones and its
/// fraction field is non-zero, i.e. its magnitude exceeds the exponent mask.
pub open spec fn is_nan_bits(b: u64) -> bool {
    fmag(b) > F64_EXP_MASK
}

/// Sign-magnitude key: non-NaN values are ordered by IEEE-754 `<` exactly as
/// their keys are ordered as integers, and values are IEEE-754 `==` exactly
/// when their keys coincide (+0.0 and -0.0 share the key 0).
pub open spec fn fkey(b: u64) -> int {
    if b >= F64_SIGN_BIT {
        -fmag(b)
    } else {
        fmag(b)
    }
}

/// IEEE-754 `<` on two bit patterns.
pub open spec fn f_lt(a: u64, b: u64) -> bool {
    &&& !is_nan_bits(a)
    &&& !is_nan_bits(b)
    &&& fkey(a) < fkey(b)
}

/// IEEE-754 `<=` on two bit patterns.
pub open spec fn f_le(a: u64, b: u64) -> bool {
    &&& !is_nan_bits(a)
    &&& !is_nan_bits(b)
    &&& fkey(a) <= fkey(b)
}

/// IEEE-754 `==` on two bit patterns.
pub open spec fn f_eq(a: u64, b: u64) -> bool {
    &&& !is_nan_bits(a)
    &&& !is_nan_bits(b)
    &&& fkey(a) == fkey(b)
}

/// Whether the pattern encodes a NaN.
pub fn f64_is_nan_bits(b: u64) -> (r: bool)
    ensures
        r == is_nan_bits(b),
{
    let m = if b >= F64_SIGN_BIT {
        b - F64_SIGN_BIT
    } else {
        b
    };
    m > F64_EXP_MASK
}

/// IEEE-754 `<` computed on bit patterns.
pub fn f64_lt_bits(a: u64, b: u64) -> (r: bool)
    ensures
        r == f_lt(a, b),
{
    if f64_is_nan_bits(a) || f64_is_nan_bits(b) {
        return false;
    }
    let neg_a = a >= F64_SIGN_BIT;
    let neg_b = b >= F64_SIGN_BIT;
    let mag_a = if neg_a {
        a - F64_SIGN_BIT
    } else {
        a
    };
    let mag_b = if neg_b {
        b - F64_SIGN_BIT
    } else {
        b
    };
    if neg_a && neg_b {
        mag_b < mag_a
    } else if neg_a {
        mag_a > 0 || mag_b > 0
    } else if neg_b {
        false
    } else {
        mag_a < mag_b
    }
}

/// IEEE-754 `<=` computed on bit patterns.
pub fn f64_le_bits(a: u64, b: u64) -> (r: bool)
    ensures
        r == f_le(a, b),
{
    if f64_is_nan_bits(a) || f64_is_nan_bits(b) {
        return false;
    }
    let neg_a = a >= F64_SIGN_BIT;
    let neg_b = b >= F64_SIGN_BIT;
    let mag_a = if neg_a {
        a - F64_SIGN_BIT
    } else {
        a
    };
    let mag_b = if neg_b {
        b - F64_SIGN_BIT
    } else {
        b
    };
    if neg_a && neg_b {
        mag_b <= mag_a
    } else if neg_a {
        true
    } else if neg_b {
        mag_a == 0 && mag_b == 0
    } else {
        mag_a <= mag_b
    }
}

/// The sign bit, as executable code.
pub fn f64_sign_negative_bits(b: u64) -> (r: bool)
    ensures
        r == sign_negative_bits(b),
{
    b >= F64_SIGN_BIT
}

/// IEEE-754 `==` computed on bit patterns.
pub fn f64_eq_bits(a: u64, b: u64) -> (r: bool)
    ensures
        r == f_eq(a, b),
{
    if f64_is_nan_bits(a) || f64_is_nan_bits(b) {
        return false;
    }
    let neg_a = a >= F64_SIGN_BIT;
    let neg_b = b >= F64_SIGN_BIT;
    let mag_a = if neg_a {
        a - F64_SIGN_BIT
    } else {
        a
    };
    let mag_b = if neg_b {
        b - F64_SIGN_BIT
    } else {
        b
    };
    if neg_a == neg_b {
        mag_a == mag_b
    } else {
        mag_a == 0 && mag_b == 0
    }
}

/// Order-preserving integer reading of a bit pattern: adjacent keys are one
/// unit in the last place apart, and -0.0 sits directly below +0.0.
pub open spec fn okey(b: u64) -> int {
    if b >= F64_SIGN_BIT {
        -1 - fmag(b)
    } else {
        fmag(b)
    }
}

/// The two patterns are at most two units in the last place apart, measured
/// as the wrapping 64-bit two's-complement difference of their
/// order-preserving readings with a saturating absolute value.
pub open spec fn ulps_within_2(a: u64, b: u64) -> bool {
    let d = okey(a) - okey(b);
    ||| -2 <= d <= 2
    ||| d >= 0x1_0000_0000_0000_0000 - 2
    ||| d <= -0x1_0000_0000_0000_0000 + 2
}

/// Approximate equality of two bit patterns: IEEE-754 equal, or at most two
/// units in the last place apart.  This is the tolerance under which two
/// temperatures count as equal when deciding whether annealing is active.
pub open spec fn approx_eq_2ulps(a: u64, b: u64) -> bool {
    f_eq(a, b) || ulps_within_2(a, b)
}

/// Approximate equality, as executable integer arithmetic.
pub fn f64_approx_eq_2ulps(a: u64, b: u64) -> (r: bool)
    ensures
        r == approx_eq_2ulps(a, b),
{
    if f64_eq_bits(a, b) {
        return true;
    }
    let ka: i128 = if a >= F64_SIGN_BIT {
        -1 - ((a - F64_SIGN_BIT) as i128)
    } else {
        a as i128
    };
    let kb: i128 = if b >= F64_SIGN_BIT {
        -1 - ((b - F64_SIGN_BIT) as i128)
    } else {
        b as i128
    };
    let d: i128 = ka - kb;
    let wrap: i128 = 0x1_0000_0000_0000_0000;
    (-2 <= d && d <= 2) || d >= wrap - 2 || d <= -wrap + 2
}

} // verus!
