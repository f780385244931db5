//! Bit-level model of IEEE 754 binary64 values.
//!
//! A 64-bit floating-point value is identified with its bit pattern: one sign
//! bit, an 11-bit exponent field and a 52-bit fraction field. Every predicate
//! and the value ordering below are stated purely over that pattern, so the
//! whole model is visible to the verifier. For patterns that do not encode
//! NaN, the comparison of the encoded values is a total order, and it
//! coincides with the order of the integer key computed by [`key`]:
//! non-negative patterns ascend with the pattern itself, negative patterns
//! descend, and the two zero patterns share the key `0`.

use vstd::prelude::*;

verus! {

/// The sign bit of a binary64 pattern.
pub const SIGN_MASK: u64 = 0x8000_0000_0000_0000;

/// The exponent field of a binary64 pattern.
pub const EXP_MASK: u64 = 0x7ff0_0000_0000_0000;

/// The fraction field of a binary64 pattern.
pub const FRAC_MASK: u64 = 0x000f_ffff_ffff_ffff;

/// Everything but the sign bit: the magnitude of the encoded value.
pub const MAG_MASK: u64 = 0x7fff_ffff_ffff_ffff;

/// A pattern encodes NaN when its exponent field is saturated and its
/// fraction field is nonzero.
pub open spec fn spec_is_nan(b: u64) -> bool {
    b & EXP_MASK == EXP_MASK && b & FRAC_MASK != 0
}

/// A pattern encodes an infinity when its exponent field is saturated and its
/// fraction field is zero.
pub open spec fn spec_is_infinite(b: u64) -> bool {
    b & EXP_MASK == EXP_MASK && b & FRAC_MASK == 0
}

/// A pattern encodes a finite value when its exponent field is not saturated.
pub open spec fn spec_is_finite(b: u64) -> bool {
    b & EXP_MASK != EXP_MASK
}

/// A pattern encodes a zero, of either sign, when everything but the sign bit
/// is clear.
pub open spec fn spec_is_zero(b: u64) -> bool {
    b & MAG_MASK == 0
}

/// The sign bit is set: the pattern encodes a negative value (or `-0.0`, or a
/// NaN with a set sign bit).
pub open spec fn spec_sign(b: u64) -> bool {
    b & SIGN_MASK != 0
}

/// The integer key that orders encoded values: for patterns that do not
/// encode NaN, value `a` is below value `b` exactly when `key(a) < key(b)`,
/// and the values are equal exactly when the keys are equal.
pub open spec fn key(b: u64) -> int {
    if spec_sign(b) {
        SIGN_MASK - b
    } else {
        b as int
    }
}

/// The encoded values are equal. Meaningful only for patterns that do not
/// encode NaN; a live wrapper never holds a NaN pattern.
pub open spec fn spec_eq(a: u64, b: u64) -> bool {
    key(a) == key(b)
}

/// The value encoded by `a` is strictly below the value encoded by `b`.
/// Meaningful only for patterns that do not encode NaN.
pub open spec fn spec_lt(a: u64, b: u64) -> bool {
    key(a) < key(b)
}

/// Returns whether the pattern encodes NaN.
pub fn is_nan(b: u64) -> (r: bool)
    ensures
        r == spec_is_nan(b),
{
    b & EXP_MASK == EXP_MASK && b & FRAC_MASK != 0
}

/// Returns whether the pattern encodes an infinity.
pub fn is_infinite(b: u64) -> (r: bool)
    ensures
        r == spec_is_infinite(b),
{
    b & EXP_MASK == EXP_MASK && b & FRAC_MASK == 0
}

/// Returns whether the pattern encodes a finite value.
pub fn is_finite(b: u64) -> (r: bool)
    ensures
        r == spec_is_finite(b),
{
    b & EXP_MASK != EXP_MASK
}

/// Returns whether the pattern encodes a zero of either sign.
pub fn is_zero(b: u64) -> (r: bool)
    ensures
        r == spec_is_zero(b),
{
    b & MAG_MASK == 0
}

/// The sign bit is clear exactly on the patterns below `SIGN_MASK`.
proof fn lemma_sign_split(b: u64)
    ensures
        spec_sign(b) <==> b >= SIGN_MASK,
{
    assert((b & 0x8000_0000_0000_0000u64 != 0) <==> b >= 0x8000_0000_0000_0000u64)
        by (bit_vector);
}

/// The only patterns whose magnitude bits are all clear are the two zeros.
proof fn lemma_mag_zero(b: u64)
    ensures
        spec_is_zero(b) <==> (b == 0 || b == SIGN_MASK),
{
    assert((b & 0x7fff_ffff_ffff_ffffu64 == 0) <==> (b == 0 || b == 0x8000_0000_0000_0000u64))
        by (bit_vector);
}

/// Two patterns share a key exactly when they are identical or both encode a
/// zero: the keys of distinct values are distinct, except that `-0.0` and
/// `+0.0` count as the same value.
pub proof fn lemma_key_eq(a: u64, b: u64)
    ensures
        spec_eq(a, b) <==> (a == b || (spec_is_zero(a) && spec_is_zero(b))),
{
    lemma_sign_split(a);
    lemma_sign_split(b);
    lemma_mag_zero(a);
    lemma_mag_zero(b);
}

/// Compares two patterns for value equality: identical patterns are equal,
/// and so are the two zeros.
pub fn eq_bits(a: u64, b: u64) -> (r: bool)
    ensures
        r == spec_eq(a, b),
{
    proof {
        lemma_key_eq(a, b);
    }
    a == b || (a & MAG_MASK == 0 && b & MAG_MASK == 0)
}

/// Compares two patterns by encoded value: sign-magnitude order, with the two
/// zeros equal.
pub fn lt_bits(a: u64, b: u64) -> (r: bool)
    ensures
        r == spec_lt(a, b),
{
    proof {
        lemma_sign_split(a);
        lemma_sign_split(b);
        lemma_mag_zero(a);
        lemma_mag_zero(b);
    }
    let a_neg: bool = a & SIGN_MASK != 0;
    let b_neg: bool = b & SIGN_MASK != 0;
    if a_neg && b_neg {
        b < a
    } else if !a_neg && !b_neg {
        a < b
    } else if a_neg {
        !(a == SIGN_MASK && b == 0)
    } else {
        false
    }
}

} // verus!
