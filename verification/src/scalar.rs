//! The engine stores every number as the bit pattern of an IEEE-754 double
//! (binary64) in a `u64`. This module gives that representation its meaning:
//! which patterns are NaN or zero, and how two doubles compare. Comparison
//! of doubles is decided entirely by their bit patterns — NaN compares false,
//! the two zeros are equal, and otherwise sign and magnitude decide — so the
//! max-pooling paths can be verified against these definitions.

use vstd::prelude::*;

verus! {

/// Bit pattern of +0.0, also the all-zero fill used for padding.
pub const ZERO_BITS: u64 = 0;

/// Bit pattern of 1.0.
pub const ONE_BITS: u64 = 0x3FF0_0000_0000_0000;

/// Bit pattern of negative infinity, the seed of a running maximum.
pub const NEG_INFINITY_BITS: u64 = 0xFFF0_0000_0000_0000;

/// Bit pattern of 0.2, the default gradient-clipping threshold.
pub const DEFAULT_GRAD_THRESHOLD_BITS: u64 = 0x3FC9_9999_9999_999A;

/// Exponent field of a double.
pub const EXP_MASK: u64 = 0x7FF0_0000_0000_0000;

/// Fraction field of a double.
pub const FRAC_MASK: u64 = 0x000F_FFFF_FFFF_FFFF;

/// Everything but the sign bit.
pub const ABS_MASK: u64 = 0x7FFF_FFFF_FFFF_FFFF;

/// The sign bit.
pub const SIGN_MASK: u64 = 0x8000_0000_0000_0000;

/// The pattern encodes a NaN: exponent all ones, fraction not zero.
pub open spec fn fp_is_nan(a: u64) -> bool {
    a & EXP_MASK == EXP_MASK && a & FRAC_MASK != 0
}

/// The pattern encodes +0.0 or -0.0.
pub open spec fn fp_is_zero(a: u64) -> bool {
    a & ABS_MASK == 0
}

/// The sign bit is set.
pub open spec fn fp_is_neg(a: u64) -> bool {
    a & SIGN_MASK != 0
}

/// The pattern with the sign bit cleared. For doubles of one sign, larger
/// magnitude bits mean a value farther from zero.
pub open spec fn fp_magnitude(a: u64) -> u64 {
    a & ABS_MASK
}

/// Strict `>` of the doubles the two patterns encode. False whenever either
/// side is NaN; the two zeros are equal; otherwise non-negative beats
/// negative, and within one sign the magnitudes decide.
pub open spec fn fp_gt(a: u64, b: u64) -> bool {
    if fp_is_nan(a) || fp_is_nan(b) {
        false
    } else if fp_is_zero(a) && fp_is_zero(b) {
        false
    } else if !fp_is_neg(a) && !fp_is_neg(b) {
        fp_magnitude(a) > fp_magnitude(b)
    } else if !fp_is_neg(a) && fp_is_neg(b) {
        true
    } else if fp_is_neg(a) && !fp_is_neg(b) {
        false
    } else {
        fp_magnitude(a) < fp_magnitude(b)
    }
}

/// The pattern encodes one of the two infinities: exponent all ones,
/// fraction zero.
pub open spec fn fp_is_infinite(a: u64) -> bool {
    a & EXP_MASK == EXP_MASK && a & FRAC_MASK == 0
}

/// `==` of the doubles the two patterns encode: equal patterns, or the two
/// zeros; never true of a NaN.
pub open spec fn fp_eq(a: u64, b: u64) -> bool {
    !fp_is_nan(a) && !fp_is_nan(b) && (a == b || (fp_is_zero(a) && fp_is_zero(b)))
}

/// The strict order of doubles is irreflexive and asymmetric, and a
/// chain of two strict steps is itself strict.
pub proof fn lemma_fp_gt_order(a: u64, b: u64, c: u64)
    ensures
        !fp_gt(a, a),
        fp_gt(a, b) ==> !fp_gt(b, a),
        fp_gt(a, b) && fp_gt(b, c) ==> fp_gt(a, c),
{
}

/// The pattern of 1.0 is the one pattern whose double equals 1.0: it is
/// neither NaN nor zero, so only bit-for-bit equality makes `fp_eq` hold
/// against it.
pub proof fn lemma_fp_eq_one_bits()
    ensures
        forall|x: u64| #[trigger] fp_eq(x, ONE_BITS) <==> x == ONE_BITS,
{
    assert(0x3FF0_0000_0000_0000u64 & 0x7FF0_0000_0000_0000u64 != 0x7FF0_0000_0000_0000u64)
        by (bit_vector);
    assert(0x3FF0_0000_0000_0000u64 & 0x7FFF_FFFF_FFFF_FFFFu64 != 0u64) by (bit_vector);
    assert(!fp_is_nan(ONE_BITS));
    assert(!fp_is_zero(ONE_BITS));
}

/// Decides `fp_gt` on two bit patterns.
pub fn gt_bits(a: u64, b: u64) -> (r: bool)
    ensures
        r == fp_gt(a, b),
{
    let a_nan = (a & EXP_MASK == EXP_MASK) && (a & FRAC_MASK != 0);
    let b_nan = (b & EXP_MASK == EXP_MASK) && (b & FRAC_MASK != 0);
    if a_nan || b_nan {
        false
    } else if (a & ABS_MASK == 0) && (b & ABS_MASK == 0) {
        false
    } else if (a & SIGN_MASK == 0) && (b & SIGN_MASK == 0) {
        (a & ABS_MASK) > (b & ABS_MASK)
    } else if (a & SIGN_MASK == 0) && (b & SIGN_MASK != 0) {
        true
    } else if (a & SIGN_MASK != 0) && (b & SIGN_MASK == 0) {
        false
    } else {
        (a & ABS_MASK) < (b & ABS_MASK)
    }
}

/// Decides `fp_is_nan` on a bit pattern.
pub fn is_nan_bits(a: u64) -> (r: bool)
    ensures
        r == fp_is_nan(a),
{
    (a & EXP_MASK == EXP_MASK) && (a & FRAC_MASK != 0)
}

/// Decides `fp_is_infinite` on a bit pattern.
pub fn is_infinite_bits(a: u64) -> (r: bool)
    ensures
        r == fp_is_infinite(a),
{
    (a & EXP_MASK == EXP_MASK) && (a & FRAC_MASK == 0)
}

/// Decides `fp_eq` on two bit patterns.
pub fn eq_bits(a: u64, b: u64) -> (r: bool)
    ensures
        r == fp_eq(a, b),
{
    let a_nan = (a & EXP_MASK == EXP_MASK) && (a & FRAC_MASK != 0);
    let b_nan = (b & EXP_MASK == EXP_MASK) && (b & FRAC_MASK != 0);
    if a_nan || b_nan {
        false
    } else {
        a == b || ((a & ABS_MASK == 0) && (b & ABS_MASK == 0))
    }
}

} // verus!
