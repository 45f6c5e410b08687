//! The scalar model: IEEE 754 binary64 values carried as their bit patterns.
//!
//! Every real-valued quantity in this crate (features, labels, activations,
//! weights, hyperparameters) is held as the `u64` bit pattern of a binary64
//! value. On bit patterns, the float comparisons, the max/min selections used
//! for clipping, and the 0.5 threshold used for classification are exact
//! integer logic, stated and proved here. The arithmetic that produces new
//! values (sums, products, the exponential) is the driver's work and never
//! enters this module.

use vstd::prelude::*;

verus! {

/// Bit pattern of +0.0.
pub const F_ZERO: u64 = 0x0000_0000_0000_0000;

/// Bit pattern of -0.0 (equal to +0.0 as a value, distinct as a pattern).
pub const F_NEG_ZERO: u64 = 0x8000_0000_0000_0000;

/// Bit pattern of 1.0.
pub const F_ONE: u64 = 0x3FF0_0000_0000_0000;

/// Bit pattern of 0.5, the classification threshold.
pub const F_HALF: u64 = 0x3FE0_0000_0000_0000;

/// Bit pattern of 0.01, the preset learning rate.
pub const F_LR_DEFAULT: u64 = 0x3F84_7AE1_47AE_147B;

/// Bit pattern of 1.0e-12, the clipping floor `eps`.
pub const F_EPS: u64 = 0x3D71_9799_812D_EA11;

/// Bit pattern of 1.0 - 1.0e-12, the clipping ceiling `1 - eps`.
pub const F_ONE_MINUS_EPS: u64 = 0x3FEF_FFFF_FFFF_DCD1;

/// The sign bit: patterns at or above this value carry a negative sign.
pub const SIGN_MASK: u64 = 0x8000_0000_0000_0000;

/// Magnitude of the infinities; larger magnitudes are NaN patterns.
pub const INF_MAG: u64 = 0x7FF0_0000_0000_0000;

/// The sign of the value encoded by `x`.
pub open spec fn sign_of(x: u64) -> bool {
    x >= SIGN_MASK
}

/// The magnitude bits of `x`: the pattern with the sign bit cleared.
pub open spec fn mag_of(x: u64) -> u64 {
    if x >= SIGN_MASK {
        (x - SIGN_MASK) as u64
    } else {
        x
    }
}

/// `x` encodes a NaN: exponent all ones and a nonzero fraction, which is
/// exactly a magnitude above that of the infinities.
pub open spec fn is_nan_bits(x: u64) -> bool {
    mag_of(x) > INF_MAG
}

/// `x` encodes +0.0 or -0.0.
pub open spec fn is_zero_bits(x: u64) -> bool {
    mag_of(x) == 0
}

/// `x` encodes a strictly positive finite value.
pub open spec fn is_positive_finite_bits(x: u64) -> bool {
    !sign_of(x) && 0 < mag_of(x) < INF_MAG
}

/// `x` is one of the two class labels, the patterns of 0.0 and 1.0.
pub open spec fn is_label_bits(x: u64) -> bool {
    x == F_ZERO || x == F_ONE
}

/// The binary64 ordering `a < b` on bit patterns. NaN compares below
/// nothing, the two zeros are equal, and otherwise patterns of equal sign
/// order by magnitude, reversed on the negative side.
pub open spec fn f_lt_spec(a: u64, b: u64) -> bool {
    if is_nan_bits(a) || is_nan_bits(b) {
        false
    } else if is_zero_bits(a) && is_zero_bits(b) {
        false
    } else if sign_of(a) != sign_of(b) {
        sign_of(a)
    } else if sign_of(a) {
        b < a
    } else {
        a < b
    }
}

/// The binary64 equality `a == b` on bit patterns: equal patterns, or the
/// two zeros; never NaN.
pub open spec fn f_eq_spec(a: u64, b: u64) -> bool {
    !is_nan_bits(a) && !is_nan_bits(b) && (a == b || (is_zero_bits(a) && is_zero_bits(b)))
}

/// The binary64 ordering `a <= b` on bit patterns.
pub open spec fn f_le_spec(a: u64, b: u64) -> bool {
    f_lt_spec(a, b) || f_eq_spec(a, b)
}

/// The maximum of two values, as `f64::max` selects it: a NaN operand
/// yields the other operand, a tie yields the first.
pub open spec fn f_max_spec(a: u64, b: u64) -> u64 {
    if is_nan_bits(a) {
        b
    } else if is_nan_bits(b) {
        a
    } else if f_lt_spec(a, b) {
        b
    } else {
        a
    }
}

/// The minimum of two values, as `f64::min` selects it: a NaN operand
/// yields the other operand, a tie yields the first.
pub open spec fn f_min_spec(a: u64, b: u64) -> u64 {
    if is_nan_bits(a) {
        b
    } else if is_nan_bits(b) {
        a
    } else if f_lt_spec(b, a) {
        b
    } else {
        a
    }
}

/// An activation clipped into `[lo, hi]`: `min(max(a, lo), hi)`.
pub open spec fn clip_spec(a: u64, lo: u64, hi: u64) -> u64 {
    f_min_spec(f_max_spec(a, lo), hi)
}

/// An activation thresholded at 0.5: strictly below 0.5 maps to the label
/// 0.0, everything else (ties and NaN included) to the label 1.0.
pub open spec fn classify_spec(a: u64) -> u64 {
    if f_lt_spec(a, F_HALF) {
        F_ZERO
    } else {
        F_ONE
    }
}

/// Whether `x` encodes a NaN.
pub fn is_nan(x: u64) -> (r: bool)
    ensures
        r == is_nan_bits(x),
{
    let mag: u64 = if x >= SIGN_MASK {
        x - SIGN_MASK
    } else {
        x
    };
    mag > INF_MAG
}

/// The binary64 ordering `a < b`, decided on the bit patterns.
pub fn f_lt(a: u64, b: u64) -> (r: bool)
    ensures
        r == f_lt_spec(a, b),
{
    let a_neg: bool = a >= SIGN_MASK;
    let b_neg: bool = b >= SIGN_MASK;
    let a_mag: u64 = if a_neg {
        a - SIGN_MASK
    } else {
        a
    };
    let b_mag: u64 = if b_neg {
        b - SIGN_MASK
    } else {
        b
    };
    if a_mag > INF_MAG || b_mag > INF_MAG {
        false
    } else if a_mag == 0 && b_mag == 0 {
        false
    } else if a_neg != b_neg {
        a_neg
    } else if a_neg {
        b < a
    } else {
        a < b
    }
}

/// The binary64 equality `a == b`, decided on the bit patterns.
pub fn f_eq(a: u64, b: u64) -> (r: bool)
    ensures
        r == f_eq_spec(a, b),
{
    if is_nan(a) || is_nan(b) {
        false
    } else if a == b {
        true
    } else {
        let a_mag: u64 = if a >= SIGN_MASK {
            a - SIGN_MASK
        } else {
            a
        };
        let b_mag: u64 = if b >= SIGN_MASK {
            b - SIGN_MASK
        } else {
            b
        };
        a_mag == 0 && b_mag == 0
    }
}

/// The maximum of two values, selected as `f64::max` does.
pub fn f_max(a: u64, b: u64) -> (r: u64)
    ensures
        r == f_max_spec(a, b),
{
    if is_nan(a) {
        b
    } else if is_nan(b) {
        a
    } else if f_lt(a, b) {
        b
    } else {
        a
    }
}

/// The minimum of two values, selected as `f64::min` does.
pub fn f_min(a: u64, b: u64) -> (r: u64)
    ensures
        r == f_min_spec(a, b),
{
    if is_nan(a) {
        b
    } else if is_nan(b) {
        a
    } else if f_lt(b, a) {
        b
    } else {
        a
    }
}

/// An activation clipped into `[lo, hi]`.
pub fn clip(a: u64, lo: u64, hi: u64) -> (r: u64)
    ensures
        r == clip_spec(a, lo, hi),
{
    f_min(f_max(a, lo), hi)
}

/// An activation thresholded at 0.5 into a class label.
pub fn classify(a: u64) -> (r: u64)
    ensures
        r == classify_spec(a),
{
    if f_lt(a, F_HALF) {
        F_ZERO
    } else {
        F_ONE
    }
}

/// Clipping keeps every activation away from the endpoints of the log's
/// domain: with the floor `eps` and the ceiling `1 - eps`, the clipped
/// value is never 0.0, never 1.0, never NaN, and lies between the floor
/// and the ceiling in the binary64 order, whatever the input was.
pub proof fn lemma_clip_excludes_endpoints(a: u64)
    ensures
        clip_spec(a, F_EPS, F_ONE_MINUS_EPS) != F_ZERO,
        clip_spec(a, F_EPS, F_ONE_MINUS_EPS) != F_NEG_ZERO,
        clip_spec(a, F_EPS, F_ONE_MINUS_EPS) != F_ONE,
        !is_nan_bits(clip_spec(a, F_EPS, F_ONE_MINUS_EPS)),
        f_le_spec(F_EPS, clip_spec(a, F_EPS, F_ONE_MINUS_EPS)),
        f_le_spec(clip_spec(a, F_EPS, F_ONE_MINUS_EPS), F_ONE_MINUS_EPS),
{
}

} // verus!
