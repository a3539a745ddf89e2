//! Bit-level model of IEEE binary32 values.
//!
//! Every cell of a matrix is carried as the `u32` bit pattern of an IEEE
//! binary32 value.  The spec functions below describe the pattern itself
//! (sign, magnitude, NaN, infinity) and the ordering and equality that the
//! standard defines over patterns.  Rounded arithmetic (add, sub, mul and
//! fused multiply-add) is obtained from an outside software implementation
//! of the standard; each such result is given a name by an uninterpreted
//! spec function, so that the callers' contracts can pin the result down
//! exactly without restating the rounding algorithm.

use rustc_apfloat::Float;
use vstd::prelude::*;

verus! {

/// Mask of the sign bit of a binary32 pattern.
pub const SIGN_MASK: u32 = 0x8000_0000;

/// Mask of everything but the sign bit.
pub const MAGNITUDE_MASK: u32 = 0x7fff_ffff;

/// Magnitude of positive infinity: an all-ones exponent with a zero
/// significand.  Patterns of larger magnitude are NaNs.
pub const INFINITY_MAGNITUDE: u32 = 0x7f80_0000;

/// The bit pattern of positive one.
pub const ONE_BITS: u32 = 0x3f80_0000;

/// Sign of a binary32 bit pattern: true when the value is negative
/// (including negative zero and negative NaNs).
pub open spec fn sign_bits(a: u32) -> bool {
    a & SIGN_MASK == SIGN_MASK
}

/// The pattern with the sign bit cleared: the magnitude of the value, and
/// also the bit pattern of its absolute value.
pub open spec fn magnitude_bits(a: u32) -> u32 {
    a & MAGNITUDE_MASK
}

/// The pattern encodes a NaN: all-ones exponent and nonzero significand.
pub open spec fn is_nan_bits(a: u32) -> bool {
    magnitude_bits(a) > INFINITY_MAGNITUDE
}

/// The pattern encodes one of the two infinities.
pub open spec fn is_infinite_bits(a: u32) -> bool {
    magnitude_bits(a) == INFINITY_MAGNITUDE
}

/// The pattern encodes a finite value (normal, subnormal or zero).
pub open spec fn is_finite_bits(a: u32) -> bool {
    magnitude_bits(a) < INFINITY_MAGNITUDE
}

/// The place of a non-NaN pattern on the real line, as a signed magnitude.
/// Both zeros map to 0, so the order and equality derived from it treat
/// them as equal, exactly as the standard's comparisons do.
pub open spec fn ordered_value(a: u32) -> int {
    if sign_bits(a) {
        -(magnitude_bits(a) as int)
    } else {
        magnitude_bits(a) as int
    }
}

/// IEEE equality of two patterns: false whenever either is a NaN, and
/// otherwise equality of their places on the real line (so the two zeros
/// are equal, and distinct patterns are otherwise unequal).
pub open spec fn float_eq_bits(a: u32, b: u32) -> bool {
    &&& !is_nan_bits(a)
    &&& !is_nan_bits(b)
    &&& ordered_value(a) == ordered_value(b)
}

/// IEEE `<=` of two patterns: false whenever either is a NaN.
pub open spec fn float_le_bits(a: u32, b: u32) -> bool {
    &&& !is_nan_bits(a)
    &&& !is_nan_bits(b)
    &&& ordered_value(a) <= ordered_value(b)
}

/// IEEE `<` of two patterns: false whenever either is a NaN.
pub open spec fn float_lt_bits(a: u32, b: u32) -> bool {
    &&& !is_nan_bits(a)
    &&& !is_nan_bits(b)
    &&& ordered_value(a) < ordered_value(b)
}

/// Absolute value of a mathematical integer.
pub open spec fn int_abs(x: int) -> int {
    if x < 0 {
        -x
    } else {
        x
    }
}

/// Absolute value on patterns: clearing the sign bit is exactly the
/// binary32 absolute-value operation, for NaNs included.
pub fn abs_bits(a: u32) -> (r: u32)
    ensures
        r == magnitude_bits(a),
{
    a & MAGNITUDE_MASK
}

/// Whether the pattern encodes a NaN.
pub fn is_nan(a: u32) -> (r: bool)
    ensures
        r == is_nan_bits(a),
{
    (a & MAGNITUDE_MASK) > INFINITY_MAGNITUDE
}

/// Whether the pattern encodes an infinity.
pub fn is_infinite(a: u32) -> (r: bool)
    ensures
        r == is_infinite_bits(a),
{
    (a & MAGNITUDE_MASK) == INFINITY_MAGNITUDE
}

/// IEEE equality on patterns.
pub fn float_eq(a: u32, b: u32) -> (r: bool)
    ensures
        r == float_eq_bits(a, b),
{
    if is_nan(a) || is_nan(b) {
        false
    } else {
        let sa: bool = (a & SIGN_MASK) == SIGN_MASK;
        let sb: bool = (b & SIGN_MASK) == SIGN_MASK;
        let ma: u32 = a & MAGNITUDE_MASK;
        let mb: u32 = b & MAGNITUDE_MASK;
        if sa == sb {
            ma == mb
        } else {
            ma == 0 && mb == 0
        }
    }
}

/// IEEE `<=` on patterns.
pub fn float_le(a: u32, b: u32) -> (r: bool)
    ensures
        r == float_le_bits(a, b),
{
    if is_nan(a) || is_nan(b) {
        false
    } else {
        let sa: bool = (a & SIGN_MASK) == SIGN_MASK;
        let sb: bool = (b & SIGN_MASK) == SIGN_MASK;
        let ma: u32 = a & MAGNITUDE_MASK;
        let mb: u32 = b & MAGNITUDE_MASK;
        if sa && sb {
            mb <= ma
        } else if !sa && !sb {
            ma <= mb
        } else if sa {
            true
        } else {
            ma == 0 && mb == 0
        }
    }
}

/// IEEE `<` on patterns.
pub fn float_lt(a: u32, b: u32) -> (r: bool)
    ensures
        r == float_lt_bits(a, b),
{
    if is_nan(a) || is_nan(b) {
        false
    } else {
        let sa: bool = (a & SIGN_MASK) == SIGN_MASK;
        let sb: bool = (b & SIGN_MASK) == SIGN_MASK;
        let ma: u32 = a & MAGNITUDE_MASK;
        let mb: u32 = b & MAGNITUDE_MASK;
        if sa && sb {
            mb < ma
        } else if !sa && !sb {
            ma < mb
        } else if sa {
            ma != 0 || mb != 0
        } else {
            false
        }
    }
}

/// Facts about signed zeros and the fixed constants that the multiply
/// laws lean on: masking a pattern down to its sign bit yields a zero of
/// the same sign, and a pattern of zero magnitude is one of the two
/// zeros.
pub(crate) proof fn lemma_signed_zero_facts(a: u32)
    ensures
        magnitude_bits(a & SIGN_MASK) == 0,
        sign_bits(a & SIGN_MASK) == sign_bits(a),
        is_finite_bits(a & SIGN_MASK),
        !is_nan_bits(a & SIGN_MASK),
        magnitude_bits(a) == 0 ==> a == 0 || a == SIGN_MASK,
        !sign_bits(a) ==> a & SIGN_MASK == 0,
        magnitude_bits(0u32) == 0,
        !sign_bits(0u32),
        magnitude_bits(SIGN_MASK) == 0,
        sign_bits(SIGN_MASK),
        magnitude_bits(ONE_BITS) == ONE_BITS,
        !is_nan_bits(ONE_BITS),
{
    assert((a & 0x8000_0000u32) & 0x7fff_ffffu32 == 0u32) by (bit_vector);
    assert(((a & 0x8000_0000u32) & 0x8000_0000u32 == 0x8000_0000u32) == (a & 0x8000_0000u32
        == 0x8000_0000u32)) by (bit_vector);
    assert(a & 0x7fff_ffffu32 == 0u32 ==> a == 0u32 || a == 0x8000_0000u32) by (bit_vector);
    assert(a & 0x8000_0000u32 != 0x8000_0000u32 ==> a & 0x8000_0000u32 == 0u32) by (bit_vector);
    assert(0u32 & 0x7fff_ffffu32 == 0u32) by (bit_vector);
    assert(0u32 & 0x8000_0000u32 != 0x8000_0000u32) by (bit_vector);
    assert(0x8000_0000u32 & 0x7fff_ffffu32 == 0u32) by (bit_vector);
    assert(0x8000_0000u32 & 0x8000_0000u32 == 0x8000_0000u32) by (bit_vector);
    assert(0x3f80_0000u32 & 0x7fff_ffffu32 == 0x3f80_0000u32) by (bit_vector);
}

/// The bit pattern of the rounded binary32 sum of the two operand patterns.
pub uninterp spec fn spec_add_bits(a: u32, b: u32) -> u32;

/// The bit pattern of the rounded binary32 difference of the two operand
/// patterns.
pub uninterp spec fn spec_sub_bits(a: u32, b: u32) -> u32;

/// The bit pattern of the rounded binary32 product of the two operand
/// patterns.
pub uninterp spec fn spec_mul_bits(a: u32, b: u32) -> u32;

/// The bit pattern of the fused multiply-add `a * b + c` of the three
/// operand patterns, rounded once.
pub uninterp spec fn spec_fma_bits(a: u32, b: u32, c: u32) -> u32;

/// Relies on `rustc_apfloat::ieee::Single::add` (through the `+` operator):
/// IEEE binary32 addition, rounded to nearest even.  The result depends on
/// the two operand bit patterns alone.  The standard further gives that
/// adding a zero to a nonzero non-NaN value is exact and returns it
/// unchanged, and that the sum of two zeros is negative zero exactly when
/// both operands are, under this rounding.
#[verifier::external_body]
pub(crate) fn add_bits(a: u32, b: u32) -> (r: u32)
    ensures
        r == spec_add_bits(a, b),
        magnitude_bits(b) == 0 && !is_nan_bits(a) && magnitude_bits(a) != 0 ==> r == a,
        magnitude_bits(a) == 0 && !is_nan_bits(b) && magnitude_bits(b) != 0 ==> r == b,
        magnitude_bits(a) == 0 && magnitude_bits(b) == 0 ==> r == (if sign_bits(a) && sign_bits(b) {
            SIGN_MASK
        } else {
            0u32
        }),
{
    let x = rustc_apfloat::ieee::Single::from_bits(a as u128);
    let y = rustc_apfloat::ieee::Single::from_bits(b as u128);
    (x + y).value.to_bits() as u32
}

/// Relies on `rustc_apfloat::ieee::Single::sub` (through the `-` operator):
/// IEEE binary32 subtraction, rounded to nearest even.  The result depends
/// on the two operand bit patterns alone; the standard further gives that
/// subtracting a finite value from itself yields positive zero under this
/// rounding.
#[verifier::external_body]
pub(crate) fn sub_bits(a: u32, b: u32) -> (r: u32)
    ensures
        r == spec_sub_bits(a, b),
        a == b && is_finite_bits(a) ==> r == 0,
{
    let x = rustc_apfloat::ieee::Single::from_bits(a as u128);
    let y = rustc_apfloat::ieee::Single::from_bits(b as u128);
    (x - y).value.to_bits() as u32
}

/// Relies on `rustc_apfloat::ieee::Single::mul` (through the `*` operator):
/// IEEE binary32 multiplication, rounded to nearest even.  The result
/// depends on the two operand bit patterns alone.  The standard further
/// gives that multiplication by one is exact and returns the left operand
/// unchanged (for non-NaN operands), and that the product of a
/// zero and a finite value is the zero whose sign is the exclusive-or of
/// the operands' signs.
#[verifier::external_body]
pub(crate) fn mul_bits(a: u32, b: u32) -> (r: u32)
    ensures
        r == spec_mul_bits(a, b),
        b == ONE_BITS && !is_nan_bits(a) ==> r == a,
        b == 0 && is_finite_bits(a) ==> r == a & SIGN_MASK,
        a == 0 && is_finite_bits(b) ==> r == b & SIGN_MASK,
{
    let x = rustc_apfloat::ieee::Single::from_bits(a as u128);
    let y = rustc_apfloat::ieee::Single::from_bits(b as u128);
    (x * y).value.to_bits() as u32
}

/// Relies on `rustc_apfloat::ieee::Single::mul_add`: IEEE binary32 fused
/// multiply-add `a * b + c`, rounded once, to nearest even.  The result
/// depends on the three operand bit patterns alone.  The standard further
/// gives the degenerate cases the identity and zero laws lean on: a
/// product involving one or a zero is exact (a zero product carries the
/// exclusive-or of the factors' signs), adding a zero to a nonzero
/// non-NaN value returns it unchanged, and the sum of two zeros is
/// negative zero exactly when both are, under this rounding.
#[verifier::external_body]
pub(crate) fn fma_bits(a: u32, b: u32, c: u32) -> (r: u32)
    ensures
        r == spec_fma_bits(a, b, c),
        b == 0 && is_finite_bits(a) && magnitude_bits(c) == 0 ==> r == (
        if sign_bits(a) && sign_bits(c) {
            SIGN_MASK
        } else {
            0u32
        }),
        b == 0 && is_finite_bits(a) && !is_nan_bits(c) && magnitude_bits(c) != 0 ==> r == c,
        b == ONE_BITS && !is_nan_bits(a) && magnitude_bits(a) != 0 && magnitude_bits(c) == 0 ==> r
            == a,
        b == ONE_BITS && magnitude_bits(a) == 0 && magnitude_bits(c) == 0 ==> r == (
        if sign_bits(a) && sign_bits(c) {
            SIGN_MASK
        } else {
            0u32
        }),
        a == 0 && is_finite_bits(b) && magnitude_bits(c) == 0 ==> r == (
        if sign_bits(b) && sign_bits(c) {
            SIGN_MASK
        } else {
            0u32
        }),
{
    let x = rustc_apfloat::ieee::Single::from_bits(a as u128);
    let y = rustc_apfloat::ieee::Single::from_bits(b as u128);
    let z = rustc_apfloat::ieee::Single::from_bits(c as u128);
    x.mul_add(y, z).value.to_bits() as u32
}

} // verus!
