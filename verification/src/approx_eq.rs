//! Tolerance-based equality over 16-cell flat views.
//!
//! Wide-lane accumulation uses fused multiply-add and so may round
//! differently from the scalar reference path in the last bits of the
//! significand; the two paths are therefore compared with tolerance-based
//! relations, never exactly.  Three relations are provided, each applied
//! cell by cell and requiring all 16 cells to pass:
//!
//! - absolute difference: `|a - b| <= epsilon`;
//! - relative: the difference is small in proportion to the larger
//!   magnitude of the two operands;
//! - representation distance: the two bit patterns are within a bounded
//!   number of representable values of each other.
//!
//! Each relation is reflexive on the values where the underlying
//! floating-point comparisons allow it (see the second `ensures` clause of
//! each function): NaN cells are never equal to themselves under any of
//! the relations, and infinite cells are not under the absolute-difference
//! relation, since the difference of two like infinities is a NaN.

use vstd::prelude::*;

use crate::float_bits::{
    abs_bits, float_eq, float_eq_bits, float_le, float_le_bits, float_lt, float_lt_bits, int_abs,
    is_finite_bits, is_infinite, is_infinite_bits, is_nan, is_nan_bits, magnitude_bits, mul_bits,
    sign_bits, spec_mul_bits, spec_sub_bits, sub_bits, SIGN_MASK,
};

verus! {

/// Default absolute tolerance: the bit pattern of the machine epsilon of
/// binary32, the distance from one to the next representable value.
pub const DEFAULT_EPSILON_BITS: u32 = 0x3400_0000;

/// Default maximum relative tolerance: the same machine epsilon.
pub const DEFAULT_MAX_RELATIVE_BITS: u32 = 0x3400_0000;

/// Default bound on the representation distance between two cells.
pub const DEFAULT_MAX_ULPS: u32 = 4;

/// Absolute-difference equality of two cells: `|a - b| <= epsilon` in
/// binary32 arithmetic (false whenever the difference is a NaN).
pub open spec fn spec_abs_diff_eq(a: u32, b: u32, epsilon: u32) -> bool {
    float_le_bits(magnitude_bits(spec_sub_bits(a, b)), epsilon)
}

/// Relative equality of two cells: equal outright, or within `epsilon`
/// absolutely, or the difference is within `max_relative` in proportion to
/// the larger of the two magnitudes.  Infinities compare equal only to
/// themselves, through the first test.
pub open spec fn spec_relative_eq(a: u32, b: u32, epsilon: u32, max_relative: u32) -> bool {
    if float_eq_bits(a, b) {
        true
    } else if is_infinite_bits(a) || is_infinite_bits(b) {
        false
    } else if spec_abs_diff_eq(a, b, epsilon) {
        true
    } else {
        let largest = if float_lt_bits(magnitude_bits(a), magnitude_bits(b)) {
            magnitude_bits(b)
        } else {
            magnitude_bits(a)
        };
        float_le_bits(magnitude_bits(spec_sub_bits(a, b)), spec_mul_bits(largest, max_relative))
    }
}

/// Representation-distance equality of two cells: within `epsilon`
/// absolutely, or of the same sign and with bit patterns at most
/// `max_ulps` representable steps apart.  NaNs are equal to nothing.
pub open spec fn spec_ulps_eq(a: u32, b: u32, epsilon: u32, max_ulps: u32) -> bool {
    if spec_abs_diff_eq(a, b, epsilon) {
        true
    } else if is_nan_bits(a) || is_nan_bits(b) {
        false
    } else if sign_bits(a) != sign_bits(b) {
        false
    } else {
        int_abs(a - b) <= max_ulps
    }
}

/// Every cell of the view is finite.
pub open spec fn all_finite_cells(s: Seq<u32>) -> bool {
    forall|i: int| 0 <= i < s.len() ==> is_finite_bits(#[trigger] s[i])
}

/// No cell of the view is a NaN.
pub open spec fn no_nan_cells(s: Seq<u32>) -> bool {
    forall|i: int| 0 <= i < s.len() ==> !is_nan_bits(#[trigger] s[i])
}

/// No cell of the view is the negative-zero pattern.
pub open spec fn no_negative_zero_cells(s: Seq<u32>) -> bool {
    forall|i: int| 0 <= i < s.len() ==> #[trigger] s[i] != SIGN_MASK
}

/// No cell of the view has its sign bit set.
pub open spec fn no_negative_cells(s: Seq<u32>) -> bool {
    forall|i: int| 0 <= i < s.len() ==> !sign_bits(#[trigger] s[i])
}

/// All 16 cells pass the absolute-difference test.
pub open spec fn spec_cells_abs_diff_eq(a: Seq<u32>, b: Seq<u32>, epsilon: u32) -> bool {
    forall|i: int| 0 <= i < 16 ==> #[trigger] spec_abs_diff_eq(a[i], b[i], epsilon)
}

/// All 16 cells pass the relative test.
pub open spec fn spec_cells_relative_eq(
    a: Seq<u32>,
    b: Seq<u32>,
    epsilon: u32,
    max_relative: u32,
) -> bool {
    forall|i: int| 0 <= i < 16 ==> #[trigger] spec_relative_eq(a[i], b[i], epsilon, max_relative)
}

/// All 16 cells pass the representation-distance test.
pub open spec fn spec_cells_ulps_eq(a: Seq<u32>, b: Seq<u32>, epsilon: u32, max_ulps: u32) -> bool {
    forall|i: int| 0 <= i < 16 ==> #[trigger] spec_ulps_eq(a[i], b[i], epsilon, max_ulps)
}

/// Absolute-difference equality of two cells.  Reflexive on finite cells
/// whenever zero is within the tolerance.
pub fn abs_diff_eq_bits(a: u32, b: u32, epsilon: u32) -> (r: bool)
    ensures
        r == spec_abs_diff_eq(a, b, epsilon),
        a == b && is_finite_bits(a) && float_le_bits(0, epsilon) ==> r,
{
    let d: u32 = sub_bits(a, b);
    proof {
        assert(0u32 & 0x7fff_ffffu32 == 0u32) by (bit_vector);
    }
    float_le(abs_bits(d), epsilon)
}

/// Relative equality of two cells.  Reflexive on every non-NaN cell.
pub fn relative_eq_bits(a: u32, b: u32, epsilon: u32, max_relative: u32) -> (r: bool)
    ensures
        r == spec_relative_eq(a, b, epsilon, max_relative),
        a == b && !is_nan_bits(a) ==> r,
{
    if float_eq(a, b) {
        true
    } else if is_infinite(a) || is_infinite(b) {
        false
    } else {
        let abs_diff: u32 = abs_bits(sub_bits(a, b));
        if float_le(abs_diff, epsilon) {
            true
        } else {
            let abs_a: u32 = abs_bits(a);
            let abs_b: u32 = abs_bits(b);
            let largest: u32 = if float_lt(abs_a, abs_b) {
                abs_b
            } else {
                abs_a
            };
            float_le(abs_diff, mul_bits(largest, max_relative))
        }
    }
}

/// Representation-distance equality of two cells.  Reflexive on every
/// non-NaN cell.
pub fn ulps_eq_bits(a: u32, b: u32, epsilon: u32, max_ulps: u32) -> (r: bool)
    ensures
        r == spec_ulps_eq(a, b, epsilon, max_ulps),
        a == b && !is_nan_bits(a) ==> r,
{
    if abs_diff_eq_bits(a, b, epsilon) {
        true
    } else if is_nan(a) || is_nan(b) {
        false
    } else if ((a & SIGN_MASK) == SIGN_MASK) != ((b & SIGN_MASK) == SIGN_MASK) {
        false
    } else {
        let dist: u32 = if a <= b {
            b - a
        } else {
            a - b
        };
        dist <= max_ulps
    }
}

/// All 16 cells of the two flat views pass the absolute-difference test.
pub fn cells_abs_diff_eq(a: &[u32; 16], b: &[u32; 16], epsilon: u32) -> (r: bool)
    ensures
        r == spec_cells_abs_diff_eq(a@, b@, epsilon),
        a@ == b@ && all_finite_cells(a@) && float_le_bits(0, epsilon) ==> r,
{
    let mut i: usize = 0;
    while i < 16
        invariant
            i <= 16,
            forall|j: int| 0 <= j < i ==> #[trigger] spec_abs_diff_eq(a@[j], b@[j], epsilon),
        decreases 16 - i,
    {
        if !abs_diff_eq_bits(a[i], b[i], epsilon) {
            return false;
        }
        i += 1;
    }
    true
}

/// All 16 cells of the two flat views pass the relative test.
pub fn cells_relative_eq(a: &[u32; 16], b: &[u32; 16], epsilon: u32, max_relative: u32) -> (r: bool)
    ensures
        r == spec_cells_relative_eq(a@, b@, epsilon, max_relative),
        a@ == b@ && no_nan_cells(a@) ==> r,
{
    let mut i: usize = 0;
    while i < 16
        invariant
            i <= 16,
            forall|j: int| 0 <= j < i ==> #[trigger] spec_relative_eq(a@[j], b@[j], epsilon, max_relative),
        decreases 16 - i,
    {
        if !relative_eq_bits(a[i], b[i], epsilon, max_relative) {
            return false;
        }
        i += 1;
    }
    true
}

/// All 16 cells of the two flat views pass the representation-distance
/// test.
pub fn cells_ulps_eq(a: &[u32; 16], b: &[u32; 16], epsilon: u32, max_ulps: u32) -> (r: bool)
    ensures
        r == spec_cells_ulps_eq(a@, b@, epsilon, max_ulps),
        a@ == b@ && no_nan_cells(a@) ==> r,
{
    let mut i: usize = 0;
    while i < 16
        invariant
            i <= 16,
            forall|j: int| 0 <= j < i ==> #[trigger] spec_ulps_eq(a@[j], b@[j], epsilon, max_ulps),
        decreases 16 - i,
    {
        if !ulps_eq_bits(a[i], b[i], epsilon, max_ulps) {
            return false;
        }
        i += 1;
    }
    true
}

} // verus!
