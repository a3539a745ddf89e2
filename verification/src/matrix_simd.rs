//! The accelerated (wide-lane) representation of a 4x4 binary32 matrix.
//!
//! The logical content is identical to the scalar representation — 16
//! binary32 cells, flat and row major, addressed by (column, row) — and
//! conversion between the two is an exact, cell-for-cell copy.  The
//! product, however, follows the wide-lane schedule: the 16 cells are
//! treated as two 8-wide lane groups (rows 0 and 1 concatenated, rows 2
//! and 3 concatenated), the right operand's rows are each duplicated
//! across both halves of a lane group, the left operand's cells are
//! broadcast column by column, and each output lane group is accumulated
//! as one multiply followed by three fused multiply-adds.  The fused steps
//! round once instead of twice, so the result may differ from the scalar
//! reference in the last bits of the significand; the two are compared
//! with the tolerance-based relations, never exactly.
//!
//! The accelerated multiply is specified only for processors with the
//! wide-lane and fused-multiply-add extensions; [`Matrix4x4Simd::multiply_checked`]
//! queries the processor first and aborts rather than fall back when the
//! capability is missing.

use vstd::prelude::*;
use vstd::std_specs::convert::FromSpec;

use crate::approx_eq::{
    all_finite_cells, cells_abs_diff_eq, cells_relative_eq, cells_ulps_eq, no_nan_cells,
    no_negative_cells, no_negative_zero_cells, spec_cells_abs_diff_eq, spec_cells_relative_eq,
    spec_cells_ulps_eq, DEFAULT_EPSILON_BITS, DEFAULT_MAX_RELATIVE_BITS, DEFAULT_MAX_ULPS,
};
use crate::capability::{abort_unsupported_hardware, simd_supported};
use crate::float_bits::{
    float_le_bits, fma_bits, is_finite_bits, is_nan_bits, lemma_signed_zero_facts, magnitude_bits,
    mul_bits, sign_bits, spec_fma_bits, spec_mul_bits, ONE_BITS, SIGN_MASK,
};
use crate::matrix_sisd::{identity_cells, zero_cells, Matrix4x4Sisd};

verus! {

broadcast use vstd::array::group_array_axioms;

/// One lane of the wide-lane multiply: the first cell product taken with a
/// rounded multiply, the remaining three folded in with fused
/// multiply-adds, each fused step rounded once.
pub open spec fn spec_lane_dot(
    a0: u32,
    b0: u32,
    a1: u32,
    b1: u32,
    a2: u32,
    b2: u32,
    a3: u32,
    b3: u32,
) -> u32 {
    spec_fma_bits(a3, b3, spec_fma_bits(a2, b2, spec_fma_bits(a1, b1, spec_mul_bits(a0, b0))))
}

/// Cell `i` of the flat row-major view of the wide-lane product of two
/// matrices given by their flat views: with `row = i / 4` and
/// `col = i % 4`, the lane accumulation of `a`'s row `row` against `b`'s
/// column `col`.
pub open spec fn spec_simd_product_cell(a: Seq<u32>, b: Seq<u32>, i: int) -> u32 {
    spec_lane_dot(
        a[(i / 4) * 4 + 0],
        b[0 + (i % 4)],
        a[(i / 4) * 4 + 1],
        b[4 + (i % 4)],
        a[(i / 4) * 4 + 2],
        b[8 + (i % 4)],
        a[(i / 4) * 4 + 3],
        b[12 + (i % 4)],
    )
}

/// The accelerated representation: the same 16 binary32 cells as the
/// scalar representation, flat and row major, laid out so that the two
/// 8-wide lane groups of [`Matrix4x4Simd::rows_m256`] are simply the first
/// and second halves of the flat view.
#[derive(Clone, Copy, Debug)]
pub struct Matrix4x4Simd {
    /// The cells, flat, in row-major order.
    pub cells: [u32; 16],
}

impl View for Matrix4x4Simd {
    type V = Seq<u32>;

    open spec fn view(&self) -> Seq<u32> {
        self.cells@
    }
}

impl PartialEq for Matrix4x4Simd {
    /// Exact (bitwise) equality: every cell has the same bit pattern.
    fn eq(&self, other: &Self) -> (r: bool) {
        let mut i: usize = 0;
        while i < 16
            invariant
                i <= 16,
                forall|j: int| 0 <= j < i ==> self.cells@[j] == other.cells@[j],
            decreases 16 - i,
        {
            if self.cells[i] != other.cells[i] {
                return false;
            }
            i += 1;
        }
        proof {
            assert(self.cells@ =~= other.cells@);
        }
        true
    }
}

impl vstd::std_specs::cmp::PartialEqSpecImpl for Matrix4x4Simd {
    open spec fn obeys_eq_spec() -> bool {
        true
    }

    open spec fn eq_spec(&self, other: &Self) -> bool {
        self.cells@ == other.cells@
    }
}

/// Duplicates one 4-cell half of an 8-wide lane group into both halves of
/// a new lane group, so that one row of the right operand lines up against
/// two output rows at once.
fn duplicate_half(lanes: &[u32; 8], upper: bool) -> (r: [u32; 8])
    ensures
        forall|j: int|
            0 <= j < 4 ==> #[trigger] r@[j] == lanes@[(if upper {
                4int
            } else {
                0int
            }) + j],
        forall|j: int|
            4 <= j < 8 ==> #[trigger] r@[j] == lanes@[(if upper {
                4int
            } else {
                0int
            }) + j - 4],
{
    let base: usize = if upper {
        4
    } else {
        0
    };
    let a: u32 = lanes[base];
    let b: u32 = lanes[base + 1];
    let c: u32 = lanes[base + 2];
    let d: u32 = lanes[base + 3];
    [a, b, c, d, a, b, c, d]
}

/// Builds one broadcast-column lane group from the left operand: the lower
/// four lanes hold cell (k, base_row) replicated, the upper four hold cell
/// (k, base_row + 1) replicated.
fn broadcast_columns(cells: &[u32; 16], k: usize, base_row: usize) -> (r: [u32; 8])
    requires
        k < 4,
        base_row == 0 || base_row == 2,
    ensures
        forall|j: int| 0 <= j < 4 ==> #[trigger] r@[j] == cells@[base_row * 4 + k],
        forall|j: int| 4 <= j < 8 ==> #[trigger] r@[j] == cells@[(base_row + 1) * 4 + k],
{
    let lo: u32 = cells[base_row * 4 + k];
    let hi: u32 = cells[base_row * 4 + 4 + k];
    [lo, lo, lo, lo, hi, hi, hi, hi]
}

/// Lanewise rounded multiply of two 8-wide lane groups.  Lanes whose
/// factor is a one or a zero keep the exact degenerate product, which the
/// identity and zero laws of the multiply lean on.
fn lanes_mul(x: &[u32; 8], y: &[u32; 8]) -> (r: [u32; 8])
    ensures
        forall|j: int| 0 <= j < 8 ==> #[trigger] r@[j] == spec_mul_bits(x@[j], y@[j]),
        forall|j: int|
            0 <= j < 8 && y@[j] == ONE_BITS && !is_nan_bits(x@[j]) ==> #[trigger] r@[j] == x@[j],
        forall|j: int|
            0 <= j < 8 && y@[j] == 0 && is_finite_bits(x@[j]) ==> #[trigger] r@[j] == (x@[j]
                & SIGN_MASK),
        forall|j: int|
            0 <= j < 8 && x@[j] == 0 && is_finite_bits(y@[j]) ==> #[trigger] r@[j] == (y@[j]
                & SIGN_MASK),
{
    let mut r: [u32; 8] = [0u32; 8];
    let mut j: usize = 0;
    while j < 8
        invariant
            j <= 8,
            forall|t: int| 0 <= t < j ==> #[trigger] r@[t] == spec_mul_bits(x@[t], y@[t]),
            forall|t: int|
                0 <= t < j && y@[t] == ONE_BITS && !is_nan_bits(x@[t]) ==> #[trigger] r@[t]
                    == x@[t],
            forall|t: int|
                0 <= t < j && y@[t] == 0 && is_finite_bits(x@[t]) ==> #[trigger] r@[t] == (x@[t]
                    & SIGN_MASK),
            forall|t: int|
                0 <= t < j && x@[t] == 0 && is_finite_bits(y@[t]) ==> #[trigger] r@[t] == (y@[t]
                    & SIGN_MASK),
        decreases 8 - j,
    {
        r[j] = mul_bits(x[j], y[j]);
        j += 1;
    }
    r
}

/// Lanewise fused multiply-add of two 8-wide lane groups into an
/// accumulator, each lane rounded once.  Lanes whose factor is a one or a
/// zero, with a zero or nonzero accumulator, keep the exact degenerate
/// result, which the identity and zero laws of the multiply lean on.
fn lanes_fma(x: &[u32; 8], y: &[u32; 8], acc: &[u32; 8]) -> (r: [u32; 8])
    ensures
        forall|j: int| 0 <= j < 8 ==> #[trigger] r@[j] == spec_fma_bits(x@[j], y@[j], acc@[j]),
        forall|j: int|
            0 <= j < 8 && y@[j] == 0 && is_finite_bits(x@[j]) && magnitude_bits(acc@[j]) == 0
                ==> #[trigger] r@[j] == (if sign_bits(x@[j]) && sign_bits(acc@[j]) {
                SIGN_MASK
            } else {
                0u32
            }),
        forall|j: int|
            0 <= j < 8 && y@[j] == 0 && is_finite_bits(x@[j]) && !is_nan_bits(acc@[j])
                && magnitude_bits(acc@[j]) != 0 ==> #[trigger] r@[j] == acc@[j],
        forall|j: int|
            0 <= j < 8 && y@[j] == ONE_BITS && !is_nan_bits(x@[j]) && magnitude_bits(x@[j]) != 0
                && magnitude_bits(acc@[j]) == 0 ==> #[trigger] r@[j] == x@[j],
        forall|j: int|
            0 <= j < 8 && y@[j] == ONE_BITS && magnitude_bits(x@[j]) == 0 && magnitude_bits(
                acc@[j],
            ) == 0 ==> #[trigger] r@[j] == (if sign_bits(x@[j]) && sign_bits(acc@[j]) {
                SIGN_MASK
            } else {
                0u32
            }),
        forall|j: int|
            0 <= j < 8 && x@[j] == 0 && is_finite_bits(y@[j]) && magnitude_bits(acc@[j]) == 0
                ==> #[trigger] r@[j] == (if sign_bits(y@[j]) && sign_bits(acc@[j]) {
                SIGN_MASK
            } else {
                0u32
            }),
{
    let mut r: [u32; 8] = [0u32; 8];
    let mut j: usize = 0;
    while j < 8
        invariant
            j <= 8,
            forall|t: int| 0 <= t < j ==> #[trigger] r@[t] == spec_fma_bits(x@[t], y@[t], acc@[t]),
            forall|t: int|
                0 <= t < j && y@[t] == 0 && is_finite_bits(x@[t]) && magnitude_bits(acc@[t]) == 0
                    ==> #[trigger] r@[t] == (if sign_bits(x@[t]) && sign_bits(acc@[t]) {
                    SIGN_MASK
                } else {
                    0u32
                }),
            forall|t: int|
                0 <= t < j && y@[t] == 0 && is_finite_bits(x@[t]) && !is_nan_bits(acc@[t])
                    && magnitude_bits(acc@[t]) != 0 ==> #[trigger] r@[t] == acc@[t],
            forall|t: int|
                0 <= t < j && y@[t] == ONE_BITS && !is_nan_bits(x@[t]) && magnitude_bits(x@[t])
                    != 0 && magnitude_bits(acc@[t]) == 0 ==> #[trigger] r@[t] == x@[t],
            forall|t: int|
                0 <= t < j && y@[t] == ONE_BITS && magnitude_bits(x@[t]) == 0 && magnitude_bits(
                    acc@[t],
                ) == 0 ==> #[trigger] r@[t] == (if sign_bits(x@[t]) && sign_bits(acc@[t]) {
                    SIGN_MASK
                } else {
                    0u32
                }),
            forall|t: int|
                0 <= t < j && x@[t] == 0 && is_finite_bits(y@[t]) && magnitude_bits(acc@[t]) == 0
                    ==> #[trigger] r@[t] == (if sign_bits(y@[t]) && sign_bits(acc@[t]) {
                    SIGN_MASK
                } else {
                    0u32
                }),
        decreases 8 - j,
    {
        r[j] = fma_bits(x[j], y[j], acc[j]);
        j += 1;
    }
    r
}

impl Matrix4x4Simd {
    /// The cell at (column, row) of the flat row-major view — the first
    /// index selects the column.
    pub open spec fn spec_cell(self, column: int, row: int) -> u32 {
        self@[row * 4 + column]
    }

    /// The all-zero matrix.
    pub fn zero() -> (r: Self)
        ensures
            r@ == zero_cells(),
    {
        let r = Self { cells: [0u32; 16] };
        proof {
            assert(r@ =~= zero_cells());
        }
        r
    }

    /// The identity matrix: ones on the diagonal, zeros elsewhere.
    pub fn identity() -> (r: Self)
        ensures
            r@ == identity_cells(),
    {
        let r = Self {
            cells: [
                ONE_BITS, 0u32, 0u32, 0u32, 0u32, ONE_BITS, 0u32, 0u32, 0u32, 0u32, ONE_BITS, 0u32,
                0u32, 0u32, 0u32, ONE_BITS,
            ],
        };
        proof {
            assert(r@ =~= identity_cells());
        }
        r
    }

    /// Builds a matrix directly from four rows of four cells each.
    pub fn new(rows: [[u32; 4]; 4]) -> (r: Self)
        ensures
            forall|ri: int, ci: int|
                0 <= ri < 4 && 0 <= ci < 4 ==> #[trigger] rows@[ri]@[ci] == r@[4 * ri + ci],
    {
        let mut cells: [u32; 16] = [0u32; 16];
        let mut ri: usize = 0;
        while ri < 4
            invariant
                ri <= 4,
                forall|i: int, c: int|
                    0 <= i < ri && 0 <= c < 4 ==> #[trigger] rows@[i]@[c] == cells@[4 * i + c],
            decreases 4 - ri,
        {
            let row: [u32; 4] = rows[ri];
            let mut ci: usize = 0;
            while ci < 4
                invariant
                    ri < 4,
                    ci <= 4,
                    row == rows@[ri as int],
                    forall|i: int, c: int|
                        0 <= i < ri && 0 <= c < 4 ==> #[trigger] rows@[i]@[c] == cells@[4 * i
                            + c],
                    forall|c: int|
                        0 <= c < ci ==> #[trigger] rows@[ri as int]@[c] == cells@[4 * ri + c],
                decreases 4 - ci,
            {
                cells[4 * ri + ci] = row[ci];
                ci += 1;
            }
            ri += 1;
        }
        Self { cells }
    }

    /// Builds a matrix from four rows of four cells each, given top to
    /// bottom.  A source of any other shape is a programmer error and is
    /// excluded by the precondition.
    pub fn from_rows(rows: Vec<Vec<u32>>) -> (r: Self)
        requires
            rows@.len() == 4,
            forall|i: int| 0 <= i < 4 ==> (#[trigger] rows@[i])@.len() == 4,
        ensures
            forall|ri: int, ci: int|
                0 <= ri < 4 && 0 <= ci < 4 ==> #[trigger] rows@[ri]@[ci] == r@[4 * ri + ci],
    {
        let mut cells: [u32; 16] = [0u32; 16];
        let mut ri: usize = 0;
        while ri < 4
            invariant
                ri <= 4,
                rows@.len() == 4,
                forall|i: int| 0 <= i < 4 ==> (#[trigger] rows@[i])@.len() == 4,
                forall|i: int, c: int|
                    0 <= i < ri && 0 <= c < 4 ==> #[trigger] rows@[i]@[c] == cells@[4 * i + c],
            decreases 4 - ri,
        {
            let mut ci: usize = 0;
            while ci < 4
                invariant
                    ri < 4,
                    ci <= 4,
                    rows@.len() == 4,
                    forall|i: int| 0 <= i < 4 ==> (#[trigger] rows@[i])@.len() == 4,
                    forall|i: int, c: int|
                        0 <= i < ri && 0 <= c < 4 ==> #[trigger] rows@[i]@[c] == cells@[4 * i
                            + c],
                    forall|c: int|
                        0 <= c < ci ==> #[trigger] rows@[ri as int]@[c] == cells@[4 * ri + c],
                decreases 4 - ci,
            {
                cells[4 * ri + ci] = rows[ri][ci];
                ci += 1;
            }
            ri += 1;
        }
        Self { cells }
    }

    /// The rows of the matrix, top to bottom, four cells each.
    pub fn rows(&self) -> (r: [[u32; 4]; 4])
        ensures
            forall|ri: int, ci: int|
                0 <= ri < 4 && 0 <= ci < 4 ==> #[trigger] r@[ri]@[ci] == self@[4 * ri + ci],
    {
        let mut out: [[u32; 4]; 4] = [[0u32; 4]; 4];
        let mut ri: usize = 0;
        while ri < 4
            invariant
                ri <= 4,
                forall|i: int, c: int|
                    0 <= i < ri && 0 <= c < 4 ==> #[trigger] out@[i]@[c] == self@[4 * i + c],
            decreases 4 - ri,
        {
            let mut row: [u32; 4] = [0u32; 4];
            let mut ci: usize = 0;
            while ci < 4
                invariant
                    ri < 4,
                    ci <= 4,
                    forall|c: int| 0 <= c < ci ==> #[trigger] row@[c] == self@[4 * ri + c],
                decreases 4 - ci,
            {
                row[ci] = self.cells[4 * ri + ci];
                ci += 1;
            }
            out[ri] = row;
            ri += 1;
        }
        out
    }

    /// The rows packed into two 8-wide lane groups: the first holds rows 0
    /// and 1 concatenated, the second rows 2 and 3 — exactly the first and
    /// second halves of the flat row-major view.
    pub fn rows_m256(&self) -> (r: ([u32; 8], [u32; 8]))
        ensures
            forall|j: int| 0 <= j < 8 ==> #[trigger] r.0@[j] == self@[j],
            forall|j: int| 0 <= j < 8 ==> #[trigger] r.1@[j] == self@[8 + j],
    {
        let mut lo: [u32; 8] = [0u32; 8];
        let mut hi: [u32; 8] = [0u32; 8];
        let mut j: usize = 0;
        while j < 8
            invariant
                j <= 8,
                forall|t: int| 0 <= t < j ==> #[trigger] lo@[t] == self@[t],
                forall|t: int| 0 <= t < j ==> #[trigger] hi@[t] == self@[8 + t],
            decreases 8 - j,
        {
            lo[j] = self.cells[j];
            hi[j] = self.cells[8 + j];
            j += 1;
        }
        (lo, hi)
    }

    /// The matrix's cells as a flat view in row-major order.
    pub fn flat_cells(&self) -> (r: &[u32; 16])
        ensures
            r@ == self@,
    {
        &self.cells
    }

    /// Reads the cell at (column, row); the first index selects the
    /// column.
    pub fn cell(&self, column: usize, row: usize) -> (r: u32)
        requires
            column < 4,
            row < 4,
        ensures
            r == self.spec_cell(column as int, row as int),
    {
        self.cells[row * 4 + column]
    }

    /// Writes the cell at (column, row); the first index selects the
    /// column.
    pub fn set_cell(&mut self, column: usize, row: usize, value: u32)
        requires
            column < 4,
            row < 4,
        ensures
            final(self)@ == old(self)@.update(row as int * 4 + column as int, value),
    {
        self.cells[row * 4 + column] = value;
    }

    /// A new matrix with `f` applied to every cell independently.
    pub fn map<F: Fn(u32) -> u32>(self, f: F) -> (r: Self)
        requires
            forall|x: u32| #[trigger] f.requires((x,)),
        ensures
            forall|i: int| 0 <= i < 16 ==> f.ensures((self@[i],), #[trigger] r@[i]),
    {
        let mut cells: [u32; 16] = [0u32; 16];
        let mut i: usize = 0;
        while i < 16
            invariant
                i <= 16,
                forall|x: u32| #[trigger] f.requires((x,)),
                forall|j: int| 0 <= j < i ==> f.ensures((self@[j],), #[trigger] cells@[j]),
            decreases 16 - i,
        {
            let v: u32 = f(self.cells[i]);
            cells[i] = v;
            i += 1;
        }
        Self { cells }
    }

    /// The wide-lane multiply kernel, free of the capability check so that
    /// it can be exercised directly where the capability is known present:
    /// cell (col, row) of the result accumulates the four cell products of
    /// `self`'s row `row` against `rhs`'s column `col` as one rounded
    /// multiply followed by three fused multiply-adds.
    /// Two laws come with the exact cell description.  Multiplying by the
    /// identity on the right reproduces the matrix bit for bit, as long as
    /// every cell is finite and none is a negative zero (a negative-zero
    /// cell comes back as positive zero, and the product of an infinity
    /// with an off-diagonal zero is a NaN).  Multiplying by the all-zero
    /// matrix on the left gives back the all-zero matrix, bit for bit, for
    /// every finite right operand without negative cells (a lane whose
    /// column is all negative accumulates a negative zero instead).
    #[verifier::rlimit(60)]
    pub fn multiply(&self, rhs: &Self) -> (r: Self)
        ensures
            forall|i: int|
                0 <= i < 16 ==> #[trigger] r@[i] == spec_simd_product_cell(self@, rhs@, i),
            rhs@ == identity_cells() && all_finite_cells(self@) && no_negative_zero_cells(self@)
                ==> r@ == self@,
            self@ == zero_cells() && all_finite_cells(rhs@) && no_negative_cells(rhs@) ==> r@
                == zero_cells(),
    {
        let (rhs_rows_0_1, rhs_rows_2_3) = rhs.rows_m256();

        // Each row of `rhs`, duplicated into both halves of a lane group.
        let rhs_rows_0_0: [u32; 8] = duplicate_half(&rhs_rows_0_1, false);
        let rhs_rows_1_1: [u32; 8] = duplicate_half(&rhs_rows_0_1, true);
        let rhs_rows_2_2: [u32; 8] = duplicate_half(&rhs_rows_2_3, false);
        let rhs_rows_3_3: [u32; 8] = duplicate_half(&rhs_rows_2_3, true);

        // Output rows 0 and 1, processed together in one lane group.
        let col_0_rows_0_1: [u32; 8] = broadcast_columns(&self.cells, 0, 0);
        let col_1_rows_0_1: [u32; 8] = broadcast_columns(&self.cells, 1, 0);
        let col_2_rows_0_1: [u32; 8] = broadcast_columns(&self.cells, 2, 0);
        let col_3_rows_0_1: [u32; 8] = broadcast_columns(&self.cells, 3, 0);
        let acc_0_1_a: [u32; 8] = lanes_mul(&col_0_rows_0_1, &rhs_rows_0_0);
        let acc_0_1_b: [u32; 8] = lanes_fma(&col_1_rows_0_1, &rhs_rows_1_1, &acc_0_1_a);
        let acc_0_1_c: [u32; 8] = lanes_fma(&col_2_rows_0_1, &rhs_rows_2_2, &acc_0_1_b);
        let rows_0_1: [u32; 8] = lanes_fma(&col_3_rows_0_1, &rhs_rows_3_3, &acc_0_1_c);

        // Output rows 2 and 3, the same schedule.
        let col_0_rows_2_3: [u32; 8] = broadcast_columns(&self.cells, 0, 2);
        let col_1_rows_2_3: [u32; 8] = broadcast_columns(&self.cells, 1, 2);
        let col_2_rows_2_3: [u32; 8] = broadcast_columns(&self.cells, 2, 2);
        let col_3_rows_2_3: [u32; 8] = broadcast_columns(&self.cells, 3, 2);
        let acc_2_3_a: [u32; 8] = lanes_mul(&col_0_rows_2_3, &rhs_rows_0_0);
        let acc_2_3_b: [u32; 8] = lanes_fma(&col_1_rows_2_3, &rhs_rows_1_1, &acc_2_3_a);
        let acc_2_3_c: [u32; 8] = lanes_fma(&col_2_rows_2_3, &rhs_rows_2_2, &acc_2_3_b);
        let rows_2_3: [u32; 8] = lanes_fma(&col_3_rows_2_3, &rhs_rows_3_3, &acc_2_3_c);

        // Concatenate the two lane groups into the flat row-major layout.
        let mut cells: [u32; 16] = [0u32; 16];
        let mut j: usize = 0;
        while j < 8
            invariant
                j <= 8,
                forall|t: int| 0 <= t < j ==> #[trigger] cells@[t] == rows_0_1@[t],
                forall|t: int| 0 <= t < j ==> #[trigger] cells@[8 + t] == rows_2_3@[t],
            decreases 8 - j,
        {
            cells[j] = rows_0_1[j];
            cells[8 + j] = rows_2_3[j];
            j += 1;
        }
        let r = Self { cells };
        proof {
            let identity_case = rhs@ == identity_cells() && all_finite_cells(self@)
                && no_negative_zero_cells(self@);
            let zero_case = self@ == zero_cells() && all_finite_cells(rhs@) && no_negative_cells(
                rhs@,
            );
            assert forall|i: int|
                0 <= i < 16 implies {
                    &&& #[trigger] r@[i] == spec_simd_product_cell(self@, rhs@, i)
                    &&& identity_case ==> r@[i] == self@[i]
                    &&& zero_case ==> r@[i] == 0
                } by {
                let m4 = i % 4;
                assert(4 * (i / 4) + m4 == i && 0 <= m4 < 4) by (nonlinear_arith)
                    requires
                        0 <= i < 16,
                        m4 == i % 4,
                ;
                if identity_case || zero_case {
                    assert(m4 / 4 == 0 && m4 % 4 == m4 && (4 + m4) / 4 == 1 && (4 + m4) % 4 == m4
                        && (8 + m4) / 4 == 2 && (8 + m4) % 4 == m4 && (12 + m4) / 4 == 3 && (12
                        + m4) % 4 == m4) by (nonlinear_arith)
                        requires
                            0 <= m4 < 4,
                    ;
                }
                if i < 8 {
                    let j = i;
                    assert(r@[i] == rows_0_1@[j]);
                    assert(i / 4 == 0 || i / 4 == 1);
                    // The lanes read at position j.
                    assert(rhs_rows_0_0@[j] == rhs@[m4]);
                    assert(rhs_rows_1_1@[j] == rhs@[4 + m4]);
                    assert(rhs_rows_2_2@[j] == rhs@[8 + m4]);
                    assert(rhs_rows_3_3@[j] == rhs@[12 + m4]);
                    assert(col_0_rows_0_1@[j] == self@[(i / 4) * 4 + 0]);
                    assert(col_1_rows_0_1@[j] == self@[(i / 4) * 4 + 1]);
                    assert(col_2_rows_0_1@[j] == self@[(i / 4) * 4 + 2]);
                    assert(col_3_rows_0_1@[j] == self@[(i / 4) * 4 + 3]);
                    lemma_signed_zero_facts(self@[(i / 4) * 4 + 0]);
                    lemma_signed_zero_facts(self@[(i / 4) * 4 + 1]);
                    lemma_signed_zero_facts(self@[(i / 4) * 4 + 2]);
                    lemma_signed_zero_facts(self@[(i / 4) * 4 + 3]);
                    lemma_signed_zero_facts(rhs@[m4]);
                    lemma_signed_zero_facts(rhs@[4 + m4]);
                    lemma_signed_zero_facts(rhs@[8 + m4]);
                    lemma_signed_zero_facts(rhs@[12 + m4]);
                    if identity_case {
                        assert(rhs@[m4] == (if m4 == 0 {
                            ONE_BITS
                        } else {
                            0u32
                        }));
                        assert(rhs@[4 + m4] == (if m4 == 1 {
                            ONE_BITS
                        } else {
                            0u32
                        }));
                        assert(rhs@[8 + m4] == (if m4 == 2 {
                            ONE_BITS
                        } else {
                            0u32
                        }));
                        assert(rhs@[12 + m4] == (if m4 == 3 {
                            ONE_BITS
                        } else {
                            0u32
                        }));
                        let a_col = self@[(i / 4) * 4 + m4];
                        assert(m4 >= 1 ==> magnitude_bits(acc_0_1_a@[j]) == 0 && !sign_bits(
                            acc_0_1_a@[j],
                        ) == !sign_bits(col_0_rows_0_1@[j]));
                        assert(m4 == 0 ==> acc_0_1_a@[j] == a_col);
                        assert(m4 >= 2 ==> magnitude_bits(acc_0_1_b@[j]) == 0);
                        assert(m4 <= 1 ==> acc_0_1_b@[j] == a_col);
                        assert(m4 >= 3 ==> magnitude_bits(acc_0_1_c@[j]) == 0);
                        assert(m4 <= 2 ==> acc_0_1_c@[j] == a_col);
                        assert(rows_0_1@[j] == a_col);
                        assert(r@[i] == self@[i]);
                    }
                    if zero_case {
                        assert(col_0_rows_0_1@[j] == 0 && col_1_rows_0_1@[j] == 0
                            && col_2_rows_0_1@[j] == 0 && col_3_rows_0_1@[j] == 0);
                        assert(acc_0_1_a@[j] == 0);
                        assert(acc_0_1_b@[j] == 0);
                        assert(acc_0_1_c@[j] == 0);
                        assert(rows_0_1@[j] == 0);
                        assert(r@[i] == 0);
                    }
                } else {
                    let j = i - 8;
                    assert(r@[i] == rows_2_3@[j]);
                    assert(j % 4 == m4 && (i / 4 == 2 + j / 4) && (j / 4 == 0 || j / 4 == 1))
                        by (nonlinear_arith)
                        requires
                            8 <= i < 16,
                            m4 == i % 4,
                            j == i - 8,
                    ;
                    // The lanes read at position j.
                    assert(rhs_rows_0_0@[j] == rhs@[m4]);
                    assert(rhs_rows_1_1@[j] == rhs@[4 + m4]);
                    assert(rhs_rows_2_2@[j] == rhs@[8 + m4]);
                    assert(rhs_rows_3_3@[j] == rhs@[12 + m4]);
                    assert(col_0_rows_2_3@[j] == self@[(i / 4) * 4 + 0]);
                    assert(col_1_rows_2_3@[j] == self@[(i / 4) * 4 + 1]);
                    assert(col_2_rows_2_3@[j] == self@[(i / 4) * 4 + 2]);
                    assert(col_3_rows_2_3@[j] == self@[(i / 4) * 4 + 3]);
                    lemma_signed_zero_facts(self@[(i / 4) * 4 + 0]);
                    lemma_signed_zero_facts(self@[(i / 4) * 4 + 1]);
                    lemma_signed_zero_facts(self@[(i / 4) * 4 + 2]);
                    lemma_signed_zero_facts(self@[(i / 4) * 4 + 3]);
                    lemma_signed_zero_facts(rhs@[m4]);
                    lemma_signed_zero_facts(rhs@[4 + m4]);
                    lemma_signed_zero_facts(rhs@[8 + m4]);
                    lemma_signed_zero_facts(rhs@[12 + m4]);
                    if identity_case {
                        assert(rhs@[m4] == (if m4 == 0 {
                            ONE_BITS
                        } else {
                            0u32
                        }));
                        assert(rhs@[4 + m4] == (if m4 == 1 {
                            ONE_BITS
                        } else {
                            0u32
                        }));
                        assert(rhs@[8 + m4] == (if m4 == 2 {
                            ONE_BITS
                        } else {
                            0u32
                        }));
                        assert(rhs@[12 + m4] == (if m4 == 3 {
                            ONE_BITS
                        } else {
                            0u32
                        }));
                        let a_col = self@[(i / 4) * 4 + m4];
                        assert(m4 >= 1 ==> magnitude_bits(acc_2_3_a@[j]) == 0);
                        assert(m4 == 0 ==> acc_2_3_a@[j] == a_col);
                        assert(m4 >= 2 ==> magnitude_bits(acc_2_3_b@[j]) == 0);
                        assert(m4 <= 1 ==> acc_2_3_b@[j] == a_col);
                        assert(m4 >= 3 ==> magnitude_bits(acc_2_3_c@[j]) == 0);
                        assert(m4 <= 2 ==> acc_2_3_c@[j] == a_col);
                        assert(rows_2_3@[j] == a_col);
                        assert(r@[i] == self@[i]);
                    }
                    if zero_case {
                        assert(col_0_rows_2_3@[j] == 0 && col_1_rows_2_3@[j] == 0
                            && col_2_rows_2_3@[j] == 0 && col_3_rows_2_3@[j] == 0);
                        assert(acc_2_3_a@[j] == 0);
                        assert(acc_2_3_b@[j] == 0);
                        assert(acc_2_3_c@[j] == 0);
                        assert(rows_2_3@[j] == 0);
                        assert(r@[i] == 0);
                    }
                }
            }
            if identity_case {
                assert(r@ =~= self@);
            }
            if zero_case {
                assert(r@ =~= zero_cells());
            }
        }
        r
    }

    /// The guarded entry point of the accelerated multiply: the capability
    /// gate runs first and aborts — rather than fall back to the scalar
    /// path or return a wrong result — when the executing processor lacks
    /// the wide-lane or fused-multiply-add extension.
    pub fn multiply_checked(&self, rhs: &Self) -> (r: Self)
        ensures
            forall|i: int|
                0 <= i < 16 ==> #[trigger] r@[i] == spec_simd_product_cell(self@, rhs@, i),
            rhs@ == identity_cells() && all_finite_cells(self@) && no_negative_zero_cells(self@)
                ==> r@ == self@,
            self@ == zero_cells() && all_finite_cells(rhs@) && no_negative_cells(rhs@) ==> r@
                == zero_cells(),
    {
        if !simd_supported() {
            abort_unsupported_hardware();
        }
        self.multiply(rhs)
    }

    /// Default absolute tolerance: the machine epsilon of binary32.
    pub fn default_epsilon() -> (r: u32)
        ensures
            r == DEFAULT_EPSILON_BITS,
    {
        DEFAULT_EPSILON_BITS
    }

    /// Default maximum relative tolerance: the machine epsilon of
    /// binary32.
    pub fn default_max_relative() -> (r: u32)
        ensures
            r == DEFAULT_MAX_RELATIVE_BITS,
    {
        DEFAULT_MAX_RELATIVE_BITS
    }

    /// Default bound on the representation distance of two cells.
    pub fn default_max_ulps() -> (r: u32)
        ensures
            r == DEFAULT_MAX_ULPS,
    {
        DEFAULT_MAX_ULPS
    }

    /// All 16 cell pairs are within `epsilon` absolutely.  Reflexive on
    /// matrices of finite cells whenever zero is within the tolerance.
    pub fn abs_diff_eq(&self, other: &Self, epsilon: u32) -> (r: bool)
        ensures
            r == spec_cells_abs_diff_eq(self@, other@, epsilon),
            self@ == other@ && all_finite_cells(self@) && float_le_bits(0, epsilon) ==> r,
    {
        cells_abs_diff_eq(&self.cells, &other.cells, epsilon)
    }

    /// All 16 cell pairs pass the relative test.  Reflexive on matrices
    /// with no NaN cell.
    pub fn relative_eq(&self, other: &Self, epsilon: u32, max_relative: u32) -> (r: bool)
        ensures
            r == spec_cells_relative_eq(self@, other@, epsilon, max_relative),
            self@ == other@ && no_nan_cells(self@) ==> r,
    {
        cells_relative_eq(&self.cells, &other.cells, epsilon, max_relative)
    }

    /// All 16 cell pairs pass the representation-distance test.  Reflexive
    /// on matrices with no NaN cell.
    pub fn ulps_eq(&self, other: &Self, epsilon: u32, max_ulps: u32) -> (r: bool)
        ensures
            r == spec_cells_ulps_eq(self@, other@, epsilon, max_ulps),
            self@ == other@ && no_nan_cells(self@) ==> r,
    {
        cells_ulps_eq(&self.cells, &other.cells, epsilon, max_ulps)
    }
}

impl From<Matrix4x4Sisd> for Matrix4x4Simd {
    /// Lossless conversion from the scalar representation: every cell is
    /// kept, bit for bit.
    fn from(value: Matrix4x4Sisd) -> (r: Self) {
        Self { cells: value.cells }
    }
}

impl vstd::std_specs::convert::FromSpecImpl<Matrix4x4Sisd> for Matrix4x4Simd {
    open spec fn obeys_from_spec() -> bool {
        true
    }

    open spec fn from_spec(v: Matrix4x4Sisd) -> Self {
        Matrix4x4Simd { cells: v.cells }
    }
}

impl From<Matrix4x4Simd> for Matrix4x4Sisd {
    /// Lossless conversion from the wide-lane representation: every cell
    /// is kept, bit for bit.
    fn from(value: Matrix4x4Simd) -> (r: Self) {
        Self { cells: value.cells }
    }
}

impl vstd::std_specs::convert::FromSpecImpl<Matrix4x4Simd> for Matrix4x4Sisd {
    open spec fn obeys_from_spec() -> bool {
        true
    }

    open spec fn from_spec(v: Matrix4x4Simd) -> Self {
        Matrix4x4Sisd { cells: v.cells }
    }
}

/// Law: converting a scalar matrix to the wide-lane representation and
/// back reproduces the original matrix, cell for cell and bit for bit.
pub proof fn lemma_scalar_round_trip(m: Matrix4x4Sisd)
    ensures
        <Matrix4x4Sisd as FromSpec<Matrix4x4Simd>>::from_spec(
            <Matrix4x4Simd as FromSpec<Matrix4x4Sisd>>::from_spec(m),
        ) == m,
{
}

/// Law: converting a wide-lane matrix to the scalar representation and
/// back reproduces the original matrix, cell for cell and bit for bit.
pub proof fn lemma_simd_round_trip(m: Matrix4x4Simd)
    ensures
        <Matrix4x4Simd as FromSpec<Matrix4x4Sisd>>::from_spec(
            <Matrix4x4Sisd as FromSpec<Matrix4x4Simd>>::from_spec(m),
        ) == m,
{
}

} // verus!
