//! The scalar reference representation of a 4x4 binary32 matrix.
//!
//! Cells are held as bit patterns in row-major order: the flat view lists
//! row 0's four cells, then row 1's, and so on.  A cell is addressed by a
//! (column, row) pair — the first index selects the column.  The product
//! follows the textbook definition, `c[col,row] = sum over k of
//! a[k,row] * b[col,k]`, with each inner sum accumulated left to right
//! from zero in rounded binary32 arithmetic.

use vstd::prelude::*;

use crate::approx_eq::{
    all_finite_cells, cells_abs_diff_eq, cells_relative_eq, cells_ulps_eq, no_nan_cells,
    no_negative_zero_cells, spec_cells_abs_diff_eq, spec_cells_relative_eq, spec_cells_ulps_eq,
    DEFAULT_EPSILON_BITS, DEFAULT_MAX_RELATIVE_BITS, DEFAULT_MAX_ULPS,
};
use crate::float_bits::{
    add_bits, float_le_bits, lemma_signed_zero_facts, mul_bits, spec_add_bits, spec_mul_bits,
    ONE_BITS, SIGN_MASK,
};

verus! {

broadcast use vstd::array::group_array_axioms;

/// The flat row-major cells of the all-zero matrix.
pub open spec fn zero_cells() -> Seq<u32> {
    Seq::new(16, |i: int| 0u32)
}

/// The flat row-major cells of the identity matrix: the bit pattern of one
/// on the diagonal, zeros elsewhere.
pub open spec fn identity_cells() -> Seq<u32> {
    Seq::new(16, |i: int| if i / 4 == i % 4 { ONE_BITS } else { 0u32 })
}

/// One inner product of the scalar multiply: the four cell products are
/// accumulated left to right, starting from positive zero, each step
/// rounded separately.
pub open spec fn spec_scalar_dot(
    a0: u32,
    b0: u32,
    a1: u32,
    b1: u32,
    a2: u32,
    b2: u32,
    a3: u32,
    b3: u32,
) -> u32 {
    spec_add_bits(
        spec_add_bits(
            spec_add_bits(spec_add_bits(0, spec_mul_bits(a0, b0)), spec_mul_bits(a1, b1)),
            spec_mul_bits(a2, b2),
        ),
        spec_mul_bits(a3, b3),
    )
}

/// Cell `i` of the flat row-major view of the scalar product of two
/// matrices given by their flat views: with `row = i / 4` and
/// `col = i % 4`, the inner product of `a`'s row `row` with `b`'s column
/// `col`.
pub open spec fn spec_scalar_product_cell(a: Seq<u32>, b: Seq<u32>, i: int) -> u32 {
    spec_scalar_dot(
        a[(i / 4) * 4 + 0],
        b[0 + (i % 4)],
        a[(i / 4) * 4 + 1],
        b[4 + (i % 4)],
        a[(i / 4) * 4 + 2],
        b[8 + (i % 4)],
        a[(i / 4) * 4 + 3],
        b[12 + (i % 4)],
    )
}

/// The scalar reference representation: 16 binary32 cells held as bit
/// patterns, row major, with no alignment demand beyond the natural one.
/// A value is immutable in the sense that every operation yields a new,
/// independently owned matrix.
#[derive(Clone, Copy, Debug)]
pub struct Matrix4x4Sisd {
    /// The cells, flat, in row-major order.
    pub cells: [u32; 16],
}

impl View for Matrix4x4Sisd {
    type V = Seq<u32>;

    open spec fn view(&self) -> Seq<u32> {
        self.cells@
    }
}

impl PartialEq for Matrix4x4Sisd {
    /// Exact (bitwise) equality: every cell has the same bit pattern.
    fn eq(&self, other: &Self) -> (r: bool) {
        let mut i: usize = 0;
        while i < 16
            invariant
                i <= 16,
                forall|j: int| 0 <= j < i ==> self.cells@[j] == other.cells@[j],
            decreases 16 - i,
        {
            if self.cells[i] != other.cells[i] {
                return false;
            }
            i += 1;
        }
        proof {
            assert(self.cells@ =~= other.cells@);
        }
        true
    }
}

impl vstd::std_specs::cmp::PartialEqSpecImpl for Matrix4x4Sisd {
    open spec fn obeys_eq_spec() -> bool {
        true
    }

    open spec fn eq_spec(&self, other: &Self) -> bool {
        self.cells@ == other.cells@
    }
}

impl Matrix4x4Sisd {
    /// The cell at (column, row) of the flat row-major view — the first
    /// index selects the column.
    pub open spec fn spec_cell(self, column: int, row: int) -> u32 {
        self@[row * 4 + column]
    }

    /// The all-zero matrix.
    pub fn zero() -> (r: Self)
        ensures
            r@ == zero_cells(),
    {
        let r = Self { cells: [0u32; 16] };
        proof {
            assert(r@ =~= zero_cells());
        }
        r
    }

    /// The identity matrix: ones on the diagonal, zeros elsewhere.
    pub fn identity() -> (r: Self)
        ensures
            r@ == identity_cells(),
    {
        let r = Self {
            cells: [
                ONE_BITS, 0u32, 0u32, 0u32, 0u32, ONE_BITS, 0u32, 0u32, 0u32, 0u32, ONE_BITS, 0u32,
                0u32, 0u32, 0u32, ONE_BITS,
            ],
        };
        proof {
            assert(r@ =~= identity_cells());
        }
        r
    }

    /// Builds a matrix from four rows of four cells each, given top to
    /// bottom.  A source of any other shape is a programmer error and is
    /// excluded by the precondition.
    pub fn from_rows(rows: Vec<Vec<u32>>) -> (r: Self)
        requires
            rows@.len() == 4,
            forall|i: int| 0 <= i < 4 ==> (#[trigger] rows@[i])@.len() == 4,
        ensures
            forall|ri: int, ci: int|
                0 <= ri < 4 && 0 <= ci < 4 ==> #[trigger] rows@[ri]@[ci] == r@[4 * ri + ci],
    {
        let mut cells: [u32; 16] = [0u32; 16];
        let mut ri: usize = 0;
        while ri < 4
            invariant
                ri <= 4,
                rows@.len() == 4,
                forall|i: int| 0 <= i < 4 ==> (#[trigger] rows@[i])@.len() == 4,
                forall|i: int, c: int|
                    0 <= i < ri && 0 <= c < 4 ==> #[trigger] rows@[i]@[c] == cells@[4 * i + c],
            decreases 4 - ri,
        {
            let mut ci: usize = 0;
            while ci < 4
                invariant
                    ri < 4,
                    ci <= 4,
                    rows@.len() == 4,
                    forall|i: int| 0 <= i < 4 ==> (#[trigger] rows@[i])@.len() == 4,
                    forall|i: int, c: int|
                        0 <= i < ri && 0 <= c < 4 ==> #[trigger] rows@[i]@[c] == cells@[4 * i
                            + c],
                    forall|c: int|
                        0 <= c < ci ==> #[trigger] rows@[ri as int]@[c] == cells@[4 * ri + c],
                decreases 4 - ci,
            {
                cells[4 * ri + ci] = rows[ri][ci];
                ci += 1;
            }
            ri += 1;
        }
        Self { cells }
    }

    /// The matrix's cells as a flat view in row-major order.
    pub fn flat_cells(&self) -> (r: &[u32; 16])
        ensures
            r@ == self@,
    {
        &self.cells
    }

    /// Reads the cell at (column, row); the first index selects the
    /// column.
    pub fn cell(&self, column: usize, row: usize) -> (r: u32)
        requires
            column < 4,
            row < 4,
        ensures
            r == self.spec_cell(column as int, row as int),
    {
        self.cells[row * 4 + column]
    }

    /// Writes the cell at (column, row); the first index selects the
    /// column.
    pub fn set_cell(&mut self, column: usize, row: usize, value: u32)
        requires
            column < 4,
            row < 4,
        ensures
            final(self)@ == old(self)@.update(row as int * 4 + column as int, value),
    {
        self.cells[row * 4 + column] = value;
    }

    /// A new matrix with `f` applied to every cell independently.
    pub fn map<F: Fn(u32) -> u32>(self, f: F) -> (r: Self)
        requires
            forall|x: u32| #[trigger] f.requires((x,)),
        ensures
            forall|i: int| 0 <= i < 16 ==> f.ensures((self@[i],), #[trigger] r@[i]),
    {
        let mut cells: [u32; 16] = [0u32; 16];
        let mut i: usize = 0;
        while i < 16
            invariant
                i <= 16,
                forall|x: u32| #[trigger] f.requires((x,)),
                forall|j: int| 0 <= j < i ==> f.ensures((self@[j],), #[trigger] cells@[j]),
            decreases 16 - i,
        {
            let v: u32 = f(self.cells[i]);
            cells[i] = v;
            i += 1;
        }
        Self { cells }
    }

    /// The matrix product `self * rhs`: cell (col, row) of the result is
    /// the inner product of `self`'s row `row` with `rhs`'s column `col`,
    /// accumulated left to right in rounded binary32 arithmetic.
    ///
    /// Two laws come with the exact cell description.  Multiplying by the
    /// identity on the right reproduces the matrix bit for bit, as long as
    /// every cell is finite and none is a negative zero (a negative-zero
    /// cell comes back as positive zero, and the product of an infinity
    /// with an off-diagonal zero is a NaN).  Multiplying by the all-zero
    /// matrix on the left gives back the all-zero matrix, bit for bit, for
    /// every finite right operand.
    pub fn multiply(&self, rhs: &Self) -> (r: Self)
        ensures
            forall|i: int|
                0 <= i < 16 ==> #[trigger] r@[i] == spec_scalar_product_cell(self@, rhs@, i),
            rhs@ == identity_cells() && all_finite_cells(self@) && no_negative_zero_cells(self@)
                ==> r@ == self@,
            self@ == zero_cells() && all_finite_cells(rhs@) ==> r@ == zero_cells(),
    {
        let mut cells: [u32; 16] = [0u32; 16];
        let mut row: usize = 0;
        while row < 4
            invariant
                row <= 4,
                forall|i: int|
                    0 <= i < 4 * row ==> #[trigger] cells@[i] == spec_scalar_product_cell(
                        self@,
                        rhs@,
                        i,
                    ),
                rhs@ == identity_cells() && all_finite_cells(self@) && no_negative_zero_cells(
                    self@,
                ) ==> forall|i: int| 0 <= i < 4 * row ==> #[trigger] cells@[i] == self@[i],
                self@ == zero_cells() && all_finite_cells(rhs@) ==> forall|i: int|
                    0 <= i < 4 * row ==> #[trigger] cells@[i] == 0,
            decreases 4 - row,
        {
            let mut col: usize = 0;
            while col < 4
                invariant
                    row < 4,
                    col <= 4,
                    forall|i: int|
                        0 <= i < 4 * row + col ==> #[trigger] cells@[i] == spec_scalar_product_cell(
                            self@,
                            rhs@,
                            i,
                        ),
                    rhs@ == identity_cells() && all_finite_cells(self@) && no_negative_zero_cells(
                        self@,
                    ) ==> forall|i: int| 0 <= i < 4 * row + col ==> #[trigger] cells@[i]
                        == self@[i],
                    self@ == zero_cells() && all_finite_cells(rhs@) ==> forall|i: int|
                        0 <= i < 4 * row + col ==> #[trigger] cells@[i] == 0,
                decreases 4 - col,
            {
                let mut acc: u32 = add_bits(0, mul_bits(self.cells[4 * row], rhs.cells[col]));
                acc = add_bits(acc, mul_bits(self.cells[4 * row + 1], rhs.cells[4 + col]));
                acc = add_bits(acc, mul_bits(self.cells[4 * row + 2], rhs.cells[8 + col]));
                acc = add_bits(acc, mul_bits(self.cells[4 * row + 3], rhs.cells[12 + col]));
                cells[4 * row + col] = acc;
                proof {
                    assert((4 * row + col) / 4 == row as int && (4 * row + col) % 4 == col as int)
                        by (nonlinear_arith)
                        requires
                            row < 4,
                            col < 4,
                    ;
                    assert(col as int / 4 == 0 && col as int % 4 == col as int
                        && (4 + col as int) / 4 == 1 && (4 + col as int) % 4 == col as int && (8
                        + col as int) / 4 == 2 && (8 + col as int) % 4 == col as int && (12
                        + col as int) / 4 == 3 && (12 + col as int) % 4 == col as int)
                        by (nonlinear_arith)
                        requires
                            col < 4,
                    ;
                    lemma_signed_zero_facts(self@[4 * row as int + 0]);
                    lemma_signed_zero_facts(self@[4 * row as int + 1]);
                    lemma_signed_zero_facts(self@[4 * row as int + 2]);
                    lemma_signed_zero_facts(self@[4 * row as int + 3]);
                    lemma_signed_zero_facts(rhs@[col as int]);
                    lemma_signed_zero_facts(rhs@[4 + col as int]);
                    lemma_signed_zero_facts(rhs@[8 + col as int]);
                    lemma_signed_zero_facts(rhs@[12 + col as int]);
                    if rhs@ == identity_cells() && all_finite_cells(self@)
                        && no_negative_zero_cells(self@) {
                        assert(rhs@[col as int] == (if col == 0 {
                            ONE_BITS
                        } else {
                            0u32
                        }));
                        assert(rhs@[4 + col as int] == (if col == 1 {
                            ONE_BITS
                        } else {
                            0u32
                        }));
                        assert(rhs@[8 + col as int] == (if col == 2 {
                            ONE_BITS
                        } else {
                            0u32
                        }));
                        assert(rhs@[12 + col as int] == (if col == 3 {
                            ONE_BITS
                        } else {
                            0u32
                        }));
                        assert(acc == self@[4 * row + col]);
                    }
                    if self@ == zero_cells() && all_finite_cells(rhs@) {
                        assert(acc == 0);
                    }
                }
                col += 1;
            }
            row += 1;
        }
        let r = Self { cells };
        proof {
            if rhs@ == identity_cells() && all_finite_cells(self@) && no_negative_zero_cells(
                self@,
            ) {
                assert(r@ =~= self@);
            }
            if self@ == zero_cells() && all_finite_cells(rhs@) {
                assert(r@ =~= zero_cells());
            }
        }
        r
    }

    /// Default absolute tolerance: the machine epsilon of binary32.
    pub fn default_epsilon() -> (r: u32)
        ensures
            r == DEFAULT_EPSILON_BITS,
    {
        DEFAULT_EPSILON_BITS
    }

    /// Default maximum relative tolerance: the machine epsilon of
    /// binary32.
    pub fn default_max_relative() -> (r: u32)
        ensures
            r == DEFAULT_MAX_RELATIVE_BITS,
    {
        DEFAULT_MAX_RELATIVE_BITS
    }

    /// Default bound on the representation distance of two cells.
    pub fn default_max_ulps() -> (r: u32)
        ensures
            r == DEFAULT_MAX_ULPS,
    {
        DEFAULT_MAX_ULPS
    }

    /// All 16 cell pairs are within `epsilon` absolutely.  Reflexive on
    /// matrices of finite cells whenever zero is within the tolerance.
    pub fn abs_diff_eq(&self, other: &Self, epsilon: u32) -> (r: bool)
        ensures
            r == spec_cells_abs_diff_eq(self@, other@, epsilon),
            self@ == other@ && all_finite_cells(self@) && float_le_bits(0, epsilon) ==> r,
    {
        cells_abs_diff_eq(&self.cells, &other.cells, epsilon)
    }

    /// All 16 cell pairs pass the relative test.  Reflexive on matrices
    /// with no NaN cell.
    pub fn relative_eq(&self, other: &Self, epsilon: u32, max_relative: u32) -> (r: bool)
        ensures
            r == spec_cells_relative_eq(self@, other@, epsilon, max_relative),
            self@ == other@ && no_nan_cells(self@) ==> r,
    {
        cells_relative_eq(&self.cells, &other.cells, epsilon, max_relative)
    }

    /// All 16 cell pairs pass the representation-distance test.  Reflexive
    /// on matrices with no NaN cell.
    pub fn ulps_eq(&self, other: &Self, epsilon: u32, max_ulps: u32) -> (r: bool)
        ensures
            r == spec_cells_ulps_eq(self@, other@, epsilon, max_ulps),
            self@ == other@ && no_nan_cells(self@) ==> r,
    {
        cells_ulps_eq(&self.cells, &other.cells, epsilon, max_ulps)
    }
}

} // verus!
