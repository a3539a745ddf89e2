use mat4x4::capability::{cpu_has_avx, cpu_has_avx2, cpu_has_fma};
use mat4x4::matrix_simd::Matrix4x4Simd;
use mat4x4::matrix_sisd::Matrix4x4Sisd;

fn bits_rows(vals: [[f32; 4]; 4]) -> Vec<Vec<u32>> {
    vals.iter()
        .map(|row| row.iter().map(|cell| cell.to_bits()).collect())
        .collect()
}

fn sisd(vals: [[f32; 4]; 4]) -> Matrix4x4Sisd {
    Matrix4x4Sisd::from_rows(bits_rows(vals))
}

fn simd(vals: [[f32; 4]; 4]) -> Matrix4x4Simd {
    Matrix4x4Simd::from_rows(bits_rows(vals))
}

fn simd_all_approx_eq(a: &Matrix4x4Simd, b: &Matrix4x4Simd) -> (bool, bool, bool) {
    (
        a.abs_diff_eq(b, Matrix4x4Simd::default_epsilon()),
        a.relative_eq(
            b,
            Matrix4x4Simd::default_epsilon(),
            Matrix4x4Simd::default_max_relative(),
        ),
        a.ulps_eq(
            b,
            Matrix4x4Simd::default_epsilon(),
            Matrix4x4Simd::default_max_ulps(),
        ),
    )
}

fn sisd_all_approx_eq(a: &Matrix4x4Sisd, b: &Matrix4x4Sisd) -> (bool, bool, bool) {
    (
        a.abs_diff_eq(b, Matrix4x4Sisd::default_epsilon()),
        a.relative_eq(
            b,
            Matrix4x4Sisd::default_epsilon(),
            Matrix4x4Sisd::default_max_relative(),
        ),
        a.ulps_eq(
            b,
            Matrix4x4Sisd::default_epsilon(),
            Matrix4x4Sisd::default_max_ulps(),
        ),
    )
}

fn perturb(cell: u32) -> u32 {
    ((f32::from_bits(cell) * 10000. + 3.) / 10000. - 3. / 10000.).to_bits()
}

#[test]
fn test_avx_sse_supported() {
    assert!(cpu_has_avx());
    assert!(cpu_has_avx2());
    assert!(cpu_has_fma());
}

#[test]
fn matrix_simd_test_approx() {
    let matrix = simd([
        [1., 0., 0., 0.],
        [0., 2., 0., 0.],
        [0., 0., 3., 0.],
        [0., 0., 0., 4.],
    ]);

    // Introduce floating point error.
    let modified = matrix.clone().map(perturb);

    assert_ne!(matrix, modified);
    let (abs, rel, ulps) = simd_all_approx_eq(&matrix, &modified);
    assert!(abs);
    assert!(rel);
    assert!(ulps);
}

#[test]
fn matrix_simd_test_multiply_identity() {
    let matrix = simd([
        [1., 2., 3., 4.],
        [5., 6., 7., 8.],
        [9., 10., 11., 12.],
        [13., 14., 15., 16.],
    ]);

    let product = matrix.multiply_checked(&Matrix4x4Simd::identity());
    assert!(matrix.abs_diff_eq(&product, Matrix4x4Simd::default_epsilon()));
}

#[test]
fn matrix_simd_test_multiply() {
    let a = simd([
        [1., 2., 0., 1.],
        [0., 1., 3., 2.],
        [4., 0., 1., 0.],
        [2., 1., 0., 1.],
    ]);
    let b = simd([
        [2., 1., 3., 0.],
        [1., 0., 2., 1.],
        [0., 1., 1., 2.],
        [3., 0., 0., 1.],
    ]);
    let expected = simd([
        [7., 1., 7., 3.],
        [7., 3., 5., 9.],
        [8., 5., 13., 2.],
        [8., 2., 8., 2.],
    ]);

    let product = a.multiply_checked(&b);
    assert!(expected.abs_diff_eq(&product, Matrix4x4Simd::default_epsilon()));
}

#[test]
fn matrix_sisd_test_approx() {
    let matrix = sisd([
        [1., 0., 0., 0.],
        [0., 2., 0., 0.],
        [0., 0., 3., 0.],
        [0., 0., 0., 4.],
    ]);

    // Introduce floating point error.
    let modified = matrix.clone().map(perturb);

    assert_ne!(matrix, modified);
    let (abs, rel, ulps) = sisd_all_approx_eq(&matrix, &modified);
    assert!(abs);
    assert!(rel);
    assert!(ulps);
}

#[test]
fn matrix_sisd_test_multiply_identity() {
    let matrix = sisd([
        [1., 2., 3., 4.],
        [5., 6., 7., 8.],
        [9., 10., 11., 12.],
        [13., 14., 15., 16.],
    ]);

    let product = matrix.multiply(&Matrix4x4Sisd::identity());
    assert!(matrix.abs_diff_eq(&product, Matrix4x4Sisd::default_epsilon()));
}

#[test]
fn matrix_sisd_test_multiply() {
    let a = sisd([
        [1., 2., 0., 1.],
        [0., 1., 3., 2.],
        [4., 0., 1., 0.],
        [2., 1., 0., 1.],
    ]);
    let b = sisd([
        [2., 1., 3., 0.],
        [1., 0., 2., 1.],
        [0., 1., 1., 2.],
        [3., 0., 0., 1.],
    ]);
    let expected = sisd([
        [7., 1., 7., 3.],
        [7., 3., 5., 9.],
        [8., 5., 13., 2.],
        [8., 2., 8., 2.],
    ]);

    let product = a.multiply(&b);
    assert!(expected.abs_diff_eq(&product, Matrix4x4Sisd::default_epsilon()));
}

#[test]
fn test_multiply_exact_integer_results() {
    // Small integers multiply exactly in binary32, so both strategies must
    // reach the expected product bit for bit, not only within tolerance.
    let vals_a = [
        [1f32, 2., 0., 1.],
        [0., 1., 3., 2.],
        [4., 0., 1., 0.],
        [2., 1., 0., 1.],
    ];
    let vals_b = [
        [2f32, 1., 3., 0.],
        [1., 0., 2., 1.],
        [0., 1., 1., 2.],
        [3., 0., 0., 1.],
    ];
    let vals_c = [
        [7f32, 1., 7., 3.],
        [7., 3., 5., 9.],
        [8., 5., 13., 2.],
        [8., 2., 8., 2.],
    ];
    assert_eq!(sisd(vals_a).multiply(&sisd(vals_b)), sisd(vals_c));
    assert_eq!(simd(vals_a).multiply_checked(&simd(vals_b)), simd(vals_c));
}

#[test]
fn test_zero_product_is_zero() {
    let m_vals = [
        [1.5f32, -2., 3.25, -0.5],
        [2., 1., -3., 4.],
        [-1., 5., 2., -2.],
        [0.5, -0.25, 1., 3.],
    ];
    let zs = Matrix4x4Sisd::zero();
    assert_eq!(zs.multiply(&sisd(m_vals)), zs);
    let zv = Matrix4x4Simd::zero();
    assert_eq!(zv.multiply_checked(&simd(m_vals)), zv);
}

#[test]
fn test_cross_representation_equivalence() {
    // Entries are kept small so that the rounding differences between the
    // fused and the scalar accumulation stay within even the absolute
    // default tolerance.
    let vals_a = [
        [0.11f32, -0.23, 0.05, 0.17],
        [0.31, -0.07, 0.002, 0.13],
        [-0.19, 0.25, 0.03, -0.06],
        [0.025, -0.33, 0.105, 0.09],
    ];
    let vals_b = [
        [0.13f32, -0.02, 0.21, 0.07],
        [-0.09, 0.033, 0.125, -0.22],
        [0.06, 0.18, -0.04, 0.015],
        [0.205, -0.11, 0.09, 0.035],
    ];
    let a = sisd(vals_a);
    let b = sisd(vals_b);
    let scalar_product = a.multiply(&b);
    let wide_product = Matrix4x4Simd::from(a).multiply_checked(&Matrix4x4Simd::from(b));
    let back = Matrix4x4Sisd::from(wide_product);
    let (abs, rel, ulps) = sisd_all_approx_eq(&scalar_product, &back);
    assert!(abs);
    assert!(rel);
    assert!(ulps);
}

#[test]
fn test_conversion_round_trip_exact() {
    // Raw cell patterns, including a NaN, an infinity and a negative zero:
    // conversion must keep every bit.
    let cells = vec![
        vec![0x7fc0_0001u32, 0x8000_0000, 0x0000_0001, 0x7f80_0000],
        vec![0xff80_0000, 0x3f80_0000, 0x4049_0fdb, 0x0000_0000],
        vec![0x8000_0001, 0x7f7f_ffff, 0x0080_0000, 0x3400_0000],
        vec![0xbf80_0000, 0x7fc0_0000, 0x4000_0000, 0x3dcc_cccd],
    ];
    let original = Matrix4x4Sisd::from_rows(cells.clone());
    let wide = Matrix4x4Simd::from(original);
    let back = Matrix4x4Sisd::from(wide);
    assert_eq!(back, original);
    assert_eq!(back.flat_cells(), original.flat_cells());
    let flat = original.flat_cells();
    for ri in 0..4 {
        for ci in 0..4 {
            assert_eq!(flat[4 * ri + ci], cells[ri][ci]);
        }
    }
}

#[test]
fn test_approx_reflexive() {
    let m_vals = [
        [1.5f32, -2., 3.25, -0.5],
        [2., 1., -3., 4.],
        [-1., 5., 2., -2.],
        [0.5, -0.25, 1., 3.],
    ];
    let s = sisd(m_vals);
    let (abs_s, rel_s, ulps_s) = sisd_all_approx_eq(&s, &s);
    assert!(abs_s);
    assert!(rel_s);
    assert!(ulps_s);
    let v = simd(m_vals);
    let (abs_v, rel_v, ulps_v) = simd_all_approx_eq(&v, &v);
    assert!(abs_v);
    assert!(rel_v);
    assert!(ulps_v);
}

#[test]
fn test_approx_distinguishes() {
    let ones = sisd([[1f32; 4]; 4]);
    // A difference of 0.1 is far beyond every default tolerance.
    let far = ones.map(|cell: u32| (f32::from_bits(cell) + 0.1).to_bits());
    let (abs, rel, ulps) = sisd_all_approx_eq(&ones, &far);
    assert!(!abs);
    assert!(!rel);
    assert!(!ulps);
    // One representable step is within every default tolerance.
    let near = ones.map(|cell: u32| cell + 1);
    let (abs_n, rel_n, ulps_n) = sisd_all_approx_eq(&ones, &near);
    assert!(abs_n);
    assert!(rel_n);
    assert!(ulps_n);
}

#[test]
fn test_special_value_edge_cases() {
    // A NaN cell is bitwise equal to itself but never approximately equal.
    let nan = sisd([
        [f32::NAN, 1., 1., 1.],
        [1., 1., 1., 1.],
        [1., 1., 1., 1.],
        [1., 1., 1., 1.],
    ]);
    assert_eq!(nan, nan);
    let (abs, rel, ulps) = sisd_all_approx_eq(&nan, &nan);
    assert!(!abs);
    assert!(!rel);
    assert!(!ulps);

    // Like infinities: the absolute test fails (their difference is a
    // NaN), while the relative and representation-distance tests hold.
    let inf = sisd([[f32::INFINITY; 4]; 4]);
    let (abs_i, rel_i, ulps_i) = sisd_all_approx_eq(&inf, &inf);
    assert!(!abs_i);
    assert!(rel_i);
    assert!(ulps_i);

    // The two zeros differ bitwise but are equal under every relation.
    let pz = sisd([[0.0f32; 4]; 4]);
    let nz = sisd([[-0.0f32; 4]; 4]);
    assert_ne!(pz, nz);
    let (abs_z, rel_z, ulps_z) = sisd_all_approx_eq(&pz, &nz);
    assert!(abs_z);
    assert!(rel_z);
    assert!(ulps_z);
}

#[test]
fn test_cell_indexing() {
    let vals = [
        [1f32, 2., 3., 4.],
        [5., 6., 7., 8.],
        [9., 10., 11., 12.],
        [13., 14., 15., 16.],
    ];
    let mut v = simd(vals);
    // A cell is addressed by (column, row): the first index selects the
    // column.
    assert_eq!(v.cell(1, 2), 10f32.to_bits());
    assert_eq!(v.cell(2, 1), 7f32.to_bits());
    v.set_cell(3, 0, 42f32.to_bits());
    assert_eq!(v.cell(3, 0), 42f32.to_bits());
    assert_eq!(v.cell(0, 0), 1f32.to_bits());

    let mut s = sisd(vals);
    assert_eq!(s.cell(1, 2), 10f32.to_bits());
    s.set_cell(0, 3, 21f32.to_bits());
    assert_eq!(s.cell(0, 3), 21f32.to_bits());
}

#[test]
fn test_views_and_lanes() {
    let vals = [
        [1f32, 2., 3., 4.],
        [5., 6., 7., 8.],
        [9., 10., 11., 12.],
        [13., 14., 15., 16.],
    ];
    let mut expected_rows = [[0u32; 4]; 4];
    for ri in 0..4 {
        for ci in 0..4 {
            expected_rows[ri][ci] = vals[ri][ci].to_bits();
        }
    }
    let v = Matrix4x4Simd::new(expected_rows);
    assert_eq!(v.rows(), expected_rows);
    let flat = v.flat_cells();
    for ri in 0..4 {
        for ci in 0..4 {
            assert_eq!(flat[4 * ri + ci], expected_rows[ri][ci]);
        }
    }
    // The two lane groups are the two halves of the flat row-major view:
    // rows 0 and 1 concatenated, then rows 2 and 3.
    let (rows_0_1, rows_2_3) = v.rows_m256();
    for j in 0..8 {
        assert_eq!(rows_0_1[j], flat[j]);
        assert_eq!(rows_2_3[j], flat[8 + j]);
    }
}

#[test]
fn test_constants_convertible() {
    assert_eq!(Matrix4x4Simd::from(Matrix4x4Sisd::zero()), Matrix4x4Simd::zero());
    assert_eq!(Matrix4x4Simd::from(Matrix4x4Sisd::identity()), Matrix4x4Simd::identity());
    assert_eq!(Matrix4x4Sisd::from(Matrix4x4Simd::zero()), Matrix4x4Sisd::zero());
    assert_eq!(Matrix4x4Sisd::from(Matrix4x4Simd::identity()), Matrix4x4Sisd::identity());
    // The identity really is ones on the diagonal, zeros elsewhere.
    let identity = Matrix4x4Sisd::identity();
    for ci in 0..4 {
        for ri in 0..4 {
            let expected = if ci == ri { 1f32.to_bits() } else { 0 };
            assert_eq!(identity.cell(ci, ri), expected);
        }
    }
}
