//! Numeric behavior of the math kernel, exercised through the public API
//! with real IEEE-754 values.

use psp::gum::Gum;
use psp::mat::{
    gum_cross_product, gum_fast_inverse, gum_load_identity, gum_mult_matrix, gum_normalize,
    Matrix4, Vector3, Vector4,
};

fn v3(x: f32, y: f32, z: f32) -> Vector3 {
    Vector3 { x: x.to_bits(), y: y.to_bits(), z: z.to_bits() }
}

fn row(a: f32, b: f32, c: f32, d: f32) -> Vector4 {
    Vector4 { x: a.to_bits(), y: b.to_bits(), z: c.to_bits(), w: d.to_bits() }
}

fn rows(m: &Matrix4) -> [[f32; 4]; 4] {
    let r = |v: &Vector4| {
        [
            f32::from_bits(v.x),
            f32::from_bits(v.y),
            f32::from_bits(v.z),
            f32::from_bits(v.w),
        ]
    };
    [r(&m.x), r(&m.y), r(&m.z), r(&m.w)]
}

fn from_rows(r: [[f32; 4]; 4]) -> Matrix4 {
    Matrix4 {
        x: row(r[0][0], r[0][1], r[0][2], r[0][3]),
        y: row(r[1][0], r[1][1], r[1][2], r[1][3]),
        z: row(r[2][0], r[2][1], r[2][2], r[2][3]),
        w: row(r[3][0], r[3][1], r[3][2], r[3][3]),
    }
}

fn approx(a: f32, b: f32, tol: f32) -> bool {
    (a - b).abs() <= tol
}

fn sample_matrix() -> Matrix4 {
    from_rows([
        [1.5, 2.25, -3.5, 4.0],
        [0.125, -0.75, 8.0, 1.0],
        [5.5, 6.0, -7.25, 2.5],
        [9.0, -10.5, 11.0, 0.25],
    ])
}

#[test]
fn constants_pin_their_values() {
    assert_eq!(psp::scalar::F32_ZERO, 0.0f32.to_bits());
    assert_eq!(psp::scalar::F32_ONE, 1.0f32.to_bits());
    assert_eq!(psp::scalar::F32_NEG_ONE, (-1.0f32).to_bits());
    assert_eq!(psp::scalar::F32_TWO, 2.0f32.to_bits());
    assert_eq!(psp::scalar::F32_NEG_TWO, (-2.0f32).to_bits());
    assert_eq!(psp::scalar::F32_HALF, 0.5f32.to_bits());
    assert_eq!(psp::scalar::EPSILON, 1.0e-5f32.to_bits());
    assert_eq!(
        psp::scalar::DEG_TO_RAD,
        ((std::f64::consts::PI / 180.0) as f32).to_bits()
    );
}

#[test]
fn multiply_by_identity_is_exact() {
    let m = sample_matrix();
    let id = gum_load_identity();
    assert_eq!(gum_mult_matrix(&m, &id), m);
    assert_eq!(gum_mult_matrix(&id, &m), m);
}

#[test]
fn multiply_matches_native_arithmetic() {
    let a = sample_matrix();
    let b = from_rows([
        [2.0, 0.5, 1.0, -1.0],
        [3.0, -2.5, 0.25, 7.0],
        [-4.0, 1.75, 6.0, 0.5],
        [0.0, 12.0, -0.125, 3.0],
    ]);
    let ar = rows(&a);
    let br = rows(&b);
    // The composition lets b's rows linearly combine a's rows: the standard
    // product with the argument b on the left.
    let mut expect = [[0.0f32; 4]; 4];
    for i in 0..4 {
        for j in 0..4 {
            expect[i][j] =
                ((br[i][0] * ar[0][j] + br[i][1] * ar[1][j]) + br[i][2] * ar[2][j])
                    + br[i][3] * ar[3][j];
        }
    }
    assert_eq!(gum_mult_matrix(&a, &b), from_rows(expect));
}

#[test]
fn translate_roundtrip_returns_within_tolerance() {
    let mut g = Gum::new();
    g.load_identity();
    g.translate(&v3(1.25, -2.5, 3.75)).unwrap();
    g.translate(&v3(-1.25, 2.5, -3.75)).unwrap();
    let m = rows(&g.store().unwrap());
    let id = rows(&gum_load_identity());
    for i in 0..4 {
        for j in 0..4 {
            assert!(approx(m[i][j], id[i][j], 1.0e-5));
        }
    }
}

#[test]
fn perspective_produces_the_documented_entries() {
    let mut g = Gum::new();
    g.load_identity();
    g.perspective(
        75.0f32.to_bits(),
        (16.0f32 / 9.0f32).to_bits(),
        0.5f32.to_bits(),
        1000.0f32.to_bits(),
    )
    .unwrap();
    let m = rows(&g.store().unwrap());
    let half = 37.5f32.to_radians();
    let cot = half.cos() / half.sin();
    assert!(approx(m[0][0], cot / (16.0 / 9.0), 1.0e-3));
    assert!(approx(m[0][0], 0.7342, 3.0e-3));
    assert!(approx(m[1][1], cot, 1.0e-3));
    assert!(approx(m[1][1], 1.3054, 3.0e-3));
    assert!(approx(m[2][2], (1000.0 + 0.5) / (0.5 - 1000.0), 1.0e-5));
    assert!(approx(m[3][2], 2.0 * 1000.0 * 0.5 / (0.5 - 1000.0), 1.0e-5));
    assert_eq!(m[2][3], -1.0);
    assert_eq!(m[0][1], 0.0);
    assert_eq!(m[3][3], 0.0);
}

#[test]
fn perspective_far_plane_terms_match_native_arithmetic() {
    let mut g = Gum::new();
    g.load_identity();
    g.perspective(
        75.0f32.to_bits(),
        (16.0f32 / 9.0f32).to_bits(),
        0.5f32.to_bits(),
        1000.0f32.to_bits(),
    )
    .unwrap();
    let m = g.store().unwrap();
    assert_eq!(m.z.z, ((1000.0f32 + 0.5) / (0.5 - 1000.0)).to_bits());
    assert_eq!(m.w.z, ((2.0f32 * (1000.0 * 0.5)) / (0.5 - 1000.0)).to_bits());
}

#[test]
fn rotate_xyz_equals_the_three_rotations_in_order() {
    let v = v3(0.3, 0.5, 0.9);
    let mut g1 = Gum::new();
    g1.load_identity();
    g1.rotate_xyz(&v).unwrap();
    let mut g2 = Gum::new();
    g2.load_identity();
    g2.rotate_x(0.3f32.to_bits()).unwrap();
    g2.rotate_y(0.5f32.to_bits()).unwrap();
    g2.rotate_z(0.9f32.to_bits()).unwrap();
    assert_eq!(g1.store().unwrap(), g2.store().unwrap());

    let mut g3 = Gum::new();
    g3.load_identity();
    g3.rotate_zyx(&v).unwrap();
    assert_ne!(g1.store().unwrap(), g3.store().unwrap());
}

#[test]
fn rotation_entries_match_the_software_trigonometry() {
    let mut g = Gum::new();
    g.load_identity();
    g.rotate_z(0.7f32.to_bits()).unwrap();
    let m = g.store().unwrap();
    assert_eq!(m.x.x, libm::cosf(0.7).to_bits());
    assert_eq!(m.x.y, libm::sinf(0.7).to_bits());
}

#[test]
fn look_at_builds_the_documented_basis() {
    let mut g = Gum::new();
    g.load_identity();
    g.look_at(&v3(0.0, 0.0, 5.0), &v3(0.0, 0.0, 0.0), &v3(0.0, 1.0, 0.0))
        .unwrap();
    let m = rows(&g.store().unwrap());
    // side = (1, 0, 0) in the x column, true up = (0, 1, 0) in the y column,
    // -forward = (0, 0, 1) in the z column, translation by -eye in the w row.
    let expect = [
        [1.0, 0.0, 0.0, 0.0],
        [0.0, 1.0, 0.0, 0.0],
        [0.0, 0.0, 1.0, 0.0],
        [0.0, 0.0, -5.0, 1.0],
    ];
    for i in 0..4 {
        for j in 0..4 {
            assert!(approx(m[i][j], expect[i][j], 1.0e-6));
        }
    }
}

#[test]
fn look_at_with_offset_eye_normalizes_the_forward_direction() {
    let mut g = Gum::new();
    g.load_identity();
    g.look_at(&v3(3.0, 4.0, 0.0), &v3(0.0, 0.0, 0.0), &v3(0.0, 0.0, 1.0))
        .unwrap();
    let m = rows(&g.store().unwrap());
    // forward = (-0.6, -0.8, 0); the z column holds -forward.
    assert!(approx(m[0][2], 0.6, 1.0e-6));
    assert!(approx(m[1][2], 0.8, 1.0e-6));
    assert!(approx(m[2][2], 0.0, 1.0e-6));
    // The translation is applied after the rotation, in the new basis: the
    // eye sits at distance 5 straight behind the view, so the w-row reads
    // (0, 0, -5), not the raw negated eye (-3, -4, 0).
    assert!(approx(m[3][0], 0.0, 1.0e-5));
    assert!(approx(m[3][1], 0.0, 1.0e-5));
    assert!(approx(m[3][2], -5.0, 1.0e-5));
    assert!(approx(m[3][3], 1.0, 1.0e-6));
}

#[test]
fn cross_product_of_known_vectors() {
    let r = gum_cross_product(&v3(1.0, 2.0, 3.0), &v3(4.0, 5.0, 6.0));
    assert_eq!(r, v3(-3.0, 6.0, -3.0));
}

#[test]
fn normalize_scales_to_unit_length() {
    let mut v = v3(3.0, 4.0, 0.0);
    gum_normalize(&mut v);
    assert_eq!(v, v3(3.0 / 5.0, 4.0 / 5.0, 0.0));
}

#[test]
fn normalize_leaves_a_tiny_vector_unchanged() {
    let mut v = v3(1.0e-6, 0.0, 0.0);
    gum_normalize(&mut v);
    assert_eq!(v, v3(1.0e-6, 0.0, 0.0));
}

#[test]
fn fast_inverse_inverts_a_rigid_transform() {
    let mut g = Gum::new();
    g.load_identity();
    g.rotate_z(0.7f32.to_bits()).unwrap();
    g.translate(&v3(1.0, 2.0, 3.0)).unwrap();
    let m = g.store().unwrap();
    let inv = gum_fast_inverse(&m);
    let p = rows(&gum_mult_matrix(&m, &inv));
    let id = rows(&gum_load_identity());
    for i in 0..4 {
        for j in 0..4 {
            assert!(approx(p[i][j], id[i][j], 1.0e-5));
        }
    }
}

#[test]
fn full_inverse_reuses_the_narrow_algorithm() {
    let mut g1 = Gum::new();
    g1.load_identity();
    g1.rotate_y(0.4f32.to_bits()).unwrap();
    g1.translate(&v3(-2.0, 0.5, 7.0)).unwrap();
    let mut g2 = Gum::new();
    g2.load_identity();
    g2.rotate_y(0.4f32.to_bits()).unwrap();
    g2.translate(&v3(-2.0, 0.5, 7.0)).unwrap();
    g1.fast_inverse().unwrap();
    g2.full_inverse().unwrap();
    assert_eq!(g1.store().unwrap(), g2.store().unwrap());
}

#[test]
fn scalar_comparisons_follow_ieee_rules() {
    let f32_gt_bits = psp::scalar::f32_gt_bits;
    let f32_eq_bits = psp::scalar::f32_eq_bits;
    let f32_le_bits = psp::scalar::f32_le_bits;
    let nan = f32::NAN.to_bits();
    assert!(f32_gt_bits(1.0f32.to_bits(), 0.5f32.to_bits()));
    assert!(f32_gt_bits(0.5f32.to_bits(), (-1.0f32).to_bits()));
    assert!(f32_gt_bits((-1.0f32).to_bits(), (-2.0f32).to_bits()));
    assert!(!f32_gt_bits(nan, 0.0f32.to_bits()));
    assert!(!f32_gt_bits(0.0f32.to_bits(), nan));
    assert!(f32_eq_bits(0.0f32.to_bits(), (-0.0f32).to_bits()));
    assert!(!f32_eq_bits(nan, nan));
    assert!(f32_le_bits((-0.0f32).to_bits(), 0.0f32.to_bits()));
    assert!(!f32_le_bits(nan, nan));
    assert!(f32_gt_bits(0.0f32.to_bits(), (-0.5f32).to_bits()));
    assert!(!f32_gt_bits((-0.0f32).to_bits(), 0.0f32.to_bits()));
}

#[test]
fn ortho_matches_the_documented_formulas() {
    let mut g = Gum::new();
    g.load_identity();
    g.ortho(
        (-2.0f32).to_bits(),
        6.0f32.to_bits(),
        (-1.0f32).to_bits(),
        3.0f32.to_bits(),
        0.5f32.to_bits(),
        100.5f32.to_bits(),
    )
    .unwrap();
    let m = rows(&g.store().unwrap());
    assert!(approx(m[0][0], 2.0 / 8.0, 1.0e-6));
    assert!(approx(m[1][1], 2.0 / 4.0, 1.0e-6));
    assert!(approx(m[2][2], -2.0 / 100.0, 1.0e-6));
    assert!(approx(m[3][0], -(6.0 + -2.0) / 8.0, 1.0e-6));
    assert!(approx(m[3][1], -(3.0 + -1.0) / 4.0, 1.0e-6));
    assert!(approx(m[3][2], -(100.5 + 0.5) / 100.0, 1.0e-6));
    assert_eq!(m[3][3], 1.0);
}

#[test]
fn matrix_serializes_row_major_and_round_trips() {
    let m = sample_matrix();
    let words = psp::mat::matrix_to_words(&m);
    assert_eq!(words.len(), 16);
    assert_eq!(words[0], 1.5f32.to_bits());
    assert_eq!(words[1], 2.25f32.to_bits());
    assert_eq!(words[4], 0.125f32.to_bits());
    assert_eq!(words[15], 0.25f32.to_bits());
    assert_eq!(psp::mat::matrix_from_words(&words), Some(m));
    let short = vec![0u32; 15];
    assert_eq!(psp::mat::matrix_from_words(&short), None);
}
