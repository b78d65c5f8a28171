//! Matrix and vector primitives and the stateless math kernel.
//!
//! A [`Matrix4`] is four row vectors in the order x, y, z, w; the matrix is
//! row-major, rows represent basis axes, and the translation sits in the
//! w-row. Under this convention, composing a transform "in local space"
//! lets the argument's rows linearly combine the current matrix's rows:
//! [`compose`]`(top, m)`, the standard product with the argument on the
//! left.
//!
//! Every function is deterministic on bit patterns. Results are specified
//! exactly, as terms over the scalar operations of [`crate::scalar`]: the
//! spec functions here mirror the kernel's arithmetic, including the
//! association order of the sums inside a dot product, so each exec
//! function's `ensures` pins its result bit for bit.

use vstd::prelude::*;
use crate::scalar::{
    DEG_TO_RAD, EPSILON, F32_HALF, F32_NEG_ONE, F32_NEG_TWO, F32_ONE, F32_TWO, F32_ZERO,
    add_bits, cos_bits, div_bits, f32_gt, f32_gt_bits, f_add, f_div, f_mul, f_neg, f_sqrt,
    f_sub, f_cos, f_sin, mul_bits, neg_bits, sin_bits, sqrt_bits, sub_bits,
};

verus! {

/// A plain three-component vector of single-precision bit patterns.
#[derive(Clone, Copy, Debug, PartialEq, Eq, Structural)]
pub struct Vector3 {
    pub x: u32,
    pub y: u32,
    pub z: u32,
}

/// A plain four-component vector of single-precision bit patterns.
#[derive(Clone, Copy, Debug, PartialEq, Eq, Structural)]
pub struct Vector4 {
    pub x: u32,
    pub y: u32,
    pub z: u32,
    pub w: u32,
}

/// A row-major 4x4 matrix: four row vectors in the order x, y, z, w.
///
/// The serialized layout is the four rows in this order, each of four
/// scalars; this layout is what the rasterizer backend consumes and must
/// never be transposed.
#[derive(Clone, Copy, Debug, PartialEq, Eq, Structural)]
pub struct Matrix4 {
    pub x: Vector4,
    pub y: Vector4,
    pub z: Vector4,
    pub w: Vector4,
}

/// The componentwise negation of a three-vector.
pub open spec fn neg3(v: Vector3) -> Vector3 {
    Vector3 { x: neg_bits(v.x), y: neg_bits(v.y), z: neg_bits(v.z) }
}

/// The componentwise difference `a - b` of two three-vectors.
pub open spec fn sub3(a: Vector3, b: Vector3) -> Vector3 {
    Vector3 { x: sub_bits(a.x, b.x), y: sub_bits(a.y, b.y), z: sub_bits(a.z, b.z) }
}

/// The cross product of two three-vectors.
pub open spec fn cross(a: Vector3, b: Vector3) -> Vector3 {
    Vector3 {
        x: sub_bits(mul_bits(a.y, b.z), mul_bits(a.z, b.y)),
        y: sub_bits(mul_bits(a.z, b.x), mul_bits(a.x, b.z)),
        z: sub_bits(mul_bits(a.x, b.y), mul_bits(a.y, b.x)),
    }
}

/// The Euclidean length of a three-vector: the squares are summed in
/// component order before the square root.
pub open spec fn vec3_len(v: Vector3) -> u32 {
    sqrt_bits(
        add_bits(add_bits(mul_bits(v.x, v.x), mul_bits(v.y, v.y)), mul_bits(v.z, v.z)),
    )
}

/// Normalization with the engine's tolerant edge case: a vector whose length
/// does not exceed [`EPSILON`] is returned unchanged rather than rejected.
pub open spec fn normalize_spec(v: Vector3) -> Vector3 {
    let l = vec3_len(v);
    if f32_gt(l, EPSILON) {
        let il = div_bits(F32_ONE, l);
        Vector3 { x: mul_bits(v.x, il), y: mul_bits(v.y, il), z: mul_bits(v.z, il) }
    } else {
        v
    }
}

/// The dot product of two four-vectors, summed left to right in component
/// order: `((x + y) + z) + w`.
pub open spec fn dot4(a: Vector4, b: Vector4) -> u32 {
    add_bits(
        add_bits(add_bits(mul_bits(a.x, b.x), mul_bits(a.y, b.y)), mul_bits(a.z, b.z)),
        mul_bits(a.w, b.w),
    )
}

/// The dot product of the xyz parts of two rows, summed left to right.
pub open spec fn dot3(a: Vector4, b: Vector3) -> u32 {
    add_bits(add_bits(mul_bits(a.x, b.x), mul_bits(a.y, b.y)), mul_bits(a.z, b.z))
}

/// The x column of a matrix.
pub open spec fn col_x(m: Matrix4) -> Vector4 {
    Vector4 { x: m.x.x, y: m.y.x, z: m.z.x, w: m.w.x }
}

/// The y column of a matrix.
pub open spec fn col_y(m: Matrix4) -> Vector4 {
    Vector4 { x: m.x.y, y: m.y.y, z: m.z.y, w: m.w.y }
}

/// The z column of a matrix.
pub open spec fn col_z(m: Matrix4) -> Vector4 {
    Vector4 { x: m.x.z, y: m.y.z, z: m.z.z, w: m.w.z }
}

/// The w column of a matrix.
pub open spec fn col_w(m: Matrix4) -> Vector4 {
    Vector4 { x: m.x.w, y: m.y.w, z: m.z.w, w: m.w.w }
}

/// The row-major matrix product `a x b`: entry `(i, j)` is the dot product
/// of row `i` of `a` with column `j` of `b`.
pub open spec fn mat_mul(a: Matrix4, b: Matrix4) -> Matrix4 {
    Matrix4 {
        x: Vector4 {
            x: dot4(a.x, col_x(b)),
            y: dot4(a.x, col_y(b)),
            z: dot4(a.x, col_z(b)),
            w: dot4(a.x, col_w(b)),
        },
        y: Vector4 {
            x: dot4(a.y, col_x(b)),
            y: dot4(a.y, col_y(b)),
            z: dot4(a.y, col_z(b)),
            w: dot4(a.y, col_w(b)),
        },
        z: Vector4 {
            x: dot4(a.z, col_x(b)),
            y: dot4(a.z, col_y(b)),
            z: dot4(a.z, col_z(b)),
            w: dot4(a.z, col_w(b)),
        },
        w: Vector4 {
            x: dot4(a.w, col_x(b)),
            y: dot4(a.w, col_y(b)),
            z: dot4(a.w, col_z(b)),
            w: dot4(a.w, col_w(b)),
        },
    }
}

/// The engine's composition of the current matrix `a` with a transform
/// argument `b`: each row of the result is the linear combination of `a`'s
/// rows weighted by the corresponding row of `b` — the standard product
/// [`mat_mul`]`(b, a)` with the argument on the left. In the row-major,
/// translation-in-w-row convention this is the order that applies `b` in
/// local space, as the stack manager's transform calls do.
pub open spec fn compose(a: Matrix4, b: Matrix4) -> Matrix4 {
    mat_mul(b, a)
}

/// The 4x4 identity matrix.
pub open spec fn identity_mat() -> Matrix4 {
    Matrix4 {
        x: Vector4 { x: F32_ONE, y: F32_ZERO, z: F32_ZERO, w: F32_ZERO },
        y: Vector4 { x: F32_ZERO, y: F32_ONE, z: F32_ZERO, w: F32_ZERO },
        z: Vector4 { x: F32_ZERO, y: F32_ZERO, z: F32_ONE, w: F32_ZERO },
        w: Vector4 { x: F32_ZERO, y: F32_ZERO, z: F32_ZERO, w: F32_ONE },
    }
}

/// The all-zero matrix, the state of every freshly created stack slot.
pub open spec fn zero_mat() -> Matrix4 {
    Matrix4 {
        x: Vector4 { x: F32_ZERO, y: F32_ZERO, z: F32_ZERO, w: F32_ZERO },
        y: Vector4 { x: F32_ZERO, y: F32_ZERO, z: F32_ZERO, w: F32_ZERO },
        z: Vector4 { x: F32_ZERO, y: F32_ZERO, z: F32_ZERO, w: F32_ZERO },
        w: Vector4 { x: F32_ZERO, y: F32_ZERO, z: F32_ZERO, w: F32_ZERO },
    }
}

/// The translation matrix: the identity with the vector in the w-row.
pub open spec fn translate_mat(v: Vector3) -> Matrix4 {
    Matrix4 {
        x: Vector4 { x: F32_ONE, y: F32_ZERO, z: F32_ZERO, w: F32_ZERO },
        y: Vector4 { x: F32_ZERO, y: F32_ONE, z: F32_ZERO, w: F32_ZERO },
        z: Vector4 { x: F32_ZERO, y: F32_ZERO, z: F32_ONE, w: F32_ZERO },
        w: Vector4 { x: v.x, y: v.y, z: v.z, w: F32_ONE },
    }
}

/// The scaling matrix: the factors on the diagonal.
pub open spec fn scale_mat(v: Vector3) -> Matrix4 {
    Matrix4 {
        x: Vector4 { x: v.x, y: F32_ZERO, z: F32_ZERO, w: F32_ZERO },
        y: Vector4 { x: F32_ZERO, y: v.y, z: F32_ZERO, w: F32_ZERO },
        z: Vector4 { x: F32_ZERO, y: F32_ZERO, z: v.z, w: F32_ZERO },
        w: Vector4 { x: F32_ZERO, y: F32_ZERO, z: F32_ZERO, w: F32_ONE },
    }
}

/// The rotation about the x axis by an angle in radians.
pub open spec fn rot_x_mat(angle: u32) -> Matrix4 {
    let c = cos_bits(angle);
    let s = sin_bits(angle);
    Matrix4 {
        x: Vector4 { x: F32_ONE, y: F32_ZERO, z: F32_ZERO, w: F32_ZERO },
        y: Vector4 { x: F32_ZERO, y: c, z: s, w: F32_ZERO },
        z: Vector4 { x: F32_ZERO, y: neg_bits(s), z: c, w: F32_ZERO },
        w: Vector4 { x: F32_ZERO, y: F32_ZERO, z: F32_ZERO, w: F32_ONE },
    }
}

/// The rotation about the y axis by an angle in radians.
pub open spec fn rot_y_mat(angle: u32) -> Matrix4 {
    let c = cos_bits(angle);
    let s = sin_bits(angle);
    Matrix4 {
        x: Vector4 { x: c, y: F32_ZERO, z: neg_bits(s), w: F32_ZERO },
        y: Vector4 { x: F32_ZERO, y: F32_ONE, z: F32_ZERO, w: F32_ZERO },
        z: Vector4 { x: s, y: F32_ZERO, z: c, w: F32_ZERO },
        w: Vector4 { x: F32_ZERO, y: F32_ZERO, z: F32_ZERO, w: F32_ONE },
    }
}

/// The rotation about the z axis by an angle in radians.
pub open spec fn rot_z_mat(angle: u32) -> Matrix4 {
    let c = cos_bits(angle);
    let s = sin_bits(angle);
    Matrix4 {
        x: Vector4 { x: c, y: s, z: F32_ZERO, w: F32_ZERO },
        y: Vector4 { x: neg_bits(s), y: c, z: F32_ZERO, w: F32_ZERO },
        z: Vector4 { x: F32_ZERO, y: F32_ZERO, z: F32_ONE, w: F32_ZERO },
        w: Vector4 { x: F32_ZERO, y: F32_ZERO, z: F32_ZERO, w: F32_ONE },
    }
}

/// The narrow inverse of a matrix whose upper-left 3x3 block is orthonormal:
/// the 3x3 block is transposed and the translation is negated and carried
/// through the rotation rows. On a matrix with scale or shear the result is
/// simply wrong; the caller owns that assumption.
pub open spec fn fast_inverse_mat(m: Matrix4) -> Matrix4 {
    let nt = neg3(Vector3 { x: m.w.x, y: m.w.y, z: m.w.z });
    Matrix4 {
        x: Vector4 { x: m.x.x, y: m.y.x, z: m.z.x, w: F32_ZERO },
        y: Vector4 { x: m.x.y, y: m.y.y, z: m.z.y, w: F32_ZERO },
        z: Vector4 { x: m.x.z, y: m.y.z, z: m.z.z, w: F32_ZERO },
        w: Vector4 { x: dot3(m.x, nt), y: dot3(m.y, nt), z: dot3(m.z, nt), w: F32_ONE },
    }
}

/// The look-at basis matrix: columns are side, true up and negated forward,
/// each derived with the tolerant [`normalize_spec`].
pub open spec fn look_basis_mat(eye: Vector3, center: Vector3, up: Vector3) -> Matrix4 {
    let fwd = normalize_spec(sub3(center, eye));
    let side = normalize_spec(cross(fwd, up));
    let lup = cross(side, fwd);
    Matrix4 {
        x: Vector4 { x: side.x, y: lup.x, z: neg_bits(fwd.x), w: F32_ZERO },
        y: Vector4 { x: side.y, y: lup.y, z: neg_bits(fwd.y), w: F32_ZERO },
        z: Vector4 { x: side.z, y: lup.z, z: neg_bits(fwd.z), w: F32_ZERO },
        w: Vector4 { x: F32_ZERO, y: F32_ZERO, z: F32_ZERO, w: F32_ONE },
    }
}

/// The axis-aligned orthographic projection matrix over the given clip box.
pub open spec fn ortho_mat(
    left: u32,
    right: u32,
    bottom: u32,
    top: u32,
    near: u32,
    far: u32,
) -> Matrix4 {
    let dx = sub_bits(right, left);
    let dy = sub_bits(top, bottom);
    let dz = sub_bits(far, near);
    Matrix4 {
        x: Vector4 { x: div_bits(F32_TWO, dx), y: F32_ZERO, z: F32_ZERO, w: F32_ZERO },
        y: Vector4 { x: F32_ZERO, y: div_bits(F32_TWO, dy), z: F32_ZERO, w: F32_ZERO },
        z: Vector4 { x: F32_ZERO, y: F32_ZERO, z: div_bits(F32_NEG_TWO, dz), w: F32_ZERO },
        w: Vector4 {
            x: div_bits(neg_bits(add_bits(right, left)), dx),
            y: div_bits(neg_bits(add_bits(top, bottom)), dy),
            z: div_bits(neg_bits(add_bits(far, near)), dz),
            w: F32_ONE,
        },
    }
}

/// Half of the field of view, converted from degrees to radians.
pub open spec fn persp_half_rad(fovy: u32) -> u32 {
    mul_bits(mul_bits(fovy, F32_HALF), DEG_TO_RAD)
}

/// The right-handed perspective projection matrix, with
/// `cot = cos(fovy/2) / sin(fovy/2)` for the field of view in degrees.
pub open spec fn persp_mat(fovy: u32, aspect: u32, near: u32, far: u32) -> Matrix4 {
    let rad = persp_half_rad(fovy);
    let cot = div_bits(cos_bits(rad), sin_bits(rad));
    let dz = sub_bits(near, far);
    Matrix4 {
        x: Vector4 { x: div_bits(cot, aspect), y: F32_ZERO, z: F32_ZERO, w: F32_ZERO },
        y: Vector4 { x: F32_ZERO, y: cot, z: F32_ZERO, w: F32_ZERO },
        z: Vector4 {
            x: F32_ZERO,
            y: F32_ZERO,
            z: div_bits(add_bits(far, near), dz),
            w: F32_NEG_ONE,
        },
        w: Vector4 {
            x: F32_ZERO,
            y: F32_ZERO,
            z: div_bits(mul_bits(F32_TWO, mul_bits(far, near)), dz),
            w: F32_ZERO,
        },
    }
}

/// The serialized layout of a matrix: the four rows in the order x, y, z,
/// w, each as its four scalars in the order x, y, z, w — sixteen words.
/// This layout is what crosses the boundary to the rasterizer backend and
/// must never be transposed.
pub open spec fn mat_words(m: Matrix4) -> Seq<u32> {
    seq![
        m.x.x, m.x.y, m.x.z, m.x.w,
        m.y.x, m.y.y, m.y.z, m.y.w,
        m.z.x, m.z.y, m.z.z, m.z.w,
        m.w.x, m.w.y, m.w.z, m.w.w,
    ]
}

/// Serialize a matrix into its sixteen-word row-major layout.
pub fn matrix_to_words(m: &Matrix4) -> (r: Vec<u32>)
    ensures
        r@ == mat_words(*m),
{
    let mut v: Vec<u32> = Vec::new();
    v.push(m.x.x);
    v.push(m.x.y);
    v.push(m.x.z);
    v.push(m.x.w);
    v.push(m.y.x);
    v.push(m.y.y);
    v.push(m.y.z);
    v.push(m.y.w);
    v.push(m.z.x);
    v.push(m.z.y);
    v.push(m.z.z);
    v.push(m.z.w);
    v.push(m.w.x);
    v.push(m.w.y);
    v.push(m.w.z);
    v.push(m.w.w);
    proof {
        assert(v@ =~= mat_words(*m));
    }
    v
}

/// Read a matrix back from its sixteen-word row-major layout; any other
/// length is rejected.
pub fn matrix_from_words(w: &Vec<u32>) -> (r: Option<Matrix4>)
    ensures
        w@.len() == 16 ==> (r matches Some(m) && mat_words(m) == w@),
        w@.len() != 16 ==> r is None,
{
    if w.len() != 16 {
        return None;
    }
    let m = Matrix4 {
        x: Vector4 { x: w[0], y: w[1], z: w[2], w: w[3] },
        y: Vector4 { x: w[4], y: w[5], z: w[6], w: w[7] },
        z: Vector4 { x: w[8], y: w[9], z: w[10], w: w[11] },
        w: Vector4 { x: w[12], y: w[13], z: w[14], w: w[15] },
    };
    proof {
        assert(mat_words(m) =~= w@);
    }
    Some(m)
}

/// Build the identity matrix.
pub fn gum_load_identity() -> (r: Matrix4)
    ensures
        r == identity_mat(),
{
    Matrix4 {
        x: Vector4 { x: F32_ONE, y: F32_ZERO, z: F32_ZERO, w: F32_ZERO },
        y: Vector4 { x: F32_ZERO, y: F32_ONE, z: F32_ZERO, w: F32_ZERO },
        z: Vector4 { x: F32_ZERO, y: F32_ZERO, z: F32_ONE, w: F32_ZERO },
        w: Vector4 { x: F32_ZERO, y: F32_ZERO, z: F32_ZERO, w: F32_ONE },
    }
}

/// Build the all-zero matrix.
pub fn zero_matrix() -> (r: Matrix4)
    ensures
        r == zero_mat(),
{
    Matrix4 {
        x: Vector4 { x: F32_ZERO, y: F32_ZERO, z: F32_ZERO, w: F32_ZERO },
        y: Vector4 { x: F32_ZERO, y: F32_ZERO, z: F32_ZERO, w: F32_ZERO },
        z: Vector4 { x: F32_ZERO, y: F32_ZERO, z: F32_ZERO, w: F32_ZERO },
        w: Vector4 { x: F32_ZERO, y: F32_ZERO, z: F32_ZERO, w: F32_ZERO },
    }
}

/// The dot product of two four-vectors.
fn dot4_exec(a: &Vector4, b: &Vector4) -> (r: u32)
    ensures
        r == dot4(*a, *b),
{
    let xx = f_mul(a.x, b.x);
    let yy = f_mul(a.y, b.y);
    let zz = f_mul(a.z, b.z);
    let ww = f_mul(a.w, b.w);
    f_add(f_add(f_add(xx, yy), zz), ww)
}

/// The dot product of a row's xyz part with a three-vector.
fn dot3_exec(a: &Vector4, b: &Vector3) -> (r: u32)
    ensures
        r == dot3(*a, *b),
{
    let xx = f_mul(a.x, b.x);
    let yy = f_mul(a.y, b.y);
    let zz = f_mul(a.z, b.z);
    f_add(f_add(xx, yy), zz)
}

/// Compose the current matrix `a` with the argument `b`: the argument's
/// rows linearly combine `a`'s rows, i.e. the standard product `b x a`.
pub fn gum_mult_matrix(a: &Matrix4, b: &Matrix4) -> (r: Matrix4)
    ensures
        r == compose(*a, *b),
{
    let cx = Vector4 { x: a.x.x, y: a.y.x, z: a.z.x, w: a.w.x };
    let cy = Vector4 { x: a.x.y, y: a.y.y, z: a.z.y, w: a.w.y };
    let cz = Vector4 { x: a.x.z, y: a.y.z, z: a.z.z, w: a.w.z };
    let cw = Vector4 { x: a.x.w, y: a.y.w, z: a.z.w, w: a.w.w };
    Matrix4 {
        x: Vector4 {
            x: dot4_exec(&b.x, &cx),
            y: dot4_exec(&b.x, &cy),
            z: dot4_exec(&b.x, &cz),
            w: dot4_exec(&b.x, &cw),
        },
        y: Vector4 {
            x: dot4_exec(&b.y, &cx),
            y: dot4_exec(&b.y, &cy),
            z: dot4_exec(&b.y, &cz),
            w: dot4_exec(&b.y, &cw),
        },
        z: Vector4 {
            x: dot4_exec(&b.z, &cx),
            y: dot4_exec(&b.z, &cy),
            z: dot4_exec(&b.z, &cz),
            w: dot4_exec(&b.z, &cw),
        },
        w: Vector4 {
            x: dot4_exec(&b.w, &cx),
            y: dot4_exec(&b.w, &cy),
            z: dot4_exec(&b.w, &cz),
            w: dot4_exec(&b.w, &cw),
        },
    }
}

/// The cross product of two three-vectors.
pub fn gum_cross_product(a: &Vector3, b: &Vector3) -> (r: Vector3)
    ensures
        r == cross(*a, *b),
{
    Vector3 {
        x: f_sub(f_mul(a.y, b.z), f_mul(a.z, b.y)),
        y: f_sub(f_mul(a.z, b.x), f_mul(a.x, b.z)),
        z: f_sub(f_mul(a.x, b.y), f_mul(a.y, b.x)),
    }
}

/// Normalize a vector in place; a vector of length at most [`EPSILON`] is
/// left unchanged rather than rejected.
pub fn gum_normalize(v: &mut Vector3)
    ensures
        *final(v) == normalize_spec(*old(v)),
{
    let sq = f_add(f_add(f_mul(v.x, v.x), f_mul(v.y, v.y)), f_mul(v.z, v.z));
    let l = f_sqrt(sq);
    if f32_gt_bits(l, EPSILON) {
        let il = f_div(F32_ONE, l);
        v.x = f_mul(v.x, il);
        v.y = f_mul(v.y, il);
        v.z = f_mul(v.z, il);
    }
}

/// The narrow orthonormal inverse; see [`fast_inverse_mat`].
pub fn gum_fast_inverse(m: &Matrix4) -> (r: Matrix4)
    ensures
        r == fast_inverse_mat(*m),
{
    let nt = Vector3 { x: f_neg(m.w.x), y: f_neg(m.w.y), z: f_neg(m.w.z) };
    Matrix4 {
        x: Vector4 { x: m.x.x, y: m.y.x, z: m.z.x, w: F32_ZERO },
        y: Vector4 { x: m.x.y, y: m.y.y, z: m.z.y, w: F32_ZERO },
        z: Vector4 { x: m.x.z, y: m.y.z, z: m.z.z, w: F32_ZERO },
        w: Vector4 {
            x: dot3_exec(&m.x, &nt),
            y: dot3_exec(&m.y, &nt),
            z: dot3_exec(&m.z, &nt),
            w: F32_ONE,
        },
    }
}

/// Build the translation matrix for a vector.
pub fn translate_matrix(v: &Vector3) -> (r: Matrix4)
    ensures
        r == translate_mat(*v),
{
    Matrix4 {
        x: Vector4 { x: F32_ONE, y: F32_ZERO, z: F32_ZERO, w: F32_ZERO },
        y: Vector4 { x: F32_ZERO, y: F32_ONE, z: F32_ZERO, w: F32_ZERO },
        z: Vector4 { x: F32_ZERO, y: F32_ZERO, z: F32_ONE, w: F32_ZERO },
        w: Vector4 { x: v.x, y: v.y, z: v.z, w: F32_ONE },
    }
}

/// Build the scaling matrix for a vector of factors.
pub fn scale_matrix(v: &Vector3) -> (r: Matrix4)
    ensures
        r == scale_mat(*v),
{
    Matrix4 {
        x: Vector4 { x: v.x, y: F32_ZERO, z: F32_ZERO, w: F32_ZERO },
        y: Vector4 { x: F32_ZERO, y: v.y, z: F32_ZERO, w: F32_ZERO },
        z: Vector4 { x: F32_ZERO, y: F32_ZERO, z: v.z, w: F32_ZERO },
        w: Vector4 { x: F32_ZERO, y: F32_ZERO, z: F32_ZERO, w: F32_ONE },
    }
}

/// Build the rotation matrix about the x axis for an angle in radians.
pub fn rot_x_matrix(angle: u32) -> (r: Matrix4)
    ensures
        r == rot_x_mat(angle),
{
    let c = f_cos(angle);
    let s = f_sin(angle);
    Matrix4 {
        x: Vector4 { x: F32_ONE, y: F32_ZERO, z: F32_ZERO, w: F32_ZERO },
        y: Vector4 { x: F32_ZERO, y: c, z: s, w: F32_ZERO },
        z: Vector4 { x: F32_ZERO, y: f_neg(s), z: c, w: F32_ZERO },
        w: Vector4 { x: F32_ZERO, y: F32_ZERO, z: F32_ZERO, w: F32_ONE },
    }
}

/// Build the rotation matrix about the y axis for an angle in radians.
pub fn rot_y_matrix(angle: u32) -> (r: Matrix4)
    ensures
        r == rot_y_mat(angle),
{
    let c = f_cos(angle);
    let s = f_sin(angle);
    Matrix4 {
        x: Vector4 { x: c, y: F32_ZERO, z: f_neg(s), w: F32_ZERO },
        y: Vector4 { x: F32_ZERO, y: F32_ONE, z: F32_ZERO, w: F32_ZERO },
        z: Vector4 { x: s, y: F32_ZERO, z: c, w: F32_ZERO },
        w: Vector4 { x: F32_ZERO, y: F32_ZERO, z: F32_ZERO, w: F32_ONE },
    }
}

/// Build the rotation matrix about the z axis for an angle in radians.
pub fn rot_z_matrix(angle: u32) -> (r: Matrix4)
    ensures
        r == rot_z_mat(angle),
{
    let c = f_cos(angle);
    let s = f_sin(angle);
    Matrix4 {
        x: Vector4 { x: c, y: s, z: F32_ZERO, w: F32_ZERO },
        y: Vector4 { x: f_neg(s), y: c, z: F32_ZERO, w: F32_ZERO },
        z: Vector4 { x: F32_ZERO, y: F32_ZERO, z: F32_ONE, w: F32_ZERO },
        w: Vector4 { x: F32_ZERO, y: F32_ZERO, z: F32_ZERO, w: F32_ONE },
    }
}

/// Build the look-at basis matrix; see [`look_basis_mat`].
pub fn look_basis_matrix(eye: &Vector3, center: &Vector3, up: &Vector3) -> (r: Matrix4)
    ensures
        r == look_basis_mat(*eye, *center, *up),
{
    let mut fwd = Vector3 {
        x: f_sub(center.x, eye.x),
        y: f_sub(center.y, eye.y),
        z: f_sub(center.z, eye.z),
    };
    gum_normalize(&mut fwd);
    let mut side = gum_cross_product(&fwd, up);
    gum_normalize(&mut side);
    let lup = gum_cross_product(&side, &fwd);
    Matrix4 {
        x: Vector4 { x: side.x, y: lup.x, z: f_neg(fwd.x), w: F32_ZERO },
        y: Vector4 { x: side.y, y: lup.y, z: f_neg(fwd.y), w: F32_ZERO },
        z: Vector4 { x: side.z, y: lup.z, z: f_neg(fwd.z), w: F32_ZERO },
        w: Vector4 { x: F32_ZERO, y: F32_ZERO, z: F32_ZERO, w: F32_ONE },
    }
}

/// Build the orthographic projection matrix; see [`ortho_mat`].
pub fn ortho_matrix(left: u32, right: u32, bottom: u32, top: u32, near: u32, far: u32) -> (r:
    Matrix4)
    ensures
        r == ortho_mat(left, right, bottom, top, near, far),
{
    let dx = f_sub(right, left);
    let dy = f_sub(top, bottom);
    let dz = f_sub(far, near);
    Matrix4 {
        x: Vector4 {
            x: f_div(F32_TWO, dx),
            y: F32_ZERO,
            z: F32_ZERO,
            w: F32_ZERO,
        },
        y: Vector4 {
            x: F32_ZERO,
            y: f_div(F32_TWO, dy),
            z: F32_ZERO,
            w: F32_ZERO,
        },
        z: Vector4 {
            x: F32_ZERO,
            y: F32_ZERO,
            z: f_div(F32_NEG_TWO, dz),
            w: F32_ZERO,
        },
        w: Vector4 {
            x: f_div(f_neg(f_add(right, left)), dx),
            y: f_div(f_neg(f_add(top, bottom)), dy),
            z: f_div(f_neg(f_add(far, near)), dz),
            w: F32_ONE,
        },
    }
}

/// Build the perspective projection matrix; see [`persp_mat`].
pub fn persp_matrix(fovy: u32, aspect: u32, near: u32, far: u32) -> (r: Matrix4)
    ensures
        r == persp_mat(fovy, aspect, near, far),
{
    let rad = f_mul(f_mul(fovy, F32_HALF), DEG_TO_RAD);
    let cot = f_div(f_cos(rad), f_sin(rad));
    let dz = f_sub(near, far);
    Matrix4 {
        x: Vector4 { x: f_div(cot, aspect), y: F32_ZERO, z: F32_ZERO, w: F32_ZERO },
        y: Vector4 { x: F32_ZERO, y: cot, z: F32_ZERO, w: F32_ZERO },
        z: Vector4 {
            x: F32_ZERO,
            y: F32_ZERO,
            z: f_div(f_add(far, near), dz),
            w: F32_NEG_ONE,
        },
        w: Vector4 {
            x: F32_ZERO,
            y: F32_ZERO,
            z: f_div(f_mul(F32_TWO, f_mul(far, near)), dz),
            w: F32_ZERO,
        },
    }
}

} // verus!
