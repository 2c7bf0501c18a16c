//! Vectors, quaternions and 4x4 matrices carried as IEEE-754 bit patterns,
//! together with the trusted wrappers around `nalgebra_glm` that perform the
//! floating-point arithmetic on them.
//!
//! A `Mat4Bits` holds the 16 matrix entries in column-major order, exactly as
//! `nalgebra_glm` lays a matrix out in memory and exactly as a glTF file
//! stores a node's `matrix` field. A `QuatBits` holds the quaternion
//! coefficients in `[x, y, z, w]` order, the order `nalgebra_glm::make_quat`
//! reads. The results of the floating-point operations are given names
//! (uninterpreted spec functions): every operation is deterministic in its
//! arguments, so the same arguments always name the same value.

use vstd::prelude::*;

verus! {

/// A 3-component float vector, by bit pattern.
pub type Vec3Bits = [u32; 3];

/// A quaternion's coefficients `[x, y, z, w]`, by bit pattern.
pub type QuatBits = [u32; 4];

/// A 4x4 float matrix in column-major order, by bit pattern.
pub type Mat4Bits = [u32; 16];

/// The product of two 4x4 matrices, as computed by `nalgebra_glm`.
pub uninterp spec fn spec_mat4_mul(a: Seq<u32>, b: Seq<u32>) -> Seq<u32>;

/// The pure translation matrix of a vector, as computed by `nalgebra_glm`.
pub uninterp spec fn spec_translation_mat(t: Seq<u32>) -> Seq<u32>;

/// The pure scaling matrix of a vector, as computed by `nalgebra_glm`.
pub uninterp spec fn spec_scale_mat(s: Seq<u32>) -> Seq<u32>;

/// The rotation matrix of a quaternion, as `nalgebra_glm::quat_cast` computes it.
pub uninterp spec fn spec_quat_cast_mat(q: Seq<u32>) -> Seq<u32>;

/// The rotation matrix of a quaternion, as `nalgebra_glm::quat_to_mat4` computes it.
pub uninterp spec fn spec_quat_to_mat4(q: Seq<u32>) -> Seq<u32>;

/// The look-at view matrix for an eye position, a target point and an up vector.
pub uninterp spec fn spec_look_at_mat(eye: Seq<u32>, center: Seq<u32>, up: Seq<u32>) -> Seq<u32>;

/// The perspective projection matrix for a field of view, viewport size and depth range.
pub uninterp spec fn spec_perspective_mat(
    fov: u32,
    width: u32,
    height: u32,
    near: u32,
    far: u32,
) -> Seq<u32>;

/// Whether a bit pattern denotes a float strictly greater than zero: the
/// sign bit clear, not a zero, and not a NaN. On IEEE-754 encodings these
/// are exactly the unsigned values from 1 (the smallest positive
/// subnormal) to 0x7F80_0000 (positive infinity).
pub open spec fn spec_positive_float_bits(b: u32) -> bool {
    1 <= b <= 0x7F80_0000
}

/// The orthographic projection matrix for the six clip planes.
pub uninterp spec fn spec_ortho_mat(
    left: u32,
    right: u32,
    bottom: u32,
    top: u32,
    near: u32,
    far: u32,
) -> Seq<u32>;

/// The quaternion of a rotation by an angle about an axis.
pub uninterp spec fn spec_quat_angle_axis(angle: u32, axis: Seq<u32>) -> Seq<u32>;

/// A vector scaled by a float.
pub uninterp spec fn spec_vec3_scale(s: u32, v: Seq<u32>) -> Seq<u32>;

/// The sum of two vectors.
pub uninterp spec fn spec_vec3_add(a: Seq<u32>, b: Seq<u32>) -> Seq<u32>;

/// The difference of two vectors.
pub uninterp spec fn spec_vec3_sub(a: Seq<u32>, b: Seq<u32>) -> Seq<u32>;

/// The cross product of two vectors.
pub uninterp spec fn spec_vec3_cross(a: Seq<u32>, b: Seq<u32>) -> Seq<u32>;

/// A vector divided by its own norm.
pub uninterp spec fn spec_vec3_normalize(v: Seq<u32>) -> Seq<u32>;

/// A vector rotated by an angle about an axis.
pub uninterp spec fn spec_vec3_rotate(v: Seq<u32>, angle: u32, axis: Seq<u32>) -> Seq<u32>;

/// The unsigned angle between two vectors, in radians.
pub uninterp spec fn spec_vec3_angle(a: Seq<u32>, b: Seq<u32>) -> u32;

/// Relies on the `Mul` impl of `nalgebra` matrices: returns the matrix
/// product `a * b`.
#[verifier::external_body]
pub fn mat4_mul(a: &Mat4Bits, b: &Mat4Bits) -> (r: Mat4Bits)
    ensures
        r@ == spec_mat4_mul(a@, b@),
{
    let ma: nalgebra_glm::Mat4 = bytemuck::cast(*a);
    let mb: nalgebra_glm::Mat4 = bytemuck::cast(*b);
    bytemuck::cast(ma * mb)
}

/// Relies on `nalgebra_glm::translate` applied to the identity matrix:
/// returns the translation matrix of `t`.
#[verifier::external_body]
pub fn translation_matrix(t: &Vec3Bits) -> (r: Mat4Bits)
    ensures
        r@ == spec_translation_mat(t@),
{
    let tv: nalgebra_glm::Vec3 = bytemuck::cast(*t);
    bytemuck::cast(nalgebra_glm::translate(&nalgebra_glm::Mat4::identity(), &tv))
}

/// Relies on `nalgebra_glm::scale` applied to the identity matrix:
/// returns the scaling matrix of `s`.
#[verifier::external_body]
pub fn scale_matrix(s: &Vec3Bits) -> (r: Mat4Bits)
    ensures
        r@ == spec_scale_mat(s@),
{
    let sv: nalgebra_glm::Vec3 = bytemuck::cast(*s);
    bytemuck::cast(nalgebra_glm::scale(&nalgebra_glm::Mat4::identity(), &sv))
}

/// Relies on `nalgebra_glm::quat_cast`: returns the rotation matrix of `q`.
#[verifier::external_body]
pub fn quat_cast_matrix(q: &QuatBits) -> (r: Mat4Bits)
    ensures
        r@ == spec_quat_cast_mat(q@),
{
    let qv: nalgebra_glm::Quat = bytemuck::cast(*q);
    bytemuck::cast(nalgebra_glm::quat_cast(&qv))
}

/// Relies on `nalgebra_glm::quat_to_mat4`: returns the rotation matrix of `q`.
#[verifier::external_body]
pub fn quat_to_mat4_matrix(q: &QuatBits) -> (r: Mat4Bits)
    ensures
        r@ == spec_quat_to_mat4(q@),
{
    let qv: nalgebra_glm::Quat = bytemuck::cast(*q);
    bytemuck::cast(nalgebra_glm::quat_to_mat4(&qv))
}

/// Relies on `nalgebra_glm::look_at`: the view matrix of an eye looking
/// at a target point with the given up vector.
#[verifier::external_body]
pub fn look_at_matrix(eye: &Vec3Bits, center: &Vec3Bits, up: &Vec3Bits) -> (r: Mat4Bits)
    ensures
        r@ == spec_look_at_mat(eye@, center@, up@),
{
    let e: nalgebra_glm::Vec3 = bytemuck::cast(*eye);
    let c: nalgebra_glm::Vec3 = bytemuck::cast(*center);
    let u: nalgebra_glm::Vec3 = bytemuck::cast(*up);
    bytemuck::cast(nalgebra_glm::look_at(&e, &c, &u))
}

/// Relies on `nalgebra_glm::perspective_fov`: returns the perspective
/// projection matrix for the given field of view, viewport and depth
/// range. The callee asserts that the field of view, width and height are
/// each greater than zero, so those three must denote positive floats;
/// the depth planes are unconstrained.
#[verifier::external_body]
pub fn perspective_matrix(fov: u32, width: u32, height: u32, near: u32, far: u32) -> (r: Mat4Bits)
    requires
        spec_positive_float_bits(fov),
        spec_positive_float_bits(width),
        spec_positive_float_bits(height),
    ensures
        r@ == spec_perspective_mat(fov, width, height, near, far),
{
    let m: nalgebra_glm::Mat4 = nalgebra_glm::perspective_fov(
        bytemuck::cast(fov),
        bytemuck::cast(width),
        bytemuck::cast(height),
        bytemuck::cast(near),
        bytemuck::cast(far),
    );
    bytemuck::cast(m)
}

/// Relies on `nalgebra_glm::ortho`: returns the orthographic projection
/// matrix for the six clip planes.
#[verifier::external_body]
pub fn ortho_matrix(left: u32, right: u32, bottom: u32, top: u32, near: u32, far: u32) -> (r:
    Mat4Bits)
    ensures
        r@ == spec_ortho_mat(left, right, bottom, top, near, far),
{
    let m: nalgebra_glm::Mat4 = nalgebra_glm::ortho(
        bytemuck::cast(left),
        bytemuck::cast(right),
        bytemuck::cast(bottom),
        bytemuck::cast(top),
        bytemuck::cast(near),
        bytemuck::cast(far),
    );
    bytemuck::cast(m)
}

/// Relies on `nalgebra_glm::quat_angle_axis`: returns the quaternion of a
/// rotation by `angle` about `axis`.
#[verifier::external_body]
pub fn quat_angle_axis(angle: u32, axis: &Vec3Bits) -> (r: QuatBits)
    ensures
        r@ == spec_quat_angle_axis(angle, axis@),
{
    let av: nalgebra_glm::Vec3 = bytemuck::cast(*axis);
    bytemuck::cast(nalgebra_glm::quat_angle_axis(bytemuck::cast(angle), &av))
}

/// Relies on `nalgebra`'s `Matrix::scale`: returns `v` with each component
/// multiplied by the float `s`.
#[verifier::external_body]
pub fn vec3_scale(s: u32, v: &Vec3Bits) -> (r: Vec3Bits)
    ensures
        r@ == spec_vec3_scale(s, v@),
{
    let vv: nalgebra_glm::Vec3 = bytemuck::cast(*v);
    bytemuck::cast(vv.scale(bytemuck::cast(s)))
}

/// Relies on the vector `Add` impl of `nalgebra`: returns `a + b`.
#[verifier::external_body]
pub fn vec3_add(a: &Vec3Bits, b: &Vec3Bits) -> (r: Vec3Bits)
    ensures
        r@ == spec_vec3_add(a@, b@),
{
    let av: nalgebra_glm::Vec3 = bytemuck::cast(*a);
    let bv: nalgebra_glm::Vec3 = bytemuck::cast(*b);
    bytemuck::cast(av + bv)
}

/// Relies on the vector `Sub` impl of `nalgebra`: returns `a - b`.
#[verifier::external_body]
pub fn vec3_sub(a: &Vec3Bits, b: &Vec3Bits) -> (r: Vec3Bits)
    ensures
        r@ == spec_vec3_sub(a@, b@),
{
    let av: nalgebra_glm::Vec3 = bytemuck::cast(*a);
    let bv: nalgebra_glm::Vec3 = bytemuck::cast(*b);
    bytemuck::cast(av - bv)
}

/// Relies on `nalgebra_glm::cross`: returns the cross product of `a` and `b`.
#[verifier::external_body]
pub fn vec3_cross(a: &Vec3Bits, b: &Vec3Bits) -> (r: Vec3Bits)
    ensures
        r@ == spec_vec3_cross(a@, b@),
{
    let av: nalgebra_glm::Vec3 = bytemuck::cast(*a);
    let bv: nalgebra_glm::Vec3 = bytemuck::cast(*b);
    bytemuck::cast(nalgebra_glm::cross(&av, &bv))
}

/// Relies on `nalgebra_glm::normalize`: returns `v` divided by its norm.
#[verifier::external_body]
pub fn vec3_normalize(v: &Vec3Bits) -> (r: Vec3Bits)
    ensures
        r@ == spec_vec3_normalize(v@),
{
    let vv: nalgebra_glm::Vec3 = bytemuck::cast(*v);
    bytemuck::cast(nalgebra_glm::normalize(&vv))
}

/// Relies on `nalgebra_glm::rotate_vec3`: returns `v` rotated by `angle`
/// about `axis`.
#[verifier::external_body]
pub fn vec3_rotate(v: &Vec3Bits, angle: u32, axis: &Vec3Bits) -> (r: Vec3Bits)
    ensures
        r@ == spec_vec3_rotate(v@, angle, axis@),
{
    let vv: nalgebra_glm::Vec3 = bytemuck::cast(*v);
    let av: nalgebra_glm::Vec3 = bytemuck::cast(*axis);
    bytemuck::cast(nalgebra_glm::rotate_vec3(&vv, bytemuck::cast(angle), &av))
}

/// Relies on `nalgebra_glm::angle`: returns the unsigned angle between
/// `a` and `b` in radians, by bit pattern — a non-negative float (exactly
/// zero when either argument has zero norm; a NaN only when an argument
/// holds NaN components).
#[verifier::external_body]
pub fn vec3_angle(a: &Vec3Bits, b: &Vec3Bits) -> (r: u32)
    ensures
        r == spec_vec3_angle(a@, b@),
{
    let av: nalgebra_glm::Vec3 = bytemuck::cast(*a);
    let bv: nalgebra_glm::Vec3 = bytemuck::cast(*b);
    bytemuck::cast(nalgebra_glm::angle(&av, &bv))
}

/// The bit patterns of the identity matrix, column-major.
pub open spec fn spec_mat4_identity() -> Seq<u32> {
    seq![
        crate::types::F32_ONE, 0u32, 0u32, 0u32,
        0u32, crate::types::F32_ONE, 0u32, 0u32,
        0u32, 0u32, crate::types::F32_ONE, 0u32,
        0u32, 0u32, 0u32, crate::types::F32_ONE,
    ]
}

/// Builds the identity matrix by bit pattern.
pub fn mat4_identity() -> (r: Mat4Bits)
    ensures
        r@ == spec_mat4_identity(),
{
    let one = crate::types::F32_ONE;
    let r: Mat4Bits = [
        one, 0, 0, 0,
        0, one, 0, 0,
        0, 0, one, 0,
        0, 0, 0, one,
    ];
    assert(r@ =~= spec_mat4_identity());
    r
}

/// Negates a float by bit pattern. The IEEE-754 negation of a binary32
/// value flips exactly the sign bit, so this is the same value `-x`
/// computes on a float.
pub fn f32_neg_bits(x: u32) -> (r: u32)
    ensures
        r == (x ^ 0x8000_0000u32),
{
    x ^ 0x8000_0000u32
}

/// Negates each component of a vector of float bit patterns; see
/// [`f32_neg_bits`].
pub fn vec3_neg(v: &Vec3Bits) -> (r: Vec3Bits)
    ensures
        r@ == seq![v@[0] ^ 0x8000_0000u32, v@[1] ^ 0x8000_0000u32, v@[2] ^ 0x8000_0000u32],
{
    let r: Vec3Bits = [v[0] ^ 0x8000_0000u32, v[1] ^ 0x8000_0000u32, v[2] ^ 0x8000_0000u32];
    assert(r@ =~= seq![v@[0] ^ 0x8000_0000u32, v@[1] ^ 0x8000_0000u32, v@[2] ^ 0x8000_0000u32]);
    r
}

} // verus!
