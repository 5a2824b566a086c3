//! Matrix construction through `glam`, carried as bit patterns.
//!
//! The numeric results of `glam`'s matrix routines are functions of their
//! arguments alone, but writing them out would mean restating floating-point
//! arithmetic; each result is therefore given an uninterpreted name over the
//! argument bit patterns, and every wrapper's contract equates its result
//! with that name.  A matrix is a column-major sequence of `f32` bit
//! patterns: 16 for a 4x4 matrix, 9 for a 3x3 matrix.

use vstd::prelude::*;

use crate::bits::{F32_ONE_BITS, QuatBits, Vec3Bits};

verus! {

impl Vec3Bits {
    /// The three component patterns as a sequence.
    pub open spec fn bits_seq(self) -> Seq<u32> {
        seq![self.x, self.y, self.z]
    }
}

impl QuatBits {
    /// The four component patterns as a sequence, `x, y, z, w`.
    pub open spec fn bits_seq(self) -> Seq<u32> {
        seq![self.x, self.y, self.z, self.w]
    }
}

/// The same scalar pattern in all three components.
pub open spec fn spec_splat3(s: u32) -> Seq<u32> {
    seq![s, s, s]
}

/// Column-major bit patterns of the 4x4 identity matrix.
pub open spec fn spec_mat4_identity_bits() -> Seq<u32> {
    seq![
        F32_ONE_BITS, 0u32, 0u32, 0u32,
        0u32, F32_ONE_BITS, 0u32, 0u32,
        0u32, 0u32, F32_ONE_BITS, 0u32,
        0u32, 0u32, 0u32, F32_ONE_BITS,
    ]
}

/// Column-major bit patterns of the 3x3 identity matrix.
pub open spec fn spec_mat3_identity_bits() -> Seq<u32> {
    seq![
        F32_ONE_BITS, 0u32, 0u32,
        0u32, F32_ONE_BITS, 0u32,
        0u32, 0u32, F32_ONE_BITS,
    ]
}

/// The 4x4 matrix `glam::Mat4::from_scale_rotation_translation` builds from
/// the floats these patterns encode.
pub uninterp spec fn mat4_srt_bits(scale: Seq<u32>, rotation: Seq<u32>, translation: Seq<u32>) -> Seq<u32>;

/// The 3x3 rotation matrix `glam::Mat3::from_quat` builds from the floats
/// these patterns encode.
pub uninterp spec fn mat3_from_quat_bits(rotation: Seq<u32>) -> Seq<u32>;

/// The view matrix `glam::Mat4::look_at_rh` builds from the floats these
/// patterns encode.
pub uninterp spec fn look_at_rh_bits(eye: Seq<u32>, center: Seq<u32>, up: Seq<u32>) -> Seq<u32>;

/// The projection matrix `glam::Mat4::perspective_rh` builds from the floats
/// these patterns encode.
pub uninterp spec fn perspective_rh_bits(fov_y_radians: u32, aspect_ratio: u32, z_near: u32, z_far: u32) -> Seq<u32>;

/// The product of the two 4x4 matrices these patterns encode.
pub uninterp spec fn mat4_mul_bits(lhs: Seq<u32>, rhs: Seq<u32>) -> Seq<u32>;

/// The pattern of the angle in radians for the angle in degrees `deg` encodes,
/// as `f32::to_radians` computes it.
pub uninterp spec fn radians_bits(deg: u32) -> u32;

/// Relies on `glam::Mat4::from_scale_rotation_translation`: the result is a
/// function of scale, rotation and translation alone, and unit scale with the
/// identity rotation and zero translation yields the identity matrix.
#[verifier::external_body]
pub fn mat4_from_scale_rotation_translation(scale: Vec3Bits, rotation: QuatBits, translation: Vec3Bits) -> (r: [u32; 16])
    ensures
        r@ == mat4_srt_bits(scale.bits_seq(), rotation.bits_seq(), translation.bits_seq()),
        (scale == (Vec3Bits { x: F32_ONE_BITS, y: F32_ONE_BITS, z: F32_ONE_BITS })
            && rotation == QuatBits::spec_identity() && translation == Vec3Bits::spec_zero())
            ==> r@ == spec_mat4_identity_bits(),
{
    let s: glam::Vec3 = bytemuck::cast([scale.x, scale.y, scale.z]);
    let q: glam::Quat = bytemuck::cast([rotation.x, rotation.y, rotation.z, rotation.w]);
    let t: glam::Vec3 = bytemuck::cast([translation.x, translation.y, translation.z]);
    bytemuck::cast(glam::Mat4::from_scale_rotation_translation(s, q, t))
}

/// Relies on `glam::Mat3::from_quat`: the result is a function of the
/// quaternion alone, and the identity rotation yields the identity matrix.
#[verifier::external_body]
pub fn mat3_from_quat(rotation: QuatBits) -> (r: [u32; 9])
    ensures
        r@ == mat3_from_quat_bits(rotation.bits_seq()),
        rotation == QuatBits::spec_identity() ==> r@ == spec_mat3_identity_bits(),
{
    let q: glam::Quat = bytemuck::cast([rotation.x, rotation.y, rotation.z, rotation.w]);
    bytemuck::cast(glam::Mat3::from_quat(q))
}

/// Relies on `glam::Mat4::look_at_rh`: a right-handed look-at view matrix,
/// a function of eye, target and up alone.
#[verifier::external_body]
pub fn mat4_look_at_rh(eye: Vec3Bits, center: Vec3Bits, up: Vec3Bits) -> (r: [u32; 16])
    ensures
        r@ == look_at_rh_bits(eye.bits_seq(), center.bits_seq(), up.bits_seq()),
{
    let e: glam::Vec3 = bytemuck::cast([eye.x, eye.y, eye.z]);
    let c: glam::Vec3 = bytemuck::cast([center.x, center.y, center.z]);
    let u: glam::Vec3 = bytemuck::cast([up.x, up.y, up.z]);
    bytemuck::cast(glam::Mat4::look_at_rh(e, c, u))
}

/// Relies on `glam::Mat4::perspective_rh`: a right-handed perspective
/// projection with a 0..1 depth range, a function of its four scalars alone.
#[verifier::external_body]
pub fn mat4_perspective_rh(fov_y_radians: u32, aspect_ratio: u32, z_near: u32, z_far: u32) -> (r: [u32; 16])
    ensures
        r@ == perspective_rh_bits(fov_y_radians, aspect_ratio, z_near, z_far),
{
    let p: glam::Vec4 = bytemuck::cast([fov_y_radians, aspect_ratio, z_near, z_far]);
    bytemuck::cast(glam::Mat4::perspective_rh(p.x, p.y, p.z, p.w))
}

/// Relies on `glam::Mat4`'s `Mul` implementation: the matrix product, a
/// function of the two operands alone.
#[verifier::external_body]
pub fn mat4_mul(lhs: &[u32; 16], rhs: &[u32; 16]) -> (r: [u32; 16])
    ensures
        r@ == mat4_mul_bits(lhs@, rhs@),
{
    let a: glam::Mat4 = bytemuck::cast(*lhs);
    let b: glam::Mat4 = bytemuck::cast(*rhs);
    bytemuck::cast(a * b)
}

/// Relies on `f32::to_radians`: degrees times pi over 180, a function of the
/// input alone.
#[verifier::external_body]
pub fn deg_to_radians(deg: u32) -> (r: u32)
    ensures
        r == radians_bits(deg),
{
    let d: glam::Vec2 = bytemuck::cast([deg, deg]);
    let v: [u32; 2] = bytemuck::cast(glam::Vec2::splat(d.x.to_radians()));
    v[0]
}

} // verus!
