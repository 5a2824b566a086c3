//! The viewer camera and its GPU uniform layout.
//!
//! The camera is a right-handed look-at eye/target/up triple with a fixed
//! vertical field of view and depth range; only the eye, target, up and
//! aspect ratio change as the user flies around.  Its uniform form is the
//! eye position extended to four components followed by the column-major
//! view-projection matrix, twenty 32-bit words in all.

use vstd::prelude::*;

use crate::bits::{F32_ONE_BITS, Vec3Bits};
use crate::light::{F32_FIVE_BITS, F32_TEN_BITS};
use crate::matrices::{
    deg_to_radians, look_at_rh_bits, mat4_look_at_rh, mat4_mul, mat4_mul_bits,
    mat4_perspective_rh, perspective_rh_bits, radians_bits,
};

verus! {

/// Bit pattern of `60.0_f32`, the fixed vertical field of view in degrees.
pub const F32_SIXTY_BITS: u32 = 0x4270_0000;

/// Bit pattern of `100000.0_f32`, the fixed far plane distance.
pub const F32_HUNDRED_THOUSAND_BITS: u32 = 0x47C3_5000;

/// The viewer camera, as bit patterns.
#[derive(Clone, Copy, PartialEq, Eq, Structural, Debug)]
pub struct Camera {
    pub eye: Vec3Bits,
    pub target: Vec3Bits,
    pub up: Vec3Bits,
    pub aspect_ratio: u32,
    pub fov_y: u32,
    pub z_near: u32,
    pub z_far: u32,
}

/// The GPU uniform form of a camera: the eye extended with a unit fourth
/// component, then the column-major view-projection matrix.
#[derive(Clone, Copy, Debug)]
pub struct CameraUniform {
    pub position: [u32; 4],
    pub view_proj: [u32; 16],
}

impl Camera {
    /// The default camera: eye at (0, 5, 10) looking at the origin with the
    /// third axis up, square aspect, a 60-degree field of view, and a depth
    /// range from 1 to 100000.
    pub open spec fn spec_default() -> Camera {
        Camera {
            eye: Vec3Bits { x: 0, y: F32_FIVE_BITS, z: F32_TEN_BITS },
            target: Vec3Bits::spec_zero(),
            up: Vec3Bits { x: 0, y: 0, z: F32_ONE_BITS },
            aspect_ratio: F32_ONE_BITS,
            fov_y: F32_SIXTY_BITS,
            z_near: F32_ONE_BITS,
            z_far: F32_HUNDRED_THOUSAND_BITS,
        }
    }

    /// The view matrix of this camera: a right-handed look-at.
    pub open spec fn spec_view_bits(self) -> Seq<u32> {
        look_at_rh_bits(self.eye.bits_seq(), self.target.bits_seq(), self.up.bits_seq())
    }

    /// The projection matrix of this camera: a right-handed perspective
    /// projection of the field of view taken in radians.
    pub open spec fn spec_projection_bits(self) -> Seq<u32> {
        perspective_rh_bits(radians_bits(self.fov_y), self.aspect_ratio, self.z_near, self.z_far)
    }

    /// The view-projection matrix: projection times view.
    pub open spec fn spec_view_proj_bits(self) -> Seq<u32> {
        mat4_mul_bits(self.spec_projection_bits(), self.spec_view_bits())
    }

    /// Builds the view matrix.
    pub fn build_view_matrix(&self) -> (r: [u32; 16])
        ensures
            r@ == self.spec_view_bits(),
    {
        mat4_look_at_rh(self.eye, self.target, self.up)
    }

    /// Builds the projection matrix.
    pub fn build_projection_matrix(&self) -> (r: [u32; 16])
        ensures
            r@ == self.spec_projection_bits(),
    {
        let fov_y_radians = deg_to_radians(self.fov_y);
        mat4_perspective_rh(fov_y_radians, self.aspect_ratio, self.z_near, self.z_far)
    }

    /// Builds the uniform form: the eye extended with a unit fourth
    /// component, and projection times view.
    pub fn to_raw(&self) -> (r: CameraUniform)
        ensures
            r.position@ == seq![self.eye.x, self.eye.y, self.eye.z, F32_ONE_BITS],
            r.view_proj@ == self.spec_view_proj_bits(),
    {
        let view = self.build_view_matrix();
        let proj = self.build_projection_matrix();
        let view_proj = mat4_mul(&proj, &view);
        CameraUniform::new(self.eye, view_proj)
    }
}

impl Default for Camera {
    /// The default camera of the viewer.
    fn default() -> (r: Camera)
        ensures
            r == Camera::spec_default(),
    {
        Camera {
            eye: Vec3Bits { x: 0, y: F32_FIVE_BITS, z: F32_TEN_BITS },
            target: Vec3Bits::zero(),
            up: Vec3Bits { x: 0, y: 0, z: F32_ONE_BITS },
            aspect_ratio: F32_ONE_BITS,
            fov_y: F32_SIXTY_BITS,
            z_near: F32_ONE_BITS,
            z_far: F32_HUNDRED_THOUSAND_BITS,
        }
    }
}

/// The twenty words of a camera uniform: the four position words, then the
/// sixteen view-projection words.
pub open spec fn spec_camera_uniform_words(u: CameraUniform) -> Seq<u32> {
    u.position@ + u.view_proj@
}

impl CameraUniform {
    /// Packs an eye position and a view-projection matrix into the uniform
    /// form, extending the position with a unit fourth component.
    pub fn new(position: Vec3Bits, view_proj: [u32; 16]) -> (r: CameraUniform)
        ensures
            r.position@ == seq![position.x, position.y, position.z, F32_ONE_BITS],
            r.view_proj == view_proj,
    {
        let packed = [position.x, position.y, position.z, F32_ONE_BITS];
        proof {
            assert(packed@ =~= seq![position.x, position.y, position.z, F32_ONE_BITS]);
        }
        CameraUniform { position: packed, view_proj }
    }

    /// The uniform's words in buffer order.
    pub fn words(&self) -> (r: Vec<u32>)
        ensures
            r@ == spec_camera_uniform_words(*self),
    {
        let mut words: Vec<u32> = Vec::new();
        let mut k: usize = 0;
        while k < 4
            invariant
                k <= 4,
                words@ == self.position@.subrange(0, k as int),
            decreases 4 - k,
        {
            words.push(self.position[k]);
            assert(words@ =~= self.position@.subrange(0, k + 1));
            k = k + 1;
        }
        assert(words@ =~= self.position@);
        let ghost mid = words@;
        k = 0;
        while k < 16
            invariant
                k <= 16,
                words@ == mid + self.view_proj@.subrange(0, k as int),
            decreases 16 - k,
        {
            words.push(self.view_proj[k]);
            assert(words@ =~= mid + self.view_proj@.subrange(0, k + 1));
            k = k + 1;
        }
        assert(words@ =~= spec_camera_uniform_words(*self));
        words
    }
}

} // verus!
