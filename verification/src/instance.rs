//! Instance transforms and their raw GPU form.
//!
//! One instance is a placement of a mesh: a position, a rotation and a
//! uniform scale.  Its raw form, the shape the instance buffer holds, is a
//! column-major 4x4 model matrix followed by a column-major 3x3 normal
//! matrix; the normal matrix is built from the rotation alone, since a
//! uniform scale leaves normals' directions unchanged.

use vstd::prelude::*;

use crate::bits::{F32_ONE_BITS, QuatBits, Vec3Bits};
use crate::matrices::{
    mat3_from_quat, mat3_from_quat_bits, mat4_from_scale_rotation_translation, mat4_srt_bits,
    spec_mat3_identity_bits, spec_mat4_identity_bits, spec_splat3,
};
use crate::vertex::{AttributeDesc, AttributeFormat, VertexLayoutDesc, VertexStepMode};

verus! {

/// One placement of a mesh: position, rotation and uniform scale.
#[derive(Clone, Copy, PartialEq, Eq, Structural, Debug)]
pub struct UntexturedMeshInstance {
    pub position: Vec3Bits,
    pub rotation: QuatBits,
    pub scale: u32,
}

/// The raw GPU form of one instance: model matrix, then normal matrix.
#[derive(Clone, Copy, Debug)]
pub struct UntexturedMeshInstanceRaw {
    pub model: [u32; 16],
    pub normal: [u32; 9],
}

impl UntexturedMeshInstance {
    /// The identity placement: origin, no rotation, unit scale.
    pub open spec fn spec_default() -> UntexturedMeshInstance {
        UntexturedMeshInstance {
            position: Vec3Bits::spec_zero(),
            rotation: QuatBits::spec_identity(),
            scale: F32_ONE_BITS,
        }
    }

    /// The model matrix of this instance: uniform scale, then rotation, then
    /// translation, as `glam` composes them.
    pub open spec fn spec_model_bits(self) -> Seq<u32> {
        mat4_srt_bits(spec_splat3(self.scale), self.rotation.bits_seq(), self.position.bits_seq())
    }

    /// The normal matrix of this instance, from the rotation alone.
    pub open spec fn spec_normal_bits(self) -> Seq<u32> {
        mat3_from_quat_bits(self.rotation.bits_seq())
    }

    /// Builds the raw GPU form.  The identity placement yields the identity
    /// model matrix and the identity normal matrix.
    pub fn to_raw(&self) -> (r: UntexturedMeshInstanceRaw)
        ensures
            r.model@ == self.spec_model_bits(),
            r.normal@ == self.spec_normal_bits(),
            *self == UntexturedMeshInstance::spec_default() ==> r.model@
                == spec_mat4_identity_bits() && r.normal@ == spec_mat3_identity_bits(),
    {
        let scale = Vec3Bits::new(self.scale, self.scale, self.scale);
        let model = mat4_from_scale_rotation_translation(scale, self.rotation, self.position);
        let normal = mat3_from_quat(self.rotation);
        UntexturedMeshInstanceRaw { model, normal }
    }
}

impl Default for UntexturedMeshInstance {
    /// The identity placement.
    fn default() -> (r: UntexturedMeshInstance)
        ensures
            r == UntexturedMeshInstance::spec_default(),
    {
        UntexturedMeshInstance {
            position: Vec3Bits::zero(),
            rotation: QuatBits::identity(),
            scale: F32_ONE_BITS,
        }
    }
}

/// The 25 words of one instance as they sit in the instance buffer: the 16
/// model-matrix words, then the 9 normal-matrix words.
pub open spec fn spec_instance_words(inst: UntexturedMeshInstance) -> Seq<u32> {
    inst.spec_model_bits() + inst.spec_normal_bits()
}

impl UntexturedMeshInstanceRaw {
    /// The vertex-buffer layout of the raw instance data, stepped once per
    /// instance: four 4-float columns of the model matrix at offsets 0, 16,
    /// 32 and 48 feeding locations 2 to 5, then three 3-float columns of the
    /// normal matrix at offsets 64, 76 and 88 feeding locations 6 to 8.
    pub fn desc() -> (r: VertexLayoutDesc)
        ensures
            r.array_stride == 100,
            r.step_mode == VertexStepMode::Instance,
            r.attributes@.len() == 7,
            forall|i: int|
                0 <= i < 4 ==> r.attributes@[i] == (AttributeDesc {
                    format: AttributeFormat::Float32x4,
                    offset: (16 * i) as u64,
                    shader_location: (2 + i) as u32,
                }),
            forall|i: int|
                4 <= i < 7 ==> r.attributes@[i] == (AttributeDesc {
                    format: AttributeFormat::Float32x3,
                    offset: (64 + 12 * (i - 4)) as u64,
                    shader_location: (2 + i) as u32,
                }),
    {
        let mut attributes: Vec<AttributeDesc> = Vec::new();
        attributes.push(AttributeDesc {
            format: AttributeFormat::Float32x4,
            offset: 0,
            shader_location: 2,
        });
        attributes.push(AttributeDesc {
            format: AttributeFormat::Float32x4,
            offset: 16,
            shader_location: 3,
        });
        attributes.push(AttributeDesc {
            format: AttributeFormat::Float32x4,
            offset: 32,
            shader_location: 4,
        });
        attributes.push(AttributeDesc {
            format: AttributeFormat::Float32x4,
            offset: 48,
            shader_location: 5,
        });
        attributes.push(AttributeDesc {
            format: AttributeFormat::Float32x3,
            offset: 64,
            shader_location: 6,
        });
        attributes.push(AttributeDesc {
            format: AttributeFormat::Float32x3,
            offset: 76,
            shader_location: 7,
        });
        attributes.push(AttributeDesc {
            format: AttributeFormat::Float32x3,
            offset: 88,
            shader_location: 8,
        });
        VertexLayoutDesc { array_stride: 100, step_mode: VertexStepMode::Instance, attributes }
    }
}

/// Flattens instances into the words of an instance buffer, 25 per instance.
pub fn instance_buffer_words(instances: &Vec<UntexturedMeshInstance>) -> (r: Vec<u32>)
    ensures
        r@.len() == 25 * instances@.len(),
        forall|i: int|
            0 <= i < instances@.len() ==> r@.subrange(25 * i, 25 * i + 25)
                == spec_instance_words(#[trigger] instances@[i]),
{
    let mut words: Vec<u32> = Vec::new();
    let n = instances.len();
    for j in 0..n
        invariant
            n == instances@.len(),
            words@.len() == 25 * j,
            forall|i: int|
                0 <= i < j ==> words@.subrange(25 * i, 25 * i + 25) == spec_instance_words(
                    #[trigger] instances@[i],
                ),
    {
        let ghost prev = words@;
        let raw = instances[j].to_raw();
        let mut k: usize = 0;
        while k < 16
            invariant
                k <= 16,
                words@ == prev + raw.model@.subrange(0, k as int),
            decreases 16 - k,
        {
            words.push(raw.model[k]);
            assert(words@ =~= prev + raw.model@.subrange(0, k + 1));
            k = k + 1;
        }
        let ghost mid = words@;
        k = 0;
        while k < 9
            invariant
                k <= 9,
                words@ == mid + raw.normal@.subrange(0, k as int),
            decreases 9 - k,
        {
            words.push(raw.normal[k]);
            assert(words@ =~= mid + raw.normal@.subrange(0, k + 1));
            k = k + 1;
        }
        assert(raw.model@.subrange(0, 16) =~= raw.model@);
        assert(raw.normal@.subrange(0, 9) =~= raw.normal@);
        assert forall|i: int| 0 <= i < j + 1 implies words@.subrange(25 * i, 25 * i + 25)
            == spec_instance_words(#[trigger] instances@[i]) by {
            if i < j {
                assert(words@.subrange(25 * i, 25 * i + 25) =~= prev.subrange(
                    25 * i,
                    25 * i + 25,
                ));
            } else {
                assert(words@.subrange(25 * i, 25 * i + 25) =~= spec_instance_words(
                    instances@[i],
                ));
            }
        }
    }
    words
}

} // verus!
