//! The single point light and its GPU uniform layout.
//!
//! The uniform form pads position and color out to 16 bytes each, the
//! stride uniform blocks require, so it is exactly eight 32-bit words.

use vstd::prelude::*;

use crate::bits::{F32_ONE_BITS, Vec3Bits};

verus! {

/// Bit pattern of `5.0_f32`.
pub const F32_FIVE_BITS: u32 = 0x40A0_0000;

/// Bit pattern of `10.0_f32`.
pub const F32_TEN_BITS: u32 = 0x4120_0000;

/// A point light: a position and an RGB color, as bit patterns.
#[derive(Clone, Copy, PartialEq, Eq, Structural, Debug)]
pub struct Light {
    pub position: Vec3Bits,
    pub color: Vec3Bits,
}

/// The GPU uniform form of a light: position and color, each padded to a
/// 16-byte group with one zero word.
#[derive(Clone, Copy, PartialEq, Eq, Structural, Debug)]
pub struct LightUniform {
    pub position: Vec3Bits,
    pub padding: u32,
    pub color: Vec3Bits,
    pub padding2: u32,
}

/// The eight words of a light uniform: position, a zero pad word, color,
/// a zero pad word.
pub open spec fn spec_light_uniform_words(light: Light) -> Seq<u32> {
    seq![
        light.position.x,
        light.position.y,
        light.position.z,
        0u32,
        light.color.x,
        light.color.y,
        light.color.z,
        0u32,
    ]
}

impl LightUniform {
    /// Packs a position and a color into the padded uniform form.
    pub fn new(position: Vec3Bits, color: Vec3Bits) -> (r: LightUniform)
        ensures
            r == (LightUniform { position, padding: 0, color, padding2: 0 }),
    {
        LightUniform { position, padding: 0, color, padding2: 0 }
    }

    /// The uniform's words in buffer order.
    pub fn words(&self) -> (r: Vec<u32>)
        ensures
            r@ == spec_light_uniform_words(
                Light { position: self.position, color: self.color },
            ),
    {
        let mut words: Vec<u32> = Vec::new();
        words.push(self.position.x);
        words.push(self.position.y);
        words.push(self.position.z);
        words.push(0);
        words.push(self.color.x);
        words.push(self.color.y);
        words.push(self.color.z);
        words.push(0);
        proof {
            assert(words@ =~= spec_light_uniform_words(
                Light { position: self.position, color: self.color },
            ));
        }
        words
    }
}

impl Light {
    /// The default light of the viewer.
    pub open spec fn spec_default() -> Light {
        Light {
            position: Vec3Bits { x: F32_FIVE_BITS, y: 0, z: F32_TEN_BITS },
            color: Vec3Bits { x: F32_ONE_BITS, y: F32_ONE_BITS, z: F32_ONE_BITS },
        }
    }

    /// The padded uniform form of this light.
    pub fn to_raw(&self) -> (r: LightUniform)
        ensures
            r == (LightUniform { position: self.position, padding: 0, color: self.color, padding2: 0 }),
    {
        LightUniform::new(self.position, self.color)
    }
}

impl Default for Light {
    /// A white light at five units along the first axis and ten up.
    fn default() -> (r: Light)
        ensures
            r == Light::spec_default(),
    {
        Light {
            position: Vec3Bits { x: F32_FIVE_BITS, y: 0, z: F32_TEN_BITS },
            color: Vec3Bits { x: F32_ONE_BITS, y: F32_ONE_BITS, z: F32_ONE_BITS },
        }
    }
}

} // verus!
