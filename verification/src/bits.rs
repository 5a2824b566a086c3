//! Scalar and small-vector values carried as IEEE-754 bit patterns.
//!
//! A coordinate is stored as the `u32` bit pattern of an `f32`.  Clearing the
//! sign bit yields the pattern of the absolute value, and on patterns with a
//! clear sign bit the unsigned integer order coincides with the numeric order
//! of the floats they encode (for every value that is not a NaN).  The
//! importer that produces geometry guarantees finite coordinates, so bounding
//! extents can be computed and compared entirely on bit patterns.

use vstd::prelude::*;

verus! {

/// Bit pattern of `1.0_f32`.
pub const F32_ONE_BITS: u32 = 0x3F80_0000;

/// Mask that keeps every bit of an `f32` pattern except the sign bit.
pub const F32_MAGNITUDE_MASK: u32 = 0x7FFF_FFFF;

/// The bit pattern of the absolute value of the float encoded by `b`.
pub open spec fn spec_abs_bits(b: u32) -> u32 {
    b & F32_MAGNITUDE_MASK
}

/// The larger of two magnitude patterns, in unsigned integer order.
pub open spec fn spec_mag_max(a: u32, b: u32) -> u32 {
    if a < b {
        b
    } else {
        a
    }
}

/// Clears the sign bit of an `f32` bit pattern.
pub fn abs_bits(b: u32) -> (r: u32)
    ensures
        r == spec_abs_bits(b),
{
    b & F32_MAGNITUDE_MASK
}

/// Picks the larger of two magnitude patterns.
pub fn mag_max(a: u32, b: u32) -> (r: u32)
    ensures
        r == spec_mag_max(a, b),
{
    if a < b {
        b
    } else {
        a
    }
}

/// A 3-component vector of `f32` bit patterns.
#[derive(Clone, Copy, PartialEq, Eq, Structural, Debug)]
pub struct Vec3Bits {
    pub x: u32,
    pub y: u32,
    pub z: u32,
}

impl Vec3Bits {
    /// The pattern of the zero vector.
    pub open spec fn spec_zero() -> Vec3Bits {
        Vec3Bits { x: 0, y: 0, z: 0 }
    }

    /// The component-wise absolute value, as bit patterns.
    pub open spec fn spec_abs(self) -> Vec3Bits {
        Vec3Bits { x: spec_abs_bits(self.x), y: spec_abs_bits(self.y), z: spec_abs_bits(self.z) }
    }

    /// The component-wise magnitude maximum of two vectors.
    pub open spec fn spec_mag_max(self, other: Vec3Bits) -> Vec3Bits {
        Vec3Bits {
            x: spec_mag_max(self.x, other.x),
            y: spec_mag_max(self.y, other.y),
            z: spec_mag_max(self.z, other.z),
        }
    }

    pub fn new(x: u32, y: u32, z: u32) -> (r: Vec3Bits)
        ensures
            r == (Vec3Bits { x, y, z }),
    {
        Vec3Bits { x, y, z }
    }

    pub fn zero() -> (r: Vec3Bits)
        ensures
            r == Vec3Bits::spec_zero(),
    {
        Vec3Bits { x: 0, y: 0, z: 0 }
    }

    pub fn abs(self) -> (r: Vec3Bits)
        ensures
            r == self.spec_abs(),
    {
        Vec3Bits { x: abs_bits(self.x), y: abs_bits(self.y), z: abs_bits(self.z) }
    }

    pub fn mag_max(self, other: Vec3Bits) -> (r: Vec3Bits)
        ensures
            r == self.spec_mag_max(other),
    {
        Vec3Bits {
            x: mag_max(self.x, other.x),
            y: mag_max(self.y, other.y),
            z: mag_max(self.z, other.z),
        }
    }
}

/// A quaternion of `f32` bit patterns, `x*i + y*j + z*k + w`.
#[derive(Clone, Copy, PartialEq, Eq, Structural, Debug)]
pub struct QuatBits {
    pub x: u32,
    pub y: u32,
    pub z: u32,
    pub w: u32,
}

impl QuatBits {
    /// The pattern of the identity rotation.
    pub open spec fn spec_identity() -> QuatBits {
        QuatBits { x: 0, y: 0, z: 0, w: F32_ONE_BITS }
    }

    pub fn new(x: u32, y: u32, z: u32, w: u32) -> (r: QuatBits)
        ensures
            r == (QuatBits { x, y, z, w }),
    {
        QuatBits { x, y, z, w }
    }

    pub fn identity() -> (r: QuatBits)
        ensures
            r == QuatBits::spec_identity(),
    {
        QuatBits { x: 0, y: 0, z: 0, w: F32_ONE_BITS }
    }
}

} // verus!
