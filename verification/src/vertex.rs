//! Per-vertex data and the GPU vertex-buffer layouts.
//!
//! A vertex is a position and a normal, three `f32` bit patterns each, laid
//! out one after the other.  The layout descriptions state, in plain
//! integers, the byte stride and the attribute offsets that the draw
//! pipeline's vertex stage expects; the host translates them one-for-one
//! into its graphics-API descriptor types.

use vstd::prelude::*;

use crate::bits::Vec3Bits;

verus! {

/// How often the vertex stage steps through a buffer bound with a layout.
#[derive(Clone, Copy, PartialEq, Eq, Structural, Debug)]
pub enum VertexStepMode {
    /// Once per vertex.
    Vertex,
    /// Once per drawn instance.
    Instance,
}

/// The shape of one vertex attribute.
#[derive(Clone, Copy, PartialEq, Eq, Structural, Debug)]
pub enum AttributeFormat {
    /// Three consecutive 32-bit floats.
    Float32x3,
    /// Four consecutive 32-bit floats.
    Float32x4,
}

/// One attribute of a vertex-buffer layout.
#[derive(Clone, Copy, PartialEq, Eq, Structural, Debug)]
pub struct AttributeDesc {
    pub format: AttributeFormat,
    /// Byte offset of the attribute inside one array element.
    pub offset: u64,
    /// The shader input location the attribute feeds.
    pub shader_location: u32,
}

/// A whole vertex-buffer layout: stride, step mode and attributes.
pub struct VertexLayoutDesc {
    /// Byte distance between consecutive array elements.
    pub array_stride: u64,
    pub step_mode: VertexStepMode,
    pub attributes: Vec<AttributeDesc>,
}

/// A mesh vertex: object-space position and unit normal, as bit patterns.
#[derive(Clone, Copy, PartialEq, Eq, Structural, Debug)]
pub struct UntexturedMeshVertex {
    pub position: Vec3Bits,
    pub normal: Vec3Bits,
}

/// The six words of one vertex as they sit in the vertex buffer:
/// position, then normal.
pub open spec fn spec_vertex_words(v: UntexturedMeshVertex) -> Seq<u32> {
    seq![v.position.x, v.position.y, v.position.z, v.normal.x, v.normal.y, v.normal.z]
}

impl UntexturedMeshVertex {
    /// The vertex-buffer layout of this vertex type: 24-byte stride, position
    /// at offset 0 feeding location 0, normal at offset 12 feeding location 1.
    pub fn desc() -> (r: VertexLayoutDesc)
        ensures
            r.array_stride == 24,
            r.step_mode == VertexStepMode::Vertex,
            r.attributes@.len() == 2,
            r.attributes@[0] == (AttributeDesc {
                format: AttributeFormat::Float32x3,
                offset: 0,
                shader_location: 0,
            }),
            r.attributes@[1] == (AttributeDesc {
                format: AttributeFormat::Float32x3,
                offset: 12,
                shader_location: 1,
            }),
    {
        let mut attributes: Vec<AttributeDesc> = Vec::new();
        attributes.push(AttributeDesc {
            format: AttributeFormat::Float32x3,
            offset: 0,
            shader_location: 0,
        });
        attributes.push(AttributeDesc {
            format: AttributeFormat::Float32x3,
            offset: 12,
            shader_location: 1,
        });
        VertexLayoutDesc { array_stride: 24, step_mode: VertexStepMode::Vertex, attributes }
    }
}

/// Flattens vertices into the words of a vertex buffer, six per vertex.
pub fn vertex_buffer_words(vertices: &Vec<UntexturedMeshVertex>) -> (r: Vec<u32>)
    ensures
        r@.len() == 6 * vertices@.len(),
        forall|i: int|
            0 <= i < vertices@.len() ==> r@.subrange(6 * i, 6 * i + 6) == spec_vertex_words(
                #[trigger] vertices@[i],
            ),
{
    let mut words: Vec<u32> = Vec::new();
    let n = vertices.len();
    for j in 0..n
        invariant
            n == vertices@.len(),
            words@.len() == 6 * j,
            forall|i: int|
                0 <= i < j ==> words@.subrange(6 * i, 6 * i + 6) == spec_vertex_words(
                    #[trigger] vertices@[i],
                ),
    {
        let ghost prev = words@;
        let v = vertices[j];
        words.push(v.position.x);
        words.push(v.position.y);
        words.push(v.position.z);
        words.push(v.normal.x);
        words.push(v.normal.y);
        words.push(v.normal.z);
        assert forall|i: int| 0 <= i < j + 1 implies words@.subrange(6 * i, 6 * i + 6)
            == spec_vertex_words(#[trigger] vertices@[i]) by {
            if i < j {
                assert(words@.subrange(6 * i, 6 * i + 6) =~= prev.subrange(6 * i, 6 * i + 6));
            } else {
                assert(words@.subrange(6 * i, 6 * i + 6) =~= spec_vertex_words(vertices@[i]));
            }
        }
    }
    words
}

} // verus!
