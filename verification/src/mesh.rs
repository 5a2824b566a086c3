//! CPU-side mesh data and its lazily created GPU buffers.
//!
//! A mesh owns vertex, index and instance arrays plus a per-axis bounding
//! extent around the origin.  Geometry streams in through `merge`, which
//! re-bases the incoming indices so the combined index buffer stays valid;
//! GPU buffers are created once by `upload` and never replaced, so all
//! merging must happen before the first upload.

use vstd::prelude::*;

use crate::bits::Vec3Bits;
use crate::gpu::{BufferKind, create_buffer_with_words};
use crate::instance::{UntexturedMeshInstance, instance_buffer_words};
use crate::vertex::{UntexturedMeshVertex, vertex_buffer_words};

verus! {

/// Why imported geometry was rejected.
#[derive(Clone, Copy, PartialEq, Eq, Structural, Debug)]
pub enum GeometryError {
    /// A triangle index referenced a vertex past the end of the vertex list.
    IndexOutOfBounds,
}

/// The per-axis magnitude extent of a vertex list around the origin: the
/// magnitude maximum, over all vertices, of the position's absolute value,
/// and the zero vector for an empty list.
pub open spec fn spec_bounds(vs: Seq<UntexturedMeshVertex>) -> Vec3Bits
    decreases vs.len(),
{
    if vs.len() == 0 {
        Vec3Bits::spec_zero()
    } else {
        spec_bounds(vs.drop_last()).spec_mag_max(vs.last().position.spec_abs())
    }
}

/// The extent of a concatenation is the component-wise magnitude maximum of
/// the two extents.
pub proof fn lemma_bounds_of_append(a: Seq<UntexturedMeshVertex>, b: Seq<UntexturedMeshVertex>)
    ensures
        spec_bounds(a + b) == spec_bounds(a).spec_mag_max(spec_bounds(b)),
    decreases b.len(),
{
    if b.len() == 0 {
        assert(a + b =~= a);
    } else {
        lemma_bounds_of_append(a, b.drop_last());
        assert((a + b).drop_last() =~= a + b.drop_last());
        assert((a + b).last() == b.last());
    }
}

/// A mesh: CPU geometry, instance placements, bounding extent, and the GPU
/// buffer triple (vertex, index, instance) once uploaded.
pub struct UntexturedMesh {
    pub vertices: Vec<UntexturedMeshVertex>,
    pub buffers_v_idx_i: Option<(wgpu::Buffer, wgpu::Buffer, wgpu::Buffer)>,
    pub indices: Vec<u32>,
    pub instances: Vec<UntexturedMeshInstance>,
    pub bounds_from_origin: Vec3Bits,
}

/// The mathematical value of a mesh: its CPU arrays, its extent, and
/// whether the GPU buffer triple exists.  The buffers themselves are opaque
/// and carry no value of their own.
#[verifier::ext_equal]
pub struct MeshView {
    pub vertices: Seq<UntexturedMeshVertex>,
    pub indices: Seq<u32>,
    pub instances: Seq<UntexturedMeshInstance>,
    pub bounds_from_origin: Vec3Bits,
    pub has_buffers: bool,
}

impl View for UntexturedMesh {
    type V = MeshView;

    open spec fn view(&self) -> MeshView {
        MeshView {
            vertices: self.vertices@,
            indices: self.indices@,
            instances: self.instances@,
            bounds_from_origin: self.bounds_from_origin,
            has_buffers: self.buffers_v_idx_i is Some,
        }
    }
}

impl MeshView {
    /// Well-formedness of the mathematical value, as for the mesh itself.
    pub open spec fn wf(self) -> bool {
        &&& forall|i: int|
            0 <= i < self.indices.len() ==> (#[trigger] self.indices[i]) < self.vertices.len()
        &&& self.bounds_from_origin == spec_bounds(self.vertices)
    }
}

/// The value `merge` leaves behind: `b`'s vertices appended to `a`'s, `b`'s
/// indices re-based by `a`'s vertex count and appended to `a`'s, the
/// magnitude maximum of the extents, and `a`'s instances and buffer state.
pub open spec fn spec_merged(a: MeshView, b: MeshView) -> MeshView {
    MeshView {
        vertices: a.vertices + b.vertices,
        indices: Seq::new(
            a.indices.len() + b.indices.len(),
            |i: int|
                if i < a.indices.len() {
                    a.indices[i]
                } else {
                    (b.indices[i - a.indices.len()] + a.vertices.len()) as u32
                },
        ),
        instances: a.instances,
        bounds_from_origin: a.bounds_from_origin.spec_mag_max(b.bounds_from_origin),
        has_buffers: a.has_buffers,
    }
}

/// Well-formedness depends only on the vertices, the indices and the
/// extent: a mesh value that agrees on those with a well-formed one is
/// well formed.
pub proof fn lemma_wf_same_geometry(a: MeshView, b: MeshView)
    requires
        a.wf(),
        b.vertices == a.vertices,
        b.indices == a.indices,
        b.bounds_from_origin == a.bounds_from_origin,
    ensures
        b.wf(),
{
}

/// Merging is associative on well-formed meshes whose combined vertex count
/// fits an index: re-basing `c`'s indices in two steps lands where re-basing
/// them once does.
pub proof fn lemma_merged_associative(a: MeshView, b: MeshView, c: MeshView)
    requires
        a.wf(),
        b.wf(),
        c.wf(),
        a.vertices.len() + b.vertices.len() + c.vertices.len() <= u32::MAX,
    ensures
        spec_merged(spec_merged(a, b), c) == spec_merged(a, spec_merged(b, c)),
{
    let lhs = spec_merged(spec_merged(a, b), c);
    let rhs = spec_merged(a, spec_merged(b, c));
    assert(lhs.vertices =~= rhs.vertices);
    assert(lhs.indices =~= rhs.indices);
    assert(lhs =~= rhs);
}

impl UntexturedMesh {
    /// Well-formedness: every index points at an existing vertex, and the
    /// stored extent is exactly the extent of the vertex list.
    pub open spec fn wf(self) -> bool {
        self@.wf()
    }

    /// Whether the GPU buffer triple exists yet.
    pub open spec fn spec_has_buffers(self) -> bool {
        self.buffers_v_idx_i is Some
    }

    /// The CPU-side fields, which GPU upload never touches.
    pub open spec fn spec_same_geometry(self, other: UntexturedMesh) -> bool {
        &&& self.vertices == other.vertices
        &&& self.indices == other.indices
        &&& self.instances == other.instances
        &&& self.bounds_from_origin == other.bounds_from_origin
    }

    /// Builds a mesh from importer output: parallel position and normal
    /// lists, triangle indices, and an optional explicit instance list that
    /// defaults to one identity placement.  Pairs the lists up to the
    /// shorter of the two, and rejects geometry whose indices reach past
    /// that vertex count; an empty vertex list is valid and gets the zero
    /// extent.
    pub fn from_imported_geometry(
        positions: Vec<Vec3Bits>,
        normals: Vec<Vec3Bits>,
        indices: Vec<u32>,
        instances: Option<Vec<UntexturedMeshInstance>>,
    ) -> (r: Result<UntexturedMesh, GeometryError>)
        ensures
            r is Ok <==> (forall|i: int|
                0 <= i < indices@.len() ==> (#[trigger] indices@[i]) < spec_min_len(
                    positions@.len(),
                    normals@.len(),
                )),
            r is Err ==> r->Err_0 == GeometryError::IndexOutOfBounds,
            r is Ok ==> {
                let m = r->Ok_0;
                &&& m.wf()
                &&& m.vertices@.len() == spec_min_len(positions@.len(), normals@.len())
                &&& forall|i: int|
                    0 <= i < m.vertices@.len() ==> #[trigger] m.vertices@[i]
                        == (UntexturedMeshVertex {
                        position: positions@[i],
                        normal: normals@[i],
                    })
                &&& m.indices@ == indices@
                &&& m.instances@ == (match instances {
                    Some(list) => list@,
                    None => seq![UntexturedMeshInstance::spec_default()],
                })
                &&& m.bounds_from_origin == spec_bounds(m.vertices@)
                &&& !m.spec_has_buffers()
            },
    {
        let n = min_len(positions.len(), normals.len());
        let mut vertices: Vec<UntexturedMeshVertex> = Vec::new();
        let mut bounds = Vec3Bits::zero();
        for j in 0..n
            invariant
                n == spec_min_len(positions@.len(), normals@.len()),
                vertices@.len() == j,
                forall|i: int|
                    0 <= i < j ==> #[trigger] vertices@[i] == (UntexturedMeshVertex {
                        position: positions@[i],
                        normal: normals@[i],
                    }),
                bounds == spec_bounds(vertices@),
        {
            let ghost prev = vertices@;
            let v = UntexturedMeshVertex { position: positions[j], normal: normals[j] };
            bounds = bounds.mag_max(v.position.abs());
            vertices.push(v);
            assert(vertices@.drop_last() =~= prev);
        }
        let m = indices.len();
        for j in 0..m
            invariant
                m == indices@.len(),
                n == spec_min_len(positions@.len(), normals@.len()),
                forall|i: int| 0 <= i < j ==> (#[trigger] indices@[i]) < n,
        {
            if indices[j] as usize >= n {
                return Err(GeometryError::IndexOutOfBounds);
            }
        }
        let instances = match instances {
            Some(list) => list,
            None => {
                let mut one: Vec<UntexturedMeshInstance> = Vec::new();
                one.push(UntexturedMeshInstance::default());
                one
            },
        };
        Ok(
            UntexturedMesh {
                vertices,
                buffers_v_idx_i: None,
                indices,
                instances,
                bounds_from_origin: bounds,
            },
        )
    }

    /// Appends `other`'s geometry to this mesh: `other`'s indices are
    /// re-based by this mesh's vertex count before the vertex lists are
    /// joined, the extent becomes the magnitude maximum of both extents,
    /// and instances and GPU buffers are left exactly as they were.
    pub fn merge(&mut self, other: UntexturedMesh)
        requires
            old(self).wf(),
            other.wf(),
            old(self).vertices@.len() + other.vertices@.len() <= u32::MAX,
        ensures
            final(self).wf(),
            final(self).vertices@ == old(self).vertices@ + other.vertices@,
            final(self).indices@.len() == old(self).indices@.len() + other.indices@.len(),
            forall|i: int|
                0 <= i < old(self).indices@.len() ==> #[trigger] final(self).indices@[i] == old(
                    self,
                ).indices@[i],
            forall|i: int|
                0 <= i < other.indices@.len() ==> #[trigger] final(self).indices@[old(
                    self,
                ).indices@.len() + i] == other.indices@[i] + old(self).vertices@.len(),
            final(self).bounds_from_origin == old(self).bounds_from_origin.spec_mag_max(
                other.bounds_from_origin,
            ),
            final(self).instances == old(self).instances,
            final(self).buffers_v_idx_i == old(self).buffers_v_idx_i,
            final(self)@ == spec_merged(old(self)@, other@),
    {
        proof {
            assert forall|i: int| 0 <= i < other.indices@.len() implies (
            #[trigger] other.indices@[i]) < other.vertices@.len() by {
                assert(other@.indices[i] < other@.vertices.len());
            }
        }
        self.bounds_from_origin = self.bounds_from_origin.mag_max(other.bounds_from_origin);
        let index_base: u32 = self.vertices.len() as u32;
        let mut other_vertices = other.vertices;
        self.vertices.append(&mut other_vertices);
        let m = other.indices.len();
        for j in 0..m
            invariant
                m == other.indices@.len(),
                index_base == old(self).vertices@.len(),
                old(self).vertices@.len() + other.vertices@.len() <= u32::MAX,
                forall|i: int|
                    0 <= i < m ==> (#[trigger] other.indices@[i]) < other.vertices@.len(),
                self.indices@.len() == old(self).indices@.len() + j,
                forall|i: int|
                    0 <= i < old(self).indices@.len() ==> #[trigger] self.indices@[i] == old(
                        self,
                    ).indices@[i],
                forall|i: int|
                    0 <= i < j ==> #[trigger] self.indices@[old(self).indices@.len() + i]
                        == other.indices@[i] + index_base,
                self.vertices@ == old(self).vertices@ + other.vertices@,
                self.instances == old(self).instances,
                self.buffers_v_idx_i == old(self).buffers_v_idx_i,
                self.bounds_from_origin == old(self).bounds_from_origin.spec_mag_max(
                    other.bounds_from_origin,
                ),
        {
            self.indices.push(other.indices[j] + index_base);
        }
        proof {
            lemma_bounds_of_append(old(self).vertices@, other.vertices@);
            assert(self.vertices@.len() == old(self).vertices@.len() + other.vertices@.len());
            assert forall|i: int| 0 <= i < self.indices@.len() implies (
            #[trigger] self.indices@[i]) < self.vertices@.len() by {
                if i < old(self).indices@.len() {
                    assert(self.indices@[i] == old(self).indices@[i]);
                    assert(old(self)@.indices[i] < old(self)@.vertices.len());
                } else {
                    let k = i - old(self).indices@.len();
                    assert(self.indices@[old(self).indices@.len() + k] == other.indices@[k]
                        + index_base);
                    assert(other.indices@[k] < other.vertices@.len());
                }
            }
            assert forall|i: int| 0 <= i < self@.indices.len() implies #[trigger] self@.indices[i]
                == spec_merged(old(self)@, other@).indices[i] by {
                if i >= old(self).indices@.len() {
                    let k = i - old(self).indices@.len();
                    assert(other.indices@[k] < other.vertices@.len());
                    assert(self.indices@[old(self).indices@.len() + k] == other.indices@[k]
                        + index_base);
                } else {
                    assert(self.indices@[i] == old(self).indices@[i]);
                    assert(old(self)@.indices[i] < old(self)@.vertices.len());
                }
            }
            assert(self@.indices =~= spec_merged(old(self)@, other@).indices);
            assert(self@ =~= spec_merged(old(self)@, other@));
        }
    }

    /// Creates the GPU buffer triple from the current CPU arrays, replacing
    /// any existing triple; the CPU-side fields are untouched.
    pub fn upload(&mut self, device: &wgpu::Device)
        ensures
            final(self).spec_has_buffers(),
            final(self).spec_same_geometry(*old(self)),
    {
        let vertex_words = vertex_buffer_words(&self.vertices);
        let vertex_buffer = create_buffer_with_words(device, BufferKind::Vertex, &vertex_words);
        let index_buffer = create_buffer_with_words(device, BufferKind::Index, &self.indices);
        let instance_words = instance_buffer_words(&self.instances);
        let instance_buffer = create_buffer_with_words(
            device,
            BufferKind::Instance,
            &instance_words,
        );
        self.buffers_v_idx_i = Some((vertex_buffer, index_buffer, instance_buffer));
    }

    /// The GPU buffer triple, if it has been created.
    pub fn buffers(&self) -> (r: Option<&(wgpu::Buffer, wgpu::Buffer, wgpu::Buffer)>)
        ensures
            r is Some <==> self.spec_has_buffers(),
    {
        self.buffers_v_idx_i.as_ref()
    }
}

/// The smaller of two lengths.
pub open spec fn spec_min_len(a: nat, b: nat) -> nat {
    if a < b {
        a
    } else {
        b
    }
}

/// Picks the smaller of two lengths.
pub fn min_len(a: usize, b: usize) -> (r: usize)
    ensures
        r == spec_min_len(a as nat, b as nat),
{
    if a < b {
        a
    } else {
        b
    }
}

} // verus!
