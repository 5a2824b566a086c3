//! The render resource cache: named groups of meshes, their combined
//! bounding extent, lazy GPU upload, and draw submission.
//!
//! Geometry is added under a caller-chosen group name (the empty string
//! when none is given).  The first add to a name creates the group; later
//! adds merge into it and drop its GPU buffers, so the next `prepare`
//! uploads the grown geometry afresh.  `prepare` creates buffers only for
//! groups that lack them, and `paint` records one indexed, instanced draw
//! for every group that has both buffers and at least one instance.

use vstd::prelude::*;

use crate::bits::{QuatBits, Vec3Bits};
use crate::gpu::{
    pass_draw_indexed, pass_set_index_buffer_u32, pass_set_vertex_buffer, queue_write_words,
};
use crate::instance::{UntexturedMeshInstance, instance_buffer_words};
use crate::mesh::{MeshView, UntexturedMesh, spec_merged};

verus! {

/// The mathematical value of the cache's group map: each group's name and
/// its mesh value, in insertion order.
pub type GroupsView = Seq<(Seq<char>, MeshView)>;

/// Whether some group carries this name.
pub open spec fn spec_has_group(groups: GroupsView, key: Seq<char>) -> bool {
    exists|i: int| 0 <= i < groups.len() && (#[trigger] groups[i]).0 == key
}

/// The position of the group carrying this name; meaningful when
/// `spec_has_group` holds and names are unique.
pub open spec fn spec_group_index(groups: GroupsView, key: Seq<char>) -> int {
    choose|i: int| 0 <= i < groups.len() && (#[trigger] groups[i]).0 == key
}

/// No two groups carry the same name.
pub open spec fn spec_unique_names(groups: GroupsView) -> bool {
    forall|i: int, j: int|
        0 <= i < j < groups.len() ==> (#[trigger] groups[i]).0 != (#[trigger] groups[j]).0
}

/// Under unique names, the group index of a name found at `i` is `i`.
pub proof fn lemma_group_index_is(groups: GroupsView, key: Seq<char>, i: int)
    requires
        spec_unique_names(groups),
        0 <= i < groups.len(),
        groups[i].0 == key,
    ensures
        spec_has_group(groups, key),
        spec_group_index(groups, key) == i,
{
    let j = spec_group_index(groups, key);
}

/// The merge result with its GPU buffers dropped: merging changes geometry,
/// so buffers uploaded earlier no longer match it and the next `prepare`
/// must create them anew.
pub open spec fn spec_merged_invalidated(a: MeshView, b: MeshView) -> MeshView {
    MeshView { has_buffers: false, ..spec_merged(a, b) }
}

/// What adding a mesh under a name leaves behind: a merge into the existing
/// group, or a new group at the end.
pub open spec fn spec_add_mesh(groups: GroupsView, key: Seq<char>, m: MeshView) -> GroupsView {
    if spec_has_group(groups, key) {
        let i = spec_group_index(groups, key);
        groups.update(i, (key, spec_merged_invalidated(groups[i].1, m)))
    } else {
        groups.push((key, m))
    }
}

/// The group map without the named group, if it was there.
pub open spec fn spec_remove_group(groups: GroupsView, key: Seq<char>) -> GroupsView {
    if spec_has_group(groups, key) {
        groups.remove(spec_group_index(groups, key))
    } else {
        groups
    }
}

/// The combined extent: the component-wise magnitude maximum of every
/// group's extent, and the zero vector with no groups.
pub open spec fn spec_combined_bounds(groups: GroupsView) -> Vec3Bits
    decreases groups.len(),
{
    if groups.len() == 0 {
        Vec3Bits::spec_zero()
    } else {
        spec_combined_bounds(groups.drop_last()).spec_mag_max(
            groups.last().1.bounds_from_origin,
        )
    }
}

/// The group name a caller's optional label stands for: the label itself,
/// or the empty name.
pub open spec fn spec_group_key(group: Option<String>) -> Seq<char> {
    match group {
        Some(g) => g@,
        None => Seq::<char>::empty(),
    }
}

/// The render resource cache: the named groups in insertion order and the
/// combined extent across all groups.  The draw pipeline is a separate
/// component; the frame controller updates its uniforms before calling
/// `prepare` and binds it before calling `paint`.
pub struct NifRenderResources {
    pub meshes: Vec<(String, UntexturedMesh)>,
    pub combined_bounds: Vec3Bits,
}

/// One recorded draw: which group, and how many indices and instances it
/// covers.
#[derive(Clone, Copy, PartialEq, Eq, Structural, Debug)]
pub struct DrawCall {
    pub group: usize,
    pub index_count: u32,
    pub instance_count: u32,
}

/// Whether a mesh produces a draw: it must have GPU buffers and at least
/// one instance.
pub open spec fn spec_should_draw(m: MeshView) -> bool {
    m.has_buffers && m.instances.len() > 0
}

impl NifRenderResources {
    /// The group map's mathematical value.
    pub open spec fn spec_groups(self) -> GroupsView {
        Seq::new(self.meshes@.len(), |i: int| (self.meshes@[i].0@, self.meshes@[i].1@))
    }

    /// Cache invariant: group names are unique, every mesh is well formed,
    /// and the stored combined extent is exactly the extent of the group
    /// map.
    pub open spec fn wf(self) -> bool {
        &&& spec_unique_names(self.spec_groups())
        &&& forall|i: int|
            0 <= i < self.spec_groups().len() ==> (#[trigger] self.spec_groups()[i]).1.wf()
        &&& self.combined_bounds == spec_combined_bounds(self.spec_groups())
    }

    /// A cache with no groups.
    pub fn new() -> (r: NifRenderResources)
        ensures
            r.wf(),
            r.spec_groups() == Seq::<(Seq<char>, MeshView)>::empty(),
            r.combined_bounds == Vec3Bits::spec_zero(),
    {
        let r = NifRenderResources {
            meshes: Vec::new(),
            combined_bounds: Vec3Bits::zero(),
        };
        proof {
            assert(r.spec_groups() =~= Seq::<(Seq<char>, MeshView)>::empty());
        }
        r
    }

    /// Drops every group and resets the combined extent to zero.
    pub fn clear_nifs(&mut self)
        ensures
            final(self).wf(),
            final(self).spec_groups() == Seq::<(Seq<char>, MeshView)>::empty(),
            final(self).combined_bounds == Vec3Bits::spec_zero(),
    {
        self.meshes.clear();
        self.combined_bounds = Vec3Bits::zero();
        proof {
            assert(self.spec_groups() =~= Seq::<(Seq<char>, MeshView)>::empty());
        }
    }

    /// The position of the named group, if it exists.
    fn find_group(&self, key: &String) -> (r: Option<usize>)
        ensures
            match r {
                Some(i) => i < self.spec_groups().len() && self.spec_groups()[i as int].0 == key@,
                None => !spec_has_group(self.spec_groups(), key@),
            },
    {
        let n = self.meshes.len();
        for i in 0..n
            invariant
                n == self.meshes@.len(),
                forall|k: int| 0 <= k < i ==> (#[trigger] self.spec_groups()[k]).0 != key@,
        {
            if self.meshes[i].0 == *key {
                return Some(i);
            }
        }
        None
    }

    /// Recomputes the combined extent from the groups.
    fn recompute_combined_bounds(&mut self)
        ensures
            final(self).meshes == old(self).meshes,
            final(self).combined_bounds == spec_combined_bounds(final(self).spec_groups()),
    {
        let mut bounds = Vec3Bits::zero();
        let n = self.meshes.len();
        for i in 0..n
            invariant
                n == self.meshes@.len(),
                bounds == spec_combined_bounds(self.spec_groups().take(i as int)),
        {
            let ghost prefix = self.spec_groups().take(i as int);
            bounds = bounds.mag_max(self.meshes[i].1.bounds_from_origin);
            proof {
                assert(self.spec_groups().take(i + 1).drop_last() =~= prefix);
            }
        }
        proof {
            assert(self.spec_groups().take(n as int) =~= self.spec_groups());
        }
        self.combined_bounds = bounds;
    }

    /// Adds geometry under the given group label (the empty name when none
    /// is given).  If the group exists, the mesh is merged into it and the
    /// group's GPU buffers are dropped, so the next `prepare` uploads the
    /// grown geometry; otherwise the mesh becomes a new group.  The
    /// combined extent is recomputed.
    pub fn add_nif(&mut self, mesh: UntexturedMesh, group: Option<String>)
        requires
            old(self).wf(),
            mesh@.wf(),
            forall|i: int|
                0 <= i < old(self).spec_groups().len() ==> (#[trigger] old(
                    self,
                ).spec_groups()[i]).1.vertices.len() + mesh@.vertices.len() <= u32::MAX,
        ensures
            final(self).wf(),
            final(self).spec_groups() == spec_add_mesh(
                old(self).spec_groups(),
                spec_group_key(group),
                mesh@,
            ),
    {
        let key = match group {
            Some(g) => g,
            None => String::new(),
        };
        let found = self.find_group(&key);
        match found {
            Some(i) => {
                proof {
                    lemma_group_index_is(self.spec_groups(), key@, i as int);
                }
                let ghost prev = self.spec_groups();
                let (name, mut target) = self.meshes.remove(i);
                target.merge(mesh);
                target.buffers_v_idx_i = None;
                self.meshes.insert(i, (name, target));
                proof {
                    assert(self.spec_groups() =~= spec_add_mesh(prev, key@, mesh@));
                }
            },
            None => {
                let ghost prev = self.spec_groups();
                self.meshes.push((key, mesh));
                proof {
                    assert(self.spec_groups() =~= spec_add_mesh(prev, key@, mesh@));
                }
            },
        }
        self.recompute_combined_bounds();
        proof {
            lemma_add_preserves_wf(old(self).spec_groups(), spec_group_key(group), mesh@);
        }
    }

    /// Adds one placement to the named group's mesh, so the same geometry
    /// is drawn once more under the new transform.  Fails exactly when no
    /// group carries the name.  The group's GPU buffers are dropped: the
    /// instance buffer no longer covers the grown list, so the next
    /// `prepare` uploads the group afresh.
    pub fn add_instance(
        &mut self,
        group: Option<String>,
        instance: UntexturedMeshInstance,
    ) -> (r: Result<(), ()>)
        requires
            old(self).wf(),
        ensures
            final(self).wf(),
            r is Ok <==> spec_has_group(old(self).spec_groups(), spec_group_key(group)),
            r is Err ==> *final(self) == *old(self),
            r is Ok ==> final(self).spec_groups() == {
                let groups = old(self).spec_groups();
                let at = spec_group_index(groups, spec_group_key(group));
                groups.update(
                    at,
                    (
                        spec_group_key(group),
                        MeshView {
                            instances: groups[at].1.instances.push(instance),
                            has_buffers: false,
                            ..groups[at].1
                        },
                    ),
                )
            },
            final(self).combined_bounds == old(self).combined_bounds,
    {
        let key = match group {
            Some(g) => g,
            None => String::new(),
        };
        let found = self.find_group(&key);
        match found {
            Some(i) => {
                proof {
                    lemma_group_index_is(self.spec_groups(), key@, i as int);
                }
                let ghost prev = self.spec_groups();
                let (name, mut target) = self.meshes.remove(i);
                target.instances.push(instance);
                target.buffers_v_idx_i = None;
                self.meshes.insert(i, (name, target));
                proof {
                    let at = spec_group_index(prev, key@);
                    assert(self.spec_groups() =~= prev.update(
                        at,
                        (
                            key@,
                            MeshView {
                                instances: prev[at].1.instances.push(instance),
                                has_buffers: false,
                                ..prev[at].1
                            },
                        ),
                    ));
                    assert forall|k: int| 0 <= k < self.spec_groups().len() implies (
                    #[trigger] self.spec_groups()[k]).1.wf() by {
                        assert(prev[k].1.wf());
                        crate::mesh::lemma_wf_same_geometry(prev[k].1, self.spec_groups()[k].1);
                    }
                    assert(spec_combined_bounds_eq_on(prev, self.spec_groups()));
                    lemma_combined_bounds_eq(prev, self.spec_groups());
                }
                Ok(())
            },
            None => Err(()),
        }
    }

    /// Replaces the named group's content: any existing group under the
    /// label is removed, the mesh becomes the group's new content, and the
    /// combined extent is recomputed.
    pub fn set_nif(&mut self, mesh: UntexturedMesh, group: Option<String>)
        requires
            old(self).wf(),
            mesh@.wf(),
        ensures
            final(self).wf(),
            final(self).spec_groups() == spec_remove_group(
                old(self).spec_groups(),
                spec_group_key(group),
            ).push((spec_group_key(group), mesh@)),
    {
        let key = match group {
            Some(g) => g,
            None => String::new(),
        };
        let found = self.find_group(&key);
        let ghost prev = self.spec_groups();
        match found {
            Some(i) => {
                proof {
                    lemma_group_index_is(self.spec_groups(), key@, i as int);
                }
                let _ = self.meshes.remove(i);
                proof {
                    assert(self.spec_groups() =~= prev.remove(i as int));
                }
            },
            None => {
            },
        }
        let ghost removed = self.spec_groups();
        self.meshes.push((key, mesh));
        proof {
            assert(self.spec_groups() =~= removed.push((spec_group_key(group), mesh@)));
            lemma_remove_keeps_unique_names(prev, spec_group_key(group));
            assert forall|i: int, j: int|
                0 <= i < j < self.spec_groups().len() implies (#[trigger] self.spec_groups()[i]).0
                != (#[trigger] self.spec_groups()[j]).0 by {
                if j == self.spec_groups().len() - 1 {
                    assert(!spec_has_group(removed, key@));
                }
            }
        }
        self.recompute_combined_bounds();
    }
}

/// A group's instance list after the per-frame orientation patch: the
/// first instance's rotation replaced, or the list unchanged when it is
/// empty.
pub open spec fn spec_patched_instances(
    instances: Seq<UntexturedMeshInstance>,
    rotation: QuatBits,
) -> Seq<UntexturedMeshInstance> {
    if instances.len() > 0 {
        instances.update(0, UntexturedMeshInstance { rotation, ..instances[0] })
    } else {
        instances
    }
}

/// Patching the first instance with the rotation it already has changes
/// nothing.  Together with `prepare`'s contract — groups that have buffers
/// keep them and keep their geometry — a second `prepare` with no
/// intervening add and an unchanged model rotation leaves the cache
/// exactly as it was: GPU allocation happens once.
pub proof fn lemma_patch_same_rotation(
    instances: Seq<UntexturedMeshInstance>,
    rotation: QuatBits,
)
    requires
        instances.len() > 0 ==> instances[0].rotation == rotation,
    ensures
        spec_patched_instances(instances, rotation) == instances,
{
    if instances.len() > 0 {
        assert(spec_patched_instances(instances, rotation) =~= instances);
    }
}

impl NifRenderResources {
    /// The upload half of the per-frame prepare phase: creates GPU buffers
    /// for every group that lacks them — and only for those, so a second
    /// call with nothing added allocates nothing and leaves every group
    /// exactly as it was — and steers the first group's first instance to
    /// the interactive model rotation, patching its slot of the
    /// already-uploaded instance buffer in place.  The frame controller
    /// writes the camera and light uniforms in the same phase, before the
    /// render pass that consumes them.
    pub fn prepare(&mut self, device: &wgpu::Device, queue: &wgpu::Queue, model_rotation: QuatBits)
        requires
            old(self).wf(),
        ensures
            final(self).wf(),
            final(self).combined_bounds == old(self).combined_bounds,
            final(self).meshes@.len() == old(self).meshes@.len(),
            forall|i: int|
                0 <= i < old(self).meshes@.len()
                    ==> (#[trigger] final(self).meshes@[i]).0 == old(self).meshes@[i].0,
            forall|i: int|
                0 <= i < old(self).meshes@.len()
                    ==> (#[trigger] final(self).meshes@[i]).1.buffers_v_idx_i is Some,
            forall|i: int|
                0 <= i < old(self).meshes@.len()
                    && old(self).meshes@[i].1.buffers_v_idx_i is Some
                    ==> (#[trigger] final(self).meshes@[i]).1.buffers_v_idx_i
                        == old(self).meshes@[i].1.buffers_v_idx_i,
            forall|i: int|
                0 <= i < old(self).meshes@.len() ==> {
                    let before = (#[trigger] old(self).meshes@[i]).1;
                    let after = final(self).meshes@[i].1;
                    &&& after.vertices == before.vertices
                    &&& after.indices == before.indices
                    &&& after.bounds_from_origin == before.bounds_from_origin
                },
            forall|i: int|
                1 <= i < old(self).meshes@.len()
                    ==> (#[trigger] final(self).meshes@[i]).1.instances
                        == old(self).meshes@[i].1.instances,
            old(self).meshes@.len() > 0 ==> final(self).meshes@[0].1.instances@
                == spec_patched_instances(old(self).meshes@[0].1.instances@, model_rotation),
    {
        let n = self.meshes.len();
        for i in 0..n
            invariant
                n == self.meshes@.len(),
                n == old(self).meshes@.len(),
                self.combined_bounds == old(self).combined_bounds,
                forall|k: int|
                    0 <= k < n ==> (#[trigger] self.meshes@[k]).0 == old(self).meshes@[k].0,
                forall|k: int|
                    0 <= k < i ==> (#[trigger] self.meshes@[k]).1.buffers_v_idx_i is Some,
                forall|k: int|
                    0 <= k < n && old(self).meshes@[k].1.buffers_v_idx_i is Some ==> (
                    #[trigger] self.meshes@[k]).1.buffers_v_idx_i == old(
                        self,
                    ).meshes@[k].1.buffers_v_idx_i,
                forall|k: int|
                    0 <= k < n ==> {
                        let before = (#[trigger] old(self).meshes@[k]).1;
                        let after = self.meshes@[k].1;
                        &&& after.vertices == before.vertices
                        &&& after.indices == before.indices
                        &&& after.instances == before.instances
                        &&& after.bounds_from_origin == before.bounds_from_origin
                    },
        {
            let needs = self.meshes[i].1.buffers_v_idx_i.is_none();
            if needs {
                let ghost prev = self.meshes@;
                let (name, mut m) = self.meshes.remove(i);
                m.upload(device);
                self.meshes.insert(i, (name, m));
                proof {
                    assert forall|k: int| 0 <= k < n && k != i implies #[trigger] self.meshes@[k]
                        == prev[k] by {
                        assert(self.meshes@[k] == prev.remove(i as int).insert(
                            i as int,
                            (prev[i as int].0, m),
                        )[k]);
                    }
                }
            }
        }
        if self.meshes.len() > 0 {
            let ghost prev = self.meshes@;
            let (name, mut m) = self.meshes.remove(0);
            if m.instances.len() > 0 {
                let ghost prev_instances = m.instances@;
                let mut inst = m.instances.remove(0);
                inst.rotation = model_rotation;
                m.instances.insert(0, inst);
                proof {
                    assert(m.instances@ =~= spec_patched_instances(
                        prev_instances,
                        model_rotation,
                    ));
                }
                let mut one: Vec<UntexturedMeshInstance> = Vec::new();
                one.push(inst);
                let words = instance_buffer_words(&one);
                if let Some(bufs) = &m.buffers_v_idx_i {
                    queue_write_words(queue, &bufs.2, 0, &words);
                }
            }
            self.meshes.insert(0, (name, m));
            proof {
                assert forall|k: int| 1 <= k < n implies #[trigger] self.meshes@[k] == prev[k] by {
                }
            }
        }
        proof {
            let og = old(self).spec_groups();
            let ng = self.spec_groups();
            assert forall|i: int| 0 <= i < ng.len() implies (#[trigger] ng[i]).1.wf() && ng[i].0
                == og[i].0 && ng[i].1.bounds_from_origin == og[i].1.bounds_from_origin by {
                assert(og[i].1.wf());
                assert(self.meshes@[i].1.vertices == old(self).meshes@[i].1.vertices);
                crate::mesh::lemma_wf_same_geometry(og[i].1, ng[i].1);
            }
            assert forall|i: int, j: int| 0 <= i < j < ng.len() implies (#[trigger] ng[i]).0 != (
            #[trigger] ng[j]).0 by {
                assert(og[i].0 != og[j].0);
            }
            assert(spec_combined_bounds_eq_on(og, ng));
            lemma_combined_bounds_eq(og, ng);
        }
    }
}

impl NifRenderResources {
    /// The draws one `paint` records, in group order: one entry for every
    /// group that has GPU buffers and at least one instance, covering the
    /// group's whole index and instance ranges, and no entry — hence no
    /// draw — for any other group, in particular never for a group whose
    /// instance list is empty.
    pub fn draw_plan(&self) -> (r: Vec<DrawCall>)
        requires
            forall|i: int|
                0 <= i < self.spec_groups().len() ==> (#[trigger] self.spec_groups()[i]).1.indices.len()
                    <= u32::MAX && self.spec_groups()[i].1.instances.len() <= u32::MAX,
        ensures
            forall|k: int|
                0 <= k < r@.len() ==> {
                    let c = #[trigger] r@[k];
                    &&& c.group < self.spec_groups().len()
                    &&& spec_should_draw(self.spec_groups()[c.group as int].1)
                    &&& c.index_count == self.spec_groups()[c.group as int].1.indices.len()
                    &&& c.instance_count == self.spec_groups()[c.group as int].1.instances.len()
                    &&& c.instance_count > 0
                },
            forall|k1: int, k2: int|
                0 <= k1 < k2 < r@.len() ==> (#[trigger] r@[k1]).group < (#[trigger] r@[k2]).group,
            forall|i: int|
                0 <= i < self.spec_groups().len() && spec_should_draw(
                    #[trigger] self.spec_groups()[i].1,
                ) ==> exists|k: int| 0 <= k < r@.len() && (#[trigger] r@[k]).group == i,
    {
        let mut plan: Vec<DrawCall> = Vec::new();
        let n = self.meshes.len();
        for i in 0..n
            invariant
                n == self.meshes@.len(),
                forall|i0: int|
                    0 <= i0 < self.spec_groups().len() ==> (
                    #[trigger] self.spec_groups()[i0]).1.indices.len() <= u32::MAX
                        && self.spec_groups()[i0].1.instances.len() <= u32::MAX,
                forall|k: int|
                    0 <= k < plan@.len() ==> {
                        let c = #[trigger] plan@[k];
                        &&& c.group < i
                        &&& spec_should_draw(self.spec_groups()[c.group as int].1)
                        &&& c.index_count == self.spec_groups()[c.group as int].1.indices.len()
                        &&& c.instance_count == self.spec_groups()[
                            c.group as int
                        ].1.instances.len()
                        &&& c.instance_count > 0
                    },
                forall|k1: int, k2: int|
                    0 <= k1 < k2 < plan@.len() ==> (#[trigger] plan@[k1]).group < (
                    #[trigger] plan@[k2]).group,
                forall|i0: int|
                    0 <= i0 < i && spec_should_draw(#[trigger] self.spec_groups()[i0].1)
                        ==> exists|k: int| 0 <= k < plan@.len() && (#[trigger] plan@[k]).group
                        == i0,
        {
            let has_buffers = self.meshes[i].1.buffers_v_idx_i.is_some();
            let instance_count = self.meshes[i].1.instances.len();
            if has_buffers && instance_count > 0 {
                let index_count = self.meshes[i].1.indices.len();
                proof {
                    assert(self.spec_groups()[i as int].1.indices.len() <= u32::MAX);
                    assert(self.spec_groups()[i as int].1.instances.len() <= u32::MAX);
                    assert(self.spec_groups()[i as int].1.has_buffers);
                    assert(self.spec_groups()[i as int].1.instances.len() == instance_count);
                    assert(self.spec_groups()[i as int].1.indices.len() == index_count);
                }
                let ghost prev_plan = plan@;
                plan.push(
                    DrawCall {
                        group: i,
                        index_count: index_count as u32,
                        instance_count: instance_count as u32,
                    },
                );
                proof {
                    assert forall|i0: int|
                        0 <= i0 < i + 1 && spec_should_draw(
                            #[trigger] self.spec_groups()[i0].1,
                        ) implies exists|k: int|
                        0 <= k < plan@.len() && (#[trigger] plan@[k]).group == i0 by {
                        if i0 == i {
                            assert(plan@[plan@.len() - 1].group == i0);
                        } else {
                            let k0 = choose|k: int|
                                0 <= k < prev_plan.len() && (#[trigger] prev_plan[k]).group == i0;
                            assert(plan@[k0].group == i0);
                        }
                    }
                }
            } else {
                proof {
                    assert(!spec_should_draw(self.spec_groups()[i as int].1));
                }
            }
        }
        plan
    }

    /// The draw half of the per-frame paint phase: records the draws of
    /// `draw_plan` — for each drawable group, its vertex buffer on slot 0,
    /// its instance buffer on slot 1, its index buffer, and one indexed
    /// draw over all its indices and instances.  The frame controller binds
    /// the pipeline and its bind groups first.
    pub fn paint(&self, rpass: &mut wgpu::RenderPass<'_>)
        requires
            forall|i: int|
                0 <= i < self.spec_groups().len() ==> (#[trigger] self.spec_groups()[i]).1.indices.len()
                    <= u32::MAX && self.spec_groups()[i].1.instances.len() <= u32::MAX,
    {
        let plan = self.draw_plan();
        let m = plan.len();
        for k in 0..m
            invariant
                m == plan@.len(),
                forall|k0: int|
                    0 <= k0 < plan@.len() ==> {
                        let c = #[trigger] plan@[k0];
                        &&& c.group < self.spec_groups().len()
                        &&& spec_should_draw(self.spec_groups()[c.group as int].1)
                    },
        {
            let call = plan[k];
            if let Some(bufs) = &self.meshes[call.group].1.buffers_v_idx_i {
                pass_set_vertex_buffer(rpass, 0, &bufs.0);
                pass_set_vertex_buffer(rpass, 1, &bufs.2);
                pass_set_index_buffer_u32(rpass, &bufs.1);
                pass_draw_indexed(rpass, call.index_count, call.instance_count);
            }
        }
    }
}

/// Two group maps agree on length and on every group's extent.
pub open spec fn spec_combined_bounds_eq_on(a: GroupsView, b: GroupsView) -> bool {
    &&& a.len() == b.len()
    &&& forall|i: int|
        0 <= i < a.len() ==> (#[trigger] a[i]).1.bounds_from_origin
            == b[i].1.bounds_from_origin
}

/// Group maps that agree on every extent have the same combined extent.
pub proof fn lemma_combined_bounds_eq(a: GroupsView, b: GroupsView)
    requires
        spec_combined_bounds_eq_on(a, b),
    ensures
        spec_combined_bounds(a) == spec_combined_bounds(b),
    decreases a.len(),
{
    if a.len() > 0 {
        assert(spec_combined_bounds_eq_on(a.drop_last(), b.drop_last()));
        lemma_combined_bounds_eq(a.drop_last(), b.drop_last());
    }
}

/// Removing a group keeps names unique, and removes the only group that
/// carried the name.
pub proof fn lemma_remove_keeps_unique_names(groups: GroupsView, key: Seq<char>)
    requires
        spec_unique_names(groups),
    ensures
        spec_unique_names(spec_remove_group(groups, key)),
        !spec_has_group(spec_remove_group(groups, key), key),
{
    if spec_has_group(groups, key) {
        let at = spec_group_index(groups, key);
        let removed = groups.remove(at);
        assert forall|i: int| 0 <= i < removed.len() implies (#[trigger] removed[i]).0 != key by {
            if i < at {
                assert(removed[i] == groups[i]);
            } else {
                assert(removed[i] == groups[i + 1]);
            }
        }
    }
}

/// Adding a mesh keeps the group map well formed: names stay unique and
/// every mesh value stays well formed.
pub proof fn lemma_add_preserves_wf(groups: GroupsView, key: Seq<char>, m: MeshView)
    requires
        spec_unique_names(groups),
        forall|i: int| 0 <= i < groups.len() ==> (#[trigger] groups[i]).1.wf(),
        m.wf(),
        forall|i: int|
            0 <= i < groups.len() ==> (#[trigger] groups[i]).1.vertices.len() + m.vertices.len()
                <= u32::MAX,
    ensures
        spec_unique_names(spec_add_mesh(groups, key, m)),
        forall|i: int|
            0 <= i < spec_add_mesh(groups, key, m).len() ==> (#[trigger] spec_add_mesh(
                groups,
                key,
                m,
            )[i]).1.wf(),
{
    let added = spec_add_mesh(groups, key, m);
    if spec_has_group(groups, key) {
        let at = spec_group_index(groups, key);
        crate::mesh::lemma_bounds_of_append(groups[at].1.vertices, m.vertices);
        assert forall|i: int| 0 <= i < added.len() implies (#[trigger] added[i]).1.wf() by {
            if i == at {
                lemma_merged_wf(groups[at].1, m);
            }
        }
    }
}

/// Adding geometry to a group twice is adding the merged geometry once:
/// for every group map with unique names and well-formed meshes, and every
/// pair of well-formed, not-yet-uploaded meshes whose counts fit the index
/// type, adding `a` and then `b` under one name leaves exactly the group
/// map that adding `merge(a, b)` under that name leaves.
pub proof fn lemma_add_twice_merges_once(
    groups: GroupsView,
    key: Seq<char>,
    a: MeshView,
    b: MeshView,
)
    requires
        spec_unique_names(groups),
        forall|i: int| 0 <= i < groups.len() ==> (#[trigger] groups[i]).1.wf(),
        a.wf(),
        b.wf(),
        !a.has_buffers,
        a.vertices.len() + b.vertices.len() <= u32::MAX,
        forall|i: int|
            0 <= i < groups.len() ==> (#[trigger] groups[i]).1.vertices.len() + a.vertices.len()
                + b.vertices.len() <= u32::MAX,
    ensures
        spec_add_mesh(spec_add_mesh(groups, key, a), key, b) == spec_add_mesh(
            groups,
            key,
            spec_merged(a, b),
        ),
{
    if spec_has_group(groups, key) {
        let at = spec_group_index(groups, key);
        let g = groups[at].1;
        let once = groups.update(at, (key, spec_merged_invalidated(g, a)));
        assert forall|i: int, j: int| 0 <= i < j < once.len() implies (#[trigger] once[i]).0 != (
        #[trigger] once[j]).0 by {
            assert(groups[i].0 != groups[j].0);
        }
        lemma_group_index_is(groups, key, at);
        lemma_group_index_is(once, key, at);
        let ga = spec_merged_invalidated(g, a);
        crate::mesh::lemma_merged_associative(g, a, b);
        assert(spec_merged(ga, b) =~= MeshView {
            has_buffers: ga.has_buffers,
            ..spec_merged(spec_merged(g, a), b)
        });
        assert(spec_merged_invalidated(ga, b) =~= spec_merged_invalidated(g, spec_merged(a, b)));
        assert(spec_add_mesh(spec_add_mesh(groups, key, a), key, b) =~= spec_add_mesh(
            groups,
            key,
            spec_merged(a, b),
        ));
    } else {
        let once = groups.push((key, a));
        assert forall|i: int, j: int| 0 <= i < j < once.len() implies (#[trigger] once[i]).0 != (
        #[trigger] once[j]).0 by {
            if j == once.len() - 1 {
                assert(!spec_has_group(groups, key));
                assert(once[i] == groups[i]);
            } else {
                assert(groups[i].0 != groups[j].0);
            }
        }
        lemma_group_index_is(once, key, groups.len() as int);
        assert(spec_merged_invalidated(a, b) =~= spec_merged(a, b));
        assert(spec_add_mesh(spec_add_mesh(groups, key, a), key, b) =~= spec_add_mesh(
            groups,
            key,
            spec_merged(a, b),
        ));
    }
}

/// A merge of well-formed mesh values whose combined vertex count fits an
/// index is well formed.
pub proof fn lemma_merged_wf(a: MeshView, b: MeshView)
    requires
        a.wf(),
        b.wf(),
        a.vertices.len() + b.vertices.len() <= u32::MAX,
    ensures
        spec_merged(a, b).wf(),
        spec_merged_invalidated(a, b).wf(),
{
    let m = spec_merged(a, b);
    crate::mesh::lemma_bounds_of_append(a.vertices, b.vertices);
    assert forall|i: int| 0 <= i < m.indices.len() implies (#[trigger] m.indices[i])
        < m.vertices.len() by {
        if i >= a.indices.len() {
            assert(b.indices[i - a.indices.len()] < b.vertices.len());
        }
    }
}

} // verus!
