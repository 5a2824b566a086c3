//! The per-frame controller: the two-phase contract GPU APIs require.
//!
//! Every frame runs a prepare phase and then a paint phase,
//! unconditionally.  Prepare records all CPU-side writes — the camera and
//! light uniforms, lazy mesh uploads, the instance patch — and paint binds
//! the pipeline and records the draw calls, so no buffer is written while
//! it is bound for the pass that consumes it.  The controller owns no GPU
//! objects; it borrows the cache and the pipeline from the host.

use vstd::prelude::*;

use crate::bits::QuatBits;
use crate::cache::NifRenderResources;
use crate::camera::Camera;
use crate::light::Light;
use crate::pipeline::UntexturedMeshPipeline;

verus! {

/// The prepare phase: writes the camera and light uniform buffers in
/// place, then uploads every group that lacks GPU buffers and patches the
/// first group's first instance to the interactive model rotation.  Groups
/// that already have buffers keep them untouched.
pub fn prepare_frame(
    resources: &mut NifRenderResources,
    pipeline: &UntexturedMeshPipeline,
    device: &wgpu::Device,
    queue: &wgpu::Queue,
    camera: &Camera,
    light: &Light,
    model_rotation: QuatBits,
)
    requires
        old(resources).wf(),
    ensures
        final(resources).wf(),
        final(resources).combined_bounds == old(resources).combined_bounds,
        final(resources).meshes@.len() == old(resources).meshes@.len(),
        forall|i: int|
            0 <= i < old(resources).meshes@.len()
                ==> (#[trigger] final(resources).meshes@[i]).1.buffers_v_idx_i is Some,
        forall|i: int|
            0 <= i < old(resources).meshes@.len()
                && old(resources).meshes@[i].1.buffers_v_idx_i is Some
                ==> (#[trigger] final(resources).meshes@[i]).1.buffers_v_idx_i
                    == old(resources).meshes@[i].1.buffers_v_idx_i,
{
    pipeline.update_camera(queue, camera);
    pipeline.update_light(queue, light);
    resources.prepare(device, queue, model_rotation);
}

/// The paint phase: binds the pipeline with its camera and light bind
/// groups, then records the cache's draw calls.
pub fn paint_frame(
    resources: &NifRenderResources,
    pipeline: &UntexturedMeshPipeline,
    rpass: &mut wgpu::RenderPass<'_>,
)
    requires
        forall|i: int|
            0 <= i < resources.spec_groups().len()
                ==> (#[trigger] resources.spec_groups()[i]).1.indices.len() <= u32::MAX
                    && resources.spec_groups()[i].1.instances.len() <= u32::MAX,
{
    pipeline.set(rpass);
    resources.paint(rpass);
}

} // verus!
