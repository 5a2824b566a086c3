//! The fixed draw pipeline and its two uniform buffers.
//!
//! The pipeline object, the camera and light uniform buffers and their bind
//! groups are created once by the host from this module's fixed settings
//! and the vertex layouts of `vertex` and `instance`; after that the
//! buffers are only ever overwritten in place, once per frame, with words
//! computed here.

use vstd::prelude::*;

use crate::camera::Camera;
use crate::gpu::{pass_set_bind_group, pass_set_pipeline, queue_write_words};
use crate::light::Light;

verus! {

/// The fixed rasterizer and depth state of the draw pipeline.
#[derive(Clone, Copy, PartialEq, Eq, Structural, Debug)]
pub struct PipelineSettings {
    /// Back faces are culled.
    pub cull_back_faces: bool,
    /// Depth test passes on strictly smaller depth.
    pub depth_compare_less: bool,
    /// The depth buffer is written.
    pub depth_write_enabled: bool,
    /// Single-sample rendering.
    pub sample_count: u32,
}

/// The pipeline state the viewer always draws with: back-face culling on,
/// depth test "less" with depth writes, one sample.
pub fn fixed_pipeline_settings() -> (r: PipelineSettings)
    ensures
        r == (PipelineSettings {
            cull_back_faces: true,
            depth_compare_less: true,
            depth_write_enabled: true,
            sample_count: 1,
        }),
{
    PipelineSettings {
        cull_back_faces: true,
        depth_compare_less: true,
        depth_write_enabled: true,
        sample_count: 1,
    }
}

/// The draw pipeline: the GPU pipeline object and the camera and light
/// uniform buffers with their bind groups.
pub struct UntexturedMeshPipeline {
    pub pipeline: wgpu::RenderPipeline,
    pub camera_uniform_buffer: wgpu::Buffer,
    pub camera_bind_group: wgpu::BindGroup,
    pub light_uniform_buffer: wgpu::Buffer,
    pub light_bind_group: wgpu::BindGroup,
}

impl UntexturedMeshPipeline {
    /// Takes ownership of the GPU objects the host created from
    /// `fixed_pipeline_settings` and the vertex layouts.  The camera buffer
    /// must hold twenty words and the light buffer eight, the sizes every
    /// later in-place write assumes.
    pub fn new(
        pipeline: wgpu::RenderPipeline,
        camera_uniform_buffer: wgpu::Buffer,
        camera_bind_group: wgpu::BindGroup,
        light_uniform_buffer: wgpu::Buffer,
        light_bind_group: wgpu::BindGroup,
    ) -> (r: UntexturedMeshPipeline)
        ensures
            r == (UntexturedMeshPipeline {
                pipeline,
                camera_uniform_buffer,
                camera_bind_group,
                light_uniform_buffer,
                light_bind_group,
            }),
    {
        UntexturedMeshPipeline {
            pipeline,
            camera_uniform_buffer,
            camera_bind_group,
            light_uniform_buffer,
            light_bind_group,
        }
    }

    /// Overwrites the camera uniform buffer in place with the camera's
    /// current uniform words: eye position, then projection times view.
    pub fn update_camera(&self, queue: &wgpu::Queue, camera: &Camera) {
        let words = camera.to_raw().words();
        queue_write_words(queue, &self.camera_uniform_buffer, 0, &words);
    }

    /// Overwrites the light uniform buffer in place with the light's
    /// current uniform words: padded position, then padded color.
    pub fn update_light(&self, queue: &wgpu::Queue, light: &Light) {
        let words = light.to_raw().words();
        queue_write_words(queue, &self.light_uniform_buffer, 0, &words);
    }

    /// Makes the pipeline current and binds the camera bind group at index
    /// 0 and the light bind group at index 1.
    pub fn set(&self, rpass: &mut wgpu::RenderPass<'_>) {
        pass_set_pipeline(rpass, &self.pipeline);
        pass_set_bind_group(rpass, 0, &self.camera_bind_group);
        pass_set_bind_group(rpass, 1, &self.light_bind_group);
    }
}

} // verus!
