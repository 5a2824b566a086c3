//! The GPU edge: `wgpu` types and the calls the cache makes into them.
//!
//! Buffers, bind groups and render passes are opaque here; nothing about the
//! GPU's own state is modelled.  Each wrapper makes exactly one `wgpu` call.
//! What gets written into a buffer is decided by verified code: every
//! wrapper takes finished 32-bit words and hands them over unchanged.

use vstd::prelude::*;
use wgpu::util::DeviceExt;

verus! {

#[verifier::external_type_specification]
#[verifier::external_body]
pub struct ExDevice(wgpu::Device);

#[verifier::external_type_specification]
#[verifier::external_body]
pub struct ExQueue(wgpu::Queue);

#[verifier::external_type_specification]
#[verifier::external_body]
pub struct ExBuffer(wgpu::Buffer);

#[verifier::external_type_specification]
#[verifier::external_body]
pub struct ExRenderPipeline(wgpu::RenderPipeline);

#[verifier::external_type_specification]
#[verifier::external_body]
pub struct ExBindGroup(wgpu::BindGroup);

#[verifier::external_type_specification]
#[verifier::external_body]
pub struct ExRenderPass<'encoder>(wgpu::RenderPass<'encoder>);

/// What a buffer of words is created for; decides its usage flags and label.
#[derive(Clone, Copy, PartialEq, Eq, Structural, Debug)]
pub enum BufferKind {
    /// Vertex data, bound to a vertex-buffer slot.
    Vertex,
    /// `u32` triangle indices.
    Index,
    /// Raw instance transforms; also a copy target, so single slots can be
    /// patched in place after upload.
    Instance,
    /// A uniform buffer, overwritten in place every frame.
    Uniform,
}

/// Relies on `wgpu::util::DeviceExt::create_buffer_init`: creates a GPU
/// buffer holding exactly the given words.
#[verifier::external_body]
pub fn create_buffer_with_words(device: &wgpu::Device, kind: BufferKind, words: &Vec<u32>) -> wgpu::Buffer {
    let copy_dst = wgpu::BufferUsages::COPY_DST;
    let (label, usage) = match kind {
        BufferKind::Vertex => ("nif_vertex_buffer", wgpu::BufferUsages::VERTEX),
        BufferKind::Index => ("nif_index_buffer", wgpu::BufferUsages::INDEX),
        BufferKind::Instance => ("nif_instance_buffer", wgpu::BufferUsages::VERTEX | copy_dst),
        BufferKind::Uniform => ("nif_uniform_buffer", wgpu::BufferUsages::UNIFORM | copy_dst),
    };
    let contents = bytemuck::cast_slice(words.as_slice());
    device.create_buffer_init(&wgpu::util::BufferInitDescriptor { label: Some(label), contents, usage })
}

/// Relies on `wgpu::Queue::write_buffer`: overwrites the buffer's contents
/// with the given words, starting at the given byte offset.
#[verifier::external_body]
pub fn queue_write_words(queue: &wgpu::Queue, buffer: &wgpu::Buffer, offset_bytes: u64, words: &Vec<u32>) {
    queue.write_buffer(buffer, offset_bytes, bytemuck::cast_slice(words.as_slice()));
}

/// Relies on `wgpu::RenderPass::set_pipeline`: makes the pipeline current
/// for subsequent draws.
#[verifier::external_body]
pub fn pass_set_pipeline(rpass: &mut wgpu::RenderPass<'_>, pipeline: &wgpu::RenderPipeline) {
    rpass.set_pipeline(pipeline);
}

/// Relies on `wgpu::RenderPass::set_bind_group`: binds the group, with no
/// dynamic offsets, at the given index.
#[verifier::external_body]
pub fn pass_set_bind_group(rpass: &mut wgpu::RenderPass<'_>, index: u32, group: &wgpu::BindGroup) {
    rpass.set_bind_group(index, group, &[]);
}

/// Relies on `wgpu::RenderPass::set_vertex_buffer`: binds the whole buffer
/// to the given vertex-buffer slot.
#[verifier::external_body]
pub fn pass_set_vertex_buffer(rpass: &mut wgpu::RenderPass<'_>, slot: u32, buffer: &wgpu::Buffer) {
    rpass.set_vertex_buffer(slot, buffer.slice(..));
}

/// Relies on `wgpu::RenderPass::set_index_buffer`: binds the whole buffer as
/// the current `u32` index buffer.
#[verifier::external_body]
pub fn pass_set_index_buffer_u32(rpass: &mut wgpu::RenderPass<'_>, buffer: &wgpu::Buffer) {
    rpass.set_index_buffer(buffer.slice(..), wgpu::IndexFormat::Uint32);
}

/// Relies on `wgpu::RenderPass::draw_indexed`: records one indexed,
/// instanced draw over the first `index_count` indices and the first
/// `instance_count` instances, with no base-vertex shift.
#[verifier::external_body]
pub fn pass_draw_indexed(rpass: &mut wgpu::RenderPass<'_>, index_count: u32, instance_count: u32) {
    rpass.draw_indexed(0..index_count, 0, 0..instance_count);
}

} // verus!
