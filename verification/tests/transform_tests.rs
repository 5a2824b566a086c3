use nif_render::bits::{QuatBits, Vec3Bits};
use nif_render::instance::{UntexturedMeshInstance, UntexturedMeshInstanceRaw, instance_buffer_words};
use nif_render::vertex::{
    AttributeFormat, UntexturedMeshVertex, VertexStepMode, vertex_buffer_words,
};

fn v3(x: f32, y: f32, z: f32) -> Vec3Bits {
    Vec3Bits::new(x.to_bits(), y.to_bits(), z.to_bits())
}

fn floats16(words: &[u32; 16]) -> [f32; 16] {
    let mut out = [0.0f32; 16];
    for (slot, &w) in out.iter_mut().zip(words.iter()) {
        *slot = f32::from_bits(w);
    }
    out
}

#[test]
fn default_instance_raw_is_identity() {
    // The identity placement must yield the identity 4x4 model matrix and
    // the identity 3x3 normal matrix.
    let raw = UntexturedMeshInstance::default().to_raw();
    let one = 1.0f32.to_bits();
    let expected_model: [u32; 16] = [
        one, 0, 0, 0, //
        0, one, 0, 0, //
        0, 0, one, 0, //
        0, 0, 0, one,
    ];
    let expected_normal: [u32; 9] = [one, 0, 0, 0, one, 0, 0, 0, one];
    assert_eq!(raw.model, expected_model);
    assert_eq!(raw.normal, expected_normal);
}

#[test]
fn translated_instance_puts_position_in_the_last_column() {
    let instance = UntexturedMeshInstance {
        position: v3(1.0, 2.0, 3.0),
        rotation: QuatBits::identity(),
        scale: 1.0f32.to_bits(),
    };
    let model = floats16(&instance.to_raw().model);
    assert_eq!(&model[12..16], &[1.0, 2.0, 3.0, 1.0]);
    assert_eq!(&model[0..4], &[1.0, 0.0, 0.0, 0.0]);
}

#[test]
fn scaled_instance_scales_the_axis_columns() {
    let instance = UntexturedMeshInstance {
        position: Vec3Bits::zero(),
        rotation: QuatBits::identity(),
        scale: 2.0f32.to_bits(),
    };
    let raw = instance.to_raw();
    let model = floats16(&raw.model);
    assert_eq!(model[0], 2.0);
    assert_eq!(model[5], 2.0);
    assert_eq!(model[10], 2.0);
    assert_eq!(model[15], 1.0);
    // The normal matrix comes from the rotation alone: uniform scale must
    // not leak into it.
    assert_eq!(f32::from_bits(raw.normal[0]), 1.0);
}

#[test]
fn vertex_layout_matches_position_then_normal() {
    let desc = UntexturedMeshVertex::desc();
    assert_eq!(desc.array_stride, 24);
    assert_eq!(desc.step_mode, VertexStepMode::Vertex);
    assert_eq!(desc.attributes.len(), 2);
    assert_eq!(desc.attributes[0].offset, 0);
    assert_eq!(desc.attributes[0].shader_location, 0);
    assert_eq!(desc.attributes[0].format, AttributeFormat::Float32x3);
    assert_eq!(desc.attributes[1].offset, 12);
    assert_eq!(desc.attributes[1].shader_location, 1);
}

#[test]
fn instance_layout_covers_model_and_normal_columns() {
    let desc = UntexturedMeshInstanceRaw::desc();
    assert_eq!(desc.array_stride, 100);
    assert_eq!(desc.step_mode, VertexStepMode::Instance);
    assert_eq!(desc.attributes.len(), 7);
    let offsets: Vec<u64> = desc.attributes.iter().map(|a| a.offset).collect();
    assert_eq!(offsets, vec![0, 16, 32, 48, 64, 76, 88]);
    let locations: Vec<u32> = desc.attributes.iter().map(|a| a.shader_location).collect();
    assert_eq!(locations, vec![2, 3, 4, 5, 6, 7, 8]);
    assert_eq!(desc.attributes[3].format, AttributeFormat::Float32x4);
    assert_eq!(desc.attributes[4].format, AttributeFormat::Float32x3);
}

#[test]
fn vertex_words_interleave_position_and_normal() {
    let vertices = vec![
        UntexturedMeshVertex { position: v3(1.0, 2.0, 3.0), normal: v3(0.0, 0.0, 1.0) },
        UntexturedMeshVertex { position: v3(4.0, 5.0, 6.0), normal: v3(0.0, 1.0, 0.0) },
    ];
    let words = vertex_buffer_words(&vertices);
    assert_eq!(words.len(), 12);
    assert_eq!(words[0], 1.0f32.to_bits());
    assert_eq!(words[5], 1.0f32.to_bits());
    assert_eq!(words[6], 4.0f32.to_bits());
    assert_eq!(words[10], 1.0f32.to_bits());
}

#[test]
fn instance_words_pack_model_then_normal() {
    let instances = vec![UntexturedMeshInstance::default(), UntexturedMeshInstance::default()];
    let words = instance_buffer_words(&instances);
    assert_eq!(words.len(), 50);
    let raw = UntexturedMeshInstance::default().to_raw();
    assert_eq!(&words[0..16], &raw.model);
    assert_eq!(&words[16..25], &raw.normal);
    assert_eq!(&words[25..41], &raw.model);
}
