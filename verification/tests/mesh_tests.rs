use nif_render::bits::Vec3Bits;
use nif_render::mesh::{GeometryError, UntexturedMesh};

fn v3(x: f32, y: f32, z: f32) -> Vec3Bits {
    Vec3Bits::new(x.to_bits(), y.to_bits(), z.to_bits())
}

fn triangle_positions() -> Vec<Vec3Bits> {
    vec![v3(0.0, 0.0, 0.0), v3(1.0, 0.0, 0.0), v3(0.0, 1.0, 0.0)]
}

fn triangle_normals() -> Vec<Vec3Bits> {
    vec![v3(0.0, 0.0, 1.0), v3(0.0, 0.0, 1.0), v3(0.0, 0.0, 1.0)]
}

fn triangle_mesh() -> UntexturedMesh {
    UntexturedMesh::from_imported_geometry(
        triangle_positions(),
        triangle_normals(),
        vec![0, 1, 2],
        None,
    )
    .unwrap()
}

#[test]
fn import_builds_vertices_and_defaults_one_instance() {
    let mesh = triangle_mesh();
    assert_eq!(mesh.vertices.len(), 3);
    assert_eq!(mesh.indices, vec![0, 1, 2]);
    assert_eq!(mesh.instances.len(), 1);
    assert!(mesh.buffers_v_idx_i.is_none());
    assert_eq!(mesh.vertices[1].position, v3(1.0, 0.0, 0.0));
    assert_eq!(mesh.vertices[1].normal, v3(0.0, 0.0, 1.0));
}

#[test]
fn import_bounds_are_componentwise_magnitude_maxima() {
    let mesh = UntexturedMesh::from_imported_geometry(
        vec![v3(-4.0, 0.5, 0.0), v3(2.0, -3.0, 1.0)],
        vec![v3(0.0, 0.0, 1.0), v3(0.0, 0.0, 1.0)],
        vec![0, 1],
        None,
    )
    .unwrap();
    assert_eq!(mesh.bounds_from_origin, v3(4.0, 3.0, 1.0));
}

#[test]
fn import_of_empty_geometry_gives_zero_bounds() {
    let mesh =
        UntexturedMesh::from_imported_geometry(Vec::new(), Vec::new(), Vec::new(), None).unwrap();
    assert_eq!(mesh.vertices.len(), 0);
    assert_eq!(mesh.bounds_from_origin, Vec3Bits::new(0, 0, 0));
}

#[test]
fn import_rejects_index_past_vertex_count() {
    let built = UntexturedMesh::from_imported_geometry(
        triangle_positions(),
        triangle_normals(),
        vec![0, 1, 3],
        None,
    );
    match built {
        Ok(_) => panic!("out-of-range index was accepted"),
        Err(error) => assert_eq!(error, GeometryError::IndexOutOfBounds),
    }
}

#[test]
fn import_pairs_lists_up_to_the_shorter() {
    let built = UntexturedMesh::from_imported_geometry(
        triangle_positions(),
        vec![v3(0.0, 0.0, 1.0), v3(0.0, 0.0, 1.0)],
        vec![0, 1],
        None,
    )
    .unwrap();
    assert_eq!(built.vertices.len(), 2);
}

#[test]
fn merge_preserves_vertex_count_and_index_validity() {
    let mut a = triangle_mesh();
    let b = UntexturedMesh::from_imported_geometry(
        vec![v3(0.0, 0.0, 2.0), v3(1.0, 1.0, 2.0), v3(0.0, 1.0, 2.0)],
        triangle_normals(),
        vec![2, 1, 0],
        None,
    )
    .unwrap();
    let before = a.vertices.len();
    let b_vertices = b.vertices.len();
    a.merge(b);
    assert_eq!(a.vertices.len(), before + b_vertices);
    for &index in &a.indices {
        assert!((index as usize) < a.vertices.len());
    }
}

#[test]
fn merge_bounds_are_componentwise_maxima_of_both() {
    let mut a = UntexturedMesh::from_imported_geometry(
        vec![v3(5.0, 1.0, 0.5)],
        vec![v3(0.0, 0.0, 1.0)],
        vec![0],
        None,
    )
    .unwrap();
    let b = UntexturedMesh::from_imported_geometry(
        vec![v3(2.0, 8.0, 0.25)],
        vec![v3(0.0, 0.0, 1.0)],
        vec![0],
        None,
    )
    .unwrap();
    a.merge(b);
    assert_eq!(a.bounds_from_origin, v3(5.0, 8.0, 0.5));
}

#[test]
fn merge_rebases_incoming_indices_by_vertex_count() {
    // Two one-triangle meshes, three vertices and three indices each, one
    // default instance each: the merged mesh has six vertices, six indices
    // with the second triangle's shifted by three, and only the first
    // mesh's single instance entry - instance lists do not merge.
    let mut a = triangle_mesh();
    let b = triangle_mesh();
    a.merge(b);
    assert_eq!(a.vertices.len(), 6);
    assert_eq!(a.indices, vec![0, 1, 2, 3, 4, 5]);
    assert_eq!(a.instances.len(), 1);
}

#[test]
fn merge_keeps_instances_of_the_target_only() {
    let mut a = triangle_mesh();
    let b = UntexturedMesh::from_imported_geometry(
        triangle_positions(),
        triangle_normals(),
        vec![0, 1, 2],
        Some(vec![Default::default(), Default::default()]),
    )
    .unwrap();
    a.merge(b);
    assert_eq!(a.instances.len(), 1);
}
