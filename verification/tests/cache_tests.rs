use nif_render::bits::Vec3Bits;
use nif_render::cache::NifRenderResources;
use nif_render::mesh::UntexturedMesh;

fn v3(x: f32, y: f32, z: f32) -> Vec3Bits {
    Vec3Bits::new(x.to_bits(), y.to_bits(), z.to_bits())
}

fn mesh_with_extent(x: f32, y: f32, z: f32) -> UntexturedMesh {
    UntexturedMesh::from_imported_geometry(
        vec![v3(x, y, z), v3(0.0, 0.0, 0.0), v3(x, 0.0, 0.0)],
        vec![v3(0.0, 0.0, 1.0), v3(0.0, 0.0, 1.0), v3(0.0, 0.0, 1.0)],
        vec![0, 1, 2],
        None,
    )
    .unwrap()
}

#[test]
fn add_creates_group_and_tracks_combined_bounds() {
    let mut cache = NifRenderResources::new();
    cache.add_nif(mesh_with_extent(1.0, 2.0, 3.0), Some("a".to_string()));
    cache.add_nif(mesh_with_extent(5.0, 1.0, 1.0), Some("b".to_string()));
    assert_eq!(cache.meshes.len(), 2);
    assert_eq!(cache.combined_bounds, v3(5.0, 2.0, 3.0));
}

#[test]
fn add_without_label_uses_the_empty_group_name() {
    let mut cache = NifRenderResources::new();
    cache.add_nif(mesh_with_extent(1.0, 1.0, 1.0), None);
    cache.add_nif(mesh_with_extent(2.0, 2.0, 2.0), None);
    assert_eq!(cache.meshes.len(), 1);
    assert_eq!(cache.meshes[0].0, "");
    assert_eq!(cache.meshes[0].1.vertices.len(), 6);
}

#[test]
fn adding_twice_equals_adding_the_merged_mesh_once() {
    // cache.add("g", A); cache.add("g", B) leaves the same vertex and
    // index arrays as cache.add("g", merge(A, B)).
    let mut twice = NifRenderResources::new();
    twice.add_nif(mesh_with_extent(1.0, 2.0, 3.0), Some("g".to_string()));
    twice.add_nif(mesh_with_extent(4.0, 1.0, 0.5), Some("g".to_string()));

    let mut once = NifRenderResources::new();
    let mut merged = mesh_with_extent(1.0, 2.0, 3.0);
    merged.merge(mesh_with_extent(4.0, 1.0, 0.5));
    once.add_nif(merged, Some("g".to_string()));

    let twice_mesh = &twice.meshes[0].1;
    let once_mesh = &once.meshes[0].1;
    assert_eq!(twice_mesh.vertices, once_mesh.vertices);
    assert_eq!(twice_mesh.indices, once_mesh.indices);
    assert_eq!(twice.combined_bounds, once.combined_bounds);
}

#[test]
fn set_replaces_the_group_and_recomputes_bounds() {
    let mut cache = NifRenderResources::new();
    cache.add_nif(mesh_with_extent(9.0, 9.0, 9.0), Some("g".to_string()));
    cache.add_nif(mesh_with_extent(1.0, 2.0, 1.0), Some("h".to_string()));
    assert_eq!(cache.combined_bounds, v3(9.0, 9.0, 9.0));
    cache.set_nif(mesh_with_extent(1.0, 1.0, 1.0), Some("g".to_string()));
    assert_eq!(cache.meshes.len(), 2);
    assert_eq!(cache.combined_bounds, v3(1.0, 2.0, 1.0));
    let g = cache
        .meshes
        .iter()
        .find(|(name, _)| name == "g")
        .map(|(_, mesh)| mesh)
        .unwrap();
    assert_eq!(g.vertices.len(), 3);
}

#[test]
fn set_on_an_absent_group_creates_it() {
    let mut cache = NifRenderResources::new();
    cache.set_nif(mesh_with_extent(2.0, 3.0, 4.0), Some("g".to_string()));
    assert_eq!(cache.meshes.len(), 1);
    assert_eq!(cache.meshes[0].0, "g");
    assert_eq!(cache.combined_bounds, v3(2.0, 3.0, 4.0));
}

#[test]
fn clear_drops_every_group_and_zeroes_bounds() {
    let mut cache = NifRenderResources::new();
    cache.add_nif(mesh_with_extent(4.0, 4.0, 4.0), Some("g".to_string()));
    cache.add_nif(mesh_with_extent(2.0, 2.0, 2.0), None);
    cache.clear_nifs();
    assert_eq!(cache.meshes.len(), 0);
    assert_eq!(cache.combined_bounds, Vec3Bits::new(0, 0, 0));
    assert_eq!(cache.combined_bounds, v3(0.0, 0.0, 0.0));
}

#[test]
fn add_instance_appends_a_placement_to_the_named_group() {
    let mut cache = NifRenderResources::new();
    cache.add_nif(mesh_with_extent(1.0, 1.0, 1.0), Some("g".to_string()));
    let placement = nif_render::instance::UntexturedMeshInstance {
        position: v3(10.0, 0.0, 0.0),
        rotation: nif_render::bits::QuatBits::identity(),
        scale: 2.0f32.to_bits(),
    };
    assert_eq!(cache.add_instance(Some("g".to_string()), placement), Ok(()));
    assert_eq!(cache.meshes[0].1.instances.len(), 2);
    assert_eq!(cache.meshes[0].1.instances[1], placement);
    // A name nothing carries is reported, and the cache is untouched.
    assert_eq!(cache.add_instance(Some("missing".to_string()), placement), Err(()));
    assert_eq!(cache.meshes[0].1.instances.len(), 2);
}

#[test]
fn draw_plan_skips_groups_without_buffers_or_instances() {
    let mut cache = NifRenderResources::new();
    cache.add_nif(mesh_with_extent(1.0, 1.0, 1.0), Some("plain".to_string()));
    let no_instances = UntexturedMesh::from_imported_geometry(
        vec![v3(1.0, 0.0, 0.0)],
        vec![v3(0.0, 0.0, 1.0)],
        vec![0],
        Some(Vec::new()),
    )
    .unwrap();
    cache.add_nif(no_instances, Some("empty".to_string()));
    // Neither group has GPU buffers yet, and the second has no instances:
    // no draw call may be recorded for either.
    assert!(cache.draw_plan().is_empty());
}
