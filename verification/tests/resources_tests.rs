use model_viewer::resources::{
    build_mesh_indices, hdr_bytes_per_row, is_embedded_reference, select_material_texture,
    texels_to_rgba, workgroup_count, ResourceManager, Texel, TextureSlot, TextureSource,
};

#[test]
fn resources_are_stored_by_file_name() {
    let mut r: ResourceManager<&str, u32, u8> = ResourceManager::new();
    assert!(r.needs_model("duck.gltf"));
    assert!(r.get_model("duck.gltf").is_none());
    r.insert_model("duck.gltf", "duck");
    assert!(!r.needs_model("duck.gltf"));
    assert_eq!(r.get_model("duck.gltf"), Some(&"duck"));
    assert!(r.needs_environment("sky.hdr"));
    r.insert_environment("sky.hdr", 42, 7);
    assert!(!r.needs_environment("sky.hdr"));
    assert_eq!(r.get_cube_texture("sky.hdr"), Some(&42));
    assert_eq!(r.get_bind_group("sky.hdr"), Some(&7));
    assert!(r.get_bind_group("duck.gltf").is_none());
    assert!(r.needs_model("sky.hdr"));
}

#[test]
fn embedded_references_start_with_a_star() {
    assert!(is_embedded_reference("*0"));
    assert!(is_embedded_reference("*"));
    assert!(!is_embedded_reference("textures/albedo.png"));
    assert!(!is_embedded_reference("a*"));
    assert!(!is_embedded_reference(""));
}

fn slot(count: usize, path: &str, embedded_found: bool) -> TextureSlot {
    TextureSlot { count, path: path.to_string(), embedded_found }
}

#[test]
fn first_usable_texture_type_wins() {
    let slots = vec![slot(0, "", false), slot(1, "albedo.png", false), slot(1, "*1", true)];
    assert_eq!(select_material_texture(&slots), Some(TextureSource::File { slot: 1 }));
}

#[test]
fn missing_embedded_texture_falls_through() {
    let slots = vec![slot(1, "*0", false), slot(2, "*1", true)];
    assert_eq!(select_material_texture(&slots), Some(TextureSource::Embedded { slot: 1 }));
}

#[test]
fn no_texture() {
    let slots = vec![slot(0, "x.png", false), slot(1, "*3", false)];
    assert_eq!(select_material_texture(&slots), None);
    assert_eq!(select_material_texture(&vec![]), None);
}

#[test]
fn faces_become_one_index_buffer() {
    let mesh = build_mesh_indices(&vec![vec![0, 1, 2], vec![2, 3, 0], vec![]]);
    assert_eq!(mesh.indices, vec![0, 1, 2, 2, 3, 0]);
    assert_eq!(mesh.num_elements, 6);
    let empty = build_mesh_indices(&vec![]);
    assert!(empty.indices.is_empty());
    assert_eq!(empty.num_elements, 0);
}

#[test]
fn texels_become_rgba_bytes() {
    let texels = vec![Texel { r: 1, g: 2, b: 3, a: 4 }, Texel { r: 250, g: 0, b: 9, a: 255 }];
    assert_eq!(texels_to_rgba(&texels), vec![1, 2, 3, 4, 250, 0, 9, 255]);
    assert!(texels_to_rgba(&vec![]).is_empty());
}

#[test]
fn workgroups_cover_the_face() {
    assert_eq!(workgroup_count(0), 0);
    assert_eq!(workgroup_count(1), 1);
    assert_eq!(workgroup_count(16), 1);
    assert_eq!(workgroup_count(17), 2);
    assert_eq!(workgroup_count(1080), 68);
    assert_eq!(workgroup_count(u32::MAX - 15), 268435455);
}

#[test]
fn row_bytes() {
    assert_eq!(hdr_bytes_per_row(1024), 16384);
    assert_eq!(hdr_bytes_per_row(0), 0);
}
