use renderer::assets::{asset_root, mesh_info, mesh_vertices, texture_name, AssetError};

#[test]
fn asset_root_prefers_public_directory() {
    assert_eq!(asset_root(true), "public/assets");
    assert_eq!(asset_root(false), "assets");
}

#[test]
fn texture_name_requires_a_texture() {
    assert_eq!(texture_name(Some("cube-diffuse.jpg".to_string())), Ok("cube-diffuse.jpg".to_string()));
    assert_eq!(texture_name(None), Err(AssetError::MissingTexture));
}

#[test]
fn mesh_info_counts_indices_and_defaults_material() {
    let m = mesh_info(36, Some(2)).ok().unwrap();
    assert_eq!(m.num_elements, 36);
    assert_eq!(m.material, 2);
    let d = mesh_info(6, None).ok().unwrap();
    assert_eq!(d.material, 0);
    assert_eq!(mesh_info(u32::MAX as usize, None).ok().unwrap().num_elements, u32::MAX);
    assert_eq!(mesh_info(u32::MAX as usize + 1, None).err(), Some(AssetError::TooManyIndices));
}

#[test]
fn mesh_vertices_groups_attributes() {
    let positions = vec![0.0f32, 1.0, 2.0, 3.0, 4.0, 5.0, 9.0];
    let tex = vec![0.5f32, 0.25, 0.75, 1.0];
    let normals = vec![0.0f32, 0.0, 1.0, 0.0, 1.0, 0.0];
    let v = mesh_vertices(&positions, &tex, &normals).ok().unwrap();
    assert_eq!(v.len(), 2);
    assert_eq!(v[0].position, [0.0, 1.0, 2.0]);
    assert_eq!(v[0].tex_coords, [0.5, 0.25]);
    assert_eq!(v[0].normal, [0.0, 0.0, 1.0]);
    assert_eq!(v[1].position, [3.0, 4.0, 5.0]);
    assert_eq!(v[1].tex_coords, [0.75, 1.0]);
    assert_eq!(v[1].normal, [0.0, 1.0, 0.0]);
}

#[test]
fn mesh_vertices_rejects_short_attributes() {
    let positions = vec![0.0f32; 6];
    let short_tex = vec![0.0f32; 3];
    let normals = vec![0.0f32; 6];
    assert_eq!(mesh_vertices(&positions, &short_tex, &normals).err(), Some(AssetError::MalformedMesh));
    let tex = vec![0.0f32; 4];
    let short_normals = vec![0.0f32; 5];
    assert_eq!(mesh_vertices(&positions, &tex, &short_normals).err(), Some(AssetError::MalformedMesh));
    let empty: Vec<f32> = vec![];
    assert_eq!(mesh_vertices(&empty, &empty, &empty).ok().map(|v| v.len()), Some(0));
}
