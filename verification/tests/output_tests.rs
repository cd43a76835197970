use std::path::PathBuf;

use pico_racer::asset::output_gen::{
    asset_file_stem, asset_record, has_mesh_assets, include_order, mesh_generated_assets, patch_names,
};
use pico_racer::asset::types::GeneratedAsset;

fn asset(identifier: &str, rs: &str) -> GeneratedAsset {
    GeneratedAsset {
        module_name: rs.trim_end_matches(".rs").to_string(),
        identifier: identifier.to_string(),
        rs_path: PathBuf::from(rs),
        source_path: PathBuf::from("assets/source"),
    }
}

#[test]
fn mesh_assets_are_detected_by_patch_identifier() {
    let generated = vec![
        asset("TEXTURES_PLAYER", "textures_player.rs"),
        asset("MESHES_CUBE_PATCH0", "meshes_cube_patch0.rs"),
    ];
    assert!(has_mesh_assets(&generated));
    assert!(!has_mesh_assets(&generated[..1]));
    assert!(!has_mesh_assets(&[]));
    assert!(!has_mesh_assets(&[asset("PATC", "x.rs"), asset("ATCH", "y.rs")]));
    assert!(has_mesh_assets(&[asset("PATCH", "z.rs")]));
}

#[test]
fn include_order_sorts_and_drops_empty_names() {
    let files = vec![
        "textures_player.rs".to_string(),
        String::new(),
        "meshes_cube_patch0.rs".to_string(),
        "meshes_cube.rs".to_string(),
        "meshes_cube_patch10.rs".to_string(),
        "meshes_cube_patch1.rs".to_string(),
    ];
    let mut expected: Vec<String> = files.iter().filter(|f| !f.is_empty()).cloned().collect();
    expected.sort();
    assert_eq!(include_order(&files), expected);
    assert_eq!(
        include_order(&files),
        vec![
            "meshes_cube.rs",
            "meshes_cube_patch0.rs",
            "meshes_cube_patch1.rs",
            "meshes_cube_patch10.rs",
            "textures_player.rs",
        ]
    );
}

#[test]
fn include_order_keeps_duplicates_and_orders_by_code_point() {
    let files = vec!["b.rs".to_string(), "B.rs".to_string(), "b.rs".to_string(), "é.rs".to_string()];
    assert_eq!(include_order(&files), vec!["B.rs", "b.rs", "b.rs", "é.rs"]);
    assert!(include_order(&[]).is_empty());
}

#[test]
fn asset_file_stem_is_lower_case_identifier() {
    assert_eq!(asset_file_stem("TEXTURES_TEST"), "textures_test");
    assert_eq!(asset_file_stem("MESHES_CUBE"), "meshes_cube");
}

#[test]
fn patch_names_follow_mesh_identifier() {
    let (base, name) = patch_names("MESHES_CUBE", 0);
    assert_eq!(base, "meshes_cube_patch0");
    assert_eq!(name, "MESHES_CUBE_PATCH0");
    let (base, name) = patch_names("MESHES_TRACK", 127);
    assert_eq!(base, "meshes_track_patch127");
    assert_eq!(name, "MESHES_TRACK_PATCH127");
}

#[test]
fn patch_constants_mark_mesh_assets() {
    let (base, name) = patch_names("MESHES_CUBE", 3);
    let generated = vec![asset(&name, &format!("{}.rs", base))];
    assert!(has_mesh_assets(&generated));
}

#[test]
fn mesh_generated_assets_list_patches_then_mesh() {
    let source = PathBuf::from("meshes/cube.obj");
    let assets = mesh_generated_assets(&"MESHES_CUBE".to_string(), &[0, 1], &source);
    assert_eq!(assets.len(), 3);
    assert_eq!(assets[0].module_name, "meshes_cube_patch0");
    assert_eq!(assets[0].identifier, "MESHES_CUBE_PATCH0");
    assert_eq!(assets[0].rs_path, PathBuf::from("meshes_cube_patch0.rs"));
    assert_eq!(assets[1].identifier, "MESHES_CUBE_PATCH1");
    assert_eq!(assets[2].module_name, "meshes_cube");
    assert_eq!(assets[2].identifier, "MESHES_CUBE");
    assert_eq!(assets[2].rs_path, PathBuf::from("meshes_cube.rs"));
    assert_eq!(assets[2].source_path, source);
}

#[test]
fn asset_record_of_texture() {
    let rec = asset_record(&"TEXTURES_TEST".to_string(), &PathBuf::from("textures/test.png"));
    assert_eq!(rec.module_name, "textures_test");
    assert_eq!(rec.identifier, "TEXTURES_TEST");
    assert_eq!(rec.rs_path, PathBuf::from("textures_test.rs"));
}
