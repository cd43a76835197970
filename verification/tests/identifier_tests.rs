use std::path::{Path, PathBuf};

use pico_racer::asset::error::AssetError;
use pico_racer::asset::identifier::{
    check_collisions, collision_report, find_identifier, first_repeat, generate_identifier, identifier_from_parts, sanitize_to_rust_ident,
};

#[test]
fn test_sanitize_simple() {
    assert_eq!(sanitize_to_rust_ident("player"), "player");
    assert_eq!(sanitize_to_rust_ident("my_texture"), "my_texture");
}

#[test]
fn test_sanitize_special_chars() {
    assert_eq!(sanitize_to_rust_ident("my-texture"), "my_texture");
    assert_eq!(sanitize_to_rust_ident("button@hover"), "button_hover");
    assert_eq!(sanitize_to_rust_ident("foo.bar"), "foo_bar");
}

#[test]
fn test_sanitize_leading_digit() {
    assert_eq!(sanitize_to_rust_ident("3d-cube"), "_3d_cube");
}

#[test]
fn test_generate_identifier_with_parent() {
    let path = PathBuf::from("textures/player.png");
    assert_eq!(generate_identifier(&path).unwrap(), "TEXTURES_PLAYER");
}

#[test]
fn test_generate_identifier_without_parent() {
    let path = PathBuf::from("cube.obj");
    assert_eq!(generate_identifier(&path).unwrap(), "CUBE");
}

#[test]
fn test_generate_identifier_special_chars() {
    let path = PathBuf::from("ui/button-hover.png");
    assert_eq!(generate_identifier(&path).unwrap(), "UI_BUTTON_HOVER");
}

#[test]
fn test_generate_identifier_deeply_nested() {
    // Only immediate parent is used
    let path = PathBuf::from("assets/textures/characters/player.png");
    assert_eq!(generate_identifier(&path).unwrap(), "CHARACTERS_PLAYER");
}

#[test]
fn test_no_collision() {
    let paths: Vec<&Path> = vec![
        Path::new("textures/player.png"),
        Path::new("ui/player.png"),
        Path::new("textures/enemy.png"),
    ];
    assert!(check_collisions(&paths).is_ok());
}

#[test]
fn test_collision_detected() {
    let paths: Vec<&Path> = vec![
        Path::new("textures/foo@bar.png"),
        Path::new("textures/foo_bar.png"),
    ];
    let err = check_collisions(&paths).unwrap_err();
    match err {
        AssetError::IdentifierCollision { identifier, .. } => {
            assert_eq!(identifier, "TEXTURES_FOO_BAR");
        }
        _ => panic!("Expected IdentifierCollision error"),
    }
}

#[test]
fn sanitize_empty_gives_asset() {
    assert_eq!(sanitize_to_rust_ident(""), "ASSET");
}

#[test]
fn sanitize_leading_symbol_replaced() {
    assert_eq!(sanitize_to_rust_ident("-x"), "_x");
    assert_eq!(sanitize_to_rust_ident("_x"), "_x");
}

#[test]
fn sanitize_is_idempotent_on_examples() {
    for s in ["3d-cube", "button@hover", "a.b.c", "x"] {
        let once = sanitize_to_rust_ident(s);
        assert_eq!(sanitize_to_rust_ident(&once), once);
    }
}

#[test]
fn identifier_from_parts_joins_and_uppercases() {
    assert_eq!(identifier_from_parts("player", Some("textures")), "TEXTURES_PLAYER");
    assert_eq!(identifier_from_parts("3d", None), "_3D");
}

#[test]
fn collision_reports_the_later_path_against_the_first() {
    let paths: Vec<&Path> = vec![
        Path::new("a/x.png"),
        Path::new("b/y.png"),
        Path::new("a/x.obj"),
    ];
    match check_collisions(&paths).unwrap_err() {
        AssetError::IdentifierCollision { identifier, path_a, path_b } => {
            assert_eq!(identifier, "A_X");
            assert_eq!(path_a, PathBuf::from("a/x.png"));
            assert_eq!(path_b, PathBuf::from("a/x.obj"));
        }
        _ => panic!("Expected IdentifierCollision error"),
    }
}

#[test]
fn empty_path_list_has_no_collision() {
    let paths: Vec<&Path> = Vec::new();
    assert!(check_collisions(&paths).is_ok());
}

#[test]
fn find_identifier_returns_first_match() {
    let seen = vec![
        "TEXTURES_A".to_string(),
        "MESHES_B".to_string(),
        "MESHES_B".to_string(),
    ];
    assert_eq!(find_identifier(&seen, &"MESHES_B".to_string()), Some(1));
    assert_eq!(find_identifier(&seen, &"TEXTURES_A".to_string()), Some(0));
    assert_eq!(find_identifier(&seen, &"MESHES_C".to_string()), None);
    assert_eq!(find_identifier(&[], &"X".to_string()), None);
}

#[test]
fn first_repeat_finds_least_later_position() {
    let ids: Vec<String> = ["A", "B", "C", "B", "A"].iter().map(|s| s.to_string()).collect();
    assert_eq!(first_repeat(&ids), Some((1, 3)));
    let ids: Vec<String> = ["A", "B", "A", "B"].iter().map(|s| s.to_string()).collect();
    assert_eq!(first_repeat(&ids), Some((0, 2)));
    let ids: Vec<String> = ["A", "B", "C"].iter().map(|s| s.to_string()).collect();
    assert_eq!(first_repeat(&ids), None);
    assert_eq!(first_repeat(&[]), None);
}

#[test]
fn collision_report_prefers_earlier_repeat_over_failure() {
    let paths = [Path::new("textures/foo@bar.png"), Path::new("textures/foo_bar.png"), Path::new("x")];
    let ids = vec!["TEXTURES_FOO_BAR".to_string(), "TEXTURES_FOO_BAR".to_string()];
    let failure = Some(AssetError::Validation("later".to_string()));
    match collision_report(&paths, &ids, failure) {
        Err(AssetError::IdentifierCollision { identifier, path_a, path_b }) => {
            assert_eq!(identifier, "TEXTURES_FOO_BAR");
            assert_eq!(path_a, PathBuf::from("textures/foo@bar.png"));
            assert_eq!(path_b, PathBuf::from("textures/foo_bar.png"));
        },
        other => panic!("unexpected {:?}", other),
    }
    let distinct = vec!["A".to_string()];
    match collision_report(&paths, &distinct, Some(AssetError::Validation("bad".to_string()))) {
        Err(AssetError::Validation(m)) => assert_eq!(m, "bad"),
        other => panic!("unexpected {:?}", other),
    }
    assert!(collision_report(&paths, &distinct, None).is_ok());
}

#[test]
fn check_collisions_reports_sanitized_clash() {
    let paths = [Path::new("textures/foo@bar.png"), Path::new("textures/foo_bar.png")];
    match check_collisions(&paths) {
        Err(AssetError::IdentifierCollision { identifier, path_a, path_b }) => {
            assert_eq!(identifier, "TEXTURES_FOO_BAR");
            assert_eq!(path_a, PathBuf::from("textures/foo@bar.png"));
            assert_eq!(path_b, PathBuf::from("textures/foo_bar.png"));
        },
        other => panic!("unexpected {:?}", other),
    }
}
