use pico_racer::asset::obj_converter::{merge_model_indices, merge_model_indices_fits, ModelIndices};
use pico_racer::asset::mesh_patcher::{pack_soa_blob_quantized, split_into_index_patches, QuantizedVertex};
use pico_racer::asset::types::TextureAsset;

fn resolve(p: &pico_racer::asset::mesh_patcher::IndexPatch) -> Vec<u32> {
    p.indices.iter().map(|&k| p.vertices[k as usize]).collect()
}

#[test]
fn test_single_triangle_single_patch() {
    let indices = vec![0, 1, 2];
    let patches = split_into_index_patches(&indices, 16, 32);
    assert_eq!(patches.len(), 1);
    assert_eq!(patches[0].vertices.len(), 3);
    assert_eq!(patches[0].indices.len(), 3);
    assert_eq!(patches[0].patch_index, 0);
}

#[test]
fn test_split_exceeds_vertex_limit() {
    // Two triangles with no shared vertices, limit 3 vertices per patch.
    let indices = vec![0, 1, 2, 3, 4, 5];
    let patches = split_into_index_patches(&indices, 3, 32);
    assert_eq!(patches.len(), 2);
    assert_eq!(patches[0].vertices.len(), 3);
    assert_eq!(patches[1].vertices.len(), 3);
}

#[test]
fn test_split_exceeds_index_limit() {
    let indices = vec![0, 1, 2, 1, 3, 2];
    let patches = split_into_index_patches(&indices, 16, 3);
    assert_eq!(patches.len(), 2);
}

#[test]
fn test_vertex_sharing_within_patch() {
    let indices = vec![0, 1, 2, 1, 3, 2];
    let patches = split_into_index_patches(&indices, 16, 32);
    assert_eq!(patches.len(), 1);
    assert_eq!(patches[0].vertices.len(), 4);
    assert_eq!(patches[0].indices.len(), 6);
    assert_eq!(patches[0].vertices, vec![0, 1, 2, 3]);
    assert_eq!(patches[0].indices, vec![0, 1, 2, 1, 3, 2]);
}

#[test]
fn test_determinism() {
    let indices: Vec<u32> = (0..20).collect();
    let patches1 = split_into_index_patches(&indices, 5, 32);
    let patches2 = split_into_index_patches(&indices, 5, 32);
    assert_eq!(patches1.len(), patches2.len());
    for (p1, p2) in patches1.iter().zip(patches2.iter()) {
        assert_eq!(p1.vertices.len(), p2.vertices.len());
        assert_eq!(p1.indices, p2.indices);
    }
}

#[test]
fn test_all_indices_valid() {
    let indices: Vec<u32> = (0..12).collect();
    let patches = split_into_index_patches(&indices, 5, 32);
    for patch in &patches {
        for &idx in &patch.indices {
            assert!(
                (idx as usize) < patch.vertices.len(),
                "Index {} out of bounds (vertex count: {})",
                idx,
                patch.vertices.len()
            );
        }
    }
}

#[test]
fn split_reconstructs_triangle_list() {
    let indices: Vec<u32> = vec![0, 1, 2, 2, 1, 3, 3, 4, 5, 5, 0, 3, 6, 7, 8, 9];
    let patches = split_into_index_patches(&indices, 4, 6);
    let flat: Vec<u32> = patches.iter().flat_map(resolve).collect();
    assert_eq!(flat, indices[..15].to_vec());
    for (i, p) in patches.iter().enumerate() {
        assert_eq!(p.patch_index, i);
        assert!(p.vertices.len() <= 4 && p.indices.len() <= 6 && !p.vertices.is_empty());
    }
}

#[test]
fn split_with_unbounded_limits_keeps_one_patch() {
    // Limits far above 16-bit local indices, on a mesh with few vertices.
    let indices: Vec<u32> = vec![10, 11, 12, 12, 11, 13, 13, 14, 10];
    let patches = split_into_index_patches(&indices, 100_000, 1_000_000);
    assert_eq!(patches.len(), 1);
    assert_eq!(patches[0].vertices, vec![10, 11, 12, 13, 14]);
    let flat: Vec<u32> = patches.iter().flat_map(resolve).collect();
    assert_eq!(flat, indices);
}

#[test]
fn split_tiny_limits_give_one_patch_per_triangle() {
    let indices: Vec<u32> = vec![0, 1, 2, 0, 1, 2];
    let patches = split_into_index_patches(&indices, 1, 1);
    assert_eq!(patches.len(), 2);
    assert_eq!(patches[1].vertices, vec![0, 1, 2]);
}

#[test]
fn split_empty_and_partial_triangles() {
    assert!(split_into_index_patches(&[], 16, 32).is_empty());
    assert!(split_into_index_patches(&[0, 1], 16, 32).is_empty());
}

#[test]
fn split_degenerate_triangle_shares_local_vertex() {
    let patches = split_into_index_patches(&[5, 5, 7], 16, 32);
    assert_eq!(patches[0].vertices, vec![5, 7]);
    assert_eq!(patches[0].indices, vec![0, 0, 1]);
}

fn qv(px: u16, py: u16, pz: u16, nx: i16, ny: i16, nz: i16, u: i16, v: i16) -> QuantizedVertex {
    QuantizedVertex { position: [px, py, pz], normal: [nx, ny, nz], uv: [u, v] }
}

#[test]
fn test_soa_blob_total_size() {
    let vertices = vec![
        qv(0, 0, 0, 0, 32767, 0, 0, 0),
        qv(65535, 0, 0, 0, 32767, 0, 8192, 0),
        qv(0, 65535, 0, 0, 32767, 0, 0, 8192),
    ];
    let indices: Vec<u16> = vec![0, 1, 2];
    let blob = pack_soa_blob_quantized(&vertices, &indices);
    assert_eq!(blob.len(), 3 * 16 + 3 * 2);
}

#[test]
fn test_soa_blob_index_section() {
    let vertices = vec![qv(0, 0, 0, 0, 32767, 0, 0, 0), qv(65535, 0, 0, 0, 32767, 0, 8192, 0)];
    let indices: Vec<u16> = vec![0, 1, 0];
    let blob = pack_soa_blob_quantized(&vertices, &indices);
    let n = 2_usize;
    let idx_start = n * 16;
    let idx0 = u16::from_le_bytes([blob[idx_start], blob[idx_start + 1]]);
    let idx1 = u16::from_le_bytes([blob[idx_start + 2], blob[idx_start + 3]]);
    let idx2 = u16::from_le_bytes([blob[idx_start + 4], blob[idx_start + 5]]);
    assert_eq!(idx0, 0);
    assert_eq!(idx1, 1);
    assert_eq!(idx2, 0);
}

#[test]
fn soa_blob_column_offsets() {
    let vertices = vec![qv(1, 2, 3, -4, 5, -6, 7, -8), qv(10, 20, 30, 40, -50, 60, -70, 80)];
    let blob = pack_soa_blob_quantized(&vertices, &[]);
    let n = vertices.len();
    let read = |f: usize, i: usize| {
        u16::from_le_bytes([blob[2 * (f * n + i)], blob[2 * (f * n + i) + 1]])
    };
    for (i, v) in vertices.iter().enumerate() {
        assert_eq!(read(0, i), v.position[0]);
        assert_eq!(read(1, i), v.position[1]);
        assert_eq!(read(2, i), v.position[2]);
        assert_eq!(read(3, i) as i16, v.normal[0]);
        assert_eq!(read(4, i) as i16, v.normal[1]);
        assert_eq!(read(5, i) as i16, v.normal[2]);
        assert_eq!(read(6, i) as i16, v.uv[0]);
        assert_eq!(read(7, i) as i16, v.uv[1]);
    }
}

#[test]
fn texture_asset_size() {
    let t = TextureAsset {
        source: std::path::PathBuf::from("textures/test.png"),
        width: 8,
        height: 8,
        data: vec![0u8; 8 * 8 * 4],
        identifier: "TEXTURES_TEST".to_string(),
    };
    assert_eq!(t.size_bytes(), 256);
}

#[test]
fn test_merge_model_indices_offsets_later_models() {
    let models = vec![
        ModelIndices { position_len: 9, indices: vec![0, 1, 2] },
        ModelIndices { position_len: 0, indices: vec![7, 7, 7] },
        ModelIndices { position_len: 12, indices: vec![0, 2, 3, 3, 1, 0] },
    ];
    let (indices, vertex_count) = merge_model_indices(&models);
    assert_eq!(indices, vec![0, 1, 2, 3, 5, 6, 6, 4, 3]);
    assert_eq!(vertex_count, 7);
}

#[test]
fn test_merge_empty_model_name() {
    let (indices, vertex_count) = merge_model_indices(&[]);
    assert!(indices.is_empty());
    assert_eq!(vertex_count, 0);
}

#[test]
fn test_merge_model_indices_fits_detects_overflow() {
    let ok = vec![
        ModelIndices { position_len: 9, indices: vec![0, 1, 2] },
        ModelIndices { position_len: 3, indices: vec![u32::MAX - 3] },
    ];
    assert!(merge_model_indices_fits(&ok));
    let too_big = vec![
        ModelIndices { position_len: 9, indices: vec![0, 1, 2] },
        ModelIndices { position_len: 3, indices: vec![u32::MAX - 2] },
    ];
    assert!(!merge_model_indices_fits(&too_big));
    let skipped = vec![
        ModelIndices { position_len: 9, indices: vec![0, 1, 2] },
        ModelIndices { position_len: 0, indices: vec![u32::MAX] },
    ];
    assert!(merge_model_indices_fits(&skipped));
}
