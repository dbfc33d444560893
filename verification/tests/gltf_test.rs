//! Tests of the GLB framing.

use polyhedra::export::gltf::{glb_bytes, glb_layout, pad4};

fn u32_at(bytes: &[u8], at: usize) -> u32 {
    u32::from_le_bytes(bytes[at..at + 4].try_into().unwrap())
}

fn sample() -> Vec<u8> {
    let triangles = vec![[0u32, 1, 2]];
    let positions = vec![
        [0f32.to_bits(), 0f32.to_bits(), 0f32.to_bits()],
        [1f32.to_bits(), 0f32.to_bits(), 0f32.to_bits()],
        [0f32.to_bits(), 1f32.to_bits(), 0f32.to_bits()],
    ];
    let normals = vec![[0f32.to_bits(), 0f32.to_bits(), 1f32.to_bits()]; 3];
    glb_bytes(br#"{"asset":{"version":"2.0"}}"#, &triangles, &positions, &normals)
}

#[test]
fn pad4_rounds_up() {
    assert_eq!(pad4(0), 0);
    assert_eq!(pad4(1), 4);
    assert_eq!(pad4(4), 4);
    assert_eq!(pad4(5), 8);
}

#[test]
fn frame_starts_with_gltf_magic() {
    assert_eq!(&sample()[0..4], b"glTF");
}

#[test]
fn frame_version_word_is_2() {
    assert_eq!(u32_at(&sample(), 4), 2);
}

#[test]
fn frame_length_word_is_the_file_length() {
    let bytes = sample();
    assert_eq!(u32_at(&bytes, 8) as usize, bytes.len());
}

#[test]
fn frame_json_chunk_type() {
    assert_eq!(u32_at(&sample(), 16), 0x4E4F_534A);
}

#[test]
fn frame_json_is_padded_with_spaces() {
    let bytes = sample();
    let json_len = u32_at(&bytes, 12) as usize;
    let text = std::str::from_utf8(&bytes[20..20 + json_len]).unwrap();
    assert_eq!(text.trim_end_matches(' '), r#"{"asset":{"version":"2.0"}}"#);
}

#[test]
fn frame_bin_chunk_type() {
    let bytes = sample();
    let json_len = u32_at(&bytes, 12) as usize;
    assert_eq!(u32_at(&bytes, 20 + json_len + 4), 0x004E_4942);
}

#[test]
fn frame_chunks_are_4_byte_aligned() {
    let bytes = sample();
    let json_len = u32_at(&bytes, 12) as usize;
    let bin_len = u32_at(&bytes, 20 + json_len) as usize;
    assert_eq!(json_len % 4, 0);
    assert_eq!(bin_len % 4, 0);
    // 3 indices + 9 position words + 9 normal words, 4 bytes each.
    assert_eq!(bin_len, 84);
    let bin = &bytes[28 + json_len..];
    assert_eq!(u32_at(bin, 0), 0);
    assert_eq!(u32_at(bin, 8), 2);
    assert_eq!(f32::from_bits(u32_at(bin, 24)), 1.0);
}

#[test]
fn layout_of_buffer_views() {
    let l = glb_layout(3, 1);
    assert_eq!(l.index_count, 3);
    assert_eq!(l.idx_bytes, 12);
    assert_eq!(l.pos_bytes, 36);
    assert_eq!(l.norm_bytes, 36);
    assert_eq!(l.bin_padded_len, 84);
}
