use cycling_visualizer::global_mesh::parse_global;
use cycling_visualizer::legacy::parse_legacy_profile;
use cycling_visualizer::profile::{
    load_profile, parse_profile, point_map_positions, profile_points, vertex_map_positions,
    ProfileError,
};
use cycling_visualizer::wire::{read_bytes, read_u32_le, read_words};
use flate2::write::GzEncoder;
use flate2::Compression;
use std::io::Write;

fn word(out: &mut Vec<u8>, w: u32) {
    out.extend_from_slice(&w.to_le_bytes());
}

fn text(out: &mut Vec<u8>, s: &str) {
    word(out, s.len() as u32);
    out.extend_from_slice(s.as_bytes());
}

fn stage_bytes(out: &mut Vec<u8>, name: &str, vertices: &[f32], indices: &[u32]) {
    text(out, name);
    text(out, "Lille");
    text(out, "Paris");
    text(out, "4 juillet");
    for v in [185_000.0f32, 1250.0, 20.0, -12.5, 48.25] {
        word(out, v.to_bits());
    }
    for k in 0..60u32 {
        word(out, (k as f32 * 10.0).to_bits());
    }
    word(out, vertices.len() as u32);
    word(out, indices.len() as u32);
    for v in vertices {
        word(out, v.to_bits());
    }
    for i in indices {
        word(out, *i);
    }
}

fn gzip(data: &[u8]) -> Vec<u8> {
    let mut e = GzEncoder::new(Vec::new(), Compression::default());
    e.write_all(data).unwrap();
    e.finish().unwrap()
}

#[test]
fn reads_little_endian_words() {
    let data = [0x01u8, 0x02, 0x03, 0x04, 0xff, 0xff, 0xff, 0xff];
    assert_eq!(read_u32_le(&data, 0), 0x0403_0201);
    assert_eq!(read_u32_le(&data, 4), u32::MAX);
    assert_eq!(read_words(&data, 0, 2), vec![0x0403_0201, u32::MAX]);
    assert_eq!(read_bytes(&data, 1, 3), vec![2, 3, 4]);
}

#[test]
fn parses_two_stages() {
    let mut data = Vec::new();
    word(&mut data, 2);
    stage_bytes(&mut data, "Etape 1", &[1.0, 2.0, 3.0], &[0, 1, 2]);
    stage_bytes(&mut data, "Étape 2", &[], &[]);
    data.extend_from_slice(&[9, 9, 9]);
    let stages = parse_profile(&data).unwrap();
    assert_eq!(stages.len(), 2);
    assert_eq!(stages[0].name, b"Etape 1".to_vec());
    assert_eq!(stages[0].start, b"Lille".to_vec());
    assert_eq!(stages[0].finish, b"Paris".to_vec());
    assert_eq!(stages[0].date, b"4 juillet".to_vec());
    assert_eq!(f32::from_bits(stages[0].max_dist), 185_000.0);
    assert_eq!(f32::from_bits(stages[0].max_ele), 1250.0);
    assert_eq!(f32::from_bits(stages[0].min_ele), 20.0);
    assert_eq!(f32::from_bits(stages[0].global_lx), -12.5);
    assert_eq!(f32::from_bits(stages[0].global_ly), 48.25);
    assert_eq!(stages[0].sparkline.len(), 60);
    assert_eq!(f32::from_bits(stages[0].sparkline[59]), 590.0);
    assert_eq!(stages[0].vertices, vec![1.0f32.to_bits(), 2.0f32.to_bits(), 3.0f32.to_bits()]);
    assert_eq!(stages[0].indices, vec![0, 1, 2]);
    assert_eq!(String::from_utf8(stages[1].name.clone()).unwrap(), "Étape 2");
    assert!(stages[1].vertices.is_empty());
}

#[test]
fn rejects_truncated_profiles() {
    let mut data = Vec::new();
    word(&mut data, 2);
    stage_bytes(&mut data, "Etape 1", &[1.0], &[0]);
    assert!(parse_profile(&data).is_none());
    assert!(parse_profile(&[1, 0]).is_none());
    let mut short = Vec::new();
    word(&mut short, 1);
    stage_bytes(&mut short, "A", &[1.0, 2.0], &[]);
    short.pop();
    assert!(parse_profile(&short).is_none());
    let mut empty = Vec::new();
    word(&mut empty, 0);
    assert_eq!(parse_profile(&empty).unwrap().len(), 0);
}

#[test]
fn loads_gzip_profile() {
    let mut data = Vec::new();
    word(&mut data, 1);
    stage_bytes(&mut data, "Prologue", &[4.0, 5.0], &[7]);
    let file = gzip(&data);
    let stages = load_profile(&file).unwrap();
    assert_eq!(stages.len(), 1);
    assert_eq!(stages[0].name, b"Prologue".to_vec());
    assert_eq!(stages[0].indices, vec![7]);
    assert!(matches!(load_profile(&data), Err(ProfileError::Decompress)));
    let truncated = gzip(&data[..data.len() - 1]);
    assert!(matches!(load_profile(&truncated), Err(ProfileError::Truncated)));
}

#[test]
fn extracts_profile_points_and_positions() {
    let vertices: Vec<u32> = (0..52u32).collect();
    assert_eq!(profile_points(&vertices), vec![(0, 1), (26, 27)]);
    assert_eq!(point_map_positions(&vertices), vec![(2, 3), (28, 29)]);
    assert_eq!(vertex_map_positions(&vertices), vec![(2, 3), (15, 16), (28, 29), (41, 42)]);
    let partial: Vec<u32> = (0..30u32).collect();
    assert_eq!(profile_points(&partial), vec![(0, 1), (26, 27)]);
    assert_eq!(point_map_positions(&partial), vec![(2, 3), (28, 29)]);
    assert_eq!(vertex_map_positions(&partial), vec![(2, 3), (15, 16)]);
    assert!(profile_points(&Vec::new()).is_empty());
}

fn global_bytes(fv: u32, fi: u32, lv: u32, li: u32) -> Vec<u8> {
    let mut out = Vec::new();
    for w in [fv, fi, lv, li] {
        word(&mut out, w);
    }
    let total = 8 * fv + 4 * fi + 32 * lv + 4 * li;
    for k in 0..total {
        out.push((k % 251) as u8);
    }
    out
}

#[test]
fn parses_global_map() {
    let mut data = global_bytes(2, 3, 1, 6);
    data.push(0xaa);
    let mesh = parse_global(&data).unwrap();
    assert_eq!(mesh.fill_vertices.len(), 16);
    assert_eq!(mesh.fill_indices.len(), 12);
    assert_eq!(mesh.line_vertices.len(), 32);
    assert_eq!(mesh.line_indices.len(), 24);
    assert_eq!(mesh.fill_index_count, 3);
    assert_eq!(mesh.line_index_count, 6);
    assert_eq!(mesh.fill_vertices[0], 0);
    assert_eq!(mesh.fill_indices[0], 16);
    assert_eq!(mesh.line_vertices[0], 28);
    assert_eq!(mesh.line_indices[23], 83);
}

#[test]
fn rejects_bad_global_maps() {
    let data = global_bytes(2, 3, 1, 6);
    assert!(parse_global(&data[..data.len() - 1]).is_none());
    assert!(parse_global(&data[..15]).is_none());
    let mut overflow = Vec::new();
    for w in [0x2000_0000u32, 0, 0, 0] {
        word(&mut overflow, w);
    }
    assert!(parse_global(&overflow).is_none());
    let empty = global_bytes(0, 0, 0, 0);
    let mesh = parse_global(&empty).unwrap();
    assert!(mesh.fill_vertices.is_empty() && mesh.line_indices.is_empty());
}

fn legacy_stage(out: &mut Vec<u8>, name: &str, max_dist: f32, max_ele: f32, nv: u32, ni: u32, np: u32) {
    text(out, name);
    text(out, "A");
    text(out, "B");
    text(out, "C");
    for v in [max_dist, max_ele, 3.0] {
        word(out, v.to_bits());
    }
    for _ in 0..60 {
        word(out, 0);
    }
    word(out, nv);
    for k in 0..nv {
        word(out, k);
    }
    word(out, ni);
    for k in 0..ni {
        word(out, k);
    }
    word(out, np);
    for k in 0..2 * np {
        word(out, k);
    }
}

#[test]
fn parses_legacy_layout() {
    let mut data = Vec::new();
    word(&mut data, 2);
    legacy_stage(&mut data, "Plat", 200_000.0, 300.0, 2, 3, 1);
    legacy_stage(&mut data, "Montagne", 150_000.0, 2400.0, 0, 0, 2);
    let stages = parse_legacy_profile(&data).unwrap();
    assert_eq!(stages.len(), 2);
    assert_eq!(stages[0].name, b"Plat".to_vec());
    assert_eq!(f32::from_bits(stages[1].max_ele), 2400.0);
    assert_eq!(f32::from_bits(stages[1].max_dist), 150_000.0);
    assert!(parse_legacy_profile(&data[..data.len() - 1]).is_none());
}
