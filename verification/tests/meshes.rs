use cycling_visualizer::atlas::{
    blit_glyph, glyph_cell_width, glyph_slot, shelf_layout, ATLAS_SIZE, ROW_HEIGHT,
};
use cycling_visualizer::geometry::{
    axis_ticks, push_segment_indices, ribbon_indices, smoothing_radius, smoothing_window,
};

#[test]
fn ribbon_through_three_points() {
    assert_eq!(ribbon_indices(3), vec![0, 2, 1, 1, 2, 3, 2, 4, 3, 3, 4, 5]);
    assert!(ribbon_indices(0).is_empty());
    assert!(ribbon_indices(1).is_empty());
    assert_eq!(ribbon_indices(2), vec![0, 2, 1, 1, 2, 3]);
}

#[test]
fn segment_quads() {
    let mut idx = vec![9];
    push_segment_indices(&mut idx, 4);
    assert_eq!(idx, vec![9, 4, 5, 6, 5, 7, 6]);
}

#[test]
fn smoothing_windows() {
    assert_eq!(smoothing_radius(true, 30), 30);
    assert_eq!(smoothing_radius(false, 30), 1);
    assert_eq!(smoothing_window(0, 5, 2), vec![0, 0, 0, 1, 2]);
    assert_eq!(smoothing_window(4, 5, 1), vec![3, 4, 4]);
    assert_eq!(smoothing_window(0, 1, 1), vec![0, 0, 0]);
    assert_eq!(smoothing_window(2, 5, 0), vec![2]);
}

#[test]
fn oversized_smoothing_wraps_to_an_empty_window() {
    assert_eq!(smoothing_radius(true, 0x8000_0001), i32::MIN + 1);
    assert_eq!(smoothing_radius(true, u32::MAX), -1);
    assert_eq!(smoothing_radius(true, i32::MAX as u32), i32::MAX);
    assert!(smoothing_window(0, 5, -1).is_empty());
    assert!(smoothing_window(3, 5, i32::MIN + 1).is_empty());
}

#[test]
fn elevation_axis_ticks() {
    assert_eq!(axis_ticks(0, 1000, 200, 0), vec![200, 400, 600, 800, 1000]);
    assert_eq!(axis_ticks(-100, 120, 50, -1000), vec![50, 100]);
    assert_eq!(axis_ticks(300, 1000, 100, 350), vec![400, 500, 600, 700, 800, 900, 1000]);
    assert!(axis_ticks(500, 400, 50, 0).is_empty());
    assert_eq!(axis_ticks(i32::MAX - 10, i32::MAX, 500, 0), vec![i32::MAX - 10]);
}

#[test]
fn glyph_cells() {
    assert_eq!(glyph_cell_width(10), 16);
    assert_eq!(glyph_cell_width(0), 6);
    assert_eq!(ROW_HEIGHT, 73);
}

#[test]
fn shelf_packing() {
    let cells = shelf_layout(&vec![400, 400, 400, 100], ATLAS_SIZE, ROW_HEIGHT);
    assert_eq!(cells, vec![(0, 0), (400, 0), (0, 77), (400, 77)]);
    let cells = shelf_layout(&vec![60, 60, 60], 100, 40);
    assert_eq!(cells, vec![(0, 0), (0, 44)]);
    assert!(shelf_layout(&vec![10], 100, 200).is_empty());
    let cells = shelf_layout(&vec![150, 10], 100, 40);
    assert_eq!(cells, vec![(0, 44)]);
    assert!(shelf_layout(&Vec::new(), 100, 10).is_empty());
}

#[test]
fn glyph_copy() {
    let tex = 4u32;
    let mut rgba = vec![7u8; 4 * 16];
    let bitmap = vec![10u8, 20, 30, 40, 50, 60];
    blit_glyph(&mut rgba, tex, 2, 1, &bitmap, 3, 2);
    let px = |x: usize, y: usize| rgba[4 * (y * 4 + x)..4 * (y * 4 + x) + 4].to_vec();
    assert_eq!(px(2, 1), vec![255, 255, 255, 10]);
    assert_eq!(px(3, 1), vec![255, 255, 255, 20]);
    assert_eq!(px(2, 2), vec![255, 255, 255, 40]);
    assert_eq!(px(3, 2), vec![255, 255, 255, 50]);
    assert_eq!(px(1, 1), vec![7, 7, 7, 7]);
    assert_eq!(px(0, 0), vec![7, 7, 7, 7]);
    assert_eq!(px(2, 3), vec![7, 7, 7, 7]);
}

#[test]
fn glyph_fallback_to_space() {
    let known = vec![' ', 'a', 'b', 'a'];
    assert_eq!(glyph_slot(&known, 'a'), Some(1));
    assert_eq!(glyph_slot(&known, 'b'), Some(2));
    assert_eq!(glyph_slot(&known, 'z'), Some(0));
    assert_eq!(glyph_slot(&vec!['a'], 'z'), None);
    assert_eq!(glyph_slot(&Vec::new(), ' '), None);
}
