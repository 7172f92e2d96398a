//! Depth testing, brightness quantization and frame-buffer mechanics.

use ascii_torus::framebuffer::{display_size_or_default, FrameBuffer, DEPTH_INF};
use ascii_torus::luminance::{luminance_index, ramp_char};
use ascii_torus::raster::{rasterize, ProjPoint};

fn pt(x: i64, y: i64, depth: i64, lum: i64) -> ProjPoint {
    ProjPoint { x, y, depth, lum }
}

#[test]
fn quantization_boundaries() {
    // brightness <= 0 falls in the faintest bucket
    assert_eq!(luminance_index(-1000), 0);
    assert_eq!(luminance_index(0), 0);
    // fixed-point 256 is brightness 1.0: floor(1.0 * 12) = 12
    assert_eq!(luminance_index(256), 12);
    // the smallest brightness that reaches the brightest bucket is 278/256
    assert_eq!(luminance_index(277), 12);
    assert_eq!(luminance_index(278), 13);
    // far past the maximum still clamps to 13
    assert_eq!(luminance_index(i64::MAX), 13);
}

#[test]
fn quantization_never_leaves_the_ramp() {
    for lum in [-300, -1, 0, 1, 21, 22, 100, 255, 256, 277, 278, 5000] {
        assert!(luminance_index(lum) <= 13);
    }
    // one exact interior value: floor(100/256 * 12) = floor(4.6875) = 4
    assert_eq!(luminance_index(100), 4);
}

#[test]
fn ramp_runs_from_faintest_to_brightest() {
    assert_eq!(ramp_char(0), '.');
    assert_eq!(ramp_char(1), ',');
    assert_eq!(ramp_char(12), '%');
    assert_eq!(ramp_char(13), '&');
}

#[test]
fn nearest_sample_wins_the_cell() {
    let mut fb = FrameBuffer::new(4, 3);
    let pts = vec![pt(1, 2, 900, 278), pt(1, 2, 300, 22), pt(1, 2, 600, 256)];
    rasterize(&mut fb, &pts);
    let idx = 2 * 4 + 1;
    assert_eq!(fb.depths[idx], 300);
    // floor(22/256 * 12) = 1 -> ','
    assert_eq!(fb.glyphs[idx], ',');
}

#[test]
fn depth_equals_minimum_of_front_facing_samples() {
    let mut fb = FrameBuffer::new(4, 3);
    // the back-facing sample is nearer but must not win the cell
    let pts = vec![pt(2, 0, 100, 0), pt(2, 0, 500, 30), pt(2, 0, 400, -7)];
    rasterize(&mut fb, &pts);
    assert_eq!(fb.depths[2], 500);
    assert_eq!(fb.glyphs[2], ramp_char(luminance_index(30)));
}

#[test]
fn back_facing_samples_never_write() {
    let mut fb = FrameBuffer::new(4, 3);
    rasterize(&mut fb, &vec![pt(0, 0, 10, 0), pt(0, 0, 20, -1)]);
    assert_eq!(fb.glyphs[0], ' ');
    assert_eq!(fb.depths[0], DEPTH_INF);
}

#[test]
fn out_of_bounds_samples_are_discarded() {
    let mut fb = FrameBuffer::new(4, 3);
    let pts = vec![
        pt(-1, 0, 10, 300),
        pt(0, -1, 10, 300),
        pt(4, 0, 10, 300),
        pt(0, 3, 10, 300),
        pt(i64::MIN, i64::MAX, 10, 300),
    ];
    rasterize(&mut fb, &pts);
    for k in 0..12 {
        assert_eq!(fb.glyphs[k], ' ');
        assert_eq!(fb.depths[k], DEPTH_INF);
    }
}

#[test]
fn rasterizing_again_clears_the_previous_frame() {
    let mut fb = FrameBuffer::new(4, 3);
    rasterize(&mut fb, &vec![pt(3, 2, 10, 300)]);
    assert_eq!(fb.glyphs[2 * 4 + 3], '&');
    // a second pass with other samples must not keep any old cell
    rasterize(&mut fb, &vec![pt(0, 0, 10, 300)]);
    assert_eq!(fb.glyphs[2 * 4 + 3], ' ');
    assert_eq!(fb.depths[2 * 4 + 3], DEPTH_INF);
    assert_eq!(fb.glyphs[0], '&');
}

#[test]
fn identical_inputs_rasterize_identically() {
    let pts = vec![pt(0, 0, 10, 300), pt(1, 1, 20, 50), pt(1, 1, 15, 90)];
    let mut fb1 = FrameBuffer::new(3, 2);
    let mut fb2 = FrameBuffer::new(3, 2);
    rasterize(&mut fb1, &pts);
    rasterize(&mut fb2, &pts);
    rasterize(&mut fb2, &pts);
    assert_eq!(fb1.glyphs, fb2.glyphs);
    assert_eq!(fb1.depths, fb2.depths);
}

#[test]
fn new_buffer_is_blank_with_depths_at_infinity() {
    let fb = FrameBuffer::new(5, 4);
    assert_eq!(fb.glyphs.len(), 20);
    assert_eq!(fb.depths.len(), 20);
    assert!(fb.glyphs.iter().all(|&c| c == ' '));
    assert!(fb.depths.iter().all(|&d| d == DEPTH_INF));
}

#[test]
fn frame_text_breaks_rows_before_each_line() {
    let mut fb = FrameBuffer::new(2, 2);
    rasterize(&mut fb, &vec![pt(0, 0, 10, 300), pt(1, 1, 10, 22)]);
    let text: String = fb.frame_chars().iter().collect();
    assert_eq!(text, "\n& \n ,");
}

#[test]
fn display_size_falls_back_to_default() {
    assert_eq!(display_size_or_default(Some((100, 40))), (100, 40));
    assert_eq!(display_size_or_default(None), (240, 80));
}
