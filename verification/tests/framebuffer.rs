//! The draw buffer: index mapping, color reordering and pixel runs.

use psp::fb::{rgb_to_bgr, Framebuffer, BUF_WIDTH, BUF_WORDS, SCREEN_HEIGHT, SCREEN_WIDTH};

#[test]
fn point_to_index_maps_the_corners() {
    let fb = Framebuffer::new();
    assert_eq!(fb.point_to_index(0, 0), Some(0));
    assert_eq!(fb.point_to_index(511, 0), Some(511));
    assert_eq!(fb.point_to_index(0, 1), Some(512));
    assert_eq!(fb.point_to_index(511, 271), Some(BUF_WORDS - 1));
}

#[test]
fn point_to_index_rejects_points_outside() {
    let fb = Framebuffer::new();
    assert_eq!(fb.point_to_index(512, 0), None);
    assert_eq!(fb.point_to_index(0, 272), None);
    assert_eq!(fb.point_to_index(-1, 10), None);
    assert_eq!(fb.point_to_index(10, -1), None);
}

#[test]
fn size_reports_the_visible_display() {
    let fb = Framebuffer::new();
    assert_eq!(fb.size(), (SCREEN_WIDTH, SCREEN_HEIGHT));
}

#[test]
fn rgb_to_bgr_swaps_the_color_channels() {
    assert_eq!(rgb_to_bgr(0x00AABBCC), 0x00CCBBAA);
    assert_eq!(rgb_to_bgr(0x00FF0000), 0x000000FF);
    assert_eq!(rgb_to_bgr(0x000000FF), 0x00FF0000);
    assert_eq!(rgb_to_bgr(0xFFAABBCC), 0xFFCCBBAA);
    assert_eq!(rgb_to_bgr(0), 0);
}

#[test]
fn draw_pixel_stores_the_converted_word() {
    let mut fb = Framebuffer::new();
    fb.draw_pixel(3, 2, 0x00AABBCC);
    let i = (3 + 2 * BUF_WIDTH) as usize;
    assert_eq!(fb.buf[i], 0x00CCBBAA);
    assert_eq!(fb.buf[0], 0);
}

#[test]
fn draw_pixel_skips_points_outside() {
    let mut fb = Framebuffer::new();
    fb.draw_pixel(-5, 10, 0x00FFFFFF);
    fb.draw_pixel(512, 0, 0x00FFFFFF);
    fb.draw_pixel(0, 272, 0x00FFFFFF);
    assert!(fb.buf.iter().all(|w| *w == 0));
}

#[test]
fn draw_iter_writes_a_run_in_order() {
    let mut fb = Framebuffer::new();
    let pixels = vec![
        (0, 0, 0x00112233u32),
        (1, 0, 0x00445566),
        (900, 5, 0x00FFFFFF), // outside: skipped
        (0, 0, 0x00AABBCC),   // overwrites the first pixel
    ];
    fb.draw_iter(&pixels);
    assert_eq!(fb.buf[0], rgb_to_bgr(0x00AABBCC));
    assert_eq!(fb.buf[1], rgb_to_bgr(0x00445566));
    assert_eq!(fb.buf[2], 0);
}
