use nano_snipper::dib::{build_dibv5_header, dibv5_data, DIBV5_HEADER_SIZE};
use nano_snipper::glyph::{draw_text, get_glyph};
use nano_snipper::pixelate::{pixelate_region, sample_block_sums, BlockSums};
use nano_snipper::pixels::{fix_alpha, pack_rows, pin_layout, swap_red_blue, PixelBuffer};
use nano_snipper::raster::{blend_pixel, fill_rect, Bgra};

#[test]
fn pixel_buffer_keeps_its_fields() {
    let p = PixelBuffer::new(vec![1, 2, 3, 4], 1, 1, 4);
    assert_eq!(*p.data, vec![1, 2, 3, 4]);
    assert_eq!((p.width, p.height, p.stride), (1, 1, 4));
    let q = p.clone();
    assert!(std::sync::Arc::ptr_eq(&p.data, &q.data));
}

#[test]
fn pack_rows_drops_row_padding() {
    let src = vec![1, 2, 3, 4, 9, 9, 9, 9, 5, 6, 7, 8];
    assert_eq!(pack_rows(&src, 1, 2, 8), vec![1, 2, 3, 4, 5, 6, 7, 8]);
}

#[test]
fn fix_alpha_sets_only_alpha_bytes() {
    let mut d = vec![1, 2, 3, 4, 9, 9, 9, 9, 5, 6, 7, 8];
    fix_alpha(&mut d, 1, 2, 8);
    assert_eq!(d, vec![1, 2, 3, 255, 9, 9, 9, 9, 5, 6, 7, 255]);
}

#[test]
fn swap_red_blue_twice_is_identity() {
    let orig = vec![1, 2, 3, 4, 5, 6, 7, 8];
    let mut d = orig.clone();
    swap_red_blue(&mut d);
    assert_eq!(d, vec![3, 2, 1, 4, 7, 6, 5, 8]);
    swap_red_blue(&mut d);
    assert_eq!(d, orig);
}

#[test]
fn dibv5_header_fields() {
    let h = build_dibv5_header(2, 1);
    assert_eq!(h.len(), DIBV5_HEADER_SIZE as usize);
    assert_eq!(&h[0..4], &[124, 0, 0, 0]);
    assert_eq!(&h[4..8], &[2, 0, 0, 0]);
    assert_eq!(&h[8..12], &[0xFF, 0xFF, 0xFF, 0xFF]);
    assert_eq!(&h[12..16], &[1, 0, 32, 0]);
    assert_eq!(&h[16..20], &[0, 0, 0, 0]);
    assert_eq!(&h[20..24], &[8, 0, 0, 0]);
    assert_eq!(&h[24..28], &[0xC4, 0x0E, 0, 0]);
    assert_eq!(&h[40..44], &[0, 0, 0xFF, 0]);
    assert_eq!(&h[44..48], &[0, 0xFF, 0, 0]);
    assert_eq!(&h[48..52], &[0xFF, 0, 0, 0]);
    assert_eq!(&h[52..56], &[0, 0, 0, 0xFF]);
    assert_eq!(&h[56..60], &[0x42, 0x47, 0x52, 0x73]);
    assert_eq!(&h[108..112], &[4, 0, 0, 0]);
    assert!(h[112..124].iter().all(|&b| b == 0));
}

#[test]
fn dibv5_data_is_header_then_packed_rows() {
    let p = PixelBuffer::new(vec![1, 2, 3, 4, 9, 9, 9, 9, 5, 6, 7, 8], 1, 2, 8);
    let d = dibv5_data(&p);
    assert_eq!(d.len(), 124 + 8);
    assert_eq!(&d[..124], &build_dibv5_header(1, 2)[..]);
    assert_eq!(&d[124..], &[1, 2, 3, 4, 5, 6, 7, 8]);
}

#[test]
fn blend_pixel_translucent_opaque_and_outside() {
    let mut d = vec![0, 0, 0, 0, 100, 100, 100, 0];
    blend_pixel(&mut d, 8, 1, 0, 10, 20, 30, 128);
    assert_eq!(d, vec![0, 0, 0, 0, 54, 59, 64, 255]);
    blend_pixel(&mut d, 8, 0, 0, 7, 8, 9, 255);
    assert_eq!(&d[0..4], &[7, 8, 9, 255]);
    let before = d.clone();
    blend_pixel(&mut d, 8, 0, 0, 1, 1, 1, 0);
    assert_eq!(d, before);
    blend_pixel(&mut d, 8, 2, 0, 1, 1, 1, 255);
    assert_eq!(d, before);
}

#[test]
fn fill_rect_paints_half_open_rect() {
    let mut d = vec![0u8; 24];
    fill_rect(&mut d, 12, 1, 3, 0, 1, Bgra { b: 1, g: 2, r: 3, a: 255 });
    assert_eq!(d, vec![0, 0, 0, 0, 1, 2, 3, 255, 1, 2, 3, 255, 0, 0, 0, 0, 0, 0, 0, 0, 0, 0, 0, 0]);
}

#[test]
fn pixelate_averages_each_block() {
    let mut d = vec![0, 1, 10, 0, 4, 1, 20, 0, 8, 1, 30, 0, 12, 1, 41, 0];
    pixelate_region(&mut d, 16, 0, 4, 0, 1, 4);
    assert_eq!(d, vec![6, 1, 25, 255, 6, 1, 25, 255, 6, 1, 25, 255, 6, 1, 25, 255]);
}

#[test]
fn pixelate_cuts_blocks_from_the_corner() {
    let mut d: Vec<u8> = Vec::new();
    for v in [0u8, 4, 8, 12, 100, 200] {
        d.extend_from_slice(&[v, 0, 0, 0]);
    }
    pixelate_region(&mut d, 24, 0, 6, 0, 1, 4);
    let b: Vec<u8> = d.chunks(4).map(|p| p[0]).collect();
    assert_eq!(b, vec![6, 6, 6, 6, 150, 150]);
}

#[test]
fn glyphs_share_case_and_unknown_is_a_box() {
    assert_eq!(get_glyph('a'), get_glyph('A'));
    assert_eq!(get_glyph('A'), [0b01110, 0b10001, 0b10001, 0b11111, 0b10001, 0b10001, 0b10001]);
    assert_eq!(get_glyph('~'), [0b11111, 0b10001, 0b10001, 0b10001, 0b10001, 0b10001, 0b11111]);
    assert_eq!(get_glyph(' '), [0; 7]);
}

fn pixel(d: &[u8], stride: usize, x: usize, y: usize) -> [u8; 4] {
    let o = y * stride + 4 * x;
    [d[o], d[o + 1], d[o + 2], d[o + 3]]
}

#[test]
fn draw_text_scale_one() {
    let mut d = vec![0u8; 6 * 7 * 4];
    draw_text(&mut d, 6, 7, 24, 0, 0, "I", Bgra { b: 0, g: 0, r: 255, a: 255 }, 1);
    assert_eq!(pixel(&d, 24, 1, 0), [0, 0, 255, 255]);
    assert_eq!(pixel(&d, 24, 0, 0), [0, 0, 0, 0]);
    assert_eq!(pixel(&d, 24, 2, 3), [0, 0, 255, 255]);
    assert_eq!(pixel(&d, 24, 1, 3), [0, 0, 0, 0]);
    let lit = d.chunks(4).filter(|p| p[3] == 255).count();
    assert_eq!(lit, 3 + 5 + 3);
}

#[test]
fn draw_text_scale_two_and_clipping() {
    let mut d = vec![0u8; 12 * 14 * 4];
    draw_text(&mut d, 12, 14, 48, 0, 0, ".", Bgra { b: 9, g: 9, r: 9, a: 255 }, 2);
    let lit: Vec<(usize, usize)> = (0..14).flat_map(|y| (0..12).map(move |x| (x, y)))
        .filter(|&(x, y)| pixel(&d, 48, x, y)[3] == 255).collect();
    assert_eq!(lit, vec![(4, 12), (5, 12), (4, 13), (5, 13)]);

    let mut e = vec![0u8; 6 * 7 * 4];
    draw_text(&mut e, 6, 7, 24, -2, 0, "I", Bgra { b: 1, g: 1, r: 1, a: 255 }, 1);
    assert_eq!(pixel(&e, 24, 0, 1), [1, 1, 1, 255]);
    assert_eq!(pixel(&e, 24, 1, 0), [1, 1, 1, 255]);
    assert_eq!(pixel(&e, 24, 2, 0), [0, 0, 0, 0]);
}

#[test]
fn draw_text_second_character_starts_six_columns_on() {
    let mut d = vec![0u8; 12 * 7 * 4];
    draw_text(&mut d, 12, 7, 48, 0, 0, " -", Bgra { b: 0, g: 200, r: 0, a: 255 }, 1);
    let lit: Vec<(usize, usize)> = (0..7).flat_map(|y| (0..12).map(move |x| (x, y)))
        .filter(|&(x, y)| pixel(&d, 48, x, y)[3] == 255).collect();
    assert_eq!(lit, vec![(6, 3), (7, 3), (8, 3), (9, 3), (10, 3)]);
}

#[test]
fn block_sums_leave_out_pixels_outside_the_image() {
    let d = vec![10, 20, 30, 255, 1, 2, 3, 255, 5, 5, 5, 255, 7, 7, 7, 255];
    let all = sample_block_sums(&d, 2, 2, 8, 0, 0, 2, 2);
    assert_eq!(all, BlockSums { blue: 23, green: 34, red: 45, count: 4 });
    let edge = sample_block_sums(&d, 2, 2, 8, -1, 1, 4, 4);
    assert_eq!(edge, BlockSums { blue: 12, green: 12, red: 12, count: 2 });
    let none = sample_block_sums(&d, 2, 2, 8, 5, 5, 3, 3);
    assert_eq!(none, BlockSums { blue: 0, green: 0, red: 0, count: 0 });
    let short = sample_block_sums(&d[..10], 2, 2, 8, 0, 0, 2, 2);
    assert_eq!(short, BlockSums { blue: 11, green: 22, red: 33, count: 2 });
}

#[test]
fn pin_window_layout() {
    let big = PixelBuffer::new(vec![0; 1000 * 4 * 700], 1000, 700, 4000);
    let l = pin_layout(&big);
    assert_eq!((l.x, l.y, l.width, l.height), (100, 100, 800, 600));
    assert_eq!((l.bitmap_width, l.bitmap_height, l.bitmap_pitch), (1000, 700, 4000));
    assert_eq!(l.bitmap.len(), 1000 * 4 * 700);
    let small = PixelBuffer::new(vec![7; 8 * 3], 2, 3, 8);
    let l = pin_layout(&small);
    assert_eq!((l.x, l.y, l.width, l.height), (100, 100, 2, 3));
    assert_eq!(l.bitmap, &vec![7u8; 24]);
}
