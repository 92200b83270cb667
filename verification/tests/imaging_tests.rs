use nano_snipper::imaging::{capture_png, history_png, history_rgba, thumbnail_jpeg};
use nano_snipper::pixels::PixelBuffer;

#[test]
fn history_rgba_swaps_and_fills_missing_pixels() {
    let p = PixelBuffer::new(vec![1, 2, 3, 4, 5, 6, 7, 8, 0, 0, 9, 10, 11, 12], 2, 2, 8);
    let rgba = history_rgba(&p);
    assert_eq!(rgba, vec![3, 2, 1, 4, 7, 6, 5, 8, 9, 0, 0, 10, 0, 0, 0, 255]);
}

#[test]
fn capture_png_round_trips_through_a_decoder() {
    let bgra = vec![255, 0, 0, 255, 0, 0, 0, 0, 7, 7, 0, 255, 0, 128, 0, 0, 255, 255];
    let p = PixelBuffer::new(bgra, 2, 2, 10);
    let png = capture_png(&p).expect("encodes");
    assert_eq!(&png[..8], &[0x89, b'P', b'N', b'G', 0x0D, 0x0A, 0x1A, 0x0A]);
    let img = image::load_from_memory(&png).expect("decodes").to_rgba8();
    assert_eq!(img.dimensions(), (2, 2));
    assert_eq!(img.into_raw(), vec![0, 0, 255, 255, 0, 0, 0, 0, 0, 255, 0, 128, 255, 0, 0, 255]);
}

#[test]
fn history_png_round_trips_through_a_decoder() {
    let p = PixelBuffer::new(vec![10, 20, 30, 40], 1, 1, 4);
    let png = history_png(&p).expect("encodes");
    let img = image::load_from_memory(&png).expect("decodes").to_rgba8();
    assert_eq!(img.into_raw(), vec![30, 20, 10, 40]);
}

#[test]
fn empty_image_is_refused_by_the_encoder() {
    let p = PixelBuffer::new(vec![], 0, 0, 0);
    assert!(capture_png(&p).is_none());
}

#[test]
fn thumbnail_is_a_jpeg_of_the_new_size() {
    let rgba = vec![200u8; 4 * 8 * 4];
    let jpg = thumbnail_jpeg(&rgba, 8, 4, 4, 2).expect("encodes");
    assert_eq!(&jpg[..2], &[0xFF, 0xD8]);
    let img = image::load_from_memory(&jpg).expect("decodes");
    assert_eq!((img.width(), img.height()), (4, 2));
}
