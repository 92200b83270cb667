use nano_snipper::capture::{all_sample_black, crop_box, is_full_frame, window_region, CaptureError, CropBox};
use nano_snipper::geometry::Rect;

#[test]
fn window_regions() {
    assert_eq!(window_region(10, 20, 110, 220), Ok(Rect { x: 10, y: 20, width: 100, height: 200 }));
    assert_eq!(window_region(10, 20, 10, 220), Err(CaptureError::ZeroSize));
    assert_eq!(window_region(10, 20, 110, 20), Err(CaptureError::ZeroSize));
    assert_eq!(window_region(5, 0, 4, 1), Ok(Rect { x: 5, y: 0, width: u32::MAX, height: 1 }));
}

#[test]
fn full_frame_check() {
    assert!(is_full_frame(Rect::new(0, 0, 1920, 1080), 1920, 1080));
    assert!(!is_full_frame(Rect::new(1, 0, 1920, 1080), 1920, 1080));
    assert!(!is_full_frame(Rect::new(0, 0, 1919, 1080), 1920, 1080));
}

#[test]
fn crop_boxes() {
    assert_eq!(crop_box(Rect::new(100, 50, 300, 200)), CropBox { left: 100, top: 50, right: 400, bottom: 250 });
    assert_eq!(crop_box(Rect::new(-10, 0, 20, 5)), CropBox { left: 0xFFFF_FFF6, top: 0, right: 10, bottom: 5 });
}

#[test]
fn black_sample_check() {
    let black = vec![0u8, 0, 0, 255].repeat(20);
    assert!(all_sample_black(&black, 20));
    let mut one = black.clone();
    one[15 * 4 + 1] = 1;
    assert!(!all_sample_black(&one, 20));
    let mut late = black.clone();
    late[16 * 4] = 9;
    assert!(all_sample_black(&late, 20));
    assert!(all_sample_black(&[], 0));
    assert!(!all_sample_black(&[0, 7], 4));
}
