use nano_snipper::geometry::{lparam_point, pin_window_size, CaptureMode, Rect};

#[test]
fn rect_edges_and_area() {
    let r = Rect::new(10, 20, 30, 40);
    assert_eq!(r, Rect { x: 10, y: 20, width: 30, height: 40 });
    assert_eq!(r.right(), 40);
    assert_eq!(r.bottom(), 60);
    assert_eq!(r.area(), 1200);
}

#[test]
fn rect_area_does_not_overflow() {
    let r = Rect::new(0, 0, u32::MAX, u32::MAX);
    assert_eq!(r.area(), (u32::MAX as u64) * (u32::MAX as u64));
}

#[test]
fn normalized_right_to_left_selection() {
    let r = Rect::normalized(100, 50, 20, 10);
    assert_eq!(r, Rect { x: 20, y: 10, width: 80, height: 40 });
}

#[test]
fn normalized_is_symmetric() {
    assert_eq!(Rect::normalized(3, 90, 70, -5), Rect::normalized(70, -5, 3, 90));
    assert_eq!(Rect::normalized(3, 90, 70, -5), Rect { x: 3, y: -5, width: 67, height: 95 });
}

#[test]
fn normalized_zero_size() {
    assert_eq!(Rect::normalized(7, 7, 7, 7), Rect { x: 7, y: 7, width: 0, height: 0 });
}

#[test]
fn lparam_point_sign_extends() {
    let lparam: isize = (100 << 16) | 0xFFFF;
    assert_eq!(lparam_point(lparam), (-1, 100));
    let lparam2: isize = (0x8000 << 16) | 0x7FFF;
    assert_eq!(lparam_point(lparam2), (32767, -32768));
}

#[test]
fn pin_window_is_capped() {
    assert_eq!(pin_window_size(1920, 1080), (800, 600));
    assert_eq!(pin_window_size(300, 200), (300, 200));
    assert_eq!(pin_window_size(800, 601), (800, 600));
}

#[test]
fn capture_modes_are_distinct() {
    assert_ne!(CaptureMode::Region, CaptureMode::Fullscreen);
    assert_ne!(CaptureMode::Window, CaptureMode::Region);
}
