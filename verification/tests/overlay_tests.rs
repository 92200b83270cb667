use nano_snipper::geometry::{CaptureMode, Rect};
use nano_snipper::overlay::{
    dimension_label, FoundWindow, MouseCapture, OverlayEvent, OverlayResult, ScreenPoint, SelectionState,
    WindowRect, VK_ESCAPE,
};

fn shown(mode: CaptureMode, ox: i32, oy: i32) -> SelectionState {
    let mut s = SelectionState::new();
    let step = s.handle(OverlayEvent::Show { mode, origin_x: ox, origin_y: oy });
    assert_eq!(step.finish, None);
    s
}

#[test]
fn region_drag_gives_normalized_screen_rect() {
    let mut s = shown(CaptureMode::Region, -1920, 0);
    let down = s.handle(OverlayEvent::LButtonDown { x: 400, y: 300 });
    assert_eq!(down.mouse, MouseCapture::Capture);
    let mv = s.handle(OverlayEvent::MouseMove { x: 100, y: 100 });
    assert!(mv.redraw);
    let up = s.handle(OverlayEvent::LButtonUp);
    assert_eq!(up.mouse, MouseCapture::Release);
    assert_eq!(up.finish, Some(OverlayResult::Region(Rect { x: -1820, y: 100, width: 300, height: 200 })));
}

#[test]
fn tiny_selection_is_ignored() {
    let mut s = shown(CaptureMode::Region, 0, 0);
    s.handle(OverlayEvent::LButtonDown { x: 10, y: 10 });
    s.handle(OverlayEvent::MouseMove { x: 14, y: 40 });
    let up = s.handle(OverlayEvent::LButtonUp);
    assert_eq!(up.finish, None);
    assert!(s.awaiting);
    s.handle(OverlayEvent::LButtonDown { x: 10, y: 10 });
    s.handle(OverlayEvent::MouseMove { x: 14, y: 14 });
    assert_eq!(s.handle(OverlayEvent::LButtonUp).finish, None);
    s.handle(OverlayEvent::LButtonDown { x: 10, y: 10 });
    s.handle(OverlayEvent::MouseMove { x: 15, y: 15 });
    assert_eq!(s.handle(OverlayEvent::LButtonUp).finish, Some(OverlayResult::Region(Rect { x: 10, y: 10, width: 5, height: 5 })));
}

#[test]
fn escape_cancels_once() {
    let mut s = shown(CaptureMode::Region, 0, 0);
    s.handle(OverlayEvent::LButtonDown { x: 1, y: 1 });
    let esc = s.handle(OverlayEvent::KeyDown { vk: VK_ESCAPE });
    assert_eq!(esc.finish, Some(OverlayResult::Cancelled));
    assert_eq!(s.handle(OverlayEvent::KeyDown { vk: VK_ESCAPE }).finish, None);
    assert_eq!(s.handle(OverlayEvent::LButtonUp).finish, None);
}

#[test]
fn window_mode_probes_and_picks_window() {
    let mut s = shown(CaptureMode::Window, 100, 50);
    let mv = s.handle(OverlayEvent::MouseMove { x: 10, y: 20 });
    assert_eq!(mv.probe, Some(ScreenPoint { x: 110, y: 70 }));
    let rect = WindowRect { left: 0, top: 0, right: 640, bottom: 480 };
    s.handle(OverlayEvent::WindowProbed(Some(FoundWindow { hwnd: 0x1234, rect })));
    assert_eq!(s.hovered_rect, Some(rect));
    let click = s.handle(OverlayEvent::LButtonDown { x: 10, y: 20 });
    assert_eq!(click.finish, Some(OverlayResult::Window(0x1234)));
}

#[test]
fn window_mode_click_on_nothing_does_nothing() {
    let mut s = shown(CaptureMode::Window, 0, 0);
    s.handle(OverlayEvent::WindowProbed(None));
    assert_eq!(s.handle(OverlayEvent::LButtonDown { x: 5, y: 5 }).finish, None);
    assert!(s.awaiting);
}

#[test]
fn dimension_label_text() {
    assert_eq!(dimension_label(10, 10, 310, 210), "300\u{00D7}200");
    assert_eq!(dimension_label(310, 210, 10, 10), "300\u{00D7}200");
    assert_eq!(dimension_label(5, 5, 5, 5), "0\u{00D7}0");
}
