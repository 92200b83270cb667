use nano_snipper::annotate::{AnnotationTool, EditAction};
use nano_snipper::editor::{editor_window, ToolChoice, ToolbarHit};
use nano_snipper::session::{EditorEvent, EditorResult, EditorSession};
use nano_snipper::annotate::MoveRequest;

fn make_text(x: i32, y: i32, t: String) -> String {
    format!("{}@{},{}", t, x, y)
}

fn key(vk: u32, ctrl: bool, shift: bool) -> EditorEvent<String, i32> {
    EditorEvent::Key { vk, ctrl, shift }
}

fn shown() -> EditorSession<String, i32> {
    let mut s: EditorSession<String, i32> = EditorSession::new((0, 0));
    assert!(!s.awaiting);
    s.begin();
    assert!(s.awaiting);
    assert_eq!(s.choice, ToolChoice { tool: AnnotationTool::Arrow, color_index: 2, thickness_index: 1, emoji_index: 0 });
    s
}

#[test]
fn escape_cancels_exactly_once() {
    let mut s = shown();
    let a = s.handle(key(0x1B, false, false), &make_text);
    assert_eq!(a.result, Some(EditorResult::Cancelled));
    assert!(!s.awaiting);
    let b = s.handle(key(0x1B, false, false), &make_text);
    assert_eq!(b.result, None);
    let c = s.handle(key(0x0D, false, false), &make_text);
    assert_eq!(c.result, None);
}

#[test]
fn done_with_no_annotations_delivers_empty_layer() {
    let mut s = shown();
    let a = s.handle(key(0x0D, false, false), &make_text);
    assert_eq!(a.result, Some(EditorResult::Done));
    assert!(s.history.layer.annotations.is_empty());
}

#[test]
fn shift_enter_commits_text_then_delivers() {
    let mut s = shown();
    s.handle(EditorEvent::Toolbar(ToolbarHit::Tool(AnnotationTool::Text)), &make_text);
    s.handle(EditorEvent::CanvasDown { at: (3, 4) }, &make_text);
    assert!(s.text.editing);
    s.handle(EditorEvent::Char('h'), &make_text);
    s.handle(EditorEvent::Char('\u{7}'), &make_text);
    s.handle(EditorEvent::Char('i'), &make_text);
    let a = s.handle(key(0x0D, false, true), &make_text);
    assert_eq!(a.result, Some(EditorResult::Done));
    assert!(a.notify);
    assert_eq!(s.history.layer.annotations, vec!["hi@3,4".to_string()]);
    assert!(!s.text.editing);
    let b = s.handle(key(0x0D, false, false), &make_text);
    assert_eq!(b.result, None);
}

#[test]
fn escape_while_typing_only_drops_the_text() {
    let mut s = shown();
    s.handle(key(0x54, false, false), &make_text);
    s.handle(EditorEvent::CanvasDown { at: (1, 1) }, &make_text);
    s.handle(EditorEvent::Char('x'), &make_text);
    let a = s.handle(key(0x1B, false, false), &make_text);
    assert_eq!(a.result, None);
    assert!(!a.notify);
    assert!(s.awaiting);
    assert!(!s.text.editing);
    assert!(s.history.layer.annotations.is_empty());
}

#[test]
fn stroke_adds_on_button_up_and_undo_redo_notify() {
    let mut s = shown();
    s.handle(key(0x50, false, false), &make_text);
    s.handle(EditorEvent::CanvasDown { at: (1, 2) }, &make_text);
    assert!(s.drawing);
    s.handle(EditorEvent::Move { at: (3, 4) }, &make_text);
    s.handle(EditorEvent::Move { at: (5, 6) }, &make_text);
    assert_eq!(s.pen_points, vec![(1, 2), (3, 4), (5, 6)]);
    let up = s.handle(EditorEvent::ButtonUp { built: Some("pen".to_string()) }, &make_text);
    assert!(up.notify);
    assert!(!s.drawing);
    assert!(s.pen_points.is_empty());
    assert_eq!(s.history.layer.annotations, vec!["pen".to_string()]);
    assert!(matches!(s.history.undo_stack.last(), Some(EditAction::Add(a)) if a == "pen"));

    let undo = s.handle(key(0x5A, true, false), &make_text);
    assert!(undo.notify);
    assert!(s.history.layer.annotations.is_empty());
    let empty_undo = s.handle(key(0x5A, true, false), &make_text);
    assert!(!empty_undo.notify);
    let redo = s.handle(key(0x59, true, false), &make_text);
    assert!(redo.notify);
    assert_eq!(s.history.layer.annotations, vec!["pen".to_string()]);
}

#[test]
fn button_up_without_annotation_changes_nothing() {
    let mut s = shown();
    s.handle(EditorEvent::CanvasDown { at: (1, 2) }, &make_text);
    let up = s.handle(EditorEvent::ButtonUp { built: None }, &make_text);
    assert!(!up.notify);
    assert!(!s.drawing);
    assert!(s.history.undo_stack.is_empty());
}

#[test]
fn close_cancels_and_commits_text() {
    let mut s = shown();
    s.handle(key(0x54, false, false), &make_text);
    s.handle(EditorEvent::CanvasDown { at: (7, 8) }, &make_text);
    s.handle(EditorEvent::Char('z'), &make_text);
    let a = s.handle(EditorEvent::Close, &make_text);
    assert_eq!(a.result, Some(EditorResult::Cancelled));
    assert!(a.notify);
    assert_eq!(s.history.layer.annotations, vec!["z@7,8".to_string()]);
}

#[test]
fn editor_window_fits_image_and_screen() {
    assert_eq!(editor_window(1000, 500, 1920, 1080), (460, 245, 1000, 590));
    assert_eq!(editor_window(100, 50, 1920, 1080), (665, 435, 590, 210));
    assert_eq!(editor_window(4000, 3000, 1920, 1080), (50, 50, 1820, 980));
}

#[test]
fn right_drag_selects_topmost_and_records_the_move() {
    let mut s = shown();
    for name in ["a", "b", "c"] {
        s.handle(EditorEvent::CanvasDown { at: (0, 0) }, &make_text);
        s.handle(EditorEvent::ButtonUp { built: Some(name.to_string()) }, &make_text);
    }
    let down = s.handle(EditorEvent::RightDown { at: (10, 10), under_pointer: vec![true, true, false] }, &make_text);
    assert!(!down.notify);
    assert_eq!(s.selected, Some(1));
    assert!(s.dragging);
    let mv = s.handle(EditorEvent::Move { at: (15, 12) }, &make_text);
    let step = mv.drag.expect("drag step");
    assert_eq!((step.index, step.from, step.to), (1, (10, 10), (15, 12)));
    assert!(!s.drawing);
    let up = s.handle(EditorEvent::RightUp { moved: Some((5, 2)) }, &make_text);
    assert!(up.notify);
    assert!(!s.dragging);
    assert!(matches!(s.history.undo_stack.last(), Some(EditAction::Move { index: 1, dx: 5, dy: 2 })));
    let undo = s.handle(key(0x5A, true, false), &make_text);
    assert!(undo.notify);
    assert_eq!(s.selected, None);
    match undo.move_request {
        Some(MoveRequest { index, dx, dy, reverse }) => assert_eq!((index, dx, dy, reverse), (1, 5, 2, true)),
        None => panic!("expected a move to undo"),
    }
    let miss = s.handle(EditorEvent::RightDown { at: (1, 1), under_pointer: vec![false, false, false] }, &make_text);
    assert!(miss.drag.is_none());
    assert_eq!(s.selected, None);
    let up = s.handle(EditorEvent::RightUp { moved: None }, &make_text);
    assert!(!up.notify);
}

#[test]
fn undo_then_redo_restores_copyable_annotations() {
    let mk = |_x: i32, _y: i32, _t: String| 0u64;
    let mut s: EditorSession<u64, i32> = EditorSession::new((0, 0));
    s.begin();
    s.handle(EditorEvent::CanvasDown { at: (0, 0) }, &mk);
    s.handle(EditorEvent::ButtonUp { built: Some(41) }, &mk);
    s.handle(EditorEvent::CanvasDown { at: (0, 0) }, &mk);
    s.handle(EditorEvent::ButtonUp { built: Some(42) }, &mk);
    let layer = s.history.layer.annotations.clone();
    let undo_len = s.history.undo_stack.len();
    s.handle(EditorEvent::Key { vk: 0x5A, ctrl: true, shift: false }, &mk);
    assert_eq!(s.history.layer.annotations, vec![41]);
    s.handle(EditorEvent::Key { vk: 0x59, ctrl: true, shift: false }, &mk);
    assert_eq!(s.history.layer.annotations, layer);
    assert_eq!(s.history.undo_stack.len(), undo_len);
    assert!(s.history.redo_stack.is_empty());
}
