use nano_snipper::annotate::{AnnotationLayer, AnnotationTool, EditHistory};
use nano_snipper::editor::{apply_toolbar_hit, cursor_at, topmost_hit, EditorCursor, ToolChoice, ToolbarCommand, ToolbarEffect};
use nano_snipper::editor::{
    hit_test, is_control_char, key_action, row1_button_index_at, tool_for_key, EditorKeyAction, TextEntry,
    ToolbarHit, VK_BACK, VK_ESCAPE, VK_RETURN,
};

#[test]
fn layer_add_undo_clear() {
    let mut layer: AnnotationLayer<u32> = AnnotationLayer::new();
    assert!(layer.is_empty());
    layer.add(7);
    layer.add(8);
    assert_eq!(layer.undo(), Some(8));
    assert_eq!(layer.annotations, vec![7]);
    layer.clear();
    assert!(layer.is_empty());
    assert_eq!(layer.undo(), None);
}

#[test]
fn undo_then_redo_restores_addition() {
    let mut h: EditHistory<&str, f32> = EditHistory::new();
    h.record_add("arrow");
    h.record_add("rect");
    assert!(h.undo().is_none());
    assert_eq!(h.layer.annotations, vec!["arrow"]);
    assert!(h.redo().is_none());
    assert_eq!(h.layer.annotations, vec!["arrow", "rect"]);
    assert!(h.redo().is_none());
    assert_eq!(h.layer.annotations, vec!["arrow", "rect"]);
}

#[test]
fn moves_are_handed_back_both_ways() {
    let mut h: EditHistory<&str, f32> = EditHistory::new();
    h.record_add("pen");
    h.record_move(0, 3.0, -2.0);
    let back = h.undo().expect("a move to reverse");
    assert_eq!((back.index, back.dx, back.dy, back.reverse), (0, 3.0, -2.0, true));
    let again = h.redo().expect("a move to apply");
    assert_eq!((again.index, again.dx, again.dy, again.reverse), (0, 3.0, -2.0, false));
}

#[test]
fn new_edit_clears_redo() {
    let mut h: EditHistory<u8, i32> = EditHistory::new();
    h.record_add(1);
    h.undo();
    assert_eq!(h.redo_stack.len(), 1);
    h.record_add(2);
    assert!(h.redo_stack.is_empty());
    assert_eq!(h.layer.annotations, vec![2]);
}

#[test]
fn toolbar_hits() {
    assert_eq!(hit_test(12, 5, AnnotationTool::Arrow), ToolbarHit::Tool(AnnotationTool::Arrow));
    assert_eq!(hit_test(60, 30, AnnotationTool::Arrow), ToolbarHit::Tool(AnnotationTool::Rectangle));
    assert_eq!(hit_test(58, 30, AnnotationTool::Arrow), ToolbarHit::Nothing);
    assert_eq!(hit_test(364, 20, AnnotationTool::Arrow), ToolbarHit::Undo);
    assert_eq!(hit_test(412, 20, AnnotationTool::Arrow), ToolbarHit::Redo);
    assert_eq!(hit_test(476, 20, AnnotationTool::Arrow), ToolbarHit::Done);
    assert_eq!(hit_test(524, 20, AnnotationTool::Arrow), ToolbarHit::Cancel);
    assert_eq!(hit_test(36, 60, AnnotationTool::Pen), ToolbarHit::Color(1));
    assert_eq!(hit_test(36, 60, AnnotationTool::Emoji), ToolbarHit::Emoji(1));
    assert_eq!(hit_test(268, 60, AnnotationTool::Pen), ToolbarHit::Thickness(1));
    assert_eq!(hit_test(36, 85, AnnotationTool::Pen), ToolbarHit::Nothing);
}

#[test]
fn hover_index_matches_hit() {
    assert_eq!(row1_button_index_at(12, 5), 0);
    assert_eq!(row1_button_index_at(300, 5), 6);
    assert_eq!(row1_button_index_at(364, 5), 7);
    assert_eq!(row1_button_index_at(524, 50), 10);
    assert_eq!(row1_button_index_at(524, 51), -1);
    assert_eq!(hit_test(300, 5, AnnotationTool::Arrow), ToolbarHit::Tool(AnnotationTool::Emoji));
}

#[test]
fn shortcuts() {
    assert_eq!(tool_for_key(0x41), Some(AnnotationTool::Arrow));
    assert_eq!(tool_for_key(0x42), Some(AnnotationTool::Blur));
    assert_eq!(tool_for_key(0x5A), None);
    assert_eq!(key_action(false, 0x5A, true, false), EditorKeyAction::Undo);
    assert_eq!(key_action(false, 0x59, true, false), EditorKeyAction::Redo);
    assert_eq!(key_action(false, 0x52, false, false), EditorKeyAction::SelectTool(AnnotationTool::Rectangle));
    assert_eq!(key_action(false, 0x52, true, false), EditorKeyAction::Nothing);
    assert_eq!(key_action(false, VK_ESCAPE, false, false), EditorKeyAction::Cancel);
    assert_eq!(key_action(false, VK_RETURN, false, true), EditorKeyAction::Done);
    assert_eq!(key_action(true, VK_RETURN, false, true), EditorKeyAction::CommitAndDone);
    assert_eq!(key_action(true, VK_RETURN, false, false), EditorKeyAction::CommitText);
    assert_eq!(key_action(true, VK_ESCAPE, false, false), EditorKeyAction::CancelText);
    assert_eq!(key_action(true, VK_BACK, false, false), EditorKeyAction::Backspace);
    assert_eq!(key_action(true, 0x41, false, false), EditorKeyAction::Nothing);
}

#[test]
fn text_entry_typing() {
    let mut t = TextEntry::new();
    t.type_char('x');
    assert_eq!(t.buffer, "");
    t.start();
    t.type_char('H');
    t.type_char('\u{8}');
    t.type_char('i');
    t.type_char('é');
    assert_eq!(t.buffer, "Hié");
    t.backspace();
    assert_eq!(t.buffer, "Hi");
    assert_eq!(t.commit(), Some("Hi".to_string()));
    assert!(!t.editing);
    assert_eq!(t.commit(), None);
    t.start();
    t.type_char('a');
    t.cancel();
    assert_eq!(t.buffer, "");
    assert!(!t.editing);
}

#[test]
fn control_characters() {
    assert!(is_control_char('\n'));
    assert!(is_control_char('\u{7F}'));
    assert!(is_control_char('\u{9F}'));
    assert!(!is_control_char(' '));
    assert!(!is_control_char('\u{A0}'));
}

#[test]
fn toolbar_clicks_change_the_choice() {
    let mut c = ToolChoice { tool: AnnotationTool::Arrow, color_index: 0, thickness_index: 1, emoji_index: 0 };
    let e = apply_toolbar_hit(&mut c, ToolbarHit::Tool(AnnotationTool::Text), true);
    assert_eq!(e, ToolbarEffect { commit_text: true, command: None });
    assert_eq!(c.tool, AnnotationTool::Text);
    apply_toolbar_hit(&mut c, ToolbarHit::Color(4), false);
    apply_toolbar_hit(&mut c, ToolbarHit::Thickness(2), false);
    apply_toolbar_hit(&mut c, ToolbarHit::Emoji(9), false);
    assert_eq!(c, ToolChoice { tool: AnnotationTool::Text, color_index: 4, thickness_index: 2, emoji_index: 9 });
    assert_eq!(apply_toolbar_hit(&mut c, ToolbarHit::Done, true), ToolbarEffect { commit_text: true, command: Some(ToolbarCommand::Done) });
    assert_eq!(apply_toolbar_hit(&mut c, ToolbarHit::Cancel, true), ToolbarEffect { commit_text: false, command: Some(ToolbarCommand::Cancel) });
    assert_eq!(apply_toolbar_hit(&mut c, ToolbarHit::Undo, false).command, Some(ToolbarCommand::Undo));
    assert_eq!(apply_toolbar_hit(&mut c, ToolbarHit::Redo, false).command, Some(ToolbarCommand::Redo));
    assert_eq!(apply_toolbar_hit(&mut c, ToolbarHit::Nothing, true), ToolbarEffect { commit_text: false, command: None });
}

#[test]
fn cursor_and_topmost_hit() {
    assert_eq!(cursor_at(89, true), EditorCursor::Arrow);
    assert_eq!(cursor_at(90, true), EditorCursor::IBeam);
    assert_eq!(cursor_at(500, false), EditorCursor::Cross);
    assert_eq!(topmost_hit(&vec![true, false, true, false]), Some(2));
    assert_eq!(topmost_hit(&vec![false, false]), None);
    assert_eq!(topmost_hit(&vec![]), None);
}
