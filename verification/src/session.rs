//! One editing session of the annotation editor: the annotations and their
//! history, the text being typed, the tool choice and the stroke being
//! drawn, and whether the caller is still owed the session's result. Each
//! window event is one step; the geometry of annotations stays with the
//! caller, which builds them (`A`) from points of its coordinate type
//! (`D`).

use vstd::prelude::*;
use crate::annotate::{AnnotationTool, EditAction, EditHistory, MoveRequest, undone_layer, redone_layer, move_of, request_view};
use crate::editor::{
    TextEntry, ToolChoice, ToolbarHit, EditorKeyAction, spec_key_action, key_action, spec_is_control, topmost_hit,
};

verus! {

/// An input of the editor window, in the order the window receives them.
#[derive(Debug)]
pub enum EditorEvent<A, D> {
    /// A key went down, with the state of Ctrl and Shift.
    Key { vk: u32, ctrl: bool, shift: bool },
    /// A character was typed.
    Char(char),
    /// The left button went down on the toolbar, on this control.
    Toolbar(ToolbarHit),
    /// The left button went down on the canvas, at this image point.
    CanvasDown { at: (D, D) },
    /// The pointer moved to this image point.
    Move { at: (D, D) },
    /// The left button went up; `built` is the annotation that the caller
    /// made of the stroke just drawn, if it makes one.
    ButtonUp { built: Option<A> },
    /// The right button went down on the canvas, at this image point;
    /// `under_pointer` tells, for each annotation in drawing order, whether
    /// it lies under the pointer.
    RightDown { at: (D, D), under_pointer: Vec<bool> },
    /// The right button went up; `moved` is the whole offset of the drag
    /// when the caller counts it as a move.
    RightUp { moved: Option<(D, D)> },
    /// The window is being closed.
    Close,
}

/// What the session hands its caller when it ends.
#[derive(Debug, Clone, Copy, PartialEq, Eq, Structural)]
pub enum EditorResult {
    /// The editor was closed without a result.
    Cancelled,
    /// The editor finished: the result is the session's layer.
    Done,
}

/// What the window does after an event.
#[derive(Debug)]
pub struct EditorAction<D> {
    /// Hide the window and hand this result to the caller.
    pub result: Option<EditorResult>,
    /// The annotations changed: tell the caller (`on_change`).
    pub notify: bool,
    /// A move of an annotation that the caller applies (undo or redo of a
    /// drag).
    pub move_request: Option<MoveRequest<D>>,
    /// A step of a right-button drag that the caller applies to the
    /// selected annotation.
    pub drag: Option<DragStep<D>>,
}

/// The selected annotation follows the pointer from `from` to `to`.
#[derive(Debug)]
pub struct DragStep<D> {
    pub index: usize,
    pub from: (D, D),
    pub to: (D, D),
}

/// The state of the editor between events.
#[derive(Debug)]
pub struct EditorSession<A, D> {
    pub history: EditHistory<A, D>,
    pub text: TextEntry,
    /// Where the text being typed goes.
    pub text_position: (D, D),
    pub choice: ToolChoice,
    /// Whether a stroke is being drawn with the left button.
    pub drawing: bool,
    pub draw_start: (D, D),
    pub draw_current: (D, D),
    /// The points of a pen stroke, in order.
    pub pen_points: Vec<(D, D)>,
    /// Whether the caller of the current show is still owed a result.
    pub awaiting: bool,
    /// The annotation picked with the right button.
    pub selected: Option<usize>,
    /// Whether the selected annotation is being dragged.
    pub dragging: bool,
    pub drag_start: (D, D),
    pub drag_last: (D, D),
}

/// The tool choice that each show starts with: the arrow, the third
/// colour and the middle thickness.
pub open spec fn initial_choice() -> ToolChoice {
    ToolChoice { tool: AnnotationTool::Arrow, color_index: 2, thickness_index: 1, emoji_index: 0 }
}

/// Two histories hold the same annotations and stacks.
pub open spec fn history_same<A, D>(h1: EditHistory<A, D>, h0: EditHistory<A, D>) -> bool {
    &&& h1.layer.annotations@ == h0.layer.annotations@
    &&& h1.undo_stack@ == h0.undo_stack@
    &&& h1.redo_stack@ == h0.redo_stack@
}

/// `h1` is `h0` with a copy of `a` drawn on top, the addition undoable and
/// nothing left to redo.
pub open spec fn history_added<A: Clone, D>(h1: EditHistory<A, D>, h0: EditHistory<A, D>, a: A) -> bool {
    &&& h1.layer.annotations@.len() == h0.layer.annotations@.len() + 1
    &&& h1.layer.annotations@.drop_last() == h0.layer.annotations@
    &&& cloned(a, h1.layer.annotations@.last())
    &&& h1.undo_stack@ == h0.undo_stack@.push(EditAction::Add(a))
    &&& h1.redo_stack@.len() == 0
}

/// `h1` is `h0` with its latest change undone (nothing changes when there
/// is none); `req` is the move the caller applies backwards.
pub open spec fn history_undone<A, D>(h1: EditHistory<A, D>, h0: EditHistory<A, D>, req: Option<(usize, D, D, bool)>) -> bool {
    if h0.undo_stack@.len() == 0 {
        history_same(h1, h0) && req is None
    } else {
        let action = h0.undo_stack@.last();
        &&& h1.undo_stack@ == h0.undo_stack@.drop_last()
        &&& h1.redo_stack@ == h0.redo_stack@.push(action)
        &&& h1.layer.annotations@ == undone_layer(h0.layer.annotations@, action)
        &&& req == move_of(action, true)
    }
}

/// `h1` is `h0` with its latest undone change redone (nothing changes when
/// there is none); `req` is the move the caller applies again.
pub open spec fn history_redone<A: Clone, D>(h1: EditHistory<A, D>, h0: EditHistory<A, D>, req: Option<(usize, D, D, bool)>) -> bool {
    if h0.redo_stack@.len() == 0 {
        history_same(h1, h0) && req is None
    } else {
        let action = h0.redo_stack@.last();
        &&& h1.redo_stack@ == h0.redo_stack@.drop_last()
        &&& h1.undo_stack@ == h0.undo_stack@.push(action)
        &&& redone_layer(h0.layer.annotations@, h1.layer.annotations@, action)
        &&& req == move_of(action, false)
    }
}

/// The history once the typed text of `s0` is committed: non-empty text
/// joins the layer as the annotation that `make_text` makes of it at its
/// position; empty text changes nothing.
pub open spec fn text_history<A: Clone, D, F: Fn(D, D, String) -> A>(s0: EditorSession<A, D>, h1: EditHistory<A, D>, make_text: F) -> bool {
    if s0.text.buffer@.len() > 0 {
        exists|t: String, a: A|
            t@ == s0.text.buffer@
            && #[trigger] call_ensures(make_text, (s0.text_position.0, s0.text_position.1, t), a)
            && history_added(h1, s0.history, a)
    } else {
        history_same(h1, s0.history)
    }
}

/// The text being typed stops and its buffer empties; its position stays.
pub open spec fn text_closed<A, D>(s1: EditorSession<A, D>, s0: EditorSession<A, D>) -> bool {
    !s1.text.editing && s1.text.buffer@.len() == 0 && s1.text_position == s0.text_position
}

/// The text being typed, if any, is committed.
pub open spec fn commits_pending<A: Clone, D, F: Fn(D, D, String) -> A>(s0: EditorSession<A, D>, s1: EditorSession<A, D>, make_text: F) -> bool {
    if s0.text.editing {
        text_history(s0, s1.history, make_text) && text_closed(s1, s0)
    } else {
        history_same(s1.history, s0.history) && same_text(s1, s0)
    }
}

/// The text entry is as before.
pub open spec fn same_text<A, D>(s1: EditorSession<A, D>, s0: EditorSession<A, D>) -> bool {
    s1.text.editing == s0.text.editing && s1.text.buffer@ == s0.text.buffer@ && s1.text_position == s0.text_position
}

/// The stroke being drawn is as before.
pub open spec fn same_drawing<A, D>(s1: EditorSession<A, D>, s0: EditorSession<A, D>) -> bool {
    &&& s1.drawing == s0.drawing
    &&& s1.draw_start == s0.draw_start
    &&& s1.draw_current == s0.draw_current
    &&& s1.pen_points@ == s0.pen_points@
}

/// No result is handed out and none stops being owed.
pub open spec fn no_result<A, D>(s1: EditorSession<A, D>, s0: EditorSession<A, D>, act: EditorAction<D>) -> bool {
    act.result is None && s1.awaiting == s0.awaiting
}

/// The session ends with `r`: the caller gets it if it is still owed one,
/// and is owed none afterwards.
pub open spec fn ends_with<A, D>(s1: EditorSession<A, D>, s0: EditorSession<A, D>, act: EditorAction<D>, r: EditorResult) -> bool {
    act.result == (if s0.awaiting { Some(r) } else { None }) && !s1.awaiting
}

/// What a key does to the session.
pub open spec fn key_step<A: Clone, D, F: Fn(D, D, String) -> A>(
    s0: EditorSession<A, D>, k: EditorKeyAction, s1: EditorSession<A, D>, act: EditorAction<D>, make_text: F,
) -> bool {
    let req = request_view(act.move_request);
    &&& same_drawing(s1, s0)
    &&& match k {
        EditorKeyAction::SelectTool(t) => s1.choice == (ToolChoice { tool: t, ..s0.choice }),
        _ => s1.choice == s0.choice,
    }
    &&& (k is Undo || k is Redo || req is None)
    &&& match k {
        EditorKeyAction::CommitAndDone => text_history(s0, s1.history, make_text) && text_closed(s1, s0)
            && ends_with(s1, s0, act, EditorResult::Done),
        EditorKeyAction::CancelText => history_same(s1.history, s0.history) && text_closed(s1, s0)
            && no_result(s1, s0, act),
        EditorKeyAction::CommitText => text_history(s0, s1.history, make_text) && text_closed(s1, s0)
            && no_result(s1, s0, act),
        EditorKeyAction::Backspace => history_same(s1.history, s0.history) && no_result(s1, s0, act)
            && s1.text.editing == s0.text.editing && s1.text_position == s0.text_position
            && s1.text.buffer@ == (if s0.text.buffer@.len() > 0 { s0.text.buffer@.drop_last() } else { s0.text.buffer@ }),
        EditorKeyAction::Cancel => history_same(s1.history, s0.history) && same_text(s1, s0)
            && ends_with(s1, s0, act, EditorResult::Cancelled),
        EditorKeyAction::Done => history_same(s1.history, s0.history) && same_text(s1, s0)
            && ends_with(s1, s0, act, EditorResult::Done),
        EditorKeyAction::Undo => history_undone(s1.history, s0.history, req) && same_text(s1, s0) && no_result(s1, s0, act),
        EditorKeyAction::Redo => history_redone(s1.history, s0.history, req) && same_text(s1, s0) && no_result(s1, s0, act),
        EditorKeyAction::SelectTool(_) => history_same(s1.history, s0.history) && same_text(s1, s0) && no_result(s1, s0, act),
        EditorKeyAction::Nothing => history_same(s1.history, s0.history) && same_text(s1, s0) && no_result(s1, s0, act),
    }
}

/// What a click on a toolbar control does to the session.
pub open spec fn toolbar_step<A: Clone, D, F: Fn(D, D, String) -> A>(
    s0: EditorSession<A, D>, hit: ToolbarHit, s1: EditorSession<A, D>, act: EditorAction<D>, make_text: F,
) -> bool {
    let req = request_view(act.move_request);
    &&& same_drawing(s1, s0)
    &&& (hit is Undo || hit is Redo || req is None)
    &&& match hit {
        ToolbarHit::Tool(t) => commits_pending(s0, s1, make_text) && no_result(s1, s0, act)
            && s1.choice == (ToolChoice { tool: t, ..s0.choice }),
        ToolbarHit::Color(i) => history_same(s1.history, s0.history) && same_text(s1, s0) && no_result(s1, s0, act)
            && s1.choice == (ToolChoice { color_index: i, ..s0.choice }),
        ToolbarHit::Thickness(i) => history_same(s1.history, s0.history) && same_text(s1, s0) && no_result(s1, s0, act)
            && s1.choice == (ToolChoice { thickness_index: i, ..s0.choice }),
        ToolbarHit::Emoji(i) => history_same(s1.history, s0.history) && same_text(s1, s0) && no_result(s1, s0, act)
            && s1.choice == (ToolChoice { emoji_index: i, ..s0.choice }),
        ToolbarHit::Undo => history_undone(s1.history, s0.history, req) && same_text(s1, s0) && no_result(s1, s0, act)
            && s1.choice == s0.choice,
        ToolbarHit::Redo => history_redone(s1.history, s0.history, req) && same_text(s1, s0) && no_result(s1, s0, act)
            && s1.choice == s0.choice,
        ToolbarHit::Done => commits_pending(s0, s1, make_text) && ends_with(s1, s0, act, EditorResult::Done)
            && s1.choice == s0.choice,
        ToolbarHit::Cancel => history_same(s1.history, s0.history) && same_text(s1, s0)
            && ends_with(s1, s0, act, EditorResult::Cancelled) && s1.choice == s0.choice,
        ToolbarHit::Nothing => history_same(s1.history, s0.history) && same_text(s1, s0) && no_result(s1, s0, act)
            && s1.choice == s0.choice,
    }
}

/// What an event does to the annotations, the text, the stroke, the tool
/// choice and the result: `s0` before, `s1` after, `act` the window's
/// action.
pub open spec fn main_effect<A: Clone, D, F: Fn(D, D, String) -> A>(
    s0: EditorSession<A, D>, ev: EditorEvent<A, D>, s1: EditorSession<A, D>, act: EditorAction<D>, make_text: F,
) -> bool {
    match ev {
        EditorEvent::Key { vk, ctrl, shift } => key_step(s0, spec_key_action(s0.text.editing, vk, ctrl, shift), s1, act, make_text),
        EditorEvent::Toolbar(hit) => toolbar_step(s0, hit, s1, act, make_text),
        EditorEvent::Char(c) => {
            &&& history_same(s1.history, s0.history)
            &&& s1.text.editing == s0.text.editing
            &&& s1.text_position == s0.text_position
            &&& s1.text.buffer@ == (if s0.text.editing && !spec_is_control(c) { s0.text.buffer@.push(c) } else { s0.text.buffer@ })
            &&& same_drawing(s1, s0) && s1.choice == s0.choice
            &&& no_result(s1, s0, act) && act.move_request is None
        },
        EditorEvent::CanvasDown { at } => {
            &&& s1.choice == s0.choice
            &&& no_result(s1, s0, act) && act.move_request is None
            &&& (if s0.text.editing { text_history(s0, s1.history, make_text) } else { history_same(s1.history, s0.history) })
            &&& if s0.choice.tool == AnnotationTool::Text {
                &&& s1.text.editing && s1.text.buffer@.len() == 0 && s1.text_position == at
                &&& same_drawing(s1, s0)
            } else {
                &&& (if s0.text.editing { text_closed(s1, s0) } else { same_text(s1, s0) })
                &&& s1.drawing && s1.draw_start == at && s1.draw_current == at
                &&& s1.pen_points@ == seq![at]
            }
        },
        EditorEvent::Move { at } => {
            &&& history_same(s1.history, s0.history) && same_text(s1, s0) && s1.choice == s0.choice
            &&& no_result(s1, s0, act) && act.move_request is None
            &&& if s0.dragging {
                same_drawing(s1, s0)
            } else if s0.drawing {
                &&& s1.drawing && s1.draw_start == s0.draw_start && s1.draw_current == at
                &&& s1.pen_points@ == (if s0.choice.tool == AnnotationTool::Pen { s0.pen_points@.push(at) } else { s0.pen_points@ })
            } else {
                same_drawing(s1, s0)
            }
        },
        EditorEvent::ButtonUp { built } => {
            &&& same_text(s1, s0) && s1.choice == s0.choice
            &&& no_result(s1, s0, act) && act.move_request is None
            &&& if s0.drawing {
                &&& !s1.drawing && s1.pen_points@.len() == 0
                &&& s1.draw_start == s0.draw_start && s1.draw_current == s0.draw_current
                &&& match built {
                    Some(a) => history_added(s1.history, s0.history, a),
                    None => history_same(s1.history, s0.history),
                }
            } else {
                history_same(s1.history, s0.history) && same_drawing(s1, s0)
            }
        },
        EditorEvent::Close => {
            &&& commits_pending(s0, s1, make_text)
            &&& same_drawing(s1, s0) && s1.choice == s0.choice
            &&& ends_with(s1, s0, act, EditorResult::Cancelled) && act.move_request is None
        },
        EditorEvent::RightDown { .. } => {
            &&& history_same(s1.history, s0.history) && same_text(s1, s0) && same_drawing(s1, s0)
            &&& s1.choice == s0.choice && no_result(s1, s0, act) && act.move_request is None
        },
        EditorEvent::RightUp { moved } => {
            &&& same_text(s1, s0) && same_drawing(s1, s0)
            &&& s1.choice == s0.choice && no_result(s1, s0, act) && act.move_request is None
            &&& match (s0.selected, moved) {
                (Some(index), Some((dx, dy))) => if s0.dragging {
                    &&& s1.history.layer.annotations@ == s0.history.layer.annotations@
                    &&& s1.history.undo_stack@ == s0.history.undo_stack@.push(EditAction::Move { index, dx, dy })
                    &&& s1.history.redo_stack@.len() == 0
                } else {
                    history_same(s1.history, s0.history)
                },
                _ => history_same(s1.history, s0.history),
            }
        },
    }
}

/// The right-button selection is as before.
pub open spec fn same_selection<A, D>(s1: EditorSession<A, D>, s0: EditorSession<A, D>) -> bool {
    &&& s1.selected == s0.selected
    &&& s1.dragging == s0.dragging
    &&& s1.drag_start == s0.drag_start
    &&& s1.drag_last == s0.drag_last
}

/// `r` is the topmost (latest drawn) annotation under the pointer, given
/// for each annotation whether it is under it.
pub open spec fn is_topmost(under: Seq<bool>, r: Option<usize>) -> bool {
    match r {
        Some(i) => i < under.len() && under[i as int] && forall|j: int| i < j < under.len() ==> !under[j],
        None => forall|j: int| 0 <= j < under.len() ==> !under[j],
    }
}

/// An undo or redo that changes something clears the selection.
pub open spec fn selection_after_history<A, D>(s1: EditorSession<A, D>, s0: EditorSession<A, D>, changed: bool) -> bool {
    if changed {
        s1.selected is None && s1.dragging == s0.dragging && s1.drag_start == s0.drag_start && s1.drag_last == s0.drag_last
    } else {
        same_selection(s1, s0)
    }
}

/// A drag step as a tuple.
pub open spec fn drag_view<D>(d: Option<DragStep<D>>) -> Option<(usize, (D, D), (D, D))> {
    match d {
        Some(g) => Some((g.index, g.from, g.to)),
        None => None,
    }
}

/// What an event does to the right-button selection and drag.
pub open spec fn selection_effect<A, D>(s0: EditorSession<A, D>, ev: EditorEvent<A, D>, s1: EditorSession<A, D>, act: EditorAction<D>) -> bool {
    &&& (match ev {
        EditorEvent::Move { .. } => s0.dragging,
        _ => false,
    } || act.drag is None)
    &&& match ev {
        EditorEvent::CanvasDown { .. } => s1.selected is None && s1.dragging == s0.dragging
            && s1.drag_start == s0.drag_start && s1.drag_last == s0.drag_last,
        EditorEvent::RightDown { at, under_pointer } => {
            &&& is_topmost(under_pointer@, s1.selected)
            &&& if s1.selected is Some {
                s1.dragging && s1.drag_start == at && s1.drag_last == at
            } else {
                s1.dragging == s0.dragging && s1.drag_start == s0.drag_start && s1.drag_last == s0.drag_last
            }
        },
        EditorEvent::Move { at } => if s0.dragging {
            &&& s1.dragging && s1.selected == s0.selected && s1.drag_start == s0.drag_start && s1.drag_last == at
            &&& drag_view(act.drag) == (match s0.selected {
                Some(i) => Some((i, s0.drag_last, at)),
                None => None,
            })
        } else {
            same_selection(s1, s0)
        },
        EditorEvent::RightUp { .. } => if s0.dragging {
            !s1.dragging && s1.selected == s0.selected && s1.drag_start == s0.drag_start && s1.drag_last == s0.drag_last
        } else {
            same_selection(s1, s0)
        },
        EditorEvent::Key { vk, ctrl, shift } => match spec_key_action(s0.text.editing, vk, ctrl, shift) {
            EditorKeyAction::Undo => selection_after_history(s1, s0, s0.history.undo_stack@.len() > 0),
            EditorKeyAction::Redo => selection_after_history(s1, s0, s0.history.redo_stack@.len() > 0),
            _ => same_selection(s1, s0),
        },
        EditorEvent::Toolbar(hit) => match hit {
            ToolbarHit::Undo => selection_after_history(s1, s0, s0.history.undo_stack@.len() > 0),
            ToolbarHit::Redo => selection_after_history(s1, s0, s0.history.redo_stack@.len() > 0),
            _ => same_selection(s1, s0),
        },
        _ => same_selection(s1, s0),
    }
}

/// What an event does to the session: `s0` before, `s1` after, `act` the
/// window's action.
pub open spec fn step_effect<A: Clone, D, F: Fn(D, D, String) -> A>(
    s0: EditorSession<A, D>, ev: EditorEvent<A, D>, s1: EditorSession<A, D>, act: EditorAction<D>, make_text: F,
) -> bool {
    main_effect(s0, ev, s1, act, make_text) && selection_effect(s0, ev, s1, act)
}

/// An action with no result and no move.
fn quiet_ret<D>(notify: bool) -> (r: EditorAction<D>)
    ensures
        r.result is None,
        r.notify == notify,
        r.move_request is None,
        r.drag is None,
{
    EditorAction { result: None, notify, move_request: None, drag: None }
}

impl<A: Clone, D: Copy> EditorSession<A, D> {
    /// A session that owes nobody a result, before its first show. `origin`
    /// fills the points until the first stroke or text sets them.
    pub fn new(origin: (D, D)) -> (r: Self)
        ensures
            r.history.layer.annotations@.len() == 0,
            r.history.undo_stack@.len() == 0,
            r.history.redo_stack@.len() == 0,
            !r.text.editing,
            r.text.buffer@.len() == 0,
            r.text_position == origin,
            r.choice == initial_choice(),
            !r.drawing,
            r.draw_start == origin,
            r.draw_current == origin,
            r.pen_points@.len() == 0,
            !r.awaiting,
            r.selected is None,
            !r.dragging,
            r.drag_start == origin,
            r.drag_last == origin,
    {
        EditorSession {
            history: EditHistory::new(),
            text: TextEntry::new(),
            text_position: origin,
            choice: ToolChoice { tool: AnnotationTool::Arrow, color_index: 2, thickness_index: 1, emoji_index: 0 },
            drawing: false,
            draw_start: origin,
            draw_current: origin,
            pen_points: Vec::new(),
            awaiting: false,
            selected: None,
            dragging: false,
            drag_start: origin,
            drag_last: origin,
        }
    }

    /// A new show: no annotations and no history, no text, no stroke, the
    /// initial tool choice, and a result owed to the caller.
    pub fn begin(&mut self)
        ensures
            final(self).history.layer.annotations@.len() == 0,
            final(self).history.undo_stack@.len() == 0,
            final(self).history.redo_stack@.len() == 0,
            !final(self).text.editing,
            final(self).text.buffer@.len() == 0,
            final(self).text_position == old(self).text_position,
            final(self).choice == initial_choice(),
            !final(self).drawing,
            final(self).draw_start == old(self).draw_start,
            final(self).draw_current == old(self).draw_current,
            final(self).pen_points@.len() == 0,
            final(self).awaiting,
            final(self).selected is None,
            !final(self).dragging,
            final(self).drag_start == old(self).drag_start,
            final(self).drag_last == old(self).drag_last,
    {
        self.history = EditHistory::new();
        self.text = TextEntry::new();
        self.choice = ToolChoice { tool: AnnotationTool::Arrow, color_index: 2, thickness_index: 1, emoji_index: 0 };
        self.drawing = false;
        self.pen_points = Vec::new();
        self.awaiting = true;
        self.selected = None;
        self.dragging = false;
    }

    /// Commit the typed text, whether or not typing is on.
    fn commit_text<F: Fn(D, D, String) -> A>(&mut self, make_text: &F)
        requires
            forall|x: D, y: D, t: String| make_text.requires((x, y, t)),
        ensures
            text_history(*old(self), final(self).history, *make_text),
            text_closed(*final(self), *old(self)),
            same_drawing(*final(self), *old(self)),
            final(self).choice == old(self).choice,
            final(self).awaiting == old(self).awaiting,
            same_selection(*final(self), *old(self)),
    {
        let ghost s0 = *self;
        match self.text.commit() {
            Some(t) => {
                let ghost tv = t;
                let a = make_text(self.text_position.0, self.text_position.1, t);
                self.history.record_add(a);
                proof {
                    assert(call_ensures(*make_text, (s0.text_position.0, s0.text_position.1, tv), a));
                }
            },
            None => {},
        }
    }

    /// Commit the typed text if typing is on.
    fn commit_pending<F: Fn(D, D, String) -> A>(&mut self, make_text: &F)
        requires
            forall|x: D, y: D, t: String| make_text.requires((x, y, t)),
        ensures
            commits_pending(*old(self), *final(self), *make_text),
            same_drawing(*final(self), *old(self)),
            final(self).choice == old(self).choice,
            final(self).awaiting == old(self).awaiting,
            same_selection(*final(self), *old(self)),
    {
        if self.text.editing {
            self.commit_text(make_text);
        }
    }

    /// End the session with `r`, if a result is still owed.
    fn finish(&mut self, r: EditorResult) -> (res: Option<EditorResult>)
        ensures
            res == (if old(self).awaiting { Some(r) } else { None }),
            !final(self).awaiting,
            final(self).history == old(self).history,
            final(self).text == old(self).text,
            final(self).text_position == old(self).text_position,
            final(self).choice == old(self).choice,
            same_drawing(*final(self), *old(self)),
            same_selection(*final(self), *old(self)),
    {
        if self.awaiting {
            self.awaiting = false;
            Some(r)
        } else {
            None
        }
    }

    fn undo_step(&mut self) -> (r: Option<MoveRequest<D>>)
        ensures
            history_undone(final(self).history, old(self).history, request_view(r)),
            final(self).text == old(self).text,
            final(self).text_position == old(self).text_position,
            final(self).choice == old(self).choice,
            final(self).awaiting == old(self).awaiting,
            same_drawing(*final(self), *old(self)),
            selection_after_history(*final(self), *old(self), old(self).history.undo_stack@.len() > 0),
    {
        let changes = self.history.undo_stack.len() > 0;
        let r = self.history.undo();
        if changes {
            self.selected = None;
        }
        r
    }

    fn redo_step(&mut self) -> (r: Option<MoveRequest<D>>)
        ensures
            history_redone(final(self).history, old(self).history, request_view(r)),
            final(self).text == old(self).text,
            final(self).text_position == old(self).text_position,
            final(self).choice == old(self).choice,
            final(self).awaiting == old(self).awaiting,
            same_drawing(*final(self), *old(self)),
            selection_after_history(*final(self), *old(self), old(self).history.redo_stack@.len() > 0),
    {
        let changes = self.history.redo_stack.len() > 0;
        let r = self.history.redo();
        if changes {
            self.selected = None;
        }
        r
    }

    /// Handle one window event. `make_text` makes the text annotation of
    /// typed text at a point (the caller's colour and size go with it).
    pub fn handle<F: Fn(D, D, String) -> A>(&mut self, ev: EditorEvent<A, D>, make_text: &F) -> (act: EditorAction<D>)
        requires
            forall|x: D, y: D, t: String| make_text.requires((x, y, t)),
        ensures
            step_effect(*old(self), ev, *final(self), act, *make_text),
            act.result is Some ==> old(self).awaiting,
            !old(self).awaiting ==> !final(self).awaiting,
            act.result is Some ==> !final(self).awaiting,
            act.notify == (final(self).history.undo_stack@ != old(self).history.undo_stack@),
            ev is ButtonUp ==> !final(self).drawing,
    {
        let ghost s0 = *self;
        let act = match ev {
            EditorEvent::Key { vk, ctrl, shift } => {
                let k = key_action(self.text.editing, vk, ctrl, shift);
                match k {
                    EditorKeyAction::CommitAndDone => {
                        let n0 = self.history.undo_stack.len();
                        self.commit_text(make_text);
                        let notify = self.history.undo_stack.len() != n0;
                        let result = self.finish(EditorResult::Done);
                        EditorAction { result, notify, move_request: None, drag: None }
                    },
                    EditorKeyAction::CancelText => {
                        self.text.cancel();
                        quiet_ret(false)
                    },
                    EditorKeyAction::CommitText => {
                        let n0 = self.history.undo_stack.len();
                        self.commit_text(make_text);
                        let notify = self.history.undo_stack.len() != n0;
                        quiet_ret(notify)
                    },
                    EditorKeyAction::Backspace => {
                        self.text.backspace();
                        quiet_ret(false)
                    },
                    EditorKeyAction::Cancel => {
                        let result = self.finish(EditorResult::Cancelled);
                        EditorAction { result, notify: false, move_request: None, drag: None }
                    },
                    EditorKeyAction::Done => {
                        let result = self.finish(EditorResult::Done);
                        EditorAction { result, notify: false, move_request: None, drag: None }
                    },
                    EditorKeyAction::Undo => {
                        let n0 = self.history.undo_stack.len();
                        let m = self.undo_step();
                        let notify = self.history.undo_stack.len() != n0;
                        EditorAction { result: None, notify, move_request: m, drag: None }
                    },
                    EditorKeyAction::Redo => {
                        let n0 = self.history.undo_stack.len();
                        let m = self.redo_step();
                        let notify = self.history.undo_stack.len() != n0;
                        EditorAction { result: None, notify, move_request: m, drag: None }
                    },
                    EditorKeyAction::SelectTool(t) => {
                        self.choice.tool = t;
                        quiet_ret(false)
                    },
                    EditorKeyAction::Nothing => quiet_ret(false),
                }
            },
            EditorEvent::Char(c) => {
                self.text.type_char(c);
                quiet_ret(false)
            },
            EditorEvent::Toolbar(hit) => {
                match hit {
                    ToolbarHit::Tool(t) => {
                        let n0 = self.history.undo_stack.len();
                        self.commit_pending(make_text);
                        self.choice.tool = t;
                        let notify = self.history.undo_stack.len() != n0;
                        quiet_ret(notify)
                    },
                    ToolbarHit::Color(i) => {
                        self.choice.color_index = i;
                        quiet_ret(false)
                    },
                    ToolbarHit::Thickness(i) => {
                        self.choice.thickness_index = i;
                        quiet_ret(false)
                    },
                    ToolbarHit::Emoji(i) => {
                        self.choice.emoji_index = i;
                        quiet_ret(false)
                    },
                    ToolbarHit::Undo => {
                        let n0 = self.history.undo_stack.len();
                        let m = self.undo_step();
                        let notify = self.history.undo_stack.len() != n0;
                        EditorAction { result: None, notify, move_request: m, drag: None }
                    },
                    ToolbarHit::Redo => {
                        let n0 = self.history.undo_stack.len();
                        let m = self.redo_step();
                        let notify = self.history.undo_stack.len() != n0;
                        EditorAction { result: None, notify, move_request: m, drag: None }
                    },
                    ToolbarHit::Done => {
                        let n0 = self.history.undo_stack.len();
                        self.commit_pending(make_text);
                        let notify = self.history.undo_stack.len() != n0;
                        let result = self.finish(EditorResult::Done);
                        EditorAction { result, notify, move_request: None, drag: None }
                    },
                    ToolbarHit::Cancel => {
                        let result = self.finish(EditorResult::Cancelled);
                        EditorAction { result, notify: false, move_request: None, drag: None }
                    },
                    ToolbarHit::Nothing => quiet_ret(false),
                }
            },
            EditorEvent::CanvasDown { at } => {
                self.selected = None;
                let n0 = self.history.undo_stack.len();
                self.commit_pending(make_text);
                if self.choice.tool == AnnotationTool::Text {
                    self.text.start();
                    self.text_position = at;
                } else {
                    self.drawing = true;
                    self.draw_start = at;
                    self.draw_current = at;
                    let mut pts: Vec<(D, D)> = Vec::new();
                    pts.push(at);
                    self.pen_points = pts;
                }
                let notify = self.history.undo_stack.len() != n0;
                quiet_ret(notify)
            },
            EditorEvent::Move { at } => {
                if self.dragging {
                    let drag = match self.selected {
                        Some(i) => Some(DragStep { index: i, from: self.drag_last, to: at }),
                        None => None,
                    };
                    self.drag_last = at;
                    EditorAction { result: None, notify: false, move_request: None, drag }
                } else {
                    if self.drawing {
                        self.draw_current = at;
                        if self.choice.tool == AnnotationTool::Pen {
                            self.pen_points.push(at);
                        }
                    }
                    quiet_ret(false)
                }
            },
            EditorEvent::RightDown { at, under_pointer } => {
                match topmost_hit(&under_pointer) {
                    Some(i) => {
                        self.selected = Some(i);
                        self.dragging = true;
                        self.drag_start = at;
                        self.drag_last = at;
                    },
                    None => {
                        self.selected = None;
                    },
                }
                quiet_ret(false)
            },
            EditorEvent::RightUp { moved } => {
                if self.dragging {
                    self.dragging = false;
                    let notify = match (self.selected, moved) {
                        (Some(i), Some((dx, dy))) => {
                            self.history.record_move(i, dx, dy);
                            true
                        },
                        _ => false,
                    };
                    quiet_ret(notify)
                } else {
                    quiet_ret(false)
                }
            },
            EditorEvent::ButtonUp { built } => {
                if self.drawing {
                    self.drawing = false;
                    let notify = match built {
                        Some(a) => {
                            self.history.record_add(a);
                            true
                        },
                        None => false,
                    };
                    self.pen_points = Vec::new();
                    quiet_ret(notify)
                } else {
                    quiet_ret(false)
                }
            },
            EditorEvent::Close => {
                let n0 = self.history.undo_stack.len();
                self.commit_pending(make_text);
                let notify = self.history.undo_stack.len() != n0;
                let result = self.finish(EditorResult::Cancelled);
                EditorAction { result, notify, move_request: None, drag: None }
            },
        };
        act
    }
}

/// Undo followed by redo gives back the annotations and both stacks,
/// exactly, for annotations whose copies equal them: an undone addition
/// (the annotation on top of the layer) comes back, an undone move is
/// handed back to be applied again.
pub proof fn lemma_undo_then_redo_restores<A: Clone, D>(
    h0: EditHistory<A, D>, h1: EditHistory<A, D>, h2: EditHistory<A, D>,
    r1: Option<(usize, D, D, bool)>, r2: Option<(usize, D, D, bool)>,
)
    requires
        forall|x: A, y: A| #[trigger] cloned(x, y) ==> x == y,
        h0.undo_stack@.len() > 0,
        h0.undo_stack@.last() matches EditAction::Add(a) ==>
            h0.layer.annotations@.len() > 0 && h0.layer.annotations@.last() == a,
        history_undone(h1, h0, r1),
        history_redone(h2, h1, r2),
    ensures
        h2.layer.annotations@ == h0.layer.annotations@,
        h2.undo_stack@ == h0.undo_stack@,
        h2.redo_stack@ == h0.redo_stack@,
        match h0.undo_stack@.last() {
            EditAction::Move { index, dx, dy } => r1 == Some((index, dx, dy, true)) && r2 == Some((index, dx, dy, false)),
            EditAction::Add(_) => r1 is None && r2 is None,
        },
{
    let action = h0.undo_stack@.last();
    assert(h1.redo_stack@.last() == action);
    assert(h1.redo_stack@.drop_last() =~= h0.redo_stack@);
    assert(h0.undo_stack@.drop_last().push(action) =~= h0.undo_stack@);
    match action {
        EditAction::Add(a) => {
            let l0 = h0.layer.annotations@;
            let l2 = h2.layer.annotations@;
            assert(cloned(a, l2.last()));
            assert(l2.last() == l0.last());
            assert(l2 =~= l2.drop_last().push(l2.last()));
            assert(l0 =~= l0.drop_last().push(l0.last()));
        },
        EditAction::Move { .. } => {},
    }
}

} // verus!
