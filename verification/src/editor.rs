//! Decision logic of the annotation editor window: which toolbar control a
//! click hits, what a key does, and the text being typed for a text
//! annotation.

use vstd::prelude::*;
use crate::annotate::AnnotationTool;
use crate::geometry::{u32_as_i32, lemma_u32_as_i32};
use crate::text::{push_char, pop_char};

verus! {

/// Height of the toolbar above the canvas.
pub const TOOLBAR_HEIGHT: i32 = 90;
/// Layout of the toolbar, in client pixels: the first row holds the tool
/// buttons and the session buttons, the second the colour (or emoji)
/// swatches and the thickness presets.
pub const ROW1_TOP: i32 = 5;
pub const ROW1_BTN_SIZE: i32 = 45;
pub const ROW1_BTN_STEP: i32 = 48;
pub const SEP_W: i32 = 14;
pub const ROW2_TOP: i32 = 56;
pub const ROW2_HEIGHT: i32 = 26;
pub const SWATCH_SIZE: i32 = 20;
pub const SWATCH_STEP: i32 = 24;
pub const MARGIN_X: i32 = 12;
/// Number of tool buttons in the first toolbar row.
pub const TOOL_COUNT: i32 = 7;
/// Number of colours in the palette.
pub const PALETTE_LEN: i32 = 9;
/// Number of emoji in the stamp palette.
pub const EMOJI_COUNT: i32 = 16;
/// Number of thickness presets.
pub const THICKNESS_COUNT: i32 = 3;

/// What a click on the toolbar hits.
#[derive(Debug, Clone, Copy, PartialEq, Eq, Structural)]
pub enum ToolbarHit {
    Nothing,
    Tool(AnnotationTool),
    Undo,
    Redo,
    Done,
    Cancel,
    Color(usize),
    Thickness(usize),
    Emoji(usize),
}

/// The tool of each button of the first row, left to right.
pub open spec fn tool_at(i: int) -> AnnotationTool {
    if i == 0 { AnnotationTool::Arrow }
    else if i == 1 { AnnotationTool::Rectangle }
    else if i == 2 { AnnotationTool::Highlight }
    else if i == 3 { AnnotationTool::Pen }
    else if i == 4 { AnnotationTool::Blur }
    else if i == 5 { AnnotationTool::Text }
    else { AnnotationTool::Emoji }
}

/// The cell of a row of `count` cells of `size`, `step` apart from `left`,
/// that holds `x` (edges included).
pub open spec fn cell_at(x: int, left: int, size: int, step: int, count: int) -> Option<int> {
    if x >= left && (x - left) / step < count && (x - left) % step <= size {
        Some((x - left) / step)
    } else {
        None
    }
}

/// Whether `x` lies on a button of `size` starting at `left` (edges
/// included).
pub open spec fn within(x: int, left: int, size: int) -> bool {
    left <= x <= left + size
}

/// Left edge of the undo button; redo, done and cancel follow.
pub open spec fn undo_left() -> int { MARGIN_X + TOOL_COUNT * ROW1_BTN_STEP + 2 + SEP_W }
/// Left edges of the redo, done and cancel buttons.
pub open spec fn redo_left() -> int { undo_left() + ROW1_BTN_STEP }
pub open spec fn done_left() -> int { undo_left() + 2 * ROW1_BTN_STEP + 2 + SEP_W }
pub open spec fn cancel_left() -> int { done_left() + ROW1_BTN_STEP }

/// Top of the swatches of the second row.
pub open spec fn swatch_top() -> int { ROW2_TOP + (ROW2_HEIGHT - SWATCH_SIZE) / 2 }

/// The toolbar control under client point `(x, y)`.
pub open spec fn spec_hit_test(x: int, y: int, current_tool: AnnotationTool) -> ToolbarHit {
    let row1 = ROW1_TOP <= y <= ROW1_TOP + ROW1_BTN_SIZE;
    let row2 = ROW2_TOP <= y <= ROW2_TOP + ROW2_HEIGHT && swatch_top() <= y <= swatch_top() + SWATCH_SIZE;
    if row1 && cell_at(x, MARGIN_X as int, ROW1_BTN_SIZE as int, ROW1_BTN_STEP as int, TOOL_COUNT as int) is Some {
        ToolbarHit::Tool(tool_at(cell_at(x, MARGIN_X as int, ROW1_BTN_SIZE as int, ROW1_BTN_STEP as int, TOOL_COUNT as int)->0))
    } else if row1 && within(x, undo_left(), ROW1_BTN_SIZE as int) {
        ToolbarHit::Undo
    } else if row1 && within(x, redo_left(), ROW1_BTN_SIZE as int) {
        ToolbarHit::Redo
    } else if row1 && within(x, done_left(), ROW1_BTN_SIZE as int) {
        ToolbarHit::Done
    } else if row1 && within(x, cancel_left(), ROW1_BTN_SIZE as int) {
        ToolbarHit::Cancel
    } else if row2 {
        let swatches = if current_tool == AnnotationTool::Emoji { EMOJI_COUNT as int } else { PALETTE_LEN as int };
        let thick_left = MARGIN_X + swatches * SWATCH_STEP + 2 + SEP_W;
        match cell_at(x, MARGIN_X as int, SWATCH_SIZE as int, SWATCH_STEP as int, swatches) {
            Some(i) => if current_tool == AnnotationTool::Emoji { ToolbarHit::Emoji(i as usize) } else { ToolbarHit::Color(i as usize) },
            None => match cell_at(x, thick_left, SWATCH_SIZE as int, SWATCH_STEP as int, THICKNESS_COUNT as int) {
                Some(i) => ToolbarHit::Thickness(i as usize),
                None => ToolbarHit::Nothing,
            },
        }
    } else {
        ToolbarHit::Nothing
    }
}

fn cell(x: i32, left: i32, size: i32, step: i32, count: i32) -> (r: Option<usize>)
    requires
        0 <= left <= 1000,
        0 < step <= 100,
        0 <= size,
        0 <= count <= 100,
    ensures
        r matches Some(i) ==> cell_at(x as int, left as int, size as int, step as int, count as int) == Some(i as int),
        r is None ==> cell_at(x as int, left as int, size as int, step as int, count as int) is None,
{
    if x < left {
        return None;
    }
    let d = x - left;
    if d / step < count && d % step <= size {
        Some((d / step) as usize)
    } else {
        None
    }
}

fn tool_of(i: usize) -> (r: AnnotationTool)
    ensures
        r == tool_at(i as int),
{
    if i == 0 { AnnotationTool::Arrow }
    else if i == 1 { AnnotationTool::Rectangle }
    else if i == 2 { AnnotationTool::Highlight }
    else if i == 3 { AnnotationTool::Pen }
    else if i == 4 { AnnotationTool::Blur }
    else if i == 5 { AnnotationTool::Text }
    else { AnnotationTool::Emoji }
}

/// The toolbar control under a click.
pub fn hit_test(x: i32, y: i32, current_tool: AnnotationTool) -> (r: ToolbarHit)
    ensures
        r == spec_hit_test(x as int, y as int, current_tool),
{
    let row1 = ROW1_TOP <= y && y <= ROW1_TOP + ROW1_BTN_SIZE;
    let swatch_y = ROW2_TOP + (ROW2_HEIGHT - SWATCH_SIZE) / 2;
    let row2 = ROW2_TOP <= y && y <= ROW2_TOP + ROW2_HEIGHT && swatch_y <= y && y <= swatch_y + SWATCH_SIZE;
    if row1 {
        if let Some(i) = cell(x, MARGIN_X, ROW1_BTN_SIZE, ROW1_BTN_STEP, TOOL_COUNT) {
            return ToolbarHit::Tool(tool_of(i));
        }
        let undo_x = MARGIN_X + TOOL_COUNT * ROW1_BTN_STEP + 2 + SEP_W;
        let redo_x = undo_x + ROW1_BTN_STEP;
        let done_x = undo_x + 2 * ROW1_BTN_STEP + 2 + SEP_W;
        let cancel_x = done_x + ROW1_BTN_STEP;
        if undo_x <= x && x <= undo_x + ROW1_BTN_SIZE {
            return ToolbarHit::Undo;
        }
        if redo_x <= x && x <= redo_x + ROW1_BTN_SIZE {
            return ToolbarHit::Redo;
        }
        if done_x <= x && x <= done_x + ROW1_BTN_SIZE {
            return ToolbarHit::Done;
        }
        if cancel_x <= x && x <= cancel_x + ROW1_BTN_SIZE {
            return ToolbarHit::Cancel;
        }
    }
    if row2 {
        let emoji = current_tool == AnnotationTool::Emoji;
        let swatches = if emoji { EMOJI_COUNT } else { PALETTE_LEN };
        let thick_x = MARGIN_X + swatches * SWATCH_STEP + 2 + SEP_W;
        match cell(x, MARGIN_X, SWATCH_SIZE, SWATCH_STEP, swatches) {
            Some(i) => {
                if emoji { ToolbarHit::Emoji(i) } else { ToolbarHit::Color(i) }
            },
            None => match cell(x, thick_x, SWATCH_SIZE, SWATCH_STEP, THICKNESS_COUNT) {
                Some(i) => ToolbarHit::Thickness(i),
                None => ToolbarHit::Nothing,
            },
        }
    } else {
        ToolbarHit::Nothing
    }
}

/// Index of the first-row button under the mouse for hover feedback:
/// 0..6 the tools, 7 undo, 8 redo, 9 done, 10 cancel, -1 none.
pub open spec fn spec_row1_button_index_at(x: int, y: int) -> int {
    if !(ROW1_TOP <= y <= ROW1_TOP + ROW1_BTN_SIZE) {
        -1
    } else if cell_at(x, MARGIN_X as int, ROW1_BTN_SIZE as int, ROW1_BTN_STEP as int, TOOL_COUNT as int) is Some {
        cell_at(x, MARGIN_X as int, ROW1_BTN_SIZE as int, ROW1_BTN_STEP as int, TOOL_COUNT as int)->0
    } else if within(x, undo_left(), ROW1_BTN_SIZE as int) {
        7
    } else if within(x, redo_left(), ROW1_BTN_SIZE as int) {
        8
    } else if within(x, done_left(), ROW1_BTN_SIZE as int) {
        9
    } else if within(x, cancel_left(), ROW1_BTN_SIZE as int) {
        10
    } else {
        -1
    }
}

/// The first-row button under the pointer, for hover feedback: tools
/// 0..=6, undo 7, redo 8, done 9, cancel 10, or -1.
pub fn row1_button_index_at(x: i32, y: i32) -> (r: i32)
    ensures
        r == spec_row1_button_index_at(x as int, y as int),
{
    if y < ROW1_TOP || y > ROW1_TOP + ROW1_BTN_SIZE {
        return -1;
    }
    if let Some(i) = cell(x, MARGIN_X, ROW1_BTN_SIZE, ROW1_BTN_STEP, TOOL_COUNT) {
        return i as i32;
    }
    let undo_x = MARGIN_X + TOOL_COUNT * ROW1_BTN_STEP + 2 + SEP_W;
    let redo_x = undo_x + ROW1_BTN_STEP;
    let done_x = undo_x + 2 * ROW1_BTN_STEP + 2 + SEP_W;
    let cancel_x = done_x + ROW1_BTN_STEP;
    if undo_x <= x && x <= undo_x + ROW1_BTN_SIZE { return 7; }
    if redo_x <= x && x <= redo_x + ROW1_BTN_SIZE { return 8; }
    if done_x <= x && x <= done_x + ROW1_BTN_SIZE { return 9; }
    if cancel_x <= x && x <= cancel_x + ROW1_BTN_SIZE { return 10; }
    -1
}

/// Each thickness preset can be clicked with either palette on show: its
/// cells follow the palette's swatches (the 9 colours from x = 244, or the
/// 16 emoji from x = 412), 24 pixels apart and 20 wide, on the swatch row
/// (y from 59 to 79).
pub proof fn lemma_thickness_presets_reachable(x: int, y: int, i: int, t: AnnotationTool)
    requires
        0 <= i < THICKNESS_COUNT,
        59 <= y <= 79,
        (if t == AnnotationTool::Emoji { 412int } else { 244int }) + 24 * i <= x,
        x <= (if t == AnnotationTool::Emoji { 412int } else { 244int }) + 24 * i + 20,
    ensures
        spec_hit_test(x, y, t) == ToolbarHit::Thickness(i as usize),
{
    if i == 0 {
    } else if i == 1 {
    } else {
    }
}

/// Whether the toolbar and the hover index agree: a click lands on the tool
/// or action button that the hover highlight shows.
pub proof fn lemma_hover_matches_click(x: int, y: int, t: AnnotationTool)
    ensures
        0 <= spec_row1_button_index_at(x, y) < TOOL_COUNT ==>
            spec_hit_test(x, y, t) == ToolbarHit::Tool(tool_at(spec_row1_button_index_at(x, y))),
        spec_row1_button_index_at(x, y) == 7 ==> spec_hit_test(x, y, t) == ToolbarHit::Undo,
        spec_row1_button_index_at(x, y) == 8 ==> spec_hit_test(x, y, t) == ToolbarHit::Redo,
        spec_row1_button_index_at(x, y) == 9 ==> spec_hit_test(x, y, t) == ToolbarHit::Done,
        spec_row1_button_index_at(x, y) == 10 ==> spec_hit_test(x, y, t) == ToolbarHit::Cancel,
{
}

/// Virtual-key codes the editor reacts to.
pub const VK_BACK: u32 = 0x08;
pub const VK_RETURN: u32 = 0x0D;
pub const VK_ESCAPE: u32 = 0x1B;

/// What a key press does in the editor.
#[derive(Debug, Clone, Copy, PartialEq, Eq, Structural)]
pub enum EditorKeyAction {
    Nothing,
    /// Commit the typed text, then finish with the annotations.
    CommitAndDone,
    /// Drop the text being typed.
    CancelText,
    /// Commit the typed text as an annotation.
    CommitText,
    /// Delete the last typed character.
    Backspace,
    /// Close the editor without a result.
    Cancel,
    /// Finish with the annotations.
    Done,
    Undo,
    Redo,
    SelectTool(AnnotationTool),
}

/// The tool that a single-letter shortcut selects.
pub open spec fn spec_tool_for_key(vk: u32) -> Option<AnnotationTool> {
    if vk == 0x41 { Some(AnnotationTool::Arrow) }
    else if vk == 0x52 { Some(AnnotationTool::Rectangle) }
    else if vk == 0x48 { Some(AnnotationTool::Highlight) }
    else if vk == 0x50 { Some(AnnotationTool::Pen) }
    else if vk == 0x42 { Some(AnnotationTool::Blur) }
    else if vk == 0x54 { Some(AnnotationTool::Text) }
    else if vk == 0x45 { Some(AnnotationTool::Emoji) }
    else { None }
}

/// The tool that a letter key selects.
pub fn tool_for_key(vk: u32) -> (r: Option<AnnotationTool>)
    ensures
        r == spec_tool_for_key(vk),
{
    if vk == 0x41 { Some(AnnotationTool::Arrow) }
    else if vk == 0x52 { Some(AnnotationTool::Rectangle) }
    else if vk == 0x48 { Some(AnnotationTool::Highlight) }
    else if vk == 0x50 { Some(AnnotationTool::Pen) }
    else if vk == 0x42 { Some(AnnotationTool::Blur) }
    else if vk == 0x54 { Some(AnnotationTool::Text) }
    else if vk == 0x45 { Some(AnnotationTool::Emoji) }
    else { None }
}

/// The name of a tool as the toolbar and the manual show it.
pub open spec fn tool_name(t: AnnotationTool) -> Seq<char> {
    match t {
        AnnotationTool::Arrow => seq!['A', 'r', 'r', 'o', 'w'],
        AnnotationTool::Rectangle => seq!['R', 'e', 'c', 't', 'a', 'n', 'g', 'l', 'e'],
        AnnotationTool::Highlight => seq!['H', 'i', 'g', 'h', 'l', 'i', 'g', 'h', 't'],
        AnnotationTool::Pen => seq!['P', 'e', 'n'],
        AnnotationTool::Blur => seq!['B', 'l', 'u', 'r'],
        AnnotationTool::Text => seq!['T', 'e', 'x', 't'],
        AnnotationTool::Emoji => seq!['E', 'm', 'o', 'j', 'i'],
    }
}

/// Every tool's shortcut is the key of the first letter of its name, and
/// a letter key selects a tool only when it is that tool's initial: the
/// seven tools have seven different shortcuts.
pub proof fn lemma_tool_shortcut_is_initial(t: AnnotationTool, vk: u32)
    ensures
        spec_tool_for_key(tool_name(t)[0] as u32) == Some(t),
        spec_tool_for_key(vk) == Some(t) ==> vk == tool_name(t)[0] as u32,
{
}

/// What a key does, while text is being typed or not.
pub open spec fn spec_key_action(text_editing: bool, vk: u32, ctrl: bool, shift: bool) -> EditorKeyAction {
    if text_editing {
        if vk == VK_RETURN && shift { EditorKeyAction::CommitAndDone }
        else if vk == VK_ESCAPE { EditorKeyAction::CancelText }
        else if vk == VK_RETURN { EditorKeyAction::CommitText }
        else if vk == VK_BACK { EditorKeyAction::Backspace }
        else { EditorKeyAction::Nothing }
    } else {
        if vk == VK_ESCAPE { EditorKeyAction::Cancel }
        else if vk == VK_RETURN { EditorKeyAction::Done }
        else if vk == 0x5A && ctrl { EditorKeyAction::Undo }
        else if vk == 0x59 && ctrl { EditorKeyAction::Redo }
        else if !ctrl && spec_tool_for_key(vk) is Some { EditorKeyAction::SelectTool(spec_tool_for_key(vk)->0) }
        else { EditorKeyAction::Nothing }
    }
}

/// What a key press does.
pub fn key_action(text_editing: bool, vk: u32, ctrl: bool, shift: bool) -> (r: EditorKeyAction)
    ensures
        r == spec_key_action(text_editing, vk, ctrl, shift),
{
    if text_editing {
        if vk == VK_RETURN && shift { EditorKeyAction::CommitAndDone }
        else if vk == VK_ESCAPE { EditorKeyAction::CancelText }
        else if vk == VK_RETURN { EditorKeyAction::CommitText }
        else if vk == VK_BACK { EditorKeyAction::Backspace }
        else { EditorKeyAction::Nothing }
    } else {
        if vk == VK_ESCAPE { EditorKeyAction::Cancel }
        else if vk == VK_RETURN { EditorKeyAction::Done }
        else if vk == 0x5A && ctrl { EditorKeyAction::Undo }
        else if vk == 0x59 && ctrl { EditorKeyAction::Redo }
        else if !ctrl {
            match tool_for_key(vk) {
                Some(t) => EditorKeyAction::SelectTool(t),
                None => EditorKeyAction::Nothing,
            }
        }
        else { EditorKeyAction::Nothing }
    }
}

/// Whether a character is a control code (general category Cc:
/// U+0000..U+001F and U+007F..U+009F).
pub open spec fn spec_is_control(c: char) -> bool {
    (c as u32) <= 0x1F || (0x7F <= (c as u32) && (c as u32) <= 0x9F)
}

/// Whether a typed character is a control code, which text ignores.
pub fn is_control_char(c: char) -> (r: bool)
    ensures
        r == spec_is_control(c),
{
    let v = c as u32;
    v <= 0x1F || (0x7F <= v && v <= 0x9F)
}

/// The text being typed for a text annotation.
#[derive(Debug)]
pub struct TextEntry {
    pub editing: bool,
    pub buffer: String,
}

impl TextEntry {
    /// No text being typed.
    pub fn new() -> (r: Self)
        ensures
            !r.editing,
            r.buffer@ == Seq::<char>::empty(),
    {
        TextEntry { editing: false, buffer: String::new() }
    }

    /// Start typing a new text (the caller commits any previous one first).
    pub fn start(&mut self)
        ensures
            final(self).editing,
            final(self).buffer@ == Seq::<char>::empty(),
    {
        self.editing = true;
        self.buffer = String::new();
    }

    /// A typed character: kept while editing unless it is a control code.
    pub fn type_char(&mut self, c: char)
        ensures
            final(self).editing == old(self).editing,
            final(self).buffer@ == if old(self).editing && !spec_is_control(c) { old(self).buffer@.push(c) } else { old(self).buffer@ },
    {
        if self.editing && !is_control_char(c) {
            push_char(&mut self.buffer, c);
        }
    }

    /// Delete the last typed character, if any.
    pub fn backspace(&mut self)
        ensures
            final(self).editing == old(self).editing,
            old(self).buffer@.len() > 0 ==> final(self).buffer@ == old(self).buffer@.drop_last(),
            old(self).buffer@.len() == 0 ==> final(self).buffer@ == old(self).buffer@,
    {
        let _ = pop_char(&mut self.buffer);
    }

    /// Stop typing and drop the text.
    pub fn cancel(&mut self)
        ensures
            !final(self).editing,
            final(self).buffer@ == Seq::<char>::empty(),
    {
        self.editing = false;
        self.buffer = String::new();
    }

    /// Stop typing; the typed text, if any, becomes an annotation.
    pub fn commit(&mut self) -> (r: Option<String>)
        ensures
            !final(self).editing,
            final(self).buffer@ == Seq::<char>::empty(),
            old(self).buffer@.len() > 0 ==> (r matches Some(t) && t@ == old(self).buffer@),
            old(self).buffer@.len() == 0 ==> r is None,
    {
        self.editing = false;
        let mut text = String::new();
        std::mem::swap(&mut text, &mut self.buffer);
        if text.as_str().is_empty() {
            None
        } else {
            Some(text)
        }
    }
}

/// The tool and the palette entries chosen on the toolbar.
#[derive(Debug, Clone, Copy, PartialEq, Eq, Structural)]
pub struct ToolChoice {
    pub tool: AnnotationTool,
    pub color_index: usize,
    pub thickness_index: usize,
    pub emoji_index: usize,
}

/// A toolbar button that acts on the whole editing session.
#[derive(Debug, Clone, Copy, PartialEq, Eq, Structural)]
pub enum ToolbarCommand {
    Undo,
    Redo,
    /// Finish and hand the annotations back.
    Done,
    /// Close without a result.
    Cancel,
}

/// What a click on the toolbar calls for.
#[derive(Debug, Clone, Copy, PartialEq, Eq, Structural)]
pub struct ToolbarEffect {
    /// Turn the text being typed into an annotation first.
    pub commit_text: bool,
    pub command: Option<ToolbarCommand>,
}

/// Apply a toolbar click: a tool, colour, thickness or emoji button changes
/// the choice; switching tools and finishing both commit the text being
/// typed first.
pub fn apply_toolbar_hit(choice: &mut ToolChoice, hit: ToolbarHit, text_editing: bool) -> (r: ToolbarEffect)
    ensures
        match hit {
            ToolbarHit::Tool(t) => *final(choice) == (ToolChoice { tool: t, ..*old(choice) })
                && r == (ToolbarEffect { commit_text: text_editing, command: None }),
            ToolbarHit::Color(i) => *final(choice) == (ToolChoice { color_index: i, ..*old(choice) })
                && r == (ToolbarEffect { commit_text: false, command: None }),
            ToolbarHit::Thickness(i) => *final(choice) == (ToolChoice { thickness_index: i, ..*old(choice) })
                && r == (ToolbarEffect { commit_text: false, command: None }),
            ToolbarHit::Emoji(i) => *final(choice) == (ToolChoice { emoji_index: i, ..*old(choice) })
                && r == (ToolbarEffect { commit_text: false, command: None }),
            ToolbarHit::Undo => *final(choice) == *old(choice)
                && r == (ToolbarEffect { commit_text: false, command: Some(ToolbarCommand::Undo) }),
            ToolbarHit::Redo => *final(choice) == *old(choice)
                && r == (ToolbarEffect { commit_text: false, command: Some(ToolbarCommand::Redo) }),
            ToolbarHit::Done => *final(choice) == *old(choice)
                && r == (ToolbarEffect { commit_text: text_editing, command: Some(ToolbarCommand::Done) }),
            ToolbarHit::Cancel => *final(choice) == *old(choice)
                && r == (ToolbarEffect { commit_text: false, command: Some(ToolbarCommand::Cancel) }),
            ToolbarHit::Nothing => *final(choice) == *old(choice)
                && r == (ToolbarEffect { commit_text: false, command: None }),
        },
{
    let quiet = ToolbarEffect { commit_text: false, command: None };
    match hit {
        ToolbarHit::Tool(t) => {
            choice.tool = t;
            ToolbarEffect { commit_text: text_editing, command: None }
        },
        ToolbarHit::Color(i) => {
            choice.color_index = i;
            quiet
        },
        ToolbarHit::Thickness(i) => {
            choice.thickness_index = i;
            quiet
        },
        ToolbarHit::Emoji(i) => {
            choice.emoji_index = i;
            quiet
        },
        ToolbarHit::Undo => ToolbarEffect { commit_text: false, command: Some(ToolbarCommand::Undo) },
        ToolbarHit::Redo => ToolbarEffect { commit_text: false, command: Some(ToolbarCommand::Redo) },
        ToolbarHit::Done => ToolbarEffect { commit_text: text_editing, command: Some(ToolbarCommand::Done) },
        ToolbarHit::Cancel => ToolbarEffect { commit_text: false, command: Some(ToolbarCommand::Cancel) },
        ToolbarHit::Nothing => quiet,
    }
}

/// Smallest client size of the editor window.
pub const MIN_CLIENT_W: i32 = 590;
pub const MIN_CLIENT_H: i32 = 210;
/// Room left around the editor window on the screen.
pub const SCREEN_MARGIN: i32 = 100;

/// `max(v, lo)` capped at `hi`: the cap wins when `hi < lo`.
pub open spec fn clamp_to(v: int, lo: int, hi: int) -> int {
    let m = if v > lo { v } else { lo };
    if m < hi { m } else { hi }
}

/// Where the editor window goes and how large it is for an image of
/// `img_width` x `img_height` on a screen of `screen_w` x `screen_h`:
/// the image with the toolbar above it, at least the minimum size, at most
/// the screen less the margin, centred. The result is `(x, y, w, h)`.
pub open spec fn spec_editor_window(img_width: u32, img_height: u32, screen_w: int, screen_h: int) -> (int, int, int, int) {
    let w = clamp_to(u32_as_i32(img_width), MIN_CLIENT_W as int, screen_w - SCREEN_MARGIN);
    let h = clamp_to(u32_as_i32(img_height) + TOOLBAR_HEIGHT, MIN_CLIENT_H as int, screen_h - SCREEN_MARGIN);
    ((screen_w - w) / 2, (screen_h - h) / 2, w, h)
}

/// The editor window's place and size for an image on a screen.
pub fn editor_window(img_width: u32, img_height: u32, screen_w: i32, screen_h: i32) -> (r: (i32, i32, i32, i32))
    requires
        u32_as_i32(img_height) + TOOLBAR_HEIGHT <= i32::MAX,
        screen_w >= i32::MIN + SCREEN_MARGIN,
        screen_h >= i32::MIN + SCREEN_MARGIN,
    ensures
        (r.0 as int, r.1 as int, r.2 as int, r.3 as int) == spec_editor_window(img_width, img_height, screen_w as int, screen_h as int),
{
    proof {
        lemma_u32_as_i32(img_width);
        lemma_u32_as_i32(img_height);
    }
    let iw = img_width as i32;
    let ih = (img_height as i32) + TOOLBAR_HEIGHT;
    let wmax = screen_w - SCREEN_MARGIN;
    let hmax = screen_h - SCREEN_MARGIN;
    let w0 = if iw > MIN_CLIENT_W { iw } else { MIN_CLIENT_W };
    let w = if w0 < wmax { w0 } else { wmax };
    let h0 = if ih > MIN_CLIENT_H { ih } else { MIN_CLIENT_H };
    let h = if h0 < hmax { h0 } else { hmax };
    ((screen_w - w) / 2, (screen_h - h) / 2, w, h)
}

/// The mouse cursor over the editor.
#[derive(Debug, Clone, Copy, PartialEq, Eq, Structural)]
pub enum EditorCursor {
    /// Over the toolbar.
    Arrow,
    /// Over the canvas while text is typed.
    IBeam,
    /// Over the canvas otherwise.
    Cross,
}

/// The cursor at client row `y`.
pub fn cursor_at(y: i32, text_editing: bool) -> (r: EditorCursor)
    ensures
        r == if y < TOOLBAR_HEIGHT { EditorCursor::Arrow } else if text_editing { EditorCursor::IBeam } else { EditorCursor::Cross },
{
    if y < TOOLBAR_HEIGHT {
        EditorCursor::Arrow
    } else if text_editing {
        EditorCursor::IBeam
    } else {
        EditorCursor::Cross
    }
}

/// The annotation that a right click selects: the topmost (latest drawn)
/// one under the pointer, given whether each annotation, in drawing order,
/// is under it.
pub fn topmost_hit(under_pointer: &Vec<bool>) -> (r: Option<usize>)
    ensures
        match r {
            Some(i) => i < under_pointer@.len() && under_pointer@[i as int]
                && forall|j: int| i < j < under_pointer@.len() ==> !under_pointer@[j],
            None => forall|j: int| 0 <= j < under_pointer@.len() ==> !under_pointer@[j],
        },
{
    let mut i: usize = under_pointer.len();
    while i > 0
        invariant
            i <= under_pointer@.len(),
            forall|j: int| i <= j < under_pointer@.len() ==> !under_pointer@[j],
        decreases i,
    {
        if under_pointer[i - 1] {
            return Some(i - 1);
        }
        i = i - 1;
    }
    None
}

} // verus!
