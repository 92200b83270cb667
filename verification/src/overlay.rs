//! Selection logic of the full-screen capture overlay.
//!
//! The overlay window forwards its input to [`SelectionState::handle`],
//! which says what to do next: capture or release the mouse, look up the
//! window under the cursor, redraw, or finish with a result. A show of the
//! overlay finishes at most once.

use vstd::prelude::*;
use crate::geometry::{CaptureMode, Rect, spec_normalized, abs_diff};
use crate::text::{push_char, push_decimal, decimal};

verus! {

/// `VK_ESCAPE`.
pub const VK_ESCAPE: u32 = 0x1B;

/// Smallest accepted selection: both sides must be at least this long.
pub const MIN_SELECTION: u32 = 5;

/// A window rectangle in screen coordinates.
#[derive(Debug, Clone, Copy, PartialEq, Eq, Structural)]
pub struct WindowRect {
    pub left: i32,
    pub top: i32,
    pub right: i32,
    pub bottom: i32,
}

/// A point in screen coordinates.
#[derive(Debug, Clone, Copy, PartialEq, Eq, Structural)]
pub struct ScreenPoint {
    pub x: i32,
    pub y: i32,
}

/// A top-level window and its rectangle.
#[derive(Debug, Clone, Copy, PartialEq, Eq, Structural)]
pub struct FoundWindow {
    pub hwnd: isize,
    pub rect: WindowRect,
}

/// Result of the overlay selection process.
#[derive(Debug, Clone, Copy, PartialEq, Eq, Structural)]
pub enum OverlayResult {
    /// User selected a rectangular region.
    Region(Rect),
    /// User selected a window (HWND handle as raw pointer).
    Window(isize),
    /// User cancelled (Escape).
    Cancelled,
}

/// Input that reaches the overlay.
#[derive(Debug, Clone, Copy, PartialEq, Eq, Structural)]
pub enum OverlayEvent {
    /// The overlay is shown for a new selection over a virtual screen
    /// whose top-left corner is `(origin_x, origin_y)`.
    Show { mode: CaptureMode, origin_x: i32, origin_y: i32 },
    /// Left button pressed at client coordinates.
    LButtonDown { x: i32, y: i32 },
    /// Mouse moved to client coordinates.
    MouseMove { x: i32, y: i32 },
    /// The top-level window found under the cursor, if any.
    WindowProbed(Option<FoundWindow>),
    /// Left button released.
    LButtonUp,
    /// A key was pressed.
    KeyDown { vk: u32 },
}

/// Mouse capture requests of a step.
#[derive(Debug, Clone, Copy, PartialEq, Eq, Structural)]
pub enum MouseCapture {
    Keep,
    Capture,
    Release,
}

/// What the window should do after an event.
#[derive(Debug, Clone, Copy, PartialEq, Eq, Structural)]
pub struct OverlayStep {
    pub mouse: MouseCapture,
    /// Look up the top-level window at these screen coordinates.
    pub probe: Option<ScreenPoint>,
    pub redraw: bool,
    /// Hide the overlay and hand this result to the caller.
    pub finish: Option<OverlayResult>,
}

/// Selection state of the overlay.
#[derive(Debug, Clone, Copy, PartialEq, Eq, Structural)]
pub struct SelectionState {
    pub mode: CaptureMode,
    pub selecting: bool,
    pub start_x: i32,
    pub start_y: i32,
    pub current_x: i32,
    pub current_y: i32,
    pub screen_origin_x: i32,
    pub screen_origin_y: i32,
    /// The window under the cursor in window mode (0 = none).
    pub hovered_hwnd: isize,
    pub hovered_rect: Option<WindowRect>,
    /// Whether a result is still owed to the caller of the current show.
    pub awaiting: bool,
}

/// An overlay step from its parts.
pub open spec fn step(mouse: MouseCapture, probe: Option<ScreenPoint>, redraw: bool, finish: Option<OverlayResult>) -> OverlayStep {
    OverlayStep { mouse, probe, redraw, finish }
}

/// The selected region in screen coordinates.
pub open spec fn selected_region(s: SelectionState) -> Rect {
    spec_normalized(
        s.start_x + s.screen_origin_x,
        s.start_y + s.screen_origin_y,
        s.current_x + s.screen_origin_x,
        s.current_y + s.screen_origin_y,
    )
}

/// The arithmetic of handling `e` in state `s` stays within `i32`.
pub open spec fn handle_in_range(s: SelectionState, e: OverlayEvent) -> bool {
    match e {
        OverlayEvent::MouseMove { x, y } =>
            i32::MIN <= x + s.screen_origin_x <= i32::MAX && i32::MIN <= y + s.screen_origin_y <= i32::MAX,
        OverlayEvent::LButtonUp => s.selecting ==> {
            &&& i32::MIN <= s.start_x + s.screen_origin_x <= i32::MAX
            &&& i32::MIN <= s.start_y + s.screen_origin_y <= i32::MAX
            &&& i32::MIN <= s.current_x + s.screen_origin_x <= i32::MAX
            &&& i32::MIN <= s.current_y + s.screen_origin_y <= i32::MAX
            &&& i32::MIN <= s.start_x - s.current_x <= i32::MAX
            &&& i32::MIN <= s.start_y - s.current_y <= i32::MAX
        },
        _ => true,
    }
}

/// The state and step that handling `e` in state `s` produces.
pub open spec fn spec_handle(s: SelectionState, e: OverlayEvent) -> (SelectionState, OverlayStep) {
    let nothing = step(MouseCapture::Keep, None, false, None);
    match e {
        OverlayEvent::Show { mode, origin_x, origin_y } => (
            SelectionState { mode, selecting: false, screen_origin_x: origin_x, screen_origin_y: origin_y, awaiting: true, ..s },
            nothing,
        ),
        OverlayEvent::LButtonDown { x, y } => if s.mode == CaptureMode::Window {
            if s.hovered_hwnd != 0 && s.awaiting {
                (SelectionState { awaiting: false, ..s }, step(MouseCapture::Keep, None, false, Some(OverlayResult::Window(s.hovered_hwnd))))
            } else {
                (s, nothing)
            }
        } else {
            (
                SelectionState { selecting: true, start_x: x, start_y: y, current_x: x, current_y: y, ..s },
                step(MouseCapture::Capture, None, false, None),
            )
        },
        OverlayEvent::MouseMove { x, y } => {
            let s1 = SelectionState { current_x: x, current_y: y, ..s };
            if s.mode == CaptureMode::Window && !s.selecting {
                (s1, step(MouseCapture::Keep, Some(ScreenPoint { x: (x + s.screen_origin_x) as i32, y: (y + s.screen_origin_y) as i32 }), false, None))
            } else {
                (s1, step(MouseCapture::Keep, None, true, None))
            }
        },
        OverlayEvent::WindowProbed(found) => match found {
            Some(w) => (SelectionState { hovered_hwnd: w.hwnd, hovered_rect: Some(w.rect), ..s }, step(MouseCapture::Keep, None, true, None)),
            None => (SelectionState { hovered_hwnd: 0, hovered_rect: None, ..s }, step(MouseCapture::Keep, None, true, None)),
        },
        OverlayEvent::LButtonUp => if s.selecting {
            let region = selected_region(s);
            if region.width >= MIN_SELECTION && region.height >= MIN_SELECTION && s.awaiting {
                (
                    SelectionState { selecting: false, awaiting: false, ..s },
                    step(MouseCapture::Release, None, false, Some(OverlayResult::Region(region))),
                )
            } else {
                (SelectionState { selecting: false, ..s }, step(MouseCapture::Release, None, false, None))
            }
        } else {
            (s, nothing)
        },
        OverlayEvent::KeyDown { vk } => if vk == VK_ESCAPE {
            if s.awaiting {
                (SelectionState { selecting: false, awaiting: false, ..s }, step(MouseCapture::Keep, None, false, Some(OverlayResult::Cancelled)))
            } else {
                (SelectionState { selecting: false, ..s }, nothing)
            }
        } else {
            (s, nothing)
        },
    }
}

impl SelectionState {
    /// The overlay before it is first shown.
    pub fn new() -> (r: Self)
        ensures
            r == (SelectionState {
                mode: CaptureMode::Region,
                selecting: false,
                start_x: 0,
                start_y: 0,
                current_x: 0,
                current_y: 0,
                screen_origin_x: 0,
                screen_origin_y: 0,
                hovered_hwnd: 0,
                hovered_rect: None,
                awaiting: false,
            }),
    {
        SelectionState {
            mode: CaptureMode::Region,
            selecting: false,
            start_x: 0,
            start_y: 0,
            current_x: 0,
            current_y: 0,
            screen_origin_x: 0,
            screen_origin_y: 0,
            hovered_hwnd: 0,
            hovered_rect: None,
            awaiting: false,
        }
    }

    /// Handle one input event.
    pub fn handle(&mut self, event: OverlayEvent) -> (r: OverlayStep)
        requires
            handle_in_range(*old(self), event),
        ensures
            (*final(self), r) == spec_handle(*old(self), event),
    {
        let nothing = OverlayStep { mouse: MouseCapture::Keep, probe: None, redraw: false, finish: None };
        match event {
            OverlayEvent::Show { mode, origin_x, origin_y } => {
                self.mode = mode;
                self.selecting = false;
                self.screen_origin_x = origin_x;
                self.screen_origin_y = origin_y;
                self.awaiting = true;
                nothing
            },
            OverlayEvent::LButtonDown { x, y } => {
                if self.mode == CaptureMode::Window {
                    if self.hovered_hwnd != 0 && self.awaiting {
                        self.awaiting = false;
                        OverlayStep { mouse: MouseCapture::Keep, probe: None, redraw: false, finish: Some(OverlayResult::Window(self.hovered_hwnd)) }
                    } else {
                        nothing
                    }
                } else {
                    self.selecting = true;
                    self.start_x = x;
                    self.start_y = y;
                    self.current_x = x;
                    self.current_y = y;
                    OverlayStep { mouse: MouseCapture::Capture, probe: None, redraw: false, finish: None }
                }
            },
            OverlayEvent::MouseMove { x, y } => {
                self.current_x = x;
                self.current_y = y;
                if self.mode == CaptureMode::Window && !self.selecting {
                    OverlayStep {
                        mouse: MouseCapture::Keep,
                        probe: Some(ScreenPoint { x: x + self.screen_origin_x, y: y + self.screen_origin_y }),
                        redraw: false,
                        finish: None,
                    }
                } else {
                    OverlayStep { mouse: MouseCapture::Keep, probe: None, redraw: true, finish: None }
                }
            },
            OverlayEvent::WindowProbed(found) => {
                match found {
                    Some(w) => {
                        self.hovered_hwnd = w.hwnd;
                        self.hovered_rect = Some(w.rect);
                    },
                    None => {
                        self.hovered_hwnd = 0;
                        self.hovered_rect = None;
                    },
                }
                OverlayStep { mouse: MouseCapture::Keep, probe: None, redraw: true, finish: None }
            },
            OverlayEvent::LButtonUp => {
                if self.selecting {
                    self.selecting = false;
                    let ox = self.screen_origin_x;
                    let oy = self.screen_origin_y;
                    let region = Rect::normalized(self.start_x + ox, self.start_y + oy, self.current_x + ox, self.current_y + oy);
                    if region.width >= MIN_SELECTION && region.height >= MIN_SELECTION && self.awaiting {
                        self.awaiting = false;
                        OverlayStep { mouse: MouseCapture::Release, probe: None, redraw: false, finish: Some(OverlayResult::Region(region)) }
                    } else {
                        OverlayStep { mouse: MouseCapture::Release, probe: None, redraw: false, finish: None }
                    }
                } else {
                    nothing
                }
            },
            OverlayEvent::KeyDown { vk } => {
                if vk == VK_ESCAPE {
                    self.selecting = false;
                    if self.awaiting {
                        self.awaiting = false;
                        OverlayStep { mouse: MouseCapture::Keep, probe: None, redraw: false, finish: Some(OverlayResult::Cancelled) }
                    } else {
                        nothing
                    }
                } else {
                    nothing
                }
            },
        }
    }
}

/// A region that the overlay hands back is at least the minimum
/// in both directions and is the normalized rectangle between the press
/// and the release point, moved to screen coordinates.
pub proof fn lemma_region_result(s: SelectionState, e: OverlayEvent)
    requires
        handle_in_range(s, e),
        spec_handle(s, e).1.finish matches Some(OverlayResult::Region(_)),
    ensures
        spec_handle(s, e).1.finish == Some(OverlayResult::Region(selected_region(s))),
        selected_region(s).width >= MIN_SELECTION,
        selected_region(s).height >= MIN_SELECTION,
        e == OverlayEvent::LButtonUp,
{
}

/// Once the overlay has handed back a result, nothing more comes out of it
/// until it is shown again.
pub proof fn lemma_finishes_once(s: SelectionState, e: OverlayEvent)
    requires
        spec_handle(s, e).1.finish is Some,
    ensures
        s.awaiting,
        !spec_handle(s, e).0.awaiting,
{
}

/// Without a new show, an overlay that owes no result never finishes.
pub proof fn lemma_no_result_when_done(s: SelectionState, e: OverlayEvent)
    requires
        !s.awaiting,
        !(e is Show),
    ensures
        spec_handle(s, e).1.finish is None,
        !spec_handle(s, e).0.awaiting,
{
}

/// Escape cancels a pending selection.
pub proof fn lemma_escape_cancels(s: SelectionState)
    requires
        s.awaiting,
    ensures
        spec_handle(s, OverlayEvent::KeyDown { vk: VK_ESCAPE }).1.finish == Some(OverlayResult::Cancelled),
{
}

/// The size label shown above a selection being drawn from `(start_x,
/// start_y)` to `(current_x, current_y)`: width and height in pixels,
/// joined by a multiplication sign.
pub fn dimension_label(start_x: i32, start_y: i32, current_x: i32, current_y: i32) -> (r: String)
    requires
        i32::MIN <= current_x - start_x <= i32::MAX,
        i32::MIN <= current_y - start_y <= i32::MAX,
    ensures
        r@ == decimal(abs_diff(current_x as int, start_x as int) as nat) + seq!['\u{00D7}']
            + decimal(abs_diff(current_y as int, start_y as int) as nat),
{
    let dx = current_x - start_x;
    let dy = current_y - start_y;
    let w: u64 = if dx >= 0 { dx as u64 } else { (0i64 - dx as i64) as u64 };
    let h: u64 = if dy >= 0 { dy as u64 } else { (0i64 - dy as i64) as u64 };
    let mut s = String::new();
    push_decimal(&mut s, w);
    push_char(&mut s, '\u{00D7}');
    push_decimal(&mut s, h);
    s
}

} // verus!
