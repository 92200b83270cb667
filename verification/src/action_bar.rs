//! Decision logic of the small action bar shown below a captured region:
//! where it goes, which button the mouse is over, and which choice an input
//! makes. A show of the bar hands out at most one choice.

use vstd::prelude::*;
use crate::geometry::{Rect, u32_as_i32};

verus! {

/// Size of the bar window in pixels.
pub const BAR_WIDTH: i32 = 300;
pub const BAR_HEIGHT: i32 = 48;
/// Number of buttons, side by side.
pub const BUTTON_COUNT: i32 = 2;
/// Width of one button (`BAR_WIDTH / BUTTON_COUNT`).
pub const BUTTON_WIDTH: i32 = 150;
/// Gap between the captured region and the bar.
pub const BAR_GAP: i32 = 8;
/// Redraw period of the countdown border, in milliseconds.
pub const ANIMATE_INTERVAL_MS: u32 = 16;

/// Virtual-key codes of the bar's shortcuts: Enter copies, Escape cancels,
/// S saves, A annotates.
pub const VK_RETURN: u32 = 0x0D;
pub const VK_ESCAPE: u32 = 0x1B;
pub const VK_S: u32 = 0x53;
pub const VK_A: u32 = 0x41;

/// User's action choice from the action bar.
#[derive(Debug, Clone, Copy, PartialEq, Eq, Structural)]
pub enum ActionChoice {
    Copy,
    Save,
    Annotate,
    Cancel,
}

/// `a / b` rounded toward zero, as Rust's integer division does.
pub open spec fn trunc_div(a: int, b: int) -> int
    recommends
        b > 0,
{
    if a >= 0 { a / b } else { -((-a) / b) }
}

/// The button under client x-coordinate `x`, or -1.
pub open spec fn spec_button_index_at(x: int) -> int {
    let idx = trunc_div(x, BUTTON_WIDTH as int);
    if 0 <= idx < BUTTON_COUNT { idx } else { -1 }
}

/// The button under client x-coordinate `x` (-1 for none).
pub fn button_index_at(x: i32) -> (r: i32)
    ensures
        r == spec_button_index_at(x as int),
{
    let idx = x / BUTTON_WIDTH;
    if idx >= 0 && idx < BUTTON_COUNT { idx } else { -1 }
}

/// Top-left corner of the bar: centred below `region`, `BAR_GAP` under it.
pub open spec fn spec_bar_position(region: Rect) -> (int, int) {
    (
        region.x + trunc_div(u32_as_i32(region.width), 2) - BAR_WIDTH / 2,
        region.y + u32_as_i32(region.height) + BAR_GAP,
    )
}

/// Where the bar goes for a selection: centred below it.
pub fn bar_position(region: &Rect) -> (r: (i32, i32))
    requires
        i32::MIN <= region.x + trunc_div(u32_as_i32(region.width), 2) <= i32::MAX,
        i32::MIN <= spec_bar_position(*region).0 <= i32::MAX,
        i32::MIN <= region.y + u32_as_i32(region.height) <= i32::MAX,
        i32::MIN <= spec_bar_position(*region).1 <= i32::MAX,
    ensures
        (r.0 as int, r.1 as int) == spec_bar_position(*region),
{
    proof { crate::geometry::lemma_u32_as_i32(region.width); }
    let half = (region.width as i32) / 2;
    let x = region.x + half - BAR_WIDTH / 2;
    let y = region.bottom() + BAR_GAP;
    (x, y)
}

/// Input that reaches the action bar.
#[derive(Debug, Clone, Copy, PartialEq, Eq, Structural)]
pub enum ActionBarEvent {
    /// The bar is shown; a positive timeout starts the auto-copy countdown.
    Show { auto_copy_secs: u32 },
    /// The bar is hidden by its owner.
    Hide,
    MouseMove { x: i32 },
    LButtonUp { x: i32 },
    KeyDown { vk: u32 },
    /// The auto-copy countdown ran out.
    AutoCopyTimer,
    /// The redraw timer of the countdown border ticked.
    AnimateTimer,
}

/// What the bar window does after an event.
#[derive(Debug, Clone, Copy, PartialEq, Eq, Structural)]
pub struct ActionBarStep {
    /// Start the auto-copy timer with this period (and the animation timer).
    pub start_auto_copy_ms: Option<u32>,
    pub kill_auto_copy: bool,
    pub kill_animate: bool,
    pub hide: bool,
    pub redraw: bool,
    /// Hand this choice to the caller.
    pub fire: Option<ActionChoice>,
}

/// State of the action bar window.
#[derive(Debug, Clone, Copy, PartialEq, Eq, Structural)]
pub struct ActionBarState {
    /// Button under the mouse (-1 = none).
    pub hovered_button: i32,
    /// Whether a choice is still owed to the caller of the current show.
    pub awaiting: bool,
    pub auto_copy_timer: bool,
    pub countdown: bool,
}

/// A step that does nothing.
pub open spec fn quiet() -> ActionBarStep {
    ActionBarStep { start_auto_copy_ms: None, kill_auto_copy: false, kill_animate: false, hide: false, redraw: false, fire: None }
}

/// Handing out a choice: stop the timers, hide, report.
pub open spec fn spec_fire(s: ActionBarState, choice: ActionChoice) -> (ActionBarState, ActionBarStep) {
    if s.awaiting {
        (
            ActionBarState { awaiting: false, auto_copy_timer: false, countdown: false, ..s },
            ActionBarStep { start_auto_copy_ms: None, kill_auto_copy: s.auto_copy_timer, kill_animate: true, hide: true, redraw: false, fire: Some(choice) },
        )
    } else {
        (s, quiet())
    }
}

/// The choice a key makes.
pub open spec fn key_choice(vk: u32) -> Option<ActionChoice> {
    if vk == VK_RETURN { Some(ActionChoice::Copy) }
    else if vk == VK_ESCAPE { Some(ActionChoice::Cancel) }
    else if vk == VK_S { Some(ActionChoice::Save) }
    else if vk == VK_A { Some(ActionChoice::Annotate) }
    else { None }
}

/// The choice a click on button `idx` makes.
pub open spec fn button_choice(idx: int) -> Option<ActionChoice> {
    if idx == 0 { Some(ActionChoice::Save) } else if idx == 1 { Some(ActionChoice::Annotate) } else { None }
}

/// The bar's next state and step for an event.
pub open spec fn spec_bar_handle(s: ActionBarState, e: ActionBarEvent) -> (ActionBarState, ActionBarStep) {
    match e {
        ActionBarEvent::Show { auto_copy_secs } => if auto_copy_secs > 0 {
            (
                ActionBarState { hovered_button: -1i32, awaiting: true, auto_copy_timer: true, countdown: true },
                ActionBarStep { start_auto_copy_ms: Some((auto_copy_secs * 1000) as u32), ..quiet() },
            )
        } else {
            (ActionBarState { hovered_button: -1i32, awaiting: true, countdown: false, ..s }, quiet())
        },
        ActionBarEvent::Hide => (
            ActionBarState { auto_copy_timer: false, countdown: false, ..s },
            ActionBarStep { kill_auto_copy: s.auto_copy_timer, kill_animate: true, hide: true, ..quiet() },
        ),
        ActionBarEvent::MouseMove { x } => {
            let idx = spec_button_index_at(x as int);
            if s.hovered_button != idx {
                (ActionBarState { hovered_button: idx as i32, ..s }, ActionBarStep { redraw: true, ..quiet() })
            } else {
                (s, quiet())
            }
        },
        ActionBarEvent::LButtonUp { x } => match button_choice(spec_button_index_at(x as int)) {
            Some(c) => spec_fire(s, c),
            None => (s, quiet()),
        },
        ActionBarEvent::KeyDown { vk } => match key_choice(vk) {
            Some(c) => spec_fire(s, c),
            None => (s, quiet()),
        },
        ActionBarEvent::AutoCopyTimer => spec_fire(s, ActionChoice::Copy),
        ActionBarEvent::AnimateTimer => (s, ActionBarStep { redraw: true, ..quiet() }),
    }
}

impl ActionBarState {
    /// The bar as created, hidden.
    pub fn new() -> (r: Self)
        ensures
            r == (ActionBarState { hovered_button: -1i32, awaiting: false, auto_copy_timer: false, countdown: false }),
    {
        ActionBarState { hovered_button: -1, awaiting: false, auto_copy_timer: false, countdown: false }
    }

    fn fire(&mut self, choice: ActionChoice) -> (r: ActionBarStep)
        ensures
            (*final(self), r) == spec_fire(*old(self), choice),
    {
        if self.awaiting {
            let kill_auto = self.auto_copy_timer;
            self.awaiting = false;
            self.auto_copy_timer = false;
            self.countdown = false;
            ActionBarStep { start_auto_copy_ms: None, kill_auto_copy: kill_auto, kill_animate: true, hide: true, redraw: false, fire: Some(choice) }
        } else {
            ActionBarStep { start_auto_copy_ms: None, kill_auto_copy: false, kill_animate: false, hide: false, redraw: false, fire: None }
        }
    }

    /// Handle one input event.
    pub fn handle(&mut self, event: ActionBarEvent) -> (r: ActionBarStep)
        requires
            event matches ActionBarEvent::Show { auto_copy_secs } ==> auto_copy_secs * 1000 <= u32::MAX,
        ensures
            (*final(self), r) == spec_bar_handle(*old(self), event),
    {
        let quiet = ActionBarStep { start_auto_copy_ms: None, kill_auto_copy: false, kill_animate: false, hide: false, redraw: false, fire: None };
        match event {
            ActionBarEvent::Show { auto_copy_secs } => {
                self.hovered_button = -1;
                self.awaiting = true;
                if auto_copy_secs > 0 {
                    self.auto_copy_timer = true;
                    self.countdown = true;
                    ActionBarStep { start_auto_copy_ms: Some(auto_copy_secs * 1000), ..quiet }
                } else {
                    self.countdown = false;
                    quiet
                }
            },
            ActionBarEvent::Hide => {
                let kill_auto = self.auto_copy_timer;
                self.auto_copy_timer = false;
                self.countdown = false;
                ActionBarStep { kill_auto_copy: kill_auto, kill_animate: true, hide: true, ..quiet }
            },
            ActionBarEvent::MouseMove { x } => {
                let idx = button_index_at(x);
                if self.hovered_button != idx {
                    self.hovered_button = idx;
                    ActionBarStep { redraw: true, ..quiet }
                } else {
                    quiet
                }
            },
            ActionBarEvent::LButtonUp { x } => {
                let idx = button_index_at(x);
                if idx == 0 {
                    self.fire(ActionChoice::Save)
                } else if idx == 1 {
                    self.fire(ActionChoice::Annotate)
                } else {
                    quiet
                }
            },
            ActionBarEvent::KeyDown { vk } => {
                if vk == VK_RETURN {
                    self.fire(ActionChoice::Copy)
                } else if vk == VK_ESCAPE {
                    self.fire(ActionChoice::Cancel)
                } else if vk == VK_S {
                    self.fire(ActionChoice::Save)
                } else if vk == VK_A {
                    self.fire(ActionChoice::Annotate)
                } else {
                    quiet
                }
            },
            ActionBarEvent::AutoCopyTimer => self.fire(ActionChoice::Copy),
            ActionBarEvent::AnimateTimer => ActionBarStep { redraw: true, ..quiet },
        }
    }
}

/// A show of the bar hands out at most one choice: after a choice, no
/// event but a new show makes another.
pub proof fn lemma_bar_fires_once(s: ActionBarState, e: ActionBarEvent)
    requires
        spec_bar_handle(s, e).1.fire is Some,
    ensures
        s.awaiting,
        !spec_bar_handle(s, e).0.awaiting,
{
}

/// A bar that owes no choice stays silent until it is shown again.
pub proof fn lemma_bar_silent_when_done(s: ActionBarState, e: ActionBarEvent)
    requires
        !s.awaiting,
        !(e is Show),
    ensures
        spec_bar_handle(s, e).1.fire is None,
{
}

/// When the countdown runs out on a bar that still waits, the capture is
/// copied and every timer stops.
pub proof fn lemma_auto_copy(s: ActionBarState)
    requires
        s.awaiting,
    ensures
        spec_bar_handle(s, ActionBarEvent::AutoCopyTimer).1.fire == Some(ActionChoice::Copy),
        spec_bar_handle(s, ActionBarEvent::AutoCopyTimer).1.kill_animate,
        spec_bar_handle(s, ActionBarEvent::AutoCopyTimer).1.kill_auto_copy == s.auto_copy_timer,
        !spec_bar_handle(s, ActionBarEvent::AutoCopyTimer).0.auto_copy_timer,
{
}

} // verus!
