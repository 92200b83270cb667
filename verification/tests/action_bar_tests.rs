use nano_snipper::action_bar::{
    bar_position, button_index_at, ActionBarEvent, ActionBarState, ActionChoice, VK_A, VK_ESCAPE, VK_RETURN, VK_S,
};
use nano_snipper::geometry::Rect;

#[test]
fn bar_is_centred_below_selection() {
    assert_eq!(bar_position(&Rect::new(100, 100, 400, 300)), (150, 408));
    assert_eq!(bar_position(&Rect::new(-50, 0, 3, 10)), (-199, 18));
}

#[test]
fn buttons_split_the_bar() {
    assert_eq!(button_index_at(0), 0);
    assert_eq!(button_index_at(149), 0);
    assert_eq!(button_index_at(150), 1);
    assert_eq!(button_index_at(299), 1);
    assert_eq!(button_index_at(300), -1);
    assert_eq!(button_index_at(-1), 0);
    assert_eq!(button_index_at(-150), -1);
}

#[test]
fn auto_copy_fires_copy_and_stops_timers() {
    let mut s = ActionBarState::new();
    let show = s.handle(ActionBarEvent::Show { auto_copy_secs: 3 });
    assert_eq!(show.start_auto_copy_ms, Some(3000));
    let t = s.handle(ActionBarEvent::AutoCopyTimer);
    assert_eq!(t.fire, Some(ActionChoice::Copy));
    assert!(t.kill_auto_copy && t.kill_animate && t.hide);
    assert_eq!(s.handle(ActionBarEvent::AutoCopyTimer).fire, None);
}

#[test]
fn a_choice_cancels_the_auto_copy() {
    let mut s = ActionBarState::new();
    s.handle(ActionBarEvent::Show { auto_copy_secs: 5 });
    let save = s.handle(ActionBarEvent::KeyDown { vk: VK_S });
    assert_eq!(save.fire, Some(ActionChoice::Save));
    assert!(save.kill_auto_copy);
    assert_eq!(s.handle(ActionBarEvent::AutoCopyTimer).fire, None);
}

#[test]
fn zero_timeout_starts_no_timer() {
    let mut s = ActionBarState::new();
    let show = s.handle(ActionBarEvent::Show { auto_copy_secs: 0 });
    assert_eq!(show.start_auto_copy_ms, None);
    assert!(!s.auto_copy_timer);
}

#[test]
fn keys_and_clicks_choose() {
    let mut s = ActionBarState::new();
    s.handle(ActionBarEvent::Show { auto_copy_secs: 0 });
    assert_eq!(s.handle(ActionBarEvent::KeyDown { vk: VK_A }).fire, Some(ActionChoice::Annotate));
    s.handle(ActionBarEvent::Show { auto_copy_secs: 0 });
    assert_eq!(s.handle(ActionBarEvent::KeyDown { vk: VK_ESCAPE }).fire, Some(ActionChoice::Cancel));
    s.handle(ActionBarEvent::Show { auto_copy_secs: 0 });
    assert_eq!(s.handle(ActionBarEvent::KeyDown { vk: 0x51 }).fire, None);
    assert_eq!(s.handle(ActionBarEvent::LButtonUp { x: 10 }).fire, Some(ActionChoice::Save));
    s.handle(ActionBarEvent::Show { auto_copy_secs: 0 });
    assert_eq!(s.handle(ActionBarEvent::KeyDown { vk: VK_RETURN }).fire, Some(ActionChoice::Copy));
    s.handle(ActionBarEvent::Show { auto_copy_secs: 0 });
    assert_eq!(s.handle(ActionBarEvent::LButtonUp { x: 200 }).fire, Some(ActionChoice::Annotate));
}

#[test]
fn hover_redraws_only_on_change() {
    let mut s = ActionBarState::new();
    s.handle(ActionBarEvent::Show { auto_copy_secs: 0 });
    assert!(s.handle(ActionBarEvent::MouseMove { x: 10 }).redraw);
    assert!(!s.handle(ActionBarEvent::MouseMove { x: 20 }).redraw);
    assert!(s.handle(ActionBarEvent::MouseMove { x: 160 }).redraw);
    assert_eq!(s.hovered_button, 1);
}
