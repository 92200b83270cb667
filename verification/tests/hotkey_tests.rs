use nano_snipper::hotkey::{format_hotkey, HotkeyCombination, HotkeyId, Modifier, MOD_NOREPEAT};
use nano_snipper::hotkeys::{registration, registrations, HotkeyManager, HotkeyRegistration};
use nano_snipper::config::HotkeyConfig;

#[test]
fn win32_modifiers_sets_norepeat_and_flags() {
    let c = HotkeyCombination { modifiers: vec![Modifier::Ctrl, Modifier::Shift], key: 0x31 };
    assert_eq!(c.win32_modifiers(), 0x4000 | 0x0002 | 0x0004);
    let all = HotkeyCombination { modifiers: vec![Modifier::Alt, Modifier::Ctrl, Modifier::Shift, Modifier::Win], key: 0x41 };
    assert_eq!(all.win32_modifiers(), 0x400F);
    let none = HotkeyCombination { modifiers: vec![], key: 0x70 };
    assert_eq!(none.win32_modifiers(), MOD_NOREPEAT);
}

#[test]
fn repeated_modifier_counts_once() {
    let c = HotkeyCombination { modifiers: vec![Modifier::Alt, Modifier::Alt], key: 0x41 };
    assert_eq!(c.win32_modifiers(), 0x4001);
}

#[test]
fn hotkey_id_roundtrip() {
    assert_eq!(HotkeyId::from_i32(1), Some(HotkeyId::Region));
    assert_eq!(HotkeyId::from_i32(2), Some(HotkeyId::Fullscreen));
    assert_eq!(HotkeyId::from_i32(0), None);
    assert_eq!(HotkeyId::from_i32(3), None);
    assert_eq!(HotkeyId::from_i32(HotkeyId::Region.as_i32()), Some(HotkeyId::Region));
    assert_eq!(HotkeyId::from_i32(HotkeyId::Fullscreen.as_i32()), Some(HotkeyId::Fullscreen));
}

#[test]
fn format_hotkey_letters_digits_and_codes() {
    let c = HotkeyCombination { modifiers: vec![Modifier::Ctrl, Modifier::Shift], key: 0x31 };
    assert_eq!(format_hotkey(&c), "Ctrl + Shift + 1");
    let w = HotkeyCombination { modifiers: vec![Modifier::Win], key: 0x41 };
    assert_eq!(format_hotkey(&w), "Win + A");
    let f = HotkeyCombination { modifiers: vec![], key: 0x70 };
    assert_eq!(format_hotkey(&f), "0x70");
}

#[test]
fn registrations_follow_the_config() {
    let cfg = HotkeyConfig::default();
    let regs = registrations(&cfg);
    assert_eq!(regs, vec![
        HotkeyRegistration { id: HotkeyId::Region, modifiers: 0x4006, key: 0x31 },
        HotkeyRegistration { id: HotkeyId::Fullscreen, modifiers: 0x4006, key: 0x32 },
    ]);
    let one = registration(HotkeyId::Fullscreen, &HotkeyCombination { modifiers: vec![Modifier::Alt], key: 0x50 });
    assert_eq!(one, HotkeyRegistration { id: HotkeyId::Fullscreen, modifiers: 0x4001, key: 0x50 });
}

#[test]
fn manager_releases_everything_it_holds() {
    let mut m = HotkeyManager::new();
    m.record(HotkeyId::Region, true);
    m.record(HotkeyId::Fullscreen, false);
    assert_eq!(m.registered, vec![HotkeyId::Region]);
    m.record(HotkeyId::Fullscreen, true);
    assert_eq!(m.unregister_all(), vec![HotkeyId::Region, HotkeyId::Fullscreen]);
    assert!(m.registered.is_empty());
    assert!(m.unregister_all().is_empty());
}
