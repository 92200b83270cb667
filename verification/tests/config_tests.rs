use nano_snipper::config::{BehaviorConfig, HotkeyConfig, NsConfig, RetentionConfig};
use nano_snipper::hotkey::Modifier;

#[test]
fn default_config_values() {
    let c = NsConfig::default();
    assert_eq!(c.hotkeys.region.modifiers, vec![Modifier::Ctrl, Modifier::Shift]);
    assert_eq!(c.hotkeys.region.key, '1' as u32);
    assert_eq!(c.hotkeys.fullscreen.modifiers, vec![Modifier::Ctrl, Modifier::Shift]);
    assert_eq!(c.hotkeys.fullscreen.key, '2' as u32);
    assert_eq!(c.retention, RetentionConfig { max_age_days: 7, max_size_mb: 2048 });
    assert_eq!(c.behavior, BehaviorConfig { auto_copy_timeout_secs: 5, start_on_login: true });
}

#[test]
fn section_defaults_agree() {
    assert_eq!(RetentionConfig::default(), RetentionConfig { max_age_days: 7, max_size_mb: 2048 });
    assert_eq!(BehaviorConfig::default(), BehaviorConfig { auto_copy_timeout_secs: 5, start_on_login: true });
    let h = HotkeyConfig::default();
    assert_eq!(h.region.key, 0x31);
    assert_eq!(h.fullscreen.key, 0x32);
}

#[test]
fn duplicate_copies_everything() {
    let mut c = NsConfig::default();
    c.retention.max_age_days = 7;
    c.hotkeys.fullscreen.modifiers = vec![Modifier::Win];
    let d = c.duplicate();
    assert_eq!(d.retention, c.retention);
    assert_eq!(d.behavior, c.behavior);
    assert_eq!(d.hotkeys.fullscreen.modifiers, vec![Modifier::Win]);
    assert_eq!(d.hotkeys.region.key, c.hotkeys.region.key);
}
