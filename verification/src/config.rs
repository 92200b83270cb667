//! Application configuration and its defaults.

use vstd::prelude::*;
use crate::hotkey::{HotkeyCombination, Modifier};

verus! {

/// Top-level application configuration, persisted as `config.toml`.
#[derive(Debug)]
pub struct NsConfig {
    pub hotkeys: HotkeyConfig,
    pub retention: RetentionConfig,
    pub behavior: BehaviorConfig,
}

/// The two capture hotkeys.
#[derive(Debug)]
pub struct HotkeyConfig {
    pub region: HotkeyCombination,
    pub fullscreen: HotkeyCombination,
}

/// How long and how much capture history is kept.
#[derive(Debug, Clone, Copy, PartialEq, Eq, Structural)]
pub struct RetentionConfig {
    /// Maximum age of captures in days. 0 = unlimited.
    pub max_age_days: u32,
    /// Maximum total size of captures in megabytes. 0 = unlimited.
    pub max_size_mb: u64,
}

/// What happens around a capture and at login.
#[derive(Debug, Clone, Copy, PartialEq, Eq, Structural)]
pub struct BehaviorConfig {
    /// Auto-copy to clipboard after this many seconds (0 = disabled).
    pub auto_copy_timeout_secs: u32,
    /// Start the daemon on Windows login.
    pub start_on_login: bool,
}

/// Whether a hotkey configuration is the default one: Ctrl+Shift+1 for a
/// region, Ctrl+Shift+2 for the full screen.
pub open spec fn is_default_hotkeys(h: HotkeyConfig) -> bool {
    &&& h.region.modifiers@ == seq![Modifier::Ctrl, Modifier::Shift]
    &&& h.region.key == 0x31
    &&& h.fullscreen.modifiers@ == seq![Modifier::Ctrl, Modifier::Shift]
    &&& h.fullscreen.key == 0x32
}

fn ctrl_shift() -> (r: Vec<Modifier>)
    ensures
        r@ == seq![Modifier::Ctrl, Modifier::Shift],
{
    let mut v: Vec<Modifier> = Vec::new();
    v.push(Modifier::Ctrl);
    v.push(Modifier::Shift);
    assert(v@ =~= seq![Modifier::Ctrl, Modifier::Shift]);
    v
}

impl Default for HotkeyConfig {
    fn default() -> (r: Self)
        ensures
            is_default_hotkeys(r),
    {
        HotkeyConfig {
            region: HotkeyCombination { modifiers: ctrl_shift(), key: 0x31 },
            fullscreen: HotkeyCombination { modifiers: ctrl_shift(), key: 0x32 },
        }
    }
}

impl Default for RetentionConfig {
    fn default() -> (r: Self)
        ensures
            r.max_age_days == 7,
            r.max_size_mb == 2048,
    {
        RetentionConfig { max_age_days: 7, max_size_mb: 2048 }
    }
}

impl Default for BehaviorConfig {
    fn default() -> (r: Self)
        ensures
            r.auto_copy_timeout_secs == 5,
            r.start_on_login,
    {
        BehaviorConfig { auto_copy_timeout_secs: 5, start_on_login: true }
    }
}

impl Default for NsConfig {
    fn default() -> (r: Self)
        ensures
            is_default_hotkeys(r.hotkeys),
            r.retention == (RetentionConfig { max_age_days: 7, max_size_mb: 2048 }),
            r.behavior == (BehaviorConfig { auto_copy_timeout_secs: 5, start_on_login: true }),
    {
        NsConfig {
            hotkeys: HotkeyConfig::default(),
            retention: RetentionConfig::default(),
            behavior: BehaviorConfig::default(),
        }
    }
}

impl HotkeyConfig {
    /// A copy of this configuration.
    pub fn duplicate(&self) -> (r: Self)
        ensures
            r.region.modifiers@ == self.region.modifiers@,
            r.region.key == self.region.key,
            r.fullscreen.modifiers@ == self.fullscreen.modifiers@,
            r.fullscreen.key == self.fullscreen.key,
    {
        HotkeyConfig { region: self.region.duplicate(), fullscreen: self.fullscreen.duplicate() }
    }
}

impl NsConfig {
    /// A copy of this configuration.
    pub fn duplicate(&self) -> (r: Self)
        ensures
            r.hotkeys.region.modifiers@ == self.hotkeys.region.modifiers@,
            r.hotkeys.region.key == self.hotkeys.region.key,
            r.hotkeys.fullscreen.modifiers@ == self.hotkeys.fullscreen.modifiers@,
            r.hotkeys.fullscreen.key == self.hotkeys.fullscreen.key,
            r.retention == self.retention,
            r.behavior == self.behavior,
    {
        NsConfig { hotkeys: self.hotkeys.duplicate(), retention: self.retention, behavior: self.behavior }
    }
}

/// Two combinations are the same binding.
pub open spec fn same_combo(a: HotkeyCombination, b: HotkeyCombination) -> bool {
    a.modifiers@ == b.modifiers@ && a.key == b.key
}

/// Everything of a configuration but its hotkeys is the same.
pub open spec fn same_but_hotkeys(a: NsConfig, b: NsConfig) -> bool {
    a.retention == b.retention && a.behavior == b.behavior
}

/// Two configurations hold the same settings.
pub open spec fn same_config(a: NsConfig, b: NsConfig) -> bool {
    same_but_hotkeys(a, b) && same_combo(a.hotkeys.region, b.hotkeys.region)
        && same_combo(a.hotkeys.fullscreen, b.hotkeys.fullscreen)
}

} // verus!
