//! Bookkeeping of the system-wide hotkeys the daemon registers: what each
//! registration asks the system for, and which hotkeys are held so that
//! they can be released again.

use vstd::prelude::*;
use crate::config::HotkeyConfig;
use crate::hotkey::{HotkeyCombination, HotkeyId, modifier_flags};

verus! {

/// One call of `RegisterHotKey`: the id the hotkey is reported under, its
/// `MOD_*` flags and its virtual-key code.
#[derive(Debug, Clone, Copy, PartialEq, Eq, Structural)]
pub struct HotkeyRegistration {
    pub id: HotkeyId,
    pub modifiers: u32,
    pub key: u32,
}

/// The registration of `combo` under `id`.
pub fn registration(id: HotkeyId, combo: &HotkeyCombination) -> (r: HotkeyRegistration)
    ensures
        r == (HotkeyRegistration { id, modifiers: modifier_flags(combo.modifiers@), key: combo.key }),
{
    HotkeyRegistration { id, modifiers: combo.win32_modifiers(), key: combo.key }
}

/// The registrations that bring a configuration into force, in the order
/// they are made: the region hotkey, then the full-screen one. They are
/// made one by one, and the first that the system refuses ends the round.
pub fn registrations(config: &HotkeyConfig) -> (r: Vec<HotkeyRegistration>)
    ensures
        r@ == seq![
            HotkeyRegistration { id: HotkeyId::Region, modifiers: modifier_flags(config.region.modifiers@), key: config.region.key },
            HotkeyRegistration { id: HotkeyId::Fullscreen, modifiers: modifier_flags(config.fullscreen.modifiers@), key: config.fullscreen.key },
        ],
{
    let mut v: Vec<HotkeyRegistration> = Vec::new();
    v.push(registration(HotkeyId::Region, &config.region));
    v.push(registration(HotkeyId::Fullscreen, &config.fullscreen));
    assert(v@ =~= seq![
        HotkeyRegistration { id: HotkeyId::Region, modifiers: modifier_flags(config.region.modifiers@), key: config.region.key },
        HotkeyRegistration { id: HotkeyId::Fullscreen, modifiers: modifier_flags(config.fullscreen.modifiers@), key: config.fullscreen.key },
    ]);
    v
}

/// The hotkeys that are registered, in the order they were registered.
#[derive(Debug)]
pub struct HotkeyManager {
    pub registered: Vec<HotkeyId>,
}

impl HotkeyManager {
    /// No hotkey registered yet.
    pub fn new() -> (r: Self)
        ensures
            r.registered@.len() == 0,
    {
        HotkeyManager { registered: Vec::new() }
    }

    /// Record the system's answer to the registration of `id`: a hotkey
    /// that was accepted is held from now on.
    pub fn record(&mut self, id: HotkeyId, accepted: bool)
        ensures
            accepted ==> final(self).registered@ == old(self).registered@.push(id),
            !accepted ==> final(self).registered@ == old(self).registered@,
    {
        if accepted {
            self.registered.push(id);
        }
    }

    /// Give up every held hotkey: the ids to unregister, oldest first. None
    /// is held afterwards.
    pub fn unregister_all(&mut self) -> (r: Vec<HotkeyId>)
        ensures
            r@ == old(self).registered@,
            final(self).registered@.len() == 0,
    {
        let mut taken: Vec<HotkeyId> = Vec::new();
        std::mem::swap(&mut taken, &mut self.registered);
        taken
    }
}

} // verus!
