//! Turning a key press of the UI toolkit into a hotkey binding, for the
//! hotkey recorder of the settings page.

use vstd::prelude::*;
use crate::hotkey::{HotkeyCombination, Modifier};

verus! {

/// The named keys that a key press can carry.
#[derive(Debug, Clone, Copy, PartialEq, Eq, Structural)]
pub enum NamedKey {
    F1, F2, F3, F4, F5, F6, F7, F8, F9, F10, F11, F12,
    Space, Enter, Tab,
    ArrowUp, ArrowDown, ArrowLeft, ArrowRight,
    Home, End, PageUp, PageDown, Insert, Delete, Backspace,
    Shift, Control, Alt, Super,
    /// Any other named key.
    Other,
}

/// A pressed key as the UI toolkit reports it.
#[derive(Debug)]
pub enum Key {
    /// A key that produces text; the text it produces.
    Character(String),
    /// A key with a name.
    Named(NamedKey),
    /// A key the toolkit could not identify.
    Unidentified,
}

/// The modifier keys held during a key press.
#[derive(Debug, Clone, Copy, PartialEq, Eq, Structural)]
pub struct KeyModifiers {
    pub control: bool,
    pub shift: bool,
    pub alt: bool,
    pub logo: bool,
}

/// What `str::to_uppercase` gives for a string: its uppercase form under
/// Unicode's case mapping, which depends on the string alone.
pub uninterp spec fn uppercase(s: Seq<char>) -> Seq<char>;

/// `str::to_uppercase`.
#[verifier::external_body]
fn to_uppercase(s: &str) -> (r: String)
    ensures
        r@ == uppercase(s@),
{
    s.to_uppercase()
}

/// The virtual-key code of an (uppercased) character: letters and digits
/// stand for themselves; the symbols that Shift gives on the digit keys of
/// a US keyboard stand for those digits.
pub open spec fn char_vk(ch: char) -> Option<u32> {
    if ('A' <= ch && ch <= 'Z') || ('0' <= ch && ch <= '9') {
        Some(ch as u32)
    } else if ch == '!' {
        Some(0x31)
    } else if ch == '@' {
        Some(0x32)
    } else if ch == '#' {
        Some(0x33)
    } else if ch == '$' {
        Some(0x34)
    } else if ch == '%' {
        Some(0x35)
    } else if ch == '^' {
        Some(0x36)
    } else if ch == '&' {
        Some(0x37)
    } else if ch == '*' {
        Some(0x38)
    } else if ch == '(' {
        Some(0x39)
    } else if ch == ')' {
        Some(0x30)
    } else {
        None
    }
}

/// The symbols on the digit keys of a US keyboard, typed with Shift, in
/// the order of the keys from 1 to 0.
pub open spec fn shifted_digit_row() -> Seq<char> {
    seq!['!', '@', '#', '$', '%', '^', '&', '*', '(', ')']
}

/// The digit keys from 1 to 0.
pub open spec fn digit_row() -> Seq<char> {
    seq!['1', '2', '3', '4', '5', '6', '7', '8', '9', '0']
}

/// A shifted digit symbol stands for the key it is typed on: the `i`-th
/// symbol of the row is the `i`-th digit key, whose code is the ASCII
/// code of the digit `(i + 1) % 10`.
pub proof fn lemma_shifted_digits(i: int)
    requires
        0 <= i < 10,
    ensures
        char_vk(shifted_digit_row()[i]) == char_vk(digit_row()[i]),
        char_vk(shifted_digit_row()[i]) == Some((0x30 + (i + 1) % 10) as u32),
{
    assert(i == 0 || i == 1 || i == 2 || i == 3 || i == 4 || i == 5 || i == 6 || i == 7 || i == 8 || i == 9);
}

/// The virtual-key code of a named key; none for a bare modifier or a key
/// a hotkey cannot use.
pub open spec fn named_vk(k: NamedKey) -> Option<u32> {
    match k {
        NamedKey::F1 => Some(0x70),
        NamedKey::F2 => Some(0x71),
        NamedKey::F3 => Some(0x72),
        NamedKey::F4 => Some(0x73),
        NamedKey::F5 => Some(0x74),
        NamedKey::F6 => Some(0x75),
        NamedKey::F7 => Some(0x76),
        NamedKey::F8 => Some(0x77),
        NamedKey::F9 => Some(0x78),
        NamedKey::F10 => Some(0x79),
        NamedKey::F11 => Some(0x7A),
        NamedKey::F12 => Some(0x7B),
        NamedKey::Space => Some(0x20),
        NamedKey::Enter => Some(0x0D),
        NamedKey::Tab => Some(0x09),
        NamedKey::ArrowUp => Some(0x26),
        NamedKey::ArrowDown => Some(0x28),
        NamedKey::ArrowLeft => Some(0x25),
        NamedKey::ArrowRight => Some(0x27),
        NamedKey::Home => Some(0x24),
        NamedKey::End => Some(0x23),
        NamedKey::PageUp => Some(0x21),
        NamedKey::PageDown => Some(0x22),
        NamedKey::Insert => Some(0x2D),
        NamedKey::Delete => Some(0x2E),
        NamedKey::Backspace => Some(0x08),
        _ => None,
    }
}

/// The virtual-key code of a pressed key: for a character key, that of
/// the first character of its uppercased text.
pub open spec fn key_vk(key: Key) -> Option<u32> {
    match key {
        Key::Character(s) => {
            let u = uppercase(s@);
            if u.len() == 0 { None } else { char_vk(u[0]) }
        },
        Key::Named(n) => named_vk(n),
        Key::Unidentified => None,
    }
}

/// The modifiers held, in the order Ctrl, Shift, Alt, Win.
pub open spec fn held_modifiers(m: KeyModifiers) -> Seq<Modifier> {
    (if m.control { seq![Modifier::Ctrl] } else { Seq::empty() })
        + (if m.shift { seq![Modifier::Shift] } else { Seq::empty() })
        + (if m.alt { seq![Modifier::Alt] } else { Seq::empty() })
        + (if m.logo { seq![Modifier::Win] } else { Seq::empty() })
}

/// The virtual-key code of an uppercased character, if a hotkey can use it.
pub fn vk_for_char(ch: char) -> (r: Option<u32>)
    ensures
        r == char_vk(ch),
{
    if ('A' <= ch && ch <= 'Z') || ('0' <= ch && ch <= '9') {
        Some(ch as u32)
    } else {
        match ch {
            '!' => Some(0x31),
            '@' => Some(0x32),
            '#' => Some(0x33),
            '$' => Some(0x34),
            '%' => Some(0x35),
            '^' => Some(0x36),
            '&' => Some(0x37),
            '*' => Some(0x38),
            '(' => Some(0x39),
            ')' => Some(0x30),
            _ => None,
        }
    }
}

/// The virtual-key code of a named key, if a hotkey can use it.
pub fn vk_for_named(k: NamedKey) -> (r: Option<u32>)
    ensures
        r == named_vk(k),
{
    match k {
        NamedKey::F1 => Some(0x70),
        NamedKey::F2 => Some(0x71),
        NamedKey::F3 => Some(0x72),
        NamedKey::F4 => Some(0x73),
        NamedKey::F5 => Some(0x74),
        NamedKey::F6 => Some(0x75),
        NamedKey::F7 => Some(0x76),
        NamedKey::F8 => Some(0x77),
        NamedKey::F9 => Some(0x78),
        NamedKey::F10 => Some(0x79),
        NamedKey::F11 => Some(0x7A),
        NamedKey::F12 => Some(0x7B),
        NamedKey::Space => Some(0x20),
        NamedKey::Enter => Some(0x0D),
        NamedKey::Tab => Some(0x09),
        NamedKey::ArrowUp => Some(0x26),
        NamedKey::ArrowDown => Some(0x28),
        NamedKey::ArrowLeft => Some(0x25),
        NamedKey::ArrowRight => Some(0x27),
        NamedKey::Home => Some(0x24),
        NamedKey::End => Some(0x23),
        NamedKey::PageUp => Some(0x21),
        NamedKey::PageDown => Some(0x22),
        NamedKey::Insert => Some(0x2D),
        NamedKey::Delete => Some(0x2E),
        NamedKey::Backspace => Some(0x08),
        _ => None,
    }
}

/// The binding of key `vk` with the modifiers held.
pub fn combination_with(vk: u32, mods: KeyModifiers) -> (r: HotkeyCombination)
    ensures
        r.key == vk,
        r.modifiers@ == held_modifiers(mods),
{
    let mut modifiers: Vec<Modifier> = Vec::new();
    if mods.control {
        modifiers.push(Modifier::Ctrl);
    }
    if mods.shift {
        modifiers.push(Modifier::Shift);
    }
    if mods.alt {
        modifiers.push(Modifier::Alt);
    }
    if mods.logo {
        modifiers.push(Modifier::Win);
    }
    assert(modifiers@ =~= held_modifiers(mods));
    HotkeyCombination { modifiers, key: vk }
}

/// Convert a key press into a hotkey binding. A bare modifier, or a key a
/// hotkey cannot use, gives none (the recorder waits for another key).
pub fn convert_key_to_hotkey(key: Key, mods: KeyModifiers) -> (r: Option<HotkeyCombination>)
    ensures
        match key_vk(key) {
            Some(vk) => r matches Some(c) && c.key == vk && c.modifiers@ == held_modifiers(mods),
            None => r is None,
        },
{
    let vk = match key {
        Key::Character(text) => {
            let upper = to_uppercase(text.as_str());
            if upper.as_str().unicode_len() == 0 {
                return None;
            }
            let ch = upper.as_str().get_char(0);
            vk_for_char(ch)
        },
        Key::Named(named) => vk_for_named(named),
        Key::Unidentified => None,
    };
    match vk {
        Some(v) => Some(combination_with(v, mods)),
        None => None,
    }
}

} // verus!
