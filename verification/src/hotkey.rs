//! Hotkey combinations: modifiers plus a virtual key code, their Win32
//! registration flags and their display text.

use vstd::prelude::*;
use crate::text::push_char;

verus! {

/// A keyboard modifier key.
#[derive(Debug, Clone, Copy, PartialEq, Eq, Structural)]
pub enum Modifier {
    Alt,
    Ctrl,
    Shift,
    Win,
}

/// A hotkey combination: one or more modifiers + a virtual key code.
#[derive(Debug)]
pub struct HotkeyCombination {
    pub modifiers: Vec<Modifier>,
    /// Virtual key code (e.g., `0x31` for '1', `0x4F` for 'O').
    pub key: u32,
}

/// `MOD_NOREPEAT`, always requested.
pub const MOD_NOREPEAT: u32 = 0x4000;

/// The Win32 `MOD_*` flag of a modifier.
pub open spec fn modifier_flag(m: Modifier) -> u32 {
    match m {
        Modifier::Alt => 0x0001,
        Modifier::Ctrl => 0x0002,
        Modifier::Shift => 0x0004,
        Modifier::Win => 0x0008,
    }
}

/// `MOD_NOREPEAT` together with the flag of each modifier that is present.
pub open spec fn flags_for(alt: bool, ctrl: bool, shift: bool, win: bool) -> u32 {
    0x4000u32 | (if alt { 1u32 } else { 0u32 }) | (if ctrl { 2u32 } else { 0u32 })
        | (if shift { 4u32 } else { 0u32 }) | (if win { 8u32 } else { 0u32 })
}

/// The registration flags of a modifier list: which modifiers occur in it,
/// whatever their order or repetition.
pub open spec fn modifier_flags(mods: Seq<Modifier>) -> u32 {
    flags_for(
        mods.contains(Modifier::Alt),
        mods.contains(Modifier::Ctrl),
        mods.contains(Modifier::Shift),
        mods.contains(Modifier::Win),
    )
}

proof fn lemma_flags_step(alt: bool, ctrl: bool, shift: bool, win: bool, m: Modifier)
    ensures
        flags_for(alt, ctrl, shift, win) | modifier_flag(m) == flags_for(
            alt || m == Modifier::Alt,
            ctrl || m == Modifier::Ctrl,
            shift || m == Modifier::Shift,
            win || m == Modifier::Win,
        ),
{
    let a: u32 = if alt { 1u32 } else { 0u32 };
    let c: u32 = if ctrl { 2u32 } else { 0u32 };
    let s: u32 = if shift { 4u32 } else { 0u32 };
    let w: u32 = if win { 8u32 } else { 0u32 };
    match m {
        Modifier::Alt => {
            assert(0x4000u32 | a | c | s | w | 1u32 == 0x4000u32 | 1u32 | c | s | w) by (bit_vector)
                requires a == 0u32 || a == 1u32, c == 0u32 || c == 2u32, s == 0u32 || s == 4u32, w == 0u32 || w == 8u32;
        },
        Modifier::Ctrl => {
            assert(0x4000u32 | a | c | s | w | 2u32 == 0x4000u32 | a | 2u32 | s | w) by (bit_vector)
                requires a == 0u32 || a == 1u32, c == 0u32 || c == 2u32, s == 0u32 || s == 4u32, w == 0u32 || w == 8u32;
        },
        Modifier::Shift => {
            assert(0x4000u32 | a | c | s | w | 4u32 == 0x4000u32 | a | c | 4u32 | w) by (bit_vector)
                requires a == 0u32 || a == 1u32, c == 0u32 || c == 2u32, s == 0u32 || s == 4u32, w == 0u32 || w == 8u32;
        },
        Modifier::Win => {
            assert(0x4000u32 | a | c | s | w | 8u32 == 0x4000u32 | a | c | s | 8u32) by (bit_vector)
                requires a == 0u32 || a == 1u32, c == 0u32 || c == 2u32, s == 0u32 || s == 4u32, w == 0u32 || w == 8u32;
        },
    }
}

/// Display name of a modifier.
pub open spec fn modifier_name(m: Modifier) -> Seq<char> {
    match m {
        Modifier::Win => "Win"@,
        Modifier::Ctrl => "Ctrl"@,
        Modifier::Shift => "Shift"@,
        Modifier::Alt => "Alt"@,
    }
}

/// Modifier names in order, separated by `" + "`.
pub open spec fn join_modifiers(mods: Seq<Modifier>) -> Seq<char>
    decreases mods.len(),
{
    if mods.len() == 0 {
        Seq::empty()
    } else if mods.len() == 1 {
        modifier_name(mods[0])
    } else {
        join_modifiers(mods.drop_last()) + " + "@ + modifier_name(mods.last())
    }
}

/// Upper-case hexadecimal digit of `d` (< 16).
pub open spec fn hex_digit(d: nat) -> char {
    if d < 10 {
        (('0' as nat) + d) as char
    } else {
        (('A' as nat) + (d - 10)) as char
    }
}

/// Upper-case hexadecimal digits of `n`, without leading zeros.
pub open spec fn hex_upper(n: nat) -> Seq<char>
    decreases n,
{
    if n < 16 {
        seq![hex_digit(n)]
    } else {
        hex_upper(n / 16).push(hex_digit(n % 16))
    }
}

/// How a virtual key code is shown: digits and letters as themselves,
/// anything else as `0x` and its upper-case hex code.
pub open spec fn key_label(key: u32) -> Seq<char> {
    if (0x30 <= key <= 0x39) || (0x41 <= key <= 0x5A) {
        seq![key as char]
    } else {
        "0x"@ + hex_upper(key as nat)
    }
}

/// The display text of a combination, e.g. `Ctrl + Shift + 1`.
pub open spec fn hotkey_text(mods: Seq<Modifier>, key: u32) -> Seq<char> {
    join_modifiers(mods) + (if mods.len() > 0 { " + "@ } else { Seq::empty() }) + key_label(key)
}

impl HotkeyCombination {
    /// A copy of this combination.
    pub fn duplicate(&self) -> (r: Self)
        ensures
            r.modifiers@ == self.modifiers@,
            r.key == self.key,
    {
        let mut mods: Vec<Modifier> = Vec::new();
        let mut i: usize = 0;
        while i < self.modifiers.len()
            invariant
                i <= self.modifiers@.len(),
                mods@ =~= self.modifiers@.subrange(0, i as int),
            decreases self.modifiers@.len() - i,
        {
            mods.push(self.modifiers[i]);
            assert(self.modifiers@.subrange(0, i + 1) =~= self.modifiers@.subrange(0, i as int).push(self.modifiers@[i as int]));
            i = i + 1;
        }
        assert(self.modifiers@.subrange(0, self.modifiers@.len() as int) =~= self.modifiers@);
        HotkeyCombination { modifiers: mods, key: self.key }
    }

    /// Convert modifiers to Win32 `MOD_*` flags for `RegisterHotKey`.
    pub fn win32_modifiers(&self) -> (r: u32)
        ensures
            r == modifier_flags(self.modifiers@),
    {
        let mut flags = 0u32;
        flags |= MOD_NOREPEAT;
        assert(flags == flags_for(false, false, false, false)) by {
            assert(0u32 | 0x4000u32 == 0x4000u32 | 0u32 | 0u32 | 0u32 | 0u32) by (bit_vector);
        }
        let mut i: usize = 0;
        while i < self.modifiers.len()
            invariant
                i <= self.modifiers@.len(),
                flags == modifier_flags(self.modifiers@.subrange(0, i as int)),
            decreases self.modifiers@.len() - i,
        {
            let m = self.modifiers[i];
            let bit: u32 = match m {
                Modifier::Alt => 0x0001,
                Modifier::Ctrl => 0x0002,
                Modifier::Shift => 0x0004,
                Modifier::Win => 0x0008,
            };
            let ghost before = self.modifiers@.subrange(0, i as int);
            let ghost after = self.modifiers@.subrange(0, i + 1);
            proof {
                assert(after =~= before.push(m));
                assert forall|x: Modifier| after.contains(x) <==> (before.contains(x) || x == m) by {
                    if after.contains(x) {
                        let k = choose|k: int| 0 <= k < after.len() && after[k] == x;
                        if k < before.len() {
                            assert(before[k] == x);
                        }
                    }
                    if before.contains(x) {
                        let k = choose|k: int| 0 <= k < before.len() && before[k] == x;
                        assert(after[k] == x);
                    }
                    if x == m {
                        assert(after[before.len() as int] == x);
                    }
                }
                lemma_flags_step(
                    before.contains(Modifier::Alt),
                    before.contains(Modifier::Ctrl),
                    before.contains(Modifier::Shift),
                    before.contains(Modifier::Win),
                    m,
                );
            }
            flags |= bit;
            i = i + 1;
        }
        assert(self.modifiers@.subrange(0, self.modifiers@.len() as int) =~= self.modifiers@);
        flags
    }
}

/// Identifiers for the different hotkey actions (used as `id` in `RegisterHotKey`).
#[derive(Debug, Clone, Copy, PartialEq, Eq, Structural)]
pub enum HotkeyId {
    Region,
    Fullscreen,
}

impl HotkeyId {
    /// The registration id of this hotkey.
    pub open spec fn spec_id(self) -> i32 {
        match self {
            HotkeyId::Region => 1,
            HotkeyId::Fullscreen => 2,
        }
    }

    /// The registration id of this hotkey (1 for region, 2 for fullscreen).
    pub fn as_i32(self) -> (r: i32)
        ensures
            r == self.spec_id(),
    {
        match self {
            HotkeyId::Region => 1,
            HotkeyId::Fullscreen => 2,
        }
    }

    /// The hotkey registered under `id`, if any.
    pub fn from_i32(id: i32) -> (r: Option<Self>)
        ensures
            id == 1 ==> r == Some(HotkeyId::Region),
            id == 2 ==> r == Some(HotkeyId::Fullscreen),
            id != 1 && id != 2 ==> r.is_none(),
    {
        match id {
            1 => Some(HotkeyId::Region),
            2 => Some(HotkeyId::Fullscreen),
            _ => None,
        }
    }
}

/// Looking up the id that a hotkey registers under gives the hotkey back.
pub proof fn lemma_hotkey_id_roundtrip(h: HotkeyId)
    ensures
        (h.spec_id() == 1 ==> h == HotkeyId::Region),
        (h.spec_id() == 2 ==> h == HotkeyId::Fullscreen),
        h.spec_id() == 1 || h.spec_id() == 2,
{
}

fn hex_digit_char(d: u32) -> (c: char)
    requires
        d < 16,
    ensures
        c == hex_digit(d as nat),
{
    match d {
        0 => '0', 1 => '1', 2 => '2', 3 => '3', 4 => '4', 5 => '5', 6 => '6', 7 => '7',
        8 => '8', 9 => '9', 10 => 'A', 11 => 'B', 12 => 'C', 13 => 'D', 14 => 'E', _ => 'F',
    }
}

/// Append the upper-case hex digits of `n` to `s`.
fn push_hex(s: &mut String, n: u32)
    ensures
        final(s)@ == old(s)@ + hex_upper(n as nat),
    decreases n,
{
    if n < 16 {
        let c = hex_digit_char(n);
        push_char(s, c);
        assert(hex_upper(n as nat) == seq![hex_digit(n as nat)]);
        assert(old(s)@.push(c) =~= old(s)@ + seq![c]);
    } else {
        push_hex(s, n / 16);
        let c = hex_digit_char(n % 16);
        push_char(s, c);
        assert(old(s)@ + hex_upper(n as nat / 16) + seq![c] =~= old(s)@ + hex_upper(n as nat));
    }
}

fn modifier_name_str(m: Modifier) -> (r: &'static str)
    ensures
        r@ == modifier_name(m),
{
    match m {
        Modifier::Win => "Win",
        Modifier::Ctrl => "Ctrl",
        Modifier::Shift => "Shift",
        Modifier::Alt => "Alt",
    }
}

/// The display text of a hotkey combination.
pub fn format_hotkey(combo: &HotkeyCombination) -> (r: String)
    ensures
        r@ == hotkey_text(combo.modifiers@, combo.key),
{
    let mut result = String::new();
    let mut i: usize = 0;
    while i < combo.modifiers.len()
        invariant
            i <= combo.modifiers@.len(),
            result@ == join_modifiers(combo.modifiers@.subrange(0, i as int)),
        decreases combo.modifiers@.len() - i,
    {
        let ghost prev = combo.modifiers@.subrange(0, i as int);
        let ghost next = combo.modifiers@.subrange(0, i + 1);
        assert(next.drop_last() =~= prev);
        if i > 0 {
            result.append(" + ");
        } else {
            assert(result@ =~= Seq::<char>::empty());
        }
        result.append(modifier_name_str(combo.modifiers[i]));
        assert(result@ =~= join_modifiers(next));
        i = i + 1;
    }
    assert(combo.modifiers@.subrange(0, combo.modifiers@.len() as int) =~= combo.modifiers@);
    let ghost head = result@;
    if combo.modifiers.len() > 0 {
        result.append(" + ");
    } else {
        assert(result@ =~= head + Seq::<char>::empty());
    }
    let ghost mid = result@;
    let key = combo.key;
    if (0x30 <= key && key <= 0x39) || (0x41 <= key && key <= 0x5A) {
        let c = (key as u8) as char;
        assert(c == key as char);
        push_char(&mut result, c);
        assert(result@ =~= mid + key_label(key));
    } else {
        result.append("0x");
        push_hex(&mut result, key);
        assert(result@ =~= mid + key_label(key));
    }
    result
}

} // verus!
