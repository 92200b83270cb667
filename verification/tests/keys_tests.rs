use nano_snipper::hotkey::Modifier;
use nano_snipper::keys::{convert_key_to_hotkey, vk_for_char, vk_for_named, Key, KeyModifiers, NamedKey};

const CTRL_SHIFT: KeyModifiers = KeyModifiers { control: true, shift: true, alt: false, logo: false };
const NONE: KeyModifiers = KeyModifiers { control: false, shift: false, alt: false, logo: false };

#[test]
fn letters_are_uppercased() {
    let c = convert_key_to_hotkey(Key::Character("a".to_string()), CTRL_SHIFT).expect("a binding");
    assert_eq!(c.key, 0x41);
    assert_eq!(c.modifiers, vec![Modifier::Ctrl, Modifier::Shift]);
}

#[test]
fn shifted_digits_map_back() {
    assert_eq!(convert_key_to_hotkey(Key::Character("!".to_string()), CTRL_SHIFT).map(|c| c.key), Some(0x31));
    assert_eq!(convert_key_to_hotkey(Key::Character(")".to_string()), NONE).map(|c| c.key), Some(0x30));
    assert_eq!(convert_key_to_hotkey(Key::Character("7".to_string()), NONE).map(|c| c.key), Some(0x37));
    assert_eq!(vk_for_char('*'), Some(0x38));
    assert_eq!(vk_for_char('-'), None);
}

#[test]
fn unicode_uppercase_first_char() {
    assert_eq!(convert_key_to_hotkey(Key::Character("ß".to_string()), NONE).map(|c| c.key), Some(0x53));
    assert_eq!(convert_key_to_hotkey(Key::Character("é".to_string()), NONE).map(|c| c.key), None);
    assert!(convert_key_to_hotkey(Key::Character(String::new()), NONE).is_none());
}

#[test]
fn named_keys() {
    assert_eq!(vk_for_named(NamedKey::F1), Some(0x70));
    assert_eq!(vk_for_named(NamedKey::F12), Some(0x7B));
    assert_eq!(vk_for_named(NamedKey::Space), Some(0x20));
    assert_eq!(vk_for_named(NamedKey::Backspace), Some(0x08));
    let c = convert_key_to_hotkey(Key::Named(NamedKey::PageDown), KeyModifiers { control: false, shift: false, alt: true, logo: true }).unwrap();
    assert_eq!(c.key, 0x22);
    assert_eq!(c.modifiers, vec![Modifier::Alt, Modifier::Win]);
}

#[test]
fn bare_modifiers_wait_for_a_key() {
    for k in [NamedKey::Shift, NamedKey::Control, NamedKey::Alt, NamedKey::Super, NamedKey::Other] {
        assert!(convert_key_to_hotkey(Key::Named(k), CTRL_SHIFT).is_none());
    }
    assert!(convert_key_to_hotkey(Key::Unidentified, NONE).is_none());
}
