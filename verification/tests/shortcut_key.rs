use std::str::FromStr;

use hotkey::{ParseHotkeyError, ShortcutKey, SpecialKey, VisibleKey};

#[test]
fn shortcut_key_special_name() {
    assert_eq!(Ok(ShortcutKey::SpecialKey(SpecialKey::Enter)), ShortcutKey::from_str("enter"));
    assert_eq!(Ok(ShortcutKey::SpecialKey(SpecialKey::F1)), ShortcutKey::from_str("f1"));
    assert_eq!(Ok(ShortcutKey::SpecialKey(SpecialKey::Tab)), "TAB".parse::<ShortcutKey>());
}

#[test]
fn shortcut_key_visible_character() {
    let visible = VisibleKey::from_str("f").unwrap();
    assert_eq!(Ok(ShortcutKey::VisibleKey(visible)), ShortcutKey::from_str("f"));
    let visible = VisibleKey::from_str("1").unwrap();
    assert_eq!(Ok(ShortcutKey::VisibleKey(visible)), ShortcutKey::from_str("1"));
}

#[test]
fn shortcut_key_errors_are_those_of_the_visible_key() {
    assert_eq!(Err(ParseHotkeyError::MissingKey), ShortcutKey::from_str(""));
    for test in ["bb", "shift", "ctrl", " ", "!", "enter+", "f 1"] {
        assert_eq!(Err(ParseHotkeyError::UnexpectedKey), ShortcutKey::from_str(test), "{:?}", test);
    }
}

#[test]
fn shortcut_key_code() {
    assert_eq!(0x0D, u8::from(ShortcutKey::from_str("Enter").unwrap()));
    assert_eq!(0x91, u8::from(ShortcutKey::from_str("scroll").unwrap()));
    assert_eq!(b'e', u8::from(ShortcutKey::from_str("e").unwrap()));
    assert_eq!(b'E', u8::from(ShortcutKey::from_str("E").unwrap()));
    let code: u8 = ShortcutKey::SpecialKey(SpecialKey::Escape).into();
    assert_eq!(0x18, code);
}

#[test]
fn shortcut_key_code_can_belong_to_two_keys() {
    // A code does not say which kind of key it came from.
    assert_eq!(
        u8::from(ShortcutKey::from_str("*").unwrap()),
        u8::from(ShortcutKey::from_str("print").unwrap())
    );
    assert_eq!(
        u8::from(ShortcutKey::from_str("p").unwrap()),
        u8::from(ShortcutKey::from_str("f1").unwrap())
    );
    assert_ne!(ShortcutKey::from_str("p"), ShortcutKey::from_str("f1"));
}
