use std::str::FromStr;

use hotkey::{ParseHotkeyError, SpecialKey};

#[test]
fn is_valid_special_key() {
    let tests = vec!["scroll", "f1", "DELETE", "Space", "enTer"];
    let expects: Vec<Result<SpecialKey, ParseHotkeyError>> = vec![
        Ok(SpecialKey::Scroll),
        Ok(SpecialKey::F1),
        Ok(SpecialKey::Delete),
        Ok(SpecialKey::Space),
        Ok(SpecialKey::Enter),
    ];
    let mut actuals = vec![];
    for test in tests {
        actuals.push(SpecialKey::from_str(test));
    }
    assert_eq!(expects, actuals)
}

#[test]
fn is_invalid_special_key() {
    let tests = vec!["scroll1", "1", "a", "css", "+"];
    for test in tests {
        let actual = SpecialKey::from_str(test);
        assert!(actual.is_err());
    }
}

/// Every key with its name in upper case and its code.
fn table() -> Vec<(SpecialKey, &'static str, u8)> {
    vec![
        (SpecialKey::BackSpace, "BACKSPACE", 0x08),
        (SpecialKey::Tab, "TAB", 0x09),
        (SpecialKey::Clear, "CLEAR", 0x0C),
        (SpecialKey::Enter, "ENTER", 0x0D),
        (SpecialKey::Pause, "PAUSE", 0x13),
        (SpecialKey::CapsLock, "CAPSLOCK", 0x14),
        (SpecialKey::Escape, "ESCAPE", 0x18),
        (SpecialKey::Space, "SPACE", 0x20),
        (SpecialKey::PageUp, "PAGEUP", 0x21),
        (SpecialKey::PageDown, "PAGEDOWN", 0x22),
        (SpecialKey::End, "END", 0x23),
        (SpecialKey::Home, "HOME", 0x24),
        (SpecialKey::LeftArrow, "LEFTARROW", 0x25),
        (SpecialKey::UpArrow, "UPARROW", 0x26),
        (SpecialKey::RightArrow, "RIGHTARROW", 0x27),
        (SpecialKey::DownArrow, "DOWNARROW", 0x28),
        (SpecialKey::Select, "SELECT", 0x29),
        (SpecialKey::Print, "PRINT", 0x2A),
        (SpecialKey::Execute, "EXECUTE", 0x2B),
        (SpecialKey::PrintScreen, "PRINTSCREEN", 0x2C),
        (SpecialKey::Insert, "INSERT", 0x2D),
        (SpecialKey::Delete, "DELETE", 0x2E),
        (SpecialKey::Help, "HELP", 0x2F),
        (SpecialKey::NumPad0, "NUMPAD0", 0x60),
        (SpecialKey::NumPad1, "NUMPAD1", 0x61),
        (SpecialKey::NumPad2, "NUMPAD2", 0x62),
        (SpecialKey::NumPad3, "NUMPAD3", 0x63),
        (SpecialKey::NumPad4, "NUMPAD4", 0x64),
        (SpecialKey::NumPad5, "NUMPAD5", 0x65),
        (SpecialKey::NumPad6, "NUMPAD6", 0x66),
        (SpecialKey::NumPad7, "NUMPAD7", 0x67),
        (SpecialKey::NumPad8, "NUMPAD8", 0x68),
        (SpecialKey::NumPad9, "NUMPAD9", 0x69),
        (SpecialKey::F1, "F1", 0x70),
        (SpecialKey::F2, "F2", 0x71),
        (SpecialKey::F3, "F3", 0x72),
        (SpecialKey::F4, "F4", 0x73),
        (SpecialKey::F5, "F5", 0x74),
        (SpecialKey::F6, "F6", 0x75),
        (SpecialKey::F7, "F7", 0x76),
        (SpecialKey::F8, "F8", 0x77),
        (SpecialKey::F9, "F9", 0x78),
        (SpecialKey::F10, "F10", 0x79),
        (SpecialKey::F11, "F11", 0x7A),
        (SpecialKey::F12, "F12", 0x7B),
        (SpecialKey::NumLock, "NUMLOCK", 0x90),
        (SpecialKey::Scroll, "SCROLL", 0x91),
    ]
}

#[test]
fn special_key_codes() {
    let table = table();
    assert_eq!(47, table.len());
    for (key, name, code) in table {
        assert_eq!(code, u8::from(key), "{}", name);
        let into: u8 = key.into();
        assert_eq!(code, into, "{}", name);
    }
}

#[test]
fn special_key_names_in_any_case() {
    for (key, name, _) in table() {
        assert_eq!(Ok(key), SpecialKey::from_str(name), "{}", name);
        assert_eq!(Ok(key), SpecialKey::from_str(&name.to_ascii_lowercase()), "{}", name);
        assert_eq!(Ok(key), SpecialKey::from_str(&key.name()), "{}", name);
        assert_eq!(Ok(key), name.parse::<SpecialKey>(), "{}", name);
    }
}

#[test]
fn special_key_lookup_wants_upper_case() {
    for (key, name, _) in table() {
        let upper: Vec<char> = name.chars().collect();
        assert_eq!(Some(key), SpecialKey::lookup(&upper), "{}", name);
        let lower: Vec<char> = name.to_ascii_lowercase().chars().collect();
        if lower != upper {
            assert_eq!(None, SpecialKey::lookup(&lower), "{}", name);
        }
    }
    assert_eq!(None, SpecialKey::lookup(&Vec::new()));
}

#[test]
fn special_key_printed_names() {
    for (key, name, _) in table() {
        assert_eq!(format!("{:?}", key), key.name());
        assert_eq!(name, key.name().to_ascii_uppercase());
    }
    assert_eq!("BackSpace", SpecialKey::BackSpace.name());
    assert_eq!("NumPad0", SpecialKey::NumPad0.name());
    assert_eq!("F12", SpecialKey::F12.name());
}

#[test]
fn special_key_whole_names_only() {
    let tests = ["", "f", "F", "f13", "f0", "numpad", "numpad10", "esc", "del", "ins", "pgup",
        "page up", "enter ", " enter", "back space", "print screen", "up", "arrow", "ENTE", "ſcroll"];
    for test in tests {
        assert_eq!(Err(ParseHotkeyError::UnexpectedKey), SpecialKey::from_str(test), "{:?}", test);
    }
}

#[test]
fn special_key_right_arrow_and_print_screen() {
    // These two names stand in the table spelled out in full, like all the
    // others, so both keys can be written. A comma is no part of a name.
    assert_eq!(Ok(SpecialKey::RightArrow), SpecialKey::from_str("rightarrow"));
    assert_eq!(Ok(SpecialKey::RightArrow), SpecialKey::from_str("RIGHTARROW"));
    assert_eq!(Ok(SpecialKey::PrintScreen), SpecialKey::from_str("printscreen"));
    assert_eq!(Ok(SpecialKey::PrintScreen), SpecialKey::from_str("PrintScreen"));
    assert_eq!(Err(ParseHotkeyError::UnexpectedKey), SpecialKey::from_str("RIGHTARROW,"));
    assert_eq!(Err(ParseHotkeyError::UnexpectedKey), SpecialKey::from_str("PRINTSCREE,C"));
    assert_eq!(Err(ParseHotkeyError::UnexpectedKey), SpecialKey::from_str("printscree"));
}
