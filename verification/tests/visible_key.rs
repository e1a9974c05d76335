use std::str::FromStr;

use hotkey::{ParseHotkeyError, VisibleKey};

#[test]
fn is_valid_visible_char() {
    let tests = ["a", "b", "c", "1", "2", "3", "`", "\\", ".", "["];
    for test in tests.iter() {
        let actual = VisibleKey::from_str(test);
        assert!(actual.is_ok(), "{}", test);
    }
}

#[test]
fn is_invalid_visible_char() {
    let tests = ["!", "@", "aa", "", " ", "?", ">", "delete"];
    for test in tests.iter() {
        let actual = VisibleKey::from_str(test);
        assert!(actual.is_err(), "{}", test);
    }
}

#[test]
fn visible_key_is_valid_for_letters_digits_and_marks() {
    for value in ('a'..='z').chain('A'..='Z').chain('0'..='9') {
        assert!(VisibleKey::is_valid(value), "{}", value);
    }
    for value in "*+-.;=,/`[]\\".chars() {
        assert!(VisibleKey::is_valid(value), "{}", value);
    }
}

#[test]
fn visible_key_is_valid_for_nothing_else() {
    let marks = "*+-.;=,/`[]\\";
    let mut count = 0;
    for value in '\0'..=char::MAX {
        let expect = value.is_ascii_alphanumeric() || marks.contains(value);
        assert_eq!(expect, VisibleKey::is_valid(value), "{:?}", value);
        if expect {
            count += 1;
        }
    }
    assert_eq!(26 + 26 + 10 + 12, count);
}

#[test]
fn visible_key_code_is_the_character() {
    for value in '\0'..='\u{7f}' {
        if VisibleKey::is_valid(value) {
            let key = VisibleKey::from_str(&value.to_string()).unwrap();
            assert_eq!(value as u8, u8::from(key));
        }
    }
    let code: u8 = VisibleKey::from_str("A").unwrap().into();
    assert_eq!(65, code);
    assert_eq!(97, u8::from(VisibleKey::from_str("a").unwrap()));
    assert_eq!(92, u8::from("\\".parse::<VisibleKey>().unwrap()));
}

#[test]
fn visible_key_errors() {
    assert_eq!(Err(ParseHotkeyError::MissingKey), VisibleKey::from_str(""));
    for test in ["ab", "a ", " a", " ", "!", "é", "ａ", "\u{0}", "'", "\"", "~", "++", "𝒂"] {
        assert_eq!(Err(ParseHotkeyError::UnexpectedKey), VisibleKey::from_str(test), "{:?}", test);
    }
}
