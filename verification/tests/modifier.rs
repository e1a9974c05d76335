use std::str::FromStr;

use hotkey::{Modifier, ParseHotkeyError};

#[test]
fn modifier_flags() {
    assert_eq!(1, u8::from(Modifier::Alt));
    assert_eq!(2, u8::from(Modifier::Ctrl));
    assert_eq!(4, u8::from(Modifier::Shift));
    assert_eq!(8, u8::from(Modifier::Win));
    let flag: u8 = Modifier::Shift.into();
    assert_eq!(4, flag);
}

#[test]
fn modifier_names() {
    assert_eq!(Ok(Modifier::Alt), Modifier::from_str("alt"));
    assert_eq!(Ok(Modifier::Ctrl), Modifier::from_str("ctrl"));
    assert_eq!(Ok(Modifier::Shift), Modifier::from_str("shift"));
    assert_eq!(Ok(Modifier::Win), Modifier::from_str("win"));
    assert_eq!(Ok(Modifier::Shift), "shift".parse::<Modifier>());
}

#[test]
fn modifier_names_in_any_case() {
    assert_eq!(Ok(Modifier::Alt), Modifier::from_str("ALT"));
    assert_eq!(Ok(Modifier::Ctrl), Modifier::from_str("Ctrl"));
    assert_eq!(Ok(Modifier::Shift), Modifier::from_str("sHiFt"));
    assert_eq!(Ok(Modifier::Win), Modifier::from_str("wiN"));
}

#[test]
fn modifier_missing() {
    assert_eq!(Err(ParseHotkeyError::MissingModifier), Modifier::from_str(""));
}

#[test]
fn modifier_unexpected() {
    let tests = ["ctl", "control", "ctrl ", " ctrl", " ", "c", "ctrlalt", "shıft", "wın", "ａlt"];
    for test in tests {
        assert_eq!(Err(ParseHotkeyError::UnexpectedModifier), Modifier::from_str(test), "{}", test);
    }
}
