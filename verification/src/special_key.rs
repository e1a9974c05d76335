//! The named keys: function keys, navigation and editing keys, the number pad
//! and the lock keys, each with its virtual-key code.

use crate::parse_hotkey_error::ParseHotkeyError;
use crate::text::{
    is_ascii_alphanumeric, spec_to_ascii_uppercase, spells, uppercase, uppercase_of,
};
use std::str::FromStr;
use vstd::prelude::*;
use vstd::std_specs::convert::FromSpecImpl;

verus! {

/// A key that is written by name.
///
/// The code of a key is had with `u8::from`. The variants are not numbered by
/// their codes, so a cast with `as` gives something else.
#[derive(Debug, Clone, Copy, PartialEq, Eq, Structural)]
pub enum SpecialKey {
    BackSpace,
    Tab,
    Clear,
    Enter,
    Pause,
    CapsLock,
    Escape,
    Space,
    PageUp,
    PageDown,
    End,
    Home,
    LeftArrow,
    UpArrow,
    RightArrow,
    DownArrow,
    Select,
    Print,
    Execute,
    PrintScreen,
    Insert,
    Delete,
    Help,
    NumPad0,
    NumPad1,
    NumPad2,
    NumPad3,
    NumPad4,
    NumPad5,
    NumPad6,
    NumPad7,
    NumPad8,
    NumPad9,
    F1,
    F2,
    F3,
    F4,
    F5,
    F6,
    F7,
    F8,
    F9,
    F10,
    F11,
    F12,
    NumLock,
    Scroll,
}

impl SpecialKey {
    /// The virtual-key code of the key.
    pub open spec fn code(self) -> u8 {
        match self {
            SpecialKey::BackSpace => 0x08,
            SpecialKey::Tab => 0x09,
            SpecialKey::Clear => 0x0C,
            SpecialKey::Enter => 0x0D,
            SpecialKey::Pause => 0x13,
            SpecialKey::CapsLock => 0x14,
            SpecialKey::Escape => 0x18,
            SpecialKey::Space => 0x20,
            SpecialKey::PageUp => 0x21,
            SpecialKey::PageDown => 0x22,
            SpecialKey::End => 0x23,
            SpecialKey::Home => 0x24,
            SpecialKey::LeftArrow => 0x25,
            SpecialKey::UpArrow => 0x26,
            SpecialKey::RightArrow => 0x27,
            SpecialKey::DownArrow => 0x28,
            SpecialKey::Select => 0x29,
            SpecialKey::Print => 0x2A,
            SpecialKey::Execute => 0x2B,
            SpecialKey::PrintScreen => 0x2C,
            SpecialKey::Insert => 0x2D,
            SpecialKey::Delete => 0x2E,
            SpecialKey::Help => 0x2F,
            SpecialKey::NumPad0 => 0x60,
            SpecialKey::NumPad1 => 0x61,
            SpecialKey::NumPad2 => 0x62,
            SpecialKey::NumPad3 => 0x63,
            SpecialKey::NumPad4 => 0x64,
            SpecialKey::NumPad5 => 0x65,
            SpecialKey::NumPad6 => 0x66,
            SpecialKey::NumPad7 => 0x67,
            SpecialKey::NumPad8 => 0x68,
            SpecialKey::NumPad9 => 0x69,
            SpecialKey::F1 => 0x70,
            SpecialKey::F2 => 0x71,
            SpecialKey::F3 => 0x72,
            SpecialKey::F4 => 0x73,
            SpecialKey::F5 => 0x74,
            SpecialKey::F6 => 0x75,
            SpecialKey::F7 => 0x76,
            SpecialKey::F8 => 0x77,
            SpecialKey::F9 => 0x78,
            SpecialKey::F10 => 0x79,
            SpecialKey::F11 => 0x7A,
            SpecialKey::F12 => 0x7B,
            SpecialKey::NumLock => 0x90,
            SpecialKey::Scroll => 0x91,
        }
    }

    /// The name of the key as [`SpecialKey::name`] returns it.
    pub open spec fn spec_name(self) -> Seq<char> {
        match self {
            SpecialKey::BackSpace => "BackSpace"@,
            SpecialKey::Tab => "Tab"@,
            SpecialKey::Clear => "Clear"@,
            SpecialKey::Enter => "Enter"@,
            SpecialKey::Pause => "Pause"@,
            SpecialKey::CapsLock => "CapsLock"@,
            SpecialKey::Escape => "Escape"@,
            SpecialKey::Space => "Space"@,
            SpecialKey::PageUp => "PageUp"@,
            SpecialKey::PageDown => "PageDown"@,
            SpecialKey::End => "End"@,
            SpecialKey::Home => "Home"@,
            SpecialKey::LeftArrow => "LeftArrow"@,
            SpecialKey::UpArrow => "UpArrow"@,
            SpecialKey::RightArrow => "RightArrow"@,
            SpecialKey::DownArrow => "DownArrow"@,
            SpecialKey::Select => "Select"@,
            SpecialKey::Print => "Print"@,
            SpecialKey::Execute => "Execute"@,
            SpecialKey::PrintScreen => "PrintScreen"@,
            SpecialKey::Insert => "Insert"@,
            SpecialKey::Delete => "Delete"@,
            SpecialKey::Help => "Help"@,
            SpecialKey::NumPad0 => "NumPad0"@,
            SpecialKey::NumPad1 => "NumPad1"@,
            SpecialKey::NumPad2 => "NumPad2"@,
            SpecialKey::NumPad3 => "NumPad3"@,
            SpecialKey::NumPad4 => "NumPad4"@,
            SpecialKey::NumPad5 => "NumPad5"@,
            SpecialKey::NumPad6 => "NumPad6"@,
            SpecialKey::NumPad7 => "NumPad7"@,
            SpecialKey::NumPad8 => "NumPad8"@,
            SpecialKey::NumPad9 => "NumPad9"@,
            SpecialKey::F1 => "F1"@,
            SpecialKey::F2 => "F2"@,
            SpecialKey::F3 => "F3"@,
            SpecialKey::F4 => "F4"@,
            SpecialKey::F5 => "F5"@,
            SpecialKey::F6 => "F6"@,
            SpecialKey::F7 => "F7"@,
            SpecialKey::F8 => "F8"@,
            SpecialKey::F9 => "F9"@,
            SpecialKey::F10 => "F10"@,
            SpecialKey::F11 => "F11"@,
            SpecialKey::F12 => "F12"@,
            SpecialKey::NumLock => "NumLock"@,
            SpecialKey::Scroll => "Scroll"@,
        }
    }

    /// The name of the key in upper case, as the table of names has it.
    pub open spec fn canonical_name(self) -> Seq<char> {
        match self {
            SpecialKey::BackSpace => "BACKSPACE"@,
            SpecialKey::Tab => "TAB"@,
            SpecialKey::Clear => "CLEAR"@,
            SpecialKey::Enter => "ENTER"@,
            SpecialKey::Pause => "PAUSE"@,
            SpecialKey::CapsLock => "CAPSLOCK"@,
            SpecialKey::Escape => "ESCAPE"@,
            SpecialKey::Space => "SPACE"@,
            SpecialKey::PageUp => "PAGEUP"@,
            SpecialKey::PageDown => "PAGEDOWN"@,
            SpecialKey::End => "END"@,
            SpecialKey::Home => "HOME"@,
            SpecialKey::LeftArrow => "LEFTARROW"@,
            SpecialKey::UpArrow => "UPARROW"@,
            SpecialKey::RightArrow => "RIGHTARROW"@,
            SpecialKey::DownArrow => "DOWNARROW"@,
            SpecialKey::Select => "SELECT"@,
            SpecialKey::Print => "PRINT"@,
            SpecialKey::Execute => "EXECUTE"@,
            SpecialKey::PrintScreen => "PRINTSCREEN"@,
            SpecialKey::Insert => "INSERT"@,
            SpecialKey::Delete => "DELETE"@,
            SpecialKey::Help => "HELP"@,
            SpecialKey::NumPad0 => "NUMPAD0"@,
            SpecialKey::NumPad1 => "NUMPAD1"@,
            SpecialKey::NumPad2 => "NUMPAD2"@,
            SpecialKey::NumPad3 => "NUMPAD3"@,
            SpecialKey::NumPad4 => "NUMPAD4"@,
            SpecialKey::NumPad5 => "NUMPAD5"@,
            SpecialKey::NumPad6 => "NUMPAD6"@,
            SpecialKey::NumPad7 => "NUMPAD7"@,
            SpecialKey::NumPad8 => "NUMPAD8"@,
            SpecialKey::NumPad9 => "NUMPAD9"@,
            SpecialKey::F1 => "F1"@,
            SpecialKey::F2 => "F2"@,
            SpecialKey::F3 => "F3"@,
            SpecialKey::F4 => "F4"@,
            SpecialKey::F5 => "F5"@,
            SpecialKey::F6 => "F6"@,
            SpecialKey::F7 => "F7"@,
            SpecialKey::F8 => "F8"@,
            SpecialKey::F9 => "F9"@,
            SpecialKey::F10 => "F10"@,
            SpecialKey::F11 => "F11"@,
            SpecialKey::F12 => "F12"@,
            SpecialKey::NumLock => "NUMLOCK"@,
            SpecialKey::Scroll => "SCROLL"@,
        }
    }

    /// The table of names: the key that `name` stands for, where `name` is
    /// written in upper case. Only a whole name is found.
    pub open spec fn spec_lookup(name: Seq<char>) -> Option<SpecialKey> {
        if name == "BACKSPACE"@ {
            Some(SpecialKey::BackSpace)
        } else if name == "TAB"@ {
            Some(SpecialKey::Tab)
        } else if name == "CLEAR"@ {
            Some(SpecialKey::Clear)
        } else if name == "ENTER"@ {
            Some(SpecialKey::Enter)
        } else if name == "PAUSE"@ {
            Some(SpecialKey::Pause)
        } else if name == "CAPSLOCK"@ {
            Some(SpecialKey::CapsLock)
        } else if name == "ESCAPE"@ {
            Some(SpecialKey::Escape)
        } else if name == "SPACE"@ {
            Some(SpecialKey::Space)
        } else if name == "PAGEUP"@ {
            Some(SpecialKey::PageUp)
        } else if name == "PAGEDOWN"@ {
            Some(SpecialKey::PageDown)
        } else if name == "END"@ {
            Some(SpecialKey::End)
        } else if name == "HOME"@ {
            Some(SpecialKey::Home)
        } else if name == "LEFTARROW"@ {
            Some(SpecialKey::LeftArrow)
        } else if name == "UPARROW"@ {
            Some(SpecialKey::UpArrow)
        } else if name == "RIGHTARROW"@ {
            Some(SpecialKey::RightArrow)
        } else if name == "DOWNARROW"@ {
            Some(SpecialKey::DownArrow)
        } else if name == "SELECT"@ {
            Some(SpecialKey::Select)
        } else if name == "PRINT"@ {
            Some(SpecialKey::Print)
        } else if name == "EXECUTE"@ {
            Some(SpecialKey::Execute)
        } else if name == "PRINTSCREEN"@ {
            Some(SpecialKey::PrintScreen)
        } else if name == "INSERT"@ {
            Some(SpecialKey::Insert)
        } else if name == "DELETE"@ {
            Some(SpecialKey::Delete)
        } else if name == "HELP"@ {
            Some(SpecialKey::Help)
        } else if name == "NUMPAD0"@ {
            Some(SpecialKey::NumPad0)
        } else if name == "NUMPAD1"@ {
            Some(SpecialKey::NumPad1)
        } else if name == "NUMPAD2"@ {
            Some(SpecialKey::NumPad2)
        } else if name == "NUMPAD3"@ {
            Some(SpecialKey::NumPad3)
        } else if name == "NUMPAD4"@ {
            Some(SpecialKey::NumPad4)
        } else if name == "NUMPAD5"@ {
            Some(SpecialKey::NumPad5)
        } else if name == "NUMPAD6"@ {
            Some(SpecialKey::NumPad6)
        } else if name == "NUMPAD7"@ {
            Some(SpecialKey::NumPad7)
        } else if name == "NUMPAD8"@ {
            Some(SpecialKey::NumPad8)
        } else if name == "NUMPAD9"@ {
            Some(SpecialKey::NumPad9)
        } else if name == "F1"@ {
            Some(SpecialKey::F1)
        } else if name == "F2"@ {
            Some(SpecialKey::F2)
        } else if name == "F3"@ {
            Some(SpecialKey::F3)
        } else if name == "F4"@ {
            Some(SpecialKey::F4)
        } else if name == "F5"@ {
            Some(SpecialKey::F5)
        } else if name == "F6"@ {
            Some(SpecialKey::F6)
        } else if name == "F7"@ {
            Some(SpecialKey::F7)
        } else if name == "F8"@ {
            Some(SpecialKey::F8)
        } else if name == "F9"@ {
            Some(SpecialKey::F9)
        } else if name == "F10"@ {
            Some(SpecialKey::F10)
        } else if name == "F11"@ {
            Some(SpecialKey::F11)
        } else if name == "F12"@ {
            Some(SpecialKey::F12)
        } else if name == "NUMLOCK"@ {
            Some(SpecialKey::NumLock)
        } else if name == "SCROLL"@ {
            Some(SpecialKey::Scroll)
        } else {
            None
        }
    }

    /// The key that `s` names, whatever the case of its ASCII letters.
    pub open spec fn spec_from_str(s: Seq<char>) -> Result<SpecialKey, ParseHotkeyError> {
        match Self::spec_lookup(uppercase(s)) {
            Some(key) => Ok(key),
            None => Err(ParseHotkeyError::UnexpectedKey),
        }
    }

    /// What the table finds under a name is a key with that name.
    pub proof fn lemma_lookup_finds_name(name: Seq<char>)
        ensures
            Self::spec_lookup(name) matches Some(key) ==> key.canonical_name() == name,
    {
    }

    /// The names in the table: each is made of at least two characters, all
    /// of them digits and upper-case letters, and no two keys share a name.
    pub proof fn lemma_canonical_names(a: SpecialKey, b: SpecialKey)
        ensures
            a.canonical_name().len() >= 2,
            forall|i: int|
                0 <= i < a.canonical_name().len() ==> {
                    let c = #[trigger] a.canonical_name()[i];
                    ('0' <= c && c <= '9') || ('A' <= c && c <= 'Z')
                },
            a.canonical_name() == b.canonical_name() ==> a == b,
    {
        reveal_strlit("BACKSPACE");
        reveal_strlit("TAB");
        reveal_strlit("CLEAR");
        reveal_strlit("ENTER");
        reveal_strlit("PAUSE");
        reveal_strlit("CAPSLOCK");
        reveal_strlit("ESCAPE");
        reveal_strlit("SPACE");
        reveal_strlit("PAGEUP");
        reveal_strlit("PAGEDOWN");
        reveal_strlit("END");
        reveal_strlit("HOME");
        reveal_strlit("LEFTARROW");
        reveal_strlit("UPARROW");
        reveal_strlit("RIGHTARROW");
        reveal_strlit("DOWNARROW");
        reveal_strlit("SELECT");
        reveal_strlit("PRINT");
        reveal_strlit("EXECUTE");
        reveal_strlit("PRINTSCREEN");
        reveal_strlit("INSERT");
        reveal_strlit("DELETE");
        reveal_strlit("HELP");
        reveal_strlit("NUMPAD0");
        reveal_strlit("NUMPAD1");
        reveal_strlit("NUMPAD2");
        reveal_strlit("NUMPAD3");
        reveal_strlit("NUMPAD4");
        reveal_strlit("NUMPAD5");
        reveal_strlit("NUMPAD6");
        reveal_strlit("NUMPAD7");
        reveal_strlit("NUMPAD8");
        reveal_strlit("NUMPAD9");
        reveal_strlit("F1");
        reveal_strlit("F2");
        reveal_strlit("F3");
        reveal_strlit("F4");
        reveal_strlit("F5");
        reveal_strlit("F6");
        reveal_strlit("F7");
        reveal_strlit("F8");
        reveal_strlit("F9");
        reveal_strlit("F10");
        reveal_strlit("F11");
        reveal_strlit("F12");
        reveal_strlit("NUMLOCK");
        reveal_strlit("SCROLL");
        let n = a.canonical_name();
        let m = b.canonical_name();
        assert(n.len() != m.len() || n[0] != m[0] || n[n.len() - 1] != m[m.len() - 1] || a == b);
    }

    /// Every key is found under its own name.
    pub proof fn lemma_lookup_canonical_name(key: SpecialKey)
        ensures
            Self::spec_lookup(key.canonical_name()) == Some(key),
    {
        let found = Self::spec_lookup(key.canonical_name());
        Self::lemma_canonical_names(found->Some_0, key);
    }

    /// Every key is read back from the name that [`SpecialKey::name`] gives
    /// it.
    pub proof fn lemma_from_str_name(key: SpecialKey)
        ensures
            Self::spec_from_str(key.spec_name()) == Ok::<SpecialKey, ParseHotkeyError>(key),
    {
        reveal_strlit("BACKSPACE");
        reveal_strlit("TAB");
        reveal_strlit("CLEAR");
        reveal_strlit("ENTER");
        reveal_strlit("PAUSE");
        reveal_strlit("CAPSLOCK");
        reveal_strlit("ESCAPE");
        reveal_strlit("SPACE");
        reveal_strlit("PAGEUP");
        reveal_strlit("PAGEDOWN");
        reveal_strlit("END");
        reveal_strlit("HOME");
        reveal_strlit("LEFTARROW");
        reveal_strlit("UPARROW");
        reveal_strlit("RIGHTARROW");
        reveal_strlit("DOWNARROW");
        reveal_strlit("SELECT");
        reveal_strlit("PRINT");
        reveal_strlit("EXECUTE");
        reveal_strlit("PRINTSCREEN");
        reveal_strlit("INSERT");
        reveal_strlit("DELETE");
        reveal_strlit("HELP");
        reveal_strlit("NUMPAD0");
        reveal_strlit("NUMPAD1");
        reveal_strlit("NUMPAD2");
        reveal_strlit("NUMPAD3");
        reveal_strlit("NUMPAD4");
        reveal_strlit("NUMPAD5");
        reveal_strlit("NUMPAD6");
        reveal_strlit("NUMPAD7");
        reveal_strlit("NUMPAD8");
        reveal_strlit("NUMPAD9");
        reveal_strlit("F1");
        reveal_strlit("F2");
        reveal_strlit("F3");
        reveal_strlit("F4");
        reveal_strlit("F5");
        reveal_strlit("F6");
        reveal_strlit("F7");
        reveal_strlit("F8");
        reveal_strlit("F9");
        reveal_strlit("F10");
        reveal_strlit("F11");
        reveal_strlit("F12");
        reveal_strlit("NUMLOCK");
        reveal_strlit("SCROLL");
        reveal_strlit("BackSpace");
        reveal_strlit("Tab");
        reveal_strlit("Clear");
        reveal_strlit("Enter");
        reveal_strlit("Pause");
        reveal_strlit("CapsLock");
        reveal_strlit("Escape");
        reveal_strlit("Space");
        reveal_strlit("PageUp");
        reveal_strlit("PageDown");
        reveal_strlit("End");
        reveal_strlit("Home");
        reveal_strlit("LeftArrow");
        reveal_strlit("UpArrow");
        reveal_strlit("RightArrow");
        reveal_strlit("DownArrow");
        reveal_strlit("Select");
        reveal_strlit("Print");
        reveal_strlit("Execute");
        reveal_strlit("PrintScreen");
        reveal_strlit("Insert");
        reveal_strlit("Delete");
        reveal_strlit("Help");
        reveal_strlit("NumPad0");
        reveal_strlit("NumPad1");
        reveal_strlit("NumPad2");
        reveal_strlit("NumPad3");
        reveal_strlit("NumPad4");
        reveal_strlit("NumPad5");
        reveal_strlit("NumPad6");
        reveal_strlit("NumPad7");
        reveal_strlit("NumPad8");
        reveal_strlit("NumPad9");
        reveal_strlit("F1");
        reveal_strlit("F2");
        reveal_strlit("F3");
        reveal_strlit("F4");
        reveal_strlit("F5");
        reveal_strlit("F6");
        reveal_strlit("F7");
        reveal_strlit("F8");
        reveal_strlit("F9");
        reveal_strlit("F10");
        reveal_strlit("F11");
        reveal_strlit("F12");
        reveal_strlit("NumLock");
        reveal_strlit("Scroll");
        assert(uppercase(key.spec_name()) =~= key.canonical_name());
        Self::lemma_lookup_canonical_name(key);
    }

    /// A name of a special key is made of ASCII letters and digits, and of at
    /// least two.
    pub proof fn lemma_name_is_alphanumeric(s: Seq<char>)
        requires
            Self::spec_from_str(s) is Ok,
        ensures
            s.len() >= 2,
            forall|i: int| 0 <= i < s.len() ==> is_ascii_alphanumeric(#[trigger] s[i]),
    {
        let name = uppercase(s);
        let key = Self::spec_lookup(name)->Some_0;
        Self::lemma_canonical_names(key, key);
        assert forall|i: int| 0 <= i < s.len() implies is_ascii_alphanumeric(#[trigger] s[i]) by {
            assert(name[i] == spec_to_ascii_uppercase(s[i]));
        }
    }

    /// A string of fewer than two characters names no special key.
    pub proof fn lemma_short_is_no_name(s: Seq<char>)
        requires
            s.len() < 2,
        ensures
            Self::spec_from_str(s) is Err,
    {
        if Self::spec_from_str(s) is Ok {
            Self::lemma_name_is_alphanumeric(s);
        }
    }

    /// The name of the key, in mixed case.
    pub fn name(&self) -> (text: String)
        ensures
            text@ == self.spec_name(),
    {
        let text: &str = match self {
            SpecialKey::BackSpace => "BackSpace",
            SpecialKey::Tab => "Tab",
            SpecialKey::Clear => "Clear",
            SpecialKey::Enter => "Enter",
            SpecialKey::Pause => "Pause",
            SpecialKey::CapsLock => "CapsLock",
            SpecialKey::Escape => "Escape",
            SpecialKey::Space => "Space",
            SpecialKey::PageUp => "PageUp",
            SpecialKey::PageDown => "PageDown",
            SpecialKey::End => "End",
            SpecialKey::Home => "Home",
            SpecialKey::LeftArrow => "LeftArrow",
            SpecialKey::UpArrow => "UpArrow",
            SpecialKey::RightArrow => "RightArrow",
            SpecialKey::DownArrow => "DownArrow",
            SpecialKey::Select => "Select",
            SpecialKey::Print => "Print",
            SpecialKey::Execute => "Execute",
            SpecialKey::PrintScreen => "PrintScreen",
            SpecialKey::Insert => "Insert",
            SpecialKey::Delete => "Delete",
            SpecialKey::Help => "Help",
            SpecialKey::NumPad0 => "NumPad0",
            SpecialKey::NumPad1 => "NumPad1",
            SpecialKey::NumPad2 => "NumPad2",
            SpecialKey::NumPad3 => "NumPad3",
            SpecialKey::NumPad4 => "NumPad4",
            SpecialKey::NumPad5 => "NumPad5",
            SpecialKey::NumPad6 => "NumPad6",
            SpecialKey::NumPad7 => "NumPad7",
            SpecialKey::NumPad8 => "NumPad8",
            SpecialKey::NumPad9 => "NumPad9",
            SpecialKey::F1 => "F1",
            SpecialKey::F2 => "F2",
            SpecialKey::F3 => "F3",
            SpecialKey::F4 => "F4",
            SpecialKey::F5 => "F5",
            SpecialKey::F6 => "F6",
            SpecialKey::F7 => "F7",
            SpecialKey::F8 => "F8",
            SpecialKey::F9 => "F9",
            SpecialKey::F10 => "F10",
            SpecialKey::F11 => "F11",
            SpecialKey::F12 => "F12",
            SpecialKey::NumLock => "NumLock",
            SpecialKey::Scroll => "Scroll",
        };
        text.to_owned()
    }

    /// Looks `name` up in the table of names.
    pub fn lookup(name: &Vec<char>) -> (key: Option<SpecialKey>)
        ensures
            key == Self::spec_lookup(name@),
    {
        if spells(name, "BACKSPACE") {
            Some(SpecialKey::BackSpace)
        } else if spells(name, "TAB") {
            Some(SpecialKey::Tab)
        } else if spells(name, "CLEAR") {
            Some(SpecialKey::Clear)
        } else if spells(name, "ENTER") {
            Some(SpecialKey::Enter)
        } else if spells(name, "PAUSE") {
            Some(SpecialKey::Pause)
        } else if spells(name, "CAPSLOCK") {
            Some(SpecialKey::CapsLock)
        } else if spells(name, "ESCAPE") {
            Some(SpecialKey::Escape)
        } else if spells(name, "SPACE") {
            Some(SpecialKey::Space)
        } else if spells(name, "PAGEUP") {
            Some(SpecialKey::PageUp)
        } else if spells(name, "PAGEDOWN") {
            Some(SpecialKey::PageDown)
        } else if spells(name, "END") {
            Some(SpecialKey::End)
        } else if spells(name, "HOME") {
            Some(SpecialKey::Home)
        } else if spells(name, "LEFTARROW") {
            Some(SpecialKey::LeftArrow)
        } else if spells(name, "UPARROW") {
            Some(SpecialKey::UpArrow)
        } else if spells(name, "RIGHTARROW") {
            Some(SpecialKey::RightArrow)
        } else if spells(name, "DOWNARROW") {
            Some(SpecialKey::DownArrow)
        } else if spells(name, "SELECT") {
            Some(SpecialKey::Select)
        } else if spells(name, "PRINT") {
            Some(SpecialKey::Print)
        } else if spells(name, "EXECUTE") {
            Some(SpecialKey::Execute)
        } else if spells(name, "PRINTSCREEN") {
            Some(SpecialKey::PrintScreen)
        } else if spells(name, "INSERT") {
            Some(SpecialKey::Insert)
        } else if spells(name, "DELETE") {
            Some(SpecialKey::Delete)
        } else if spells(name, "HELP") {
            Some(SpecialKey::Help)
        } else if spells(name, "NUMPAD0") {
            Some(SpecialKey::NumPad0)
        } else if spells(name, "NUMPAD1") {
            Some(SpecialKey::NumPad1)
        } else if spells(name, "NUMPAD2") {
            Some(SpecialKey::NumPad2)
        } else if spells(name, "NUMPAD3") {
            Some(SpecialKey::NumPad3)
        } else if spells(name, "NUMPAD4") {
            Some(SpecialKey::NumPad4)
        } else if spells(name, "NUMPAD5") {
            Some(SpecialKey::NumPad5)
        } else if spells(name, "NUMPAD6") {
            Some(SpecialKey::NumPad6)
        } else if spells(name, "NUMPAD7") {
            Some(SpecialKey::NumPad7)
        } else if spells(name, "NUMPAD8") {
            Some(SpecialKey::NumPad8)
        } else if spells(name, "NUMPAD9") {
            Some(SpecialKey::NumPad9)
        } else if spells(name, "F1") {
            Some(SpecialKey::F1)
        } else if spells(name, "F2") {
            Some(SpecialKey::F2)
        } else if spells(name, "F3") {
            Some(SpecialKey::F3)
        } else if spells(name, "F4") {
            Some(SpecialKey::F4)
        } else if spells(name, "F5") {
            Some(SpecialKey::F5)
        } else if spells(name, "F6") {
            Some(SpecialKey::F6)
        } else if spells(name, "F7") {
            Some(SpecialKey::F7)
        } else if spells(name, "F8") {
            Some(SpecialKey::F8)
        } else if spells(name, "F9") {
            Some(SpecialKey::F9)
        } else if spells(name, "F10") {
            Some(SpecialKey::F10)
        } else if spells(name, "F11") {
            Some(SpecialKey::F11)
        } else if spells(name, "F12") {
            Some(SpecialKey::F12)
        } else if spells(name, "NUMLOCK") {
            Some(SpecialKey::NumLock)
        } else if spells(name, "SCROLL") {
            Some(SpecialKey::Scroll)
        } else {
            None
        }
    }
}

impl FromStr for SpecialKey {
    type Err = ParseHotkeyError;

    /// Finds the key that `s` names. Letters match in either case; a string
    /// that names no key gives [`ParseHotkeyError::UnexpectedKey`].
    fn from_str(s: &str) -> (r: Result<SpecialKey, ParseHotkeyError>)
        ensures
            r == SpecialKey::spec_from_str(s@),
    {
        let name = uppercase_of(s);
        match SpecialKey::lookup(&name) {
            Some(key) => Ok(key),
            None => Err(ParseHotkeyError::UnexpectedKey),
        }
    }
}

impl From<SpecialKey> for u8 {
    /// The virtual-key code of the key.
    fn from(s: SpecialKey) -> (code: u8)
        ensures
            code == s.code(),
    {
        match s {
            SpecialKey::BackSpace => 0x08,
            SpecialKey::Tab => 0x09,
            SpecialKey::Clear => 0x0C,
            SpecialKey::Enter => 0x0D,
            SpecialKey::Pause => 0x13,
            SpecialKey::CapsLock => 0x14,
            SpecialKey::Escape => 0x18,
            SpecialKey::Space => 0x20,
            SpecialKey::PageUp => 0x21,
            SpecialKey::PageDown => 0x22,
            SpecialKey::End => 0x23,
            SpecialKey::Home => 0x24,
            SpecialKey::LeftArrow => 0x25,
            SpecialKey::UpArrow => 0x26,
            SpecialKey::RightArrow => 0x27,
            SpecialKey::DownArrow => 0x28,
            SpecialKey::Select => 0x29,
            SpecialKey::Print => 0x2A,
            SpecialKey::Execute => 0x2B,
            SpecialKey::PrintScreen => 0x2C,
            SpecialKey::Insert => 0x2D,
            SpecialKey::Delete => 0x2E,
            SpecialKey::Help => 0x2F,
            SpecialKey::NumPad0 => 0x60,
            SpecialKey::NumPad1 => 0x61,
            SpecialKey::NumPad2 => 0x62,
            SpecialKey::NumPad3 => 0x63,
            SpecialKey::NumPad4 => 0x64,
            SpecialKey::NumPad5 => 0x65,
            SpecialKey::NumPad6 => 0x66,
            SpecialKey::NumPad7 => 0x67,
            SpecialKey::NumPad8 => 0x68,
            SpecialKey::NumPad9 => 0x69,
            SpecialKey::F1 => 0x70,
            SpecialKey::F2 => 0x71,
            SpecialKey::F3 => 0x72,
            SpecialKey::F4 => 0x73,
            SpecialKey::F5 => 0x74,
            SpecialKey::F6 => 0x75,
            SpecialKey::F7 => 0x76,
            SpecialKey::F8 => 0x77,
            SpecialKey::F9 => 0x78,
            SpecialKey::F10 => 0x79,
            SpecialKey::F11 => 0x7A,
            SpecialKey::F12 => 0x7B,
            SpecialKey::NumLock => 0x90,
            SpecialKey::Scroll => 0x91,
        }
    }
}

impl FromSpecImpl<SpecialKey> for u8 {
    open spec fn obeys_from_spec() -> bool {
        true
    }

    open spec fn from_spec(s: SpecialKey) -> u8 {
        s.code()
    }
}

} // verus!
