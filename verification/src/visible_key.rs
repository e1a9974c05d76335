//! The keys that are written as the character they print.

use crate::parse_hotkey_error::ParseHotkeyError;
use crate::text::{chars_of, is_ascii_alphanumeric};
use std::str::FromStr;
use vstd::prelude::*;
use vstd::std_specs::convert::FromSpecImpl;

verus! {

/// A key that is written as one printable character. It holds the
/// character's code.
#[derive(Debug, Clone, Copy, PartialEq, Eq, Structural)]
pub struct VisibleKey(u8);

impl VisibleKey {
    /// The punctuation marks that are keys.
    pub open spec fn is_punctuation(value: char) -> bool {
        ||| value == '*'
        ||| value == '+'
        ||| value == '-'
        ||| value == '.'
        ||| value == ';'
        ||| value == '='
        ||| value == ','
        ||| value == '/'
        ||| value == '`'
        ||| value == '['
        ||| value == ']'
        ||| value == '\\'
    }

    /// A character is a key when it is an ASCII letter, an ASCII digit or one
    /// of the punctuation marks.
    pub open spec fn spec_is_valid(value: char) -> bool {
        is_ascii_alphanumeric(value) || Self::is_punctuation(value)
    }

    /// The key that is written `value`.
    pub closed spec fn of_char(value: char) -> VisibleKey {
        VisibleKey(value as u8)
    }

    /// The code of the key's character.
    pub closed spec fn code(self) -> u8 {
        self.0
    }

    /// Every key holds the code of a valid character.
    #[verifier::type_invariant]
    pub open spec fn wf(self) -> bool {
        Self::spec_is_valid(self.code() as char)
    }

    /// The key that `s` writes: `s` has to be one valid character.
    pub open spec fn spec_from_str(s: Seq<char>) -> Result<VisibleKey, ParseHotkeyError> {
        if s.len() == 0 {
            Err(ParseHotkeyError::MissingKey)
        } else if s.len() != 1 || !Self::spec_is_valid(s[0]) {
            Err(ParseHotkeyError::UnexpectedKey)
        } else {
            Ok(Self::of_char(s[0]))
        }
    }

    /// The key of a character has that character's code.
    pub broadcast proof fn lemma_code_of_char(value: char)
        ensures
            #[trigger] Self::of_char(value).code() == value as u8,
    {
    }

    /// Two keys with the same code are the same key.
    pub proof fn lemma_code_injective(a: VisibleKey, b: VisibleKey)
        requires
            a.code() == b.code(),
        ensures
            a == b,
    {
    }

    /// Whether `value` can be written as a key.
    #[verifier::when_used_as_spec(spec_is_valid)]
    pub fn is_valid(value: char) -> (valid: bool)
        ensures
            valid == Self::spec_is_valid(value),
    {
        is_ascii_alphanumeric(value) || value == '*' || value == '+' || value == '-' || value == '.'
            || value == ';' || value == '=' || value == ',' || value == '/' || value == '`'
            || value == '[' || value == ']' || value == '\\'
    }
}

impl FromStr for VisibleKey {
    type Err = ParseHotkeyError;

    /// Reads a key written as its character. The empty string gives
    /// [`ParseHotkeyError::MissingKey`]; a string of several characters, or of
    /// one character that is no key, gives [`ParseHotkeyError::UnexpectedKey`].
    fn from_str(s: &str) -> (r: Result<VisibleKey, ParseHotkeyError>)
        ensures
            r == VisibleKey::spec_from_str(s@),
            r matches Ok(key) ==> key.wf() && key.code() == s@[0] as u8,
    {
        let chars = chars_of(s);
        if chars.len() == 0 {
            Err(ParseHotkeyError::MissingKey)
        } else if chars.len() != 1 || !VisibleKey::is_valid(chars[0]) {
            Err(ParseHotkeyError::UnexpectedKey)
        } else {
            Ok(VisibleKey(chars[0] as u8))
        }
    }
}

impl From<VisibleKey> for u8 {
    /// The code of the key's character.
    fn from(v: VisibleKey) -> (code: u8)
        ensures
            code == v.code(),
    {
        v.0
    }
}

impl FromSpecImpl<VisibleKey> for u8 {
    open spec fn obeys_from_spec() -> bool {
        true
    }

    open spec fn from_spec(v: VisibleKey) -> u8 {
        v.code()
    }
}

} // verus!
