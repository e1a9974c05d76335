//! The key of a shortcut: a named key or a visible one.

use crate::parse_hotkey_error::ParseHotkeyError;
use crate::special_key::SpecialKey;
use crate::text::spec_is_whitespace;
use crate::visible_key::VisibleKey;
use std::str::FromStr;
use vstd::prelude::*;
use vstd::std_specs::convert::FromSpecImpl;

verus! {

/// The key that ends a shortcut.
#[derive(Debug, Clone, Copy, PartialEq, Eq, Structural)]
pub enum ShortcutKey {
    VisibleKey(VisibleKey),
    SpecialKey(SpecialKey),
}

impl ShortcutKey {
    /// The code of the key, whichever kind it is.
    pub open spec fn code(self) -> u8 {
        match self {
            ShortcutKey::VisibleKey(v) => v.code(),
            ShortcutKey::SpecialKey(s) => s.code(),
        }
    }

    /// A visible key inside is well formed; a named key always is.
    pub open spec fn wf(self) -> bool {
        match self {
            ShortcutKey::VisibleKey(v) => v.wf(),
            ShortcutKey::SpecialKey(_) => true,
        }
    }

    /// Whether `code` is the code of a key.
    pub open spec fn is_code(code: u8) -> bool {
        exists|key: ShortcutKey| key.wf() && #[trigger] key.code() == code
    }

    /// The key that the token `s` stands for. A name of a special key is
    /// read as that key; any other token is read as a visible key.
    pub open spec fn spec_from_str(s: Seq<char>) -> Result<ShortcutKey, ParseHotkeyError> {
        match SpecialKey::spec_from_str(s) {
            Ok(special_key) => Ok(ShortcutKey::SpecialKey(special_key)),
            Err(_) => match VisibleKey::spec_from_str(s) {
                Ok(visible_key) => Ok(ShortcutKey::VisibleKey(visible_key)),
                Err(err) => Err(err),
            },
        }
    }

    /// The names of the special keys come first: a token that names one is
    /// that key, however long it is.
    pub proof fn lemma_special_key_first(s: Seq<char>)
        ensures
            SpecialKey::spec_from_str(s) matches Ok(special_key) ==> Self::spec_from_str(s) == Ok::<
                ShortcutKey,
                ParseHotkeyError,
            >(ShortcutKey::SpecialKey(special_key)),
    {
    }

    /// A token is a key if and only if it names a special key or is one
    /// valid character, which is then the key. Of the others the empty token
    /// is a missing key and the rest are unexpected.
    pub proof fn lemma_key_or_error(s: Seq<char>)
        ensures
            Self::spec_from_str(s) is Ok <==> SpecialKey::spec_from_str(s) is Ok || (s.len() == 1
                && VisibleKey::spec_is_valid(s[0])),
            s.len() == 1 && VisibleKey::spec_is_valid(s[0]) ==> Self::spec_from_str(s) == Ok::<
                ShortcutKey,
                ParseHotkeyError,
            >(ShortcutKey::VisibleKey(VisibleKey::of_char(s[0]))),
            Self::spec_from_str(s) == Err::<ShortcutKey, ParseHotkeyError>(
                ParseHotkeyError::MissingKey,
            ) <==> s.len() == 0,
            Self::spec_from_str(s) is Err && s.len() > 0 ==> Self::spec_from_str(s) == Err::<
                ShortcutKey,
                ParseHotkeyError,
            >(ParseHotkeyError::UnexpectedKey),
    {
        if s.len() < 2 {
            SpecialKey::lemma_short_is_no_name(s);
        }
    }

    /// A token that is a key has no white space in it, and no `+` unless it
    /// is the key `+` itself.
    pub proof fn lemma_key_token_chars(s: Seq<char>)
        requires
            Self::spec_from_str(s) is Ok,
        ensures
            s.len() > 0,
            forall|i: int| 0 <= i < s.len() ==> !spec_is_whitespace(#[trigger] s[i]),
            s.contains('+') ==> s == seq!['+'],
    {
        if SpecialKey::spec_from_str(s) is Ok {
            SpecialKey::lemma_name_is_alphanumeric(s);
        } else {
            assert(s == seq![s[0]]);
        }
    }

    /// A key that was read from a token is well formed.
    pub proof fn lemma_from_str_wf(s: Seq<char>)
        ensures
            Self::spec_from_str(s) matches Ok(key) ==> key.wf() && Self::is_code(key.code()),
    {
        if Self::spec_from_str(s) matches Ok(ShortcutKey::VisibleKey(_)) {
            VisibleKey::lemma_code_of_char(s[0]);
        }
    }
}

impl FromStr for ShortcutKey {
    type Err = ParseHotkeyError;

    /// Reads the token in key position. The names of the special keys come
    /// first, so a token such as `enter` is that key and not a visible key
    /// that is too long. What is no name is read as a visible key, and the
    /// error is the one of that reading.
    fn from_str(s: &str) -> (r: Result<ShortcutKey, ParseHotkeyError>)
        ensures
            r == ShortcutKey::spec_from_str(s@),
            r matches Ok(key) ==> key.wf(),
    {
        if let Ok(special_key) = SpecialKey::from_str(s) {
            return Ok(ShortcutKey::SpecialKey(special_key));
        }
        match VisibleKey::from_str(s) {
            Ok(visible_key) => Ok(ShortcutKey::VisibleKey(visible_key)),
            Err(err) => Err(err),
        }
    }
}

impl From<ShortcutKey> for u8 {
    /// The code of the key.
    fn from(sk: ShortcutKey) -> (code: u8)
        ensures
            code == sk.code(),
    {
        match sk {
            ShortcutKey::VisibleKey(v) => v.into(),
            ShortcutKey::SpecialKey(s) => s.into(),
        }
    }
}

impl FromSpecImpl<ShortcutKey> for u8 {
    open spec fn obeys_from_spec() -> bool {
        true
    }

    open spec fn from_spec(sk: ShortcutKey) -> u8 {
        sk.code()
    }
}

} // verus!
