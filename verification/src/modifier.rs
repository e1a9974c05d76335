//! The modifier keys and their flags.

use crate::parse_hotkey_error::ParseHotkeyError;
use crate::text::{
    is_ascii_alphanumeric, lowercase, lowercase_of, spec_to_ascii_lowercase, spells,
};
use std::str::FromStr;
use vstd::prelude::*;
use vstd::std_specs::convert::FromSpecImpl;

verus! {

/// A key that is held down while another key is pressed.
///
/// The flag of a modifier is had with `u8::from`. The variants are not
/// numbered by their flags, so a cast with `as` gives something else.
#[derive(Debug, Clone, Copy, PartialEq, Eq, Structural)]
pub enum Modifier {
    Alt,
    Ctrl,
    Shift,
    Win,
}

impl Modifier {
    /// The flag of the modifier: one bit, and a bit of its own.
    pub open spec fn flag(self) -> u8 {
        match self {
            Modifier::Alt => 1,
            Modifier::Ctrl => 2,
            Modifier::Shift => 4,
            Modifier::Win => 8,
        }
    }

    /// Whether the flag of the modifier is set in `mask`.
    pub open spec fn is_in(self, mask: u8) -> bool {
        mask & self.flag() != 0
    }

    /// The name of the modifier, in lower case.
    pub open spec fn name(self) -> Seq<char> {
        match self {
            Modifier::Alt => "alt"@,
            Modifier::Ctrl => "ctrl"@,
            Modifier::Shift => "shift"@,
            Modifier::Win => "win"@,
        }
    }

    /// The modifier that `s` names, whatever the case of its ASCII letters.
    pub open spec fn spec_from_str(s: Seq<char>) -> Result<Modifier, ParseHotkeyError> {
        let name = lowercase(s);
        if name.len() == 0 {
            Err(ParseHotkeyError::MissingModifier)
        } else if name == "ctrl"@ {
            Ok(Modifier::Ctrl)
        } else if name == "alt"@ {
            Ok(Modifier::Alt)
        } else if name == "shift"@ {
            Ok(Modifier::Shift)
        } else if name == "win"@ {
            Ok(Modifier::Win)
        } else {
            Err(ParseHotkeyError::UnexpectedModifier)
        }
    }

    /// Every modifier is read back from its name, and a string names a
    /// modifier only if it is that name in some mix of cases.
    pub proof fn lemma_from_str_name(modifier: Modifier)
        ensures
            Self::spec_from_str(modifier.name()) == Ok::<Modifier, ParseHotkeyError>(modifier),
            forall|s: Seq<char>| #[trigger]
                Self::spec_from_str(s) == Ok::<Modifier, ParseHotkeyError>(modifier) ==> lowercase(s)
                    == modifier.name(),
    {
        reveal_strlit("ctrl");
        reveal_strlit("alt");
        reveal_strlit("shift");
        reveal_strlit("win");
        assert(lowercase(modifier.name()) == modifier.name());
        assert("alt"@[0] != "win"@[0]);
    }

    /// Two modifiers share a flag bit only if they are the same modifier.
    pub proof fn lemma_flags_disjoint(a: Modifier, b: Modifier)
        ensures
            (a.flag() & b.flag() != 0) <==> a == b,
    {
        let x = a.flag();
        let y = b.flag();
        assert((x == 1 || x == 2 || x == 4 || x == 8) && (y == 1 || y == 2 || y == 4 || y == 8)
            ==> ((x & y != 0) <==> x == y)) by (bit_vector);
    }

    /// A name of a modifier is made of ASCII letters and digits, and of at
    /// least three.
    pub proof fn lemma_name_is_alphanumeric(s: Seq<char>)
        requires
            Self::spec_from_str(s) is Ok,
        ensures
            s.len() >= 3,
            forall|i: int| 0 <= i < s.len() ==> is_ascii_alphanumeric(#[trigger] s[i]),
    {
        reveal_strlit("ctrl");
        reveal_strlit("alt");
        reveal_strlit("shift");
        reveal_strlit("win");
        let name = lowercase(s);
        assert forall|i: int| 0 <= i < s.len() implies is_ascii_alphanumeric(#[trigger] s[i]) by {
            assert(name[i] == spec_to_ascii_lowercase(s[i]));
        }
    }
}

impl FromStr for Modifier {
    type Err = ParseHotkeyError;

    /// Finds the modifier that `s` names. Letters match in either case. The
    /// empty string gives [`ParseHotkeyError::MissingModifier`], any other
    /// string that names no modifier
    /// [`ParseHotkeyError::UnexpectedModifier`].
    fn from_str(s: &str) -> (r: Result<Modifier, ParseHotkeyError>)
        ensures
            r == Modifier::spec_from_str(s@),
    {
        let name = lowercase_of(s);
        if name.len() == 0 {
            Err(ParseHotkeyError::MissingModifier)
        } else if spells(&name, "ctrl") {
            Ok(Modifier::Ctrl)
        } else if spells(&name, "alt") {
            Ok(Modifier::Alt)
        } else if spells(&name, "shift") {
            Ok(Modifier::Shift)
        } else if spells(&name, "win") {
            Ok(Modifier::Win)
        } else {
            Err(ParseHotkeyError::UnexpectedModifier)
        }
    }
}

impl From<Modifier> for u8 {
    /// The flag of the modifier.
    fn from(m: Modifier) -> (flag: u8)
        ensures
            flag == m.flag(),
    {
        match m {
            Modifier::Alt => 1,
            Modifier::Ctrl => 2,
            Modifier::Shift => 4,
            Modifier::Win => 8,
        }
    }
}

impl FromSpecImpl<Modifier> for u8 {
    open spec fn obeys_from_spec() -> bool {
        true
    }

    open spec fn from_spec(m: Modifier) -> u8 {
        m.flag()
    }
}

} // verus!
