//! The ways in which a shortcut can fail to parse.

use vstd::prelude::*;

verus! {

/// Why a shortcut was rejected. A parse reports the first failure it meets,
/// reading the tokens from left to right.
#[derive(Debug, Clone, Copy, PartialEq, Eq, Structural)]
pub enum ParseHotkeyError {
    /// There are not enough tokens: fewer than two in a string, none in a
    /// slice.
    KeyNotEnough,
    /// A token in modifier position is empty or blank.
    MissingModifier,
    /// A modifier occurs a second time.
    DuplicateModifier,
    /// The token in key position is empty.
    MissingKey,
    /// There are too many tokens: more than three in a string.
    TooManyKey,
    /// A token in modifier position names no modifier.
    UnexpectedModifier,
    /// The token in key position names no key.
    UnexpectedKey,
}

impl ParseHotkeyError {
    /// The text that [`ParseHotkeyError::message`] returns.
    pub open spec fn spec_message(&self) -> Seq<char> {
        match self {
            ParseHotkeyError::MissingModifier => "missing modifier"@,
            ParseHotkeyError::DuplicateModifier => "duplicate modifier"@,
            ParseHotkeyError::MissingKey => "missing key"@,
            ParseHotkeyError::TooManyKey => "to many key"@,
            ParseHotkeyError::UnexpectedKey => "unexpected key"@,
            ParseHotkeyError::UnexpectedModifier => "unexpected modifier"@,
            ParseHotkeyError::KeyNotEnough => "key not enough"@,
        }
    }

    /// A short description of the error, in lower case.
    pub fn message(&self) -> (text: String)
        ensures
            text@ == self.spec_message(),
    {
        let text: &str = match self {
            ParseHotkeyError::MissingModifier => "missing modifier",
            ParseHotkeyError::DuplicateModifier => "duplicate modifier",
            ParseHotkeyError::MissingKey => "missing key",
            ParseHotkeyError::TooManyKey => "to many key",
            ParseHotkeyError::UnexpectedKey => "unexpected key",
            ParseHotkeyError::UnexpectedModifier => "unexpected modifier",
            ParseHotkeyError::KeyNotEnough => "key not enough",
        };
        text.to_owned()
    }
}

} // verus!
