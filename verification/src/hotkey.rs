//! Shortcuts: a set of modifiers and one key.

use crate::modifier::Modifier;
use crate::parse_hotkey_error::ParseHotkeyError;
use crate::shortcut_key::ShortcutKey;
use crate::split::{spans_cut, split, split_spans, split_trimmed, trim_span};
use crate::text::{chars_of, is_blank, spec_is_blank};
use std::str::FromStr;
use vstd::prelude::*;

verus! {

/// A shortcut in the form in which the system takes it: the flags of its
/// modifiers, joined into one mask, and the code of its key.
#[derive(Debug, Clone, Copy, PartialEq, Eq, Structural)]
pub struct Hotkey {
    modifier: u8,
    key: u8,
}

/// The modifier that a token in modifier position names. A blank token names
/// none, and says so before the name is looked at.
pub open spec fn spec_modifier_token(token: Seq<char>) -> Result<Modifier, ParseHotkeyError> {
    if spec_is_blank(token) {
        Err(ParseHotkeyError::MissingModifier)
    } else {
        Modifier::spec_from_str(token)
    }
}

/// What the `i`th of `tokens` names in modifier position.
pub open spec fn modifier_at(tokens: Seq<Seq<char>>, i: int) -> Result<Modifier, ParseHotkeyError> {
    spec_modifier_token(tokens[i])
}

/// Whether one of `tokens` names `modifier`.
pub open spec fn is_named(tokens: Seq<Seq<char>>, modifier: Modifier) -> bool {
    exists|i: int|
        0 <= i < tokens.len() && #[trigger] modifier_at(tokens, i) == Ok::<
            Modifier,
            ParseHotkeyError,
        >(modifier)
}

/// Every one of `tokens` names a modifier, and no two name the same one.
pub open spec fn names_a_set(tokens: Seq<Seq<char>>) -> bool {
    &&& forall|i: int| 0 <= i < tokens.len() ==> (#[trigger] modifier_at(tokens, i)) is Ok
    &&& forall|i: int, j: int|
        #![trigger modifier_at(tokens, i), modifier_at(tokens, j)]
        0 <= i < j < tokens.len() ==> modifier_at(tokens, i) != modifier_at(tokens, j)
}

/// The mask of the modifiers that `tokens` name, read from left to right.
/// The first token that names no modifier, or one that was named before,
/// ends the reading with its error.
pub open spec fn spec_modifiers(tokens: Seq<Seq<char>>) -> Result<u8, ParseHotkeyError>
    decreases tokens.len(),
{
    if tokens.len() == 0 {
        Ok(0)
    } else {
        match spec_modifiers(tokens.drop_last()) {
            Err(err) => Err(err),
            Ok(mask) => match spec_modifier_token(tokens.last()) {
                Err(err) => Err(err),
                Ok(modifier) => if mask & modifier.flag() != 0 {
                    Err(ParseHotkeyError::DuplicateModifier)
                } else {
                    Ok(mask | modifier.flag())
                },
            },
        }
    }
}

/// The shortcut that `tokens` spell: every token but the last names a
/// modifier, the last one names the key. Without a token there is no key.
pub open spec fn spec_parse_hotkey(tokens: Seq<Seq<char>>) -> Result<Hotkey, ParseHotkeyError> {
    if tokens.len() == 0 {
        Err(ParseHotkeyError::KeyNotEnough)
    } else {
        match spec_modifiers(tokens.drop_last()) {
            Err(err) => Err(err),
            Ok(mask) => match ShortcutKey::spec_from_str(tokens.last()) {
                Err(err) => Err(err),
                Ok(key) => Ok(Hotkey::of(mask, key.code())),
            },
        }
    }
}

/// Once a token has failed, the tokens after it change nothing.
pub proof fn lemma_modifiers_first_error(tokens: Seq<Seq<char>>, n: int)
    requires
        0 <= n <= tokens.len(),
        spec_modifiers(tokens.take(n)) is Err,
    ensures
        spec_modifiers(tokens) == spec_modifiers(tokens.take(n)),
    decreases tokens.len(),
{
    if n == tokens.len() {
        assert(tokens.take(n) == tokens);
    } else {
        assert(tokens.drop_last().take(n) == tokens.take(n));
        lemma_modifiers_first_error(tokens.drop_last(), n);
    }
}

/// A mask that `spec_modifiers` gives has no bit but the four flags.
pub proof fn lemma_modifiers_mask(tokens: Seq<Seq<char>>)
    ensures
        spec_modifiers(tokens) matches Ok(mask) ==> mask <= 0x0F,
    decreases tokens.len(),
{
    if tokens.len() > 0 {
        lemma_modifiers_mask(tokens.drop_last());
        if let Ok(mask) = spec_modifiers(tokens.drop_last()) {
            if let Ok(modifier) = spec_modifier_token(tokens.last()) {
                let flag = modifier.flag();
                assert(mask <= 0x0F && (flag == 1 || flag == 2 || flag == 4 || flag == 8) ==> mask
                    | flag <= 0x0F) by (bit_vector);
            }
        }
    }
}

/// Reads a shortcut from its tokens: the names of its modifiers, then the
/// name of its key.
///
/// A token in modifier position that is blank gives
/// [`ParseHotkeyError::MissingModifier`], one that names no modifier
/// [`ParseHotkeyError::UnexpectedModifier`], one that names a modifier for the
/// second time [`ParseHotkeyError::DuplicateModifier`]. The last token gives
/// the error of [`ShortcutKey::from_str`]. Of several failures the leftmost
/// is reported. An empty slice gives [`ParseHotkeyError::KeyNotEnough`].
pub fn parse_hotkey(shortcut_keys: &[&str]) -> (r: Result<Hotkey, ParseHotkeyError>)
    ensures
        r == spec_parse_hotkey(shortcut_keys.deep_view()),
        r matches Ok(hotkey) ==> {
            &&& hotkey.wf()
            &&& spec_modifiers(shortcut_keys.deep_view().drop_last()) == Ok::<u8, ParseHotkeyError>(
                hotkey.modifier(),
            )
            &&& ShortcutKey::spec_from_str(shortcut_keys.deep_view().last()) matches Ok(key)
                && key.code() == hotkey.key()
        },
{
    let ghost tokens = shortcut_keys.deep_view();
    let count = shortcut_keys.len();
    if count == 0 {
        return Err(ParseHotkeyError::KeyNotEnough);
    }
    let ghost names = tokens.drop_last();
    let mut hotkey_modifier: u8 = 0;
    let mut i: usize = 0;
    while i < count - 1
        invariant
            count == shortcut_keys.len(),
            count > 0,
            i <= count - 1,
            tokens == shortcut_keys.deep_view(),
            names == tokens.drop_last(),
            spec_modifiers(names.take(i as int)) == Ok::<u8, ParseHotkeyError>(hotkey_modifier),
        decreases count - i,
    {
        let shortcut_key = shortcut_keys[i];
        proof {
            assert(names.take(i + 1).drop_last() == names.take(i as int));
            lemma_modifiers_mask(names.take(i + 1));
            if spec_modifiers(names.take(i + 1)) is Err {
                lemma_modifiers_first_error(names, i + 1);
            }
        }
        if is_blank(shortcut_key) {
            return Err(ParseHotkeyError::MissingModifier);
        }
        let modifier: u8 = match Modifier::from_str(shortcut_key) {
            Ok(modifier) => modifier.into(),
            Err(err) => {
                return Err(err);
            },
        };
        if hotkey_modifier & modifier != 0 {
            return Err(ParseHotkeyError::DuplicateModifier);
        }
        hotkey_modifier = hotkey_modifier | modifier;
        i += 1;
    }
    proof {
        assert(names.take(i as int) == names);
        lemma_modifiers_mask(names);
    }
    match ShortcutKey::from_str(shortcut_keys[count - 1]) {
        Ok(key) => {
            proof {
                ShortcutKey::lemma_from_str_wf(tokens.last());
            }
            Ok(Hotkey { modifier: hotkey_modifier, key: key.into() })
        },
        Err(err) => Err(err),
    }
}

impl Hotkey {
    /// The shortcut with the mask `modifier` and the key code `key`.
    pub closed spec fn of(modifier: u8, key: u8) -> Hotkey {
        Hotkey { modifier, key }
    }

    /// The mask of the shortcut's modifiers.
    pub closed spec fn spec_modifier(&self) -> u8 {
        self.modifier
    }

    /// The code of the shortcut's key.
    pub closed spec fn spec_key(&self) -> u8 {
        self.key
    }

    /// No bit is set in the mask but the flags of the four modifiers, and the
    /// key code is the code of a key.
    #[verifier::type_invariant]
    pub open spec fn wf(&self) -> bool {
        &&& self.spec_modifier() <= 0x0F
        &&& ShortcutKey::is_code(self.spec_key())
    }

    /// The shortcut that the string `s` spells: its pieces between the `+`
    /// signs, each one trimmed, are the tokens. There have to be two or three.
    pub open spec fn spec_from_str(s: Seq<char>) -> Result<Hotkey, ParseHotkeyError> {
        let tokens = split_trimmed(s, '+');
        if tokens.len() < 2 {
            Err(ParseHotkeyError::KeyNotEnough)
        } else if tokens.len() > 3 {
            Err(ParseHotkeyError::TooManyKey)
        } else {
            spec_parse_hotkey(tokens)
        }
    }

    /// A shortcut is made of its mask and its key code.
    pub broadcast proof fn lemma_parts(modifier: u8, key: u8)
        ensures
            (#[trigger] Self::of(modifier, key)).spec_modifier() == modifier,
            Self::of(modifier, key).spec_key() == key,
    {
    }

    /// Two shortcuts with the same mask and the same key code are the same.
    pub proof fn lemma_same_parts(a: Hotkey, b: Hotkey)
        requires
            a.spec_modifier() == b.spec_modifier(),
            a.spec_key() == b.spec_key(),
        ensures
            a == b,
    {
    }

    /// The mask of the shortcut's modifiers: the flags of [`Modifier`],
    /// joined by bitwise or.
    #[verifier::when_used_as_spec(spec_modifier)]
    pub fn modifier(&self) -> (mask: u8)
        ensures
            mask == self.spec_modifier(),
            mask <= 0x0F,
    {
        proof {
            use_type_invariant(self);
        }
        self.modifier
    }

    /// The code of the shortcut's key.
    #[verifier::when_used_as_spec(spec_key)]
    pub fn key(&self) -> (code: u8)
        ensures
            code == self.spec_key(),
            ShortcutKey::is_code(code),
    {
        proof {
            use_type_invariant(self);
        }
        self.key
    }
}

impl FromStr for Hotkey {
    type Err = ParseHotkeyError;

    /// Reads a shortcut such as `ctrl + a` or `ctrl + shift + delete`.
    ///
    /// The string is cut at every `+`, and the white space round each piece
    /// is dropped. Fewer than two pieces give
    /// [`ParseHotkeyError::KeyNotEnough`], more than three
    /// [`ParseHotkeyError::TooManyKey`]; two or three are read by
    /// [`parse_hotkey`].
    fn from_str(s: &str) -> (r: Result<Hotkey, ParseHotkeyError>)
        ensures
            r == Hotkey::spec_from_str(s@),
            r matches Ok(hotkey) ==> {
                let tokens = split_trimmed(s@, '+');
                &&& hotkey.wf()
                &&& spec_modifiers(tokens.drop_last()) == Ok::<u8, ParseHotkeyError>(
                    hotkey.modifier(),
                )
                &&& ShortcutKey::spec_from_str(tokens.last()) matches Ok(key) && key.code()
                    == hotkey.key()
            },
    {
        let chars = chars_of(s);
        let spans = split_spans(&chars, '+');
        let count = spans.len();
        if count < 2 {
            return Err(ParseHotkeyError::KeyNotEnough);
        }
        if count > 3 {
            return Err(ParseHotkeyError::TooManyKey);
        }
        let ghost tokens = split_trimmed(s@, '+');
        let mut part_of_s: Vec<&str> = Vec::new();
        let mut i: usize = 0;
        while i < count
            invariant
                i <= count,
                count == spans.len(),
                chars@ == s@,
                tokens == split_trimmed(s@, '+'),
                spans_cut(chars@, spans@, split(chars@, '+')),
                part_of_s.deep_view() == tokens.take(i as int),
            decreases count - i,
        {
            let span = trim_span(&chars, spans[i].0, spans[i].1);
            let part = s.substring_char(span.0, span.1);
            part_of_s.push(part);
            assert(tokens.take(i + 1) == tokens.take(i as int).push(tokens[i as int]));
            i += 1;
        }
        assert(tokens.take(i as int) == tokens);
        let parts = part_of_s.as_slice();
        parse_hotkey(parts)
    }
}

} // verus!
