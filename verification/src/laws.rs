//! Laws of the shortcut grammar, each one proved from the definitions.

use crate::hotkey::{
    is_named, lemma_modifiers_mask, modifier_at, names_a_set, spec_modifier_token,
    spec_modifiers, spec_parse_hotkey, Hotkey,
};
use crate::modifier::Modifier;
use crate::parse_hotkey_error::ParseHotkeyError;
use crate::shortcut_key::ShortcutKey;
use crate::special_key::SpecialKey;
use crate::split::{
    lemma_split_concat, lemma_split_count, lemma_split_same_letters, lemma_split_whole,
    lemma_trim_padded, lemma_trim_same_letters, split, split_trimmed, trim,
};
use crate::text::{
    eq_ignore_ascii_case, lemma_same_letter, lemma_same_letters, spec_is_blank,
    spec_is_whitespace,
};
use vstd::prelude::*;

verus! {

/// A token that names a modifier is that modifier in modifier position.
pub proof fn lemma_modifier_token(name: Seq<char>)
    requires
        Modifier::spec_from_str(name) is Ok,
    ensures
        spec_modifier_token(name) == Modifier::spec_from_str(name),
        spec_modifiers(seq![name]) == Ok::<u8, ParseHotkeyError>(
            Modifier::spec_from_str(name)->Ok_0.flag(),
        ),
{
    Modifier::lemma_name_is_alphanumeric(name);
    assert(!spec_is_whitespace(name[0]));
    let flag = Modifier::spec_from_str(name)->Ok_0.flag();
    assert(seq![name].drop_last() == Seq::<Seq<char>>::empty());
    assert(spec_modifiers(Seq::<Seq<char>>::empty()) == Ok::<u8, ParseHotkeyError>(0));
    assert(0u8 & flag == 0 && 0u8 | flag == flag) by (bit_vector);
}

/// One modifier and a key: the shortcut has the flag of the modifier and the
/// code of the key.
pub proof fn lemma_one_modifier(name: Seq<char>, key: Seq<char>)
    requires
        Modifier::spec_from_str(name) is Ok,
        ShortcutKey::spec_from_str(key) is Ok,
    ensures
        spec_parse_hotkey(seq![name, key]) == Ok::<Hotkey, ParseHotkeyError>(
            Hotkey::of(
                Modifier::spec_from_str(name)->Ok_0.flag(),
                ShortcutKey::spec_from_str(key)->Ok_0.code(),
            ),
        ),
{
    lemma_modifier_token(name);
    assert(seq![name, key].drop_last() == seq![name]);
}

/// Two different modifiers and a key: the shortcut has both flags, joined by
/// bitwise or, and the code of the key.
pub proof fn lemma_two_modifiers(first: Seq<char>, second: Seq<char>, key: Seq<char>)
    requires
        Modifier::spec_from_str(first) is Ok,
        Modifier::spec_from_str(second) is Ok,
        Modifier::spec_from_str(first) != Modifier::spec_from_str(second),
        ShortcutKey::spec_from_str(key) is Ok,
    ensures
        spec_parse_hotkey(seq![first, second, key]) == Ok::<Hotkey, ParseHotkeyError>(
            Hotkey::of(
                Modifier::spec_from_str(first)->Ok_0.flag() | Modifier::spec_from_str(
                    second,
                )->Ok_0.flag(),
                ShortcutKey::spec_from_str(key)->Ok_0.code(),
            ),
        ),
{
    lemma_modifier_token(first);
    lemma_modifier_token(second);
    Modifier::lemma_flags_disjoint(
        Modifier::spec_from_str(first)->Ok_0,
        Modifier::spec_from_str(second)->Ok_0,
    );
    assert(seq![first, second, key].drop_last() == seq![first, second]);
    assert(seq![first, second].drop_last() == seq![first]);
}

/// The same modifier twice is refused, whatever the key.
pub proof fn lemma_duplicate_modifier(first: Seq<char>, second: Seq<char>, key: Seq<char>)
    requires
        Modifier::spec_from_str(first) is Ok,
        Modifier::spec_from_str(first) == Modifier::spec_from_str(second),
    ensures
        spec_parse_hotkey(seq![first, second, key]) == Err::<Hotkey, ParseHotkeyError>(
            ParseHotkeyError::DuplicateModifier,
        ),
{
    lemma_modifier_token(first);
    lemma_modifier_token(second);
    Modifier::lemma_flags_disjoint(
        Modifier::spec_from_str(first)->Ok_0,
        Modifier::spec_from_str(second)->Ok_0,
    );
    assert(seq![first, second, key].drop_last() == seq![first, second]);
    assert(seq![first, second].drop_last() == seq![first]);
}

/// A token with white space round it and no `+` in it is one piece of a
/// string, and trimming gives the token back.
proof fn lemma_padded_piece(left: Seq<char>, token: Seq<char>, right: Seq<char>)
    requires
        spec_is_blank(left),
        spec_is_blank(right),
        token.len() > 0,
        forall|i: int| 0 <= i < token.len() ==> !spec_is_whitespace(#[trigger] token[i]),
        !token.contains('+'),
    ensures
        split(left + token + right, '+') == seq![left + token + right],
        trim(left + token + right) == token,
{
    lemma_split_whole(left + token + right, '+');
    lemma_trim_padded(left, token, right);
}

/// A string such as `ctrl + a`: the name of a modifier, a `+` and a key,
/// with any white space, or none, round the two tokens. It is read as the
/// shortcut with the flag of the modifier and the code of the key.
///
/// The key `+` cannot be written in a string, where every `+` is a
/// separator; as a token of its own it can.
pub proof fn lemma_from_str_one_modifier(
    name: Seq<char>,
    key: Seq<char>,
    pad: (Seq<char>, Seq<char>, Seq<char>, Seq<char>),
)
    requires
        Modifier::spec_from_str(name) is Ok,
        ShortcutKey::spec_from_str(key) is Ok,
        key != seq!['+'],
        spec_is_blank(pad.0) && spec_is_blank(pad.1) && spec_is_blank(pad.2) && spec_is_blank(
            pad.3,
        ),
    ensures
        Hotkey::spec_from_str(pad.0 + name + pad.1 + seq!['+'] + pad.2 + key + pad.3) == Ok::<
            Hotkey,
            ParseHotkeyError,
        >(
            Hotkey::of(
                Modifier::spec_from_str(name)->Ok_0.flag(),
                ShortcutKey::spec_from_str(key)->Ok_0.code(),
            ),
        ),
{
    let first = pad.0 + name + pad.1;
    let last = pad.2 + key + pad.3;
    let s = pad.0 + name + pad.1 + seq!['+'] + pad.2 + key + pad.3;
    lemma_name_token_chars(name);
    ShortcutKey::lemma_key_token_chars(key);
    lemma_padded_piece(pad.0, name, pad.1);
    lemma_padded_piece(pad.2, key, pad.3);
    assert(s == first + seq!['+'] + last);
    lemma_split_concat(first, last, '+');
    let tokens = split_trimmed(s, '+');
    assert(tokens == seq![name, key]);
    lemma_one_modifier(name, key);
}

/// A string such as `ctrl + shift + a`: the names of two different
/// modifiers and a key, with any white space, or none, round the three
/// tokens. It is read as the shortcut with both flags, joined by bitwise or,
/// and the code of the key.
pub proof fn lemma_from_str_two_modifiers(
    first: Seq<char>,
    second: Seq<char>,
    key: Seq<char>,
    pad: (Seq<char>, Seq<char>, Seq<char>, Seq<char>, Seq<char>, Seq<char>),
)
    requires
        Modifier::spec_from_str(first) is Ok,
        Modifier::spec_from_str(second) is Ok,
        Modifier::spec_from_str(first) != Modifier::spec_from_str(second),
        ShortcutKey::spec_from_str(key) is Ok,
        key != seq!['+'],
        spec_is_blank(pad.0) && spec_is_blank(pad.1) && spec_is_blank(pad.2) && spec_is_blank(
            pad.3,
        ) && spec_is_blank(pad.4) && spec_is_blank(pad.5),
    ensures
        Hotkey::spec_from_str(
            pad.0 + first + pad.1 + seq!['+'] + pad.2 + second + pad.3 + seq!['+'] + pad.4 + key
                + pad.5,
        ) == Ok::<Hotkey, ParseHotkeyError>(
            Hotkey::of(
                Modifier::spec_from_str(first)->Ok_0.flag() | Modifier::spec_from_str(
                    second,
                )->Ok_0.flag(),
                ShortcutKey::spec_from_str(key)->Ok_0.code(),
            ),
        ),
{
    let a = pad.0 + first + pad.1;
    let b = pad.2 + second + pad.3;
    let c = pad.4 + key + pad.5;
    let s = pad.0 + first + pad.1 + seq!['+'] + pad.2 + second + pad.3 + seq!['+'] + pad.4 + key
        + pad.5;
    lemma_name_token_chars(first);
    lemma_name_token_chars(second);
    ShortcutKey::lemma_key_token_chars(key);
    lemma_padded_piece(pad.0, first, pad.1);
    lemma_padded_piece(pad.2, second, pad.3);
    lemma_padded_piece(pad.4, key, pad.5);
    assert(s == (a + seq!['+'] + b) + seq!['+'] + c);
    lemma_split_concat(a + seq!['+'] + b, c, '+');
    lemma_split_concat(a, b, '+');
    let tokens = split_trimmed(s, '+');
    assert(tokens == seq![first, second, key]);
    lemma_two_modifiers(first, second, key);
}

/// The name of a modifier has neither white space nor a `+` in it.
proof fn lemma_name_token_chars(name: Seq<char>)
    requires
        Modifier::spec_from_str(name) is Ok,
    ensures
        name.len() > 0,
        forall|i: int| 0 <= i < name.len() ==> !spec_is_whitespace(#[trigger] name[i]),
        !name.contains('+'),
{
    Modifier::lemma_name_is_alphanumeric(name);
}

/// What a string is read as depends on its characters alone: two strings
/// with the same characters give the same shortcut, or the same error.
pub proof fn lemma_from_str_deterministic(a: &str, b: &str)
    requires
        a@ == b@,
    ensures
        Hotkey::spec_from_str(a@) == Hotkey::spec_from_str(b@),
{
}

/// The case of ASCII letters makes no difference in modifier position.
pub proof fn lemma_modifiers_ignore_case(a: Seq<Seq<char>>, b: Seq<Seq<char>>)
    requires
        a.len() == b.len(),
        forall|i: int| 0 <= i < a.len() ==> eq_ignore_ascii_case(#[trigger] a[i], b[i]),
    ensures
        spec_modifiers(a) == spec_modifiers(b),
    decreases a.len(),
{
    if a.len() > 0 {
        lemma_modifiers_ignore_case(a.drop_last(), b.drop_last());
        lemma_same_letters(a.last(), b.last());
    }
}

/// The case of ASCII letters makes no difference in key position, but for a
/// key that is written as a single letter: `a` and `A` have codes of their
/// own.
pub proof fn lemma_key_ignores_case(a: Seq<char>, b: Seq<char>)
    requires
        eq_ignore_ascii_case(a, b),
        ShortcutKey::spec_from_str(a) is Ok && a.len() == 1 ==> a == b,
    ensures
        ShortcutKey::spec_from_str(a) == ShortcutKey::spec_from_str(b),
{
    lemma_same_letters(a, b);
    if a.len() == 1 {
        lemma_same_letter(a[0], b[0]);
        if SpecialKey::spec_from_str(a) is Ok {
            SpecialKey::lemma_name_is_alphanumeric(a);
        }
    }
}

/// Tokens that differ at most in the case of their ASCII letters spell the
/// same shortcut, or fail with the same error.
///
/// One kind of input is left out: a key that is written as a single letter
/// keeps its case, so `a` and `A` are different keys. Where the tokens spell
/// a shortcut with such a key, both lists have to write it alike.
pub proof fn lemma_parse_ignores_case(a: Seq<Seq<char>>, b: Seq<Seq<char>>)
    requires
        a.len() == b.len(),
        forall|i: int| 0 <= i < a.len() ==> eq_ignore_ascii_case(#[trigger] a[i], b[i]),
        spec_parse_hotkey(a) is Ok && a.last().len() == 1 ==> a.last() == b.last(),
    ensures
        spec_parse_hotkey(a) == spec_parse_hotkey(b),
{
    if a.len() > 0 {
        lemma_modifiers_ignore_case(a.drop_last(), b.drop_last());
        if spec_modifiers(a.drop_last()) is Ok {
            lemma_key_ignores_case(a.last(), b.last());
        }
    }
}

/// Strings that differ at most in the case of their ASCII letters are read
/// as the same shortcut, or fail with the same error: `CTRL + ENTER`,
/// `ctrl + enter` and `Ctrl + Enter` are one shortcut.
///
/// One kind of input is left out: a key that is written as a single letter
/// keeps its case, so `ctrl + a` and `ctrl + A` are different shortcuts.
/// Where the string spells a shortcut with such a key, both strings have to
/// write it alike.
pub proof fn lemma_from_str_ignores_case(s: Seq<char>, t: Seq<char>)
    requires
        eq_ignore_ascii_case(s, t),
        Hotkey::spec_from_str(s) is Ok && split_trimmed(s, '+').last().len() == 1 ==> split_trimmed(
            s,
            '+',
        ).last() == split_trimmed(t, '+').last(),
    ensures
        Hotkey::spec_from_str(s) == Hotkey::spec_from_str(t),
{
    lemma_split_same_letters(s, t, '+');
    let a = split_trimmed(s, '+');
    let b = split_trimmed(t, '+');
    assert forall|i: int| 0 <= i < a.len() implies eq_ignore_ascii_case(#[trigger] a[i], b[i]) by {
        lemma_trim_same_letters(split(s, '+')[i], split(t, '+')[i]);
    }
    if 2 <= a.len() <= 3 {
        lemma_parse_ignores_case(a, b);
    }
}

/// The tokens of a shortcut that was read are the names of different
/// modifiers and a key: the mask has no bit but the four flags, and the key
/// code is the code of a key.
pub proof fn lemma_parsed_is_well_formed(tokens: Seq<Seq<char>>)
    ensures
        spec_parse_hotkey(tokens) matches Ok(hotkey) ==> hotkey.wf(),
{
    if let Ok(hotkey) = spec_parse_hotkey(tokens) {
        lemma_modifiers_mask(tokens.drop_last());
        ShortcutKey::lemma_from_str_wf(tokens.last());
        let mask = spec_modifiers(tokens.drop_last())->Ok_0;
        let key = ShortcutKey::spec_from_str(tokens.last())->Ok_0;
        Hotkey::lemma_parts(mask, key.code());
    }
}

/// A modifier is named by one of the tokens if the last token names it or
/// one of the tokens before does.
proof fn lemma_is_named_step(tokens: Seq<Seq<char>>, modifier: Modifier)
    requires
        tokens.len() > 0,
    ensures
        is_named(tokens, modifier) <==> is_named(tokens.drop_last(), modifier) || modifier_at(
            tokens,
            tokens.len() - 1,
        ) == Ok::<Modifier, ParseHotkeyError>(modifier),
{
    let front = tokens.drop_last();
    let named = Ok::<Modifier, ParseHotkeyError>(modifier);
    if is_named(front, modifier) {
        let i = choose|i: int| 0 <= i < front.len() && #[trigger] modifier_at(front, i) == named;
        assert(modifier_at(tokens, i) == named);
    }
    if is_named(tokens, modifier) {
        let i = choose|i: int| 0 <= i < tokens.len() && #[trigger] modifier_at(tokens, i) == named;
        if i < front.len() {
            assert(modifier_at(front, i) == named);
        }
    }
}

/// The mask of the tokens in modifier position has the flags of the
/// modifiers that the tokens name, and no others.
pub proof fn lemma_mask_has_the_named(tokens: Seq<Seq<char>>, modifier: Modifier)
    requires
        spec_modifiers(tokens) is Ok,
    ensures
        modifier.is_in(spec_modifiers(tokens)->Ok_0) <==> is_named(tokens, modifier),
    decreases tokens.len(),
{
    let flag = modifier.flag();
    if tokens.len() == 0 {
        assert(0u8 & flag == 0) by (bit_vector);
    } else {
        let front = tokens.drop_last();
        let mask = spec_modifiers(front)->Ok_0;
        let last = spec_modifier_token(tokens.last())->Ok_0;
        lemma_mask_has_the_named(front, modifier);
        lemma_is_named_step(tokens, modifier);
        Modifier::lemma_flags_disjoint(modifier, last);
        let last_flag = last.flag();
        assert(((mask | last_flag) & flag != 0) <==> (mask & flag != 0 || last_flag & flag != 0))
            by (bit_vector);
        assert(last_flag & flag == flag & last_flag) by (bit_vector);
    }
}

/// The tokens in modifier position are read into a mask if and only if each
/// of them names a modifier and no two name the same one.
pub proof fn lemma_modifiers_are_a_set(tokens: Seq<Seq<char>>)
    ensures
        spec_modifiers(tokens) is Ok <==> names_a_set(tokens),
    decreases tokens.len(),
{
    if tokens.len() > 0 {
        let front = tokens.drop_last();
        let n = front.len() as int;
        lemma_modifiers_are_a_set(front);
        assert forall|i: int| 0 <= i < n implies #[trigger] modifier_at(front, i) == modifier_at(
            tokens,
            i,
        ) by {
            assert(front[i] == tokens[i]);
        }
        assert(modifier_at(tokens, n) == spec_modifier_token(tokens.last()));
        if spec_modifiers(tokens) is Ok {
            let last = modifier_at(tokens, n)->Ok_0;
            lemma_mask_has_the_named(front, last);
            assert forall|i: int, j: int| 0 <= i < j < tokens.len() implies modifier_at(tokens, i)
                != modifier_at(tokens, j) by {
                if j < n {
                    assert(modifier_at(front, i) != modifier_at(front, j));
                } else if modifier_at(tokens, i) == modifier_at(tokens, j) {
                    assert(modifier_at(front, i) == Ok::<Modifier, ParseHotkeyError>(last));
                }
            }
            assert forall|i: int| 0 <= i < tokens.len() implies (#[trigger] modifier_at(
                tokens,
                i,
            )) is Ok by {
                if i < n {
                    assert(modifier_at(front, i) is Ok);
                }
            }
        }
        if names_a_set(tokens) {
            assert(names_a_set(front)) by {
                assert forall|i: int| 0 <= i < n implies (#[trigger] modifier_at(front, i)) is Ok by {
                    assert(modifier_at(tokens, i) is Ok);
                }
                assert forall|i: int, j: int| 0 <= i < j < n implies modifier_at(front, i)
                    != modifier_at(front, j) by {
                    assert(modifier_at(tokens, i) != modifier_at(tokens, j));
                }
            }
            assert(modifier_at(tokens, n) is Ok);
            let last = modifier_at(tokens, n)->Ok_0;
            lemma_mask_has_the_named(front, last);
            if is_named(front, last) {
                let i = choose|i: int|
                    0 <= i < n && #[trigger] modifier_at(front, i) == Ok::<
                        Modifier,
                        ParseHotkeyError,
                    >(last);
                assert(modifier_at(tokens, i) != modifier_at(tokens, n));
            }
            assert(spec_modifiers(tokens) is Ok);
        }
    } else {
        assert(names_a_set(tokens));
    }
}

/// Of several failures the leftmost is reported: where the tokens in
/// modifier position are refused, some token is the first to fail. Those
/// before it are read into a mask, and it either names no modifier, which is
/// the error, or names one of theirs again.
pub proof fn lemma_modifiers_first_failure(tokens: Seq<Seq<char>>) -> (n: int)
    requires
        spec_modifiers(tokens) is Err,
    ensures
        0 <= n < tokens.len(),
        spec_modifiers(tokens.take(n)) is Ok,
        spec_modifiers(tokens.take(n + 1)) == spec_modifiers(tokens),
        match modifier_at(tokens, n) {
            Err(err) => spec_modifiers(tokens) == Err::<u8, ParseHotkeyError>(err),
            Ok(modifier) => is_named(tokens.take(n), modifier) && spec_modifiers(tokens) == Err::<
                u8,
                ParseHotkeyError,
            >(ParseHotkeyError::DuplicateModifier),
        },
    decreases tokens.len(),
{
    let front = tokens.drop_last();
    let last = tokens.len() - 1;
    if spec_modifiers(front) is Err {
        let n = lemma_modifiers_first_failure(front);
        assert(front.take(n) == tokens.take(n));
        assert(front.take(n + 1) == tokens.take(n + 1));
        n
    } else {
        assert(tokens.take(last + 1) == tokens);
        if let Ok(modifier) = modifier_at(tokens, last) {
            lemma_mask_has_the_named(front, modifier);
        }
        last
    }
}

/// The tokens in modifier position fail as a missing, an unexpected or a
/// duplicate modifier, and in no other way.
pub proof fn lemma_errors_of_modifiers(tokens: Seq<Seq<char>>)
    ensures
        spec_modifiers(tokens) matches Err(err) ==> err == ParseHotkeyError::MissingModifier || err
            == ParseHotkeyError::UnexpectedModifier || err == ParseHotkeyError::DuplicateModifier,
    decreases tokens.len(),
{
    if tokens.len() > 0 {
        lemma_errors_of_modifiers(tokens.drop_last());
    }
}

/// The number of tokens is no error of the tokens themselves: a list that
/// is not empty never has too few tokens, and no list has too many.
pub proof fn lemma_errors_of_tokens(tokens: Seq<Seq<char>>)
    ensures
        spec_parse_hotkey(tokens) == Err::<Hotkey, ParseHotkeyError>(ParseHotkeyError::KeyNotEnough)
            <==> tokens.len() == 0,
        spec_parse_hotkey(tokens) != Err::<Hotkey, ParseHotkeyError>(ParseHotkeyError::TooManyKey),
{
    if tokens.len() > 0 {
        lemma_errors_of_modifiers(tokens.drop_last());
        ShortcutKey::lemma_key_or_error(tokens.last());
    }
}

/// A shortcut is read from its tokens if and only if the tokens before the
/// last name different modifiers and the last token is a key. The shortcut
/// then has the flags of the modifiers that are named, and no others, and
/// the code of the key.
pub proof fn lemma_parse_succeeds(tokens: Seq<Seq<char>>)
    ensures
        spec_parse_hotkey(tokens) is Ok <==> tokens.len() > 0 && names_a_set(tokens.drop_last())
            && ShortcutKey::spec_from_str(tokens.last()) is Ok,
        spec_parse_hotkey(tokens) matches Ok(hotkey) ==> {
            &&& hotkey.key() == ShortcutKey::spec_from_str(tokens.last())->Ok_0.code()
            &&& forall|modifier: Modifier| #[trigger]
                modifier.is_in(hotkey.modifier()) <==> is_named(tokens.drop_last(), modifier)
        },
{
    if tokens.len() > 0 {
        lemma_modifiers_are_a_set(tokens.drop_last());
        if let Ok(hotkey) = spec_parse_hotkey(tokens) {
            let mask = spec_modifiers(tokens.drop_last())->Ok_0;
            let key = ShortcutKey::spec_from_str(tokens.last())->Ok_0;
            Hotkey::lemma_parts(mask, key.code());
            assert forall|modifier: Modifier| #[trigger]
                modifier.is_in(hotkey.modifier()) <==> is_named(tokens.drop_last(), modifier) by {
                lemma_mask_has_the_named(tokens.drop_last(), modifier);
            }
        }
    }
}

/// How the number of `+` signs decides: with none there are not enough
/// tokens, with more than two there are too many, and with one or two the
/// string is read as its tokens are. No other string fails for its number of
/// tokens.
pub proof fn lemma_from_str_counts_signs(s: Seq<char>)
    ensures
        Hotkey::spec_from_str(s) == Err::<Hotkey, ParseHotkeyError>(ParseHotkeyError::KeyNotEnough)
            <==> s.to_multiset().count('+') == 0,
        Hotkey::spec_from_str(s) == Err::<Hotkey, ParseHotkeyError>(ParseHotkeyError::TooManyKey)
            <==> s.to_multiset().count('+') > 2,
        1 <= s.to_multiset().count('+') <= 2 ==> Hotkey::spec_from_str(s) == spec_parse_hotkey(
            split_trimmed(s, '+'),
        ),
{
    lemma_split_count(s, '+');
    lemma_errors_of_tokens(split_trimmed(s, '+'));
}

/// A string is read as a shortcut if and only if it has two or three
/// tokens, of which those before the last name different modifiers and the
/// last is a key.
pub proof fn lemma_from_str_succeeds(s: Seq<char>)
    ensures
        Hotkey::spec_from_str(s) is Ok <==> {
            let tokens = split_trimmed(s, '+');
            &&& 2 <= tokens.len() <= 3
            &&& names_a_set(tokens.drop_last())
            &&& ShortcutKey::spec_from_str(tokens.last()) is Ok
        },
{
    lemma_parse_succeeds(split_trimmed(s, '+'));
}

} // verus!
