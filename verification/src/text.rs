//! Characters and character sequences: the ASCII case mappings, the character
//! classes the grammar distinguishes, and the bridge from `&str` to `Vec<char>`.

use vstd::prelude::*;

verus! {

/// An ASCII digit or an ASCII letter of either case.
pub open spec fn spec_is_ascii_alphanumeric(c: char) -> bool {
    ||| '0' <= c && c <= '9'
    ||| 'A' <= c && c <= 'Z'
    ||| 'a' <= c && c <= 'z'
}

/// `A`..`Z` are sent to `a`..`z`; every other character stays as it is.
pub open spec fn spec_to_ascii_lowercase(c: char) -> char {
    if 'A' <= c && c <= 'Z' {
        ((c as u8) + 32) as char
    } else {
        c
    }
}

/// `a`..`z` are sent to `A`..`Z`; every other character stays as it is.
pub open spec fn spec_to_ascii_uppercase(c: char) -> char {
    if 'a' <= c && c <= 'z' {
        ((c as u8) - 32) as char
    } else {
        c
    }
}

/// The characters with the Unicode property `White_Space`.
pub open spec fn spec_is_whitespace(c: char) -> bool {
    ||| '\u{0009}' <= c && c <= '\u{000D}'
    ||| c == '\u{0020}'
    ||| c == '\u{0085}'
    ||| c == '\u{00A0}'
    ||| c == '\u{1680}'
    ||| '\u{2000}' <= c && c <= '\u{200A}'
    ||| c == '\u{2028}'
    ||| c == '\u{2029}'
    ||| c == '\u{202F}'
    ||| c == '\u{205F}'
    ||| c == '\u{3000}'
}

/// `s` with every character sent through [`spec_to_ascii_lowercase`].
pub open spec fn lowercase(s: Seq<char>) -> Seq<char> {
    s.map_values(|c: char| spec_to_ascii_lowercase(c))
}

/// `s` with every character sent through [`spec_to_ascii_uppercase`].
pub open spec fn uppercase(s: Seq<char>) -> Seq<char> {
    s.map_values(|c: char| spec_to_ascii_uppercase(c))
}

/// `a` and `b` differ at most in the case of their ASCII letters.
pub open spec fn eq_ignore_ascii_case(a: Seq<char>, b: Seq<char>) -> bool {
    &&& a.len() == b.len()
    &&& forall|i: int|
        #![trigger a[i]]
        #![trigger b[i]]
        0 <= i < a.len() ==> spec_to_ascii_lowercase(a[i]) == spec_to_ascii_lowercase(b[i])
}

/// Every character of `s` is white space; the empty sequence is blank.
pub open spec fn spec_is_blank(s: Seq<char>) -> bool {
    forall|i: int| 0 <= i < s.len() ==> spec_is_whitespace(#[trigger] s[i])
}

/// Whether `c` is an ASCII digit or an ASCII letter.
#[verifier::when_used_as_spec(spec_is_ascii_alphanumeric)]
pub fn is_ascii_alphanumeric(c: char) -> (b: bool)
    ensures
        b == spec_is_ascii_alphanumeric(c),
{
    ('0' <= c && c <= '9') || ('A' <= c && c <= 'Z') || ('a' <= c && c <= 'z')
}

/// `c` in lower case, if it is an ASCII letter, and `c` itself if not.
#[verifier::when_used_as_spec(spec_to_ascii_lowercase)]
pub fn to_ascii_lowercase(c: char) -> (r: char)
    ensures
        r == spec_to_ascii_lowercase(c),
{
    if 'A' <= c && c <= 'Z' {
        ((c as u8) + 32) as char
    } else {
        c
    }
}

/// `c` in upper case, if it is an ASCII letter, and `c` itself if not.
#[verifier::when_used_as_spec(spec_to_ascii_uppercase)]
pub fn to_ascii_uppercase(c: char) -> (r: char)
    ensures
        r == spec_to_ascii_uppercase(c),
{
    if 'a' <= c && c <= 'z' {
        ((c as u8) - 32) as char
    } else {
        c
    }
}

/// Whether `c` is white space.
#[verifier::when_used_as_spec(spec_is_whitespace)]
pub fn is_whitespace(c: char) -> (b: bool)
    ensures
        b == spec_is_whitespace(c),
{
    ('\u{0009}' <= c && c <= '\u{000D}') || c == '\u{0020}' || c == '\u{0085}' || c == '\u{00A0}'
        || c == '\u{1680}' || ('\u{2000}' <= c && c <= '\u{200A}') || c == '\u{2028}'
        || c == '\u{2029}' || c == '\u{202F}' || c == '\u{205F}' || c == '\u{3000}'
}

/// The characters of `s`, in order.
pub fn chars_of(s: &str) -> (chars: Vec<char>)
    ensures
        chars@ == s@,
{
    let mut chars: Vec<char> = Vec::new();
    for c in it: s.chars()
        invariant
            chars@ == it.seq().take(it.index()),
    {
        chars.push(c);
    }
    chars
}

/// The characters of `s`, each in ASCII lower case.
pub fn lowercase_of(s: &str) -> (chars: Vec<char>)
    ensures
        chars@ == lowercase(s@),
{
    let mut chars: Vec<char> = Vec::new();
    for c in it: s.chars()
        invariant
            chars@ == lowercase(it.seq().take(it.index())),
    {
        chars.push(to_ascii_lowercase(c));
    }
    chars
}

/// The characters of `s`, each in ASCII upper case.
pub fn uppercase_of(s: &str) -> (chars: Vec<char>)
    ensures
        chars@ == uppercase(s@),
{
    let mut chars: Vec<char> = Vec::new();
    for c in it: s.chars()
        invariant
            chars@ == uppercase(it.seq().take(it.index())),
    {
        chars.push(to_ascii_uppercase(c));
    }
    chars
}

/// Whether `s` is empty or made of white space alone.
pub fn is_blank(s: &str) -> (b: bool)
    ensures
        b == spec_is_blank(s@),
{
    for c in it: s.chars()
        invariant
            it.seq() == s@,
            spec_is_blank(s@.take(it.index())),
    {
        if !is_whitespace(c) {
            return false;
        }
    }
    assert(s@.take(s@.len() as int) == s@);
    true
}

/// Whether `chars` holds exactly the characters of `word`.
pub fn spells(chars: &Vec<char>, word: &str) -> (b: bool)
    ensures
        b == (chars@ == word@),
{
    let mut i: usize = 0;
    for c in it: word.chars()
        invariant
            i == it.index(),
            i <= chars.len(),
            it.seq() == word@,
            chars@.take(i as int) == word@.take(i as int),
    {
        if i >= chars.len() || chars[i] != c {
            return false;
        }
        i += 1;
    }
    assert(word@.take(i as int) == word@);
    assert(i == chars.len() ==> chars@.take(i as int) == chars@);
    i == chars.len()
}

/// Two characters that are the same up to the case of an ASCII letter are
/// the same in upper case too, and belong to the same classes.
pub proof fn lemma_same_letter(x: char, y: char)
    requires
        spec_to_ascii_lowercase(x) == spec_to_ascii_lowercase(y),
    ensures
        spec_to_ascii_uppercase(x) == spec_to_ascii_uppercase(y),
        spec_is_whitespace(x) == spec_is_whitespace(y),
        spec_is_ascii_alphanumeric(x) == spec_is_ascii_alphanumeric(y),
        !spec_is_ascii_alphanumeric(x) ==> x == y,
{
}

/// Two sequences that differ at most in the case of their letters are the
/// same in lower case and the same in upper case, and one is blank if the
/// other is.
pub proof fn lemma_same_letters(a: Seq<char>, b: Seq<char>)
    requires
        eq_ignore_ascii_case(a, b),
    ensures
        lowercase(a) == lowercase(b),
        uppercase(a) == uppercase(b),
        spec_is_blank(a) == spec_is_blank(b),
{
    assert forall|i: int| 0 <= i < a.len() implies #[trigger] uppercase(a)[i] == uppercase(b)[i] by {
        lemma_same_letter(a[i], b[i]);
    }
    assert forall|i: int| 0 <= i < a.len() implies spec_is_whitespace(a[i]) == spec_is_whitespace(
        #[trigger] b[i],
    ) by {
        lemma_same_letter(a[i], b[i]);
    }
}

/// Two sequences that are the same in lower case differ at most in the case
/// of their letters.
pub proof fn lemma_same_lowercase(a: Seq<char>, b: Seq<char>)
    requires
        lowercase(a) == lowercase(b),
    ensures
        eq_ignore_ascii_case(a, b),
{
    assert(lowercase(b).len() == b.len());
    assert forall|i: int| 0 <= i < a.len() implies spec_to_ascii_lowercase(a[i])
        == spec_to_ascii_lowercase(b[i]) by {
        assert(lowercase(b)[i] == spec_to_ascii_lowercase(b[i]));
    }
}

} // verus!
