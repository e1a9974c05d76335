//! Cutting a string into pieces at a separator, and trimming white space.
//!
//! The executable functions work on the characters of the string and give
//! each piece as a span: the index of its first character and the index one
//! past its last.

use crate::text::{
    eq_ignore_ascii_case, is_whitespace, lemma_same_letter, spec_is_blank, spec_is_whitespace,
};
use vstd::multiset::Multiset;
use vstd::prelude::*;

verus! {

/// The pieces of `s` between the occurrences of `sep`, in order. A string
/// with `n` separators has `n + 1` pieces, some of which may be empty.
///
/// Read from the left: a separator closes the last piece and opens an empty
/// one, any other character goes to the end of the last piece.
pub open spec fn split(s: Seq<char>, sep: char) -> Seq<Seq<char>>
    decreases s.len(),
{
    if s.len() == 0 {
        seq![Seq::<char>::empty()]
    } else {
        let pieces = split(s.drop_last(), sep);
        if s.last() == sep {
            pieces.push(Seq::<char>::empty())
        } else {
            pieces.drop_last().push(pieces.last().push(s.last()))
        }
    }
}

/// `s` without the white space at its start.
pub open spec fn trim_start(s: Seq<char>) -> Seq<char>
    decreases s.len(),
{
    if s.len() > 0 && is_whitespace(s.first()) {
        trim_start(s.drop_first())
    } else {
        s
    }
}

/// `s` without the white space at its end.
pub open spec fn trim_end(s: Seq<char>) -> Seq<char>
    decreases s.len(),
{
    if s.len() > 0 && is_whitespace(s.last()) {
        trim_end(s.drop_last())
    } else {
        s
    }
}

/// `s` without the white space at its start and at its end.
pub open spec fn trim(s: Seq<char>) -> Seq<char> {
    trim_end(trim_start(s))
}

/// The pieces of `s` between the occurrences of `sep`, each one trimmed.
pub open spec fn split_trimmed(s: Seq<char>, sep: char) -> Seq<Seq<char>> {
    split(s, sep).map_values(|piece: Seq<char>| trim(piece))
}

/// The spans lie inside `s`, and the `i`th span holds the `i`th piece.
pub open spec fn spans_cut(s: Seq<char>, spans: Seq<(usize, usize)>, pieces: Seq<Seq<char>>) -> bool {
    &&& spans.len() == pieces.len()
    &&& forall|i: int|
        0 <= i < spans.len() ==> {
            &&& (#[trigger] spans[i]).0 <= spans[i].1 <= s.len()
            &&& s.subrange(spans[i].0 as int, spans[i].1 as int) == pieces[i]
        }
}

/// `split` never gives an empty list of pieces.
pub proof fn lemma_split_len(s: Seq<char>, sep: char)
    ensures
        split(s, sep).len() >= 1,
    decreases s.len(),
{
    if s.len() > 0 {
        lemma_split_len(s.drop_last(), sep);
    }
}

/// A string without a separator is its own single piece.
pub proof fn lemma_split_whole(s: Seq<char>, sep: char)
    requires
        !s.contains(sep),
    ensures
        split(s, sep) == seq![s],
    decreases s.len(),
{
    if s.len() > 0 {
        let front = s.drop_last();
        lemma_split_whole(front, sep);
        assert(front.push(s.last()) == s);
    } else {
        assert(s == Seq::<char>::empty());
    }
}

/// The pieces of two strings with a separator between them are the pieces
/// of the first, then the pieces of the second.
pub proof fn lemma_split_concat(a: Seq<char>, b: Seq<char>, sep: char)
    ensures
        split(a + seq![sep] + b, sep) == split(a, sep) + split(b, sep),
    decreases b.len(),
{
    let s = a + seq![sep] + b;
    if b.len() == 0 {
        assert(s.drop_last() == a);
    } else {
        let front = b.drop_last();
        assert(s.drop_last() == a + seq![sep] + front);
        lemma_split_concat(a, front, sep);
        lemma_split_len(front, sep);
    }
}

/// Two strings that differ at most in the case of their letters have pieces
/// that differ at most in the case of their letters, if the separator is no
/// letter.
pub proof fn lemma_split_same_letters(a: Seq<char>, b: Seq<char>, sep: char)
    requires
        eq_ignore_ascii_case(a, b),
        !(('A' <= sep && sep <= 'Z') || ('a' <= sep && sep <= 'z')),
    ensures
        split(a, sep).len() == split(b, sep).len(),
        forall|i: int|
            0 <= i < split(a, sep).len() ==> eq_ignore_ascii_case(
                #[trigger] split(a, sep)[i],
                split(b, sep)[i],
            ),
    decreases a.len(),
{
    if a.len() > 0 {
        lemma_split_same_letters(a.drop_last(), b.drop_last(), sep);
        lemma_split_len(a.drop_last(), sep);
        lemma_split_len(b.drop_last(), sep);
    }
}

/// Trimming keeps two strings the same up to the case of their letters.
pub proof fn lemma_trim_same_letters(a: Seq<char>, b: Seq<char>)
    requires
        eq_ignore_ascii_case(a, b),
    ensures
        eq_ignore_ascii_case(trim(a), trim(b)),
{
    lemma_trim_start_same_letters(a, b);
    lemma_trim_end_same_letters(trim_start(a), trim_start(b));
}

proof fn lemma_trim_start_same_letters(a: Seq<char>, b: Seq<char>)
    requires
        eq_ignore_ascii_case(a, b),
    ensures
        eq_ignore_ascii_case(trim_start(a), trim_start(b)),
    decreases a.len(),
{
    if a.len() > 0 {
        lemma_same_letter(a.first(), b.first());
        if is_whitespace(a.first()) {
            lemma_trim_start_same_letters(a.drop_first(), b.drop_first());
        }
    }
}

proof fn lemma_trim_end_same_letters(a: Seq<char>, b: Seq<char>)
    requires
        eq_ignore_ascii_case(a, b),
    ensures
        eq_ignore_ascii_case(trim_end(a), trim_end(b)),
    decreases a.len(),
{
    if a.len() > 0 {
        lemma_same_letter(a.last(), b.last());
        if is_whitespace(a.last()) {
            lemma_trim_end_same_letters(a.drop_last(), b.drop_last());
        }
    }
}

/// Trimming takes away what is blank on both sides of a core that neither
/// starts nor ends with white space, and nothing else.
pub proof fn lemma_trim_padded(left: Seq<char>, core: Seq<char>, right: Seq<char>)
    requires
        spec_is_blank(left),
        spec_is_blank(right),
        core.len() > 0 ==> !spec_is_whitespace(core.first()) && !spec_is_whitespace(core.last()),
    ensures
        trim(left + core + right) == core,
{
    if core.len() == 0 {
        lemma_trim_start_padded(left + right, core);
    } else {
        assert(left + core + right == left + (core + right));
        lemma_trim_start_padded(left, core + right);
        lemma_trim_end_padded(core, right);
    }
}

proof fn lemma_trim_start_padded(left: Seq<char>, rest: Seq<char>)
    requires
        spec_is_blank(left),
        rest.len() > 0 ==> !spec_is_whitespace(rest.first()),
    ensures
        trim_start(left + rest) == rest,
    decreases left.len(),
{
    if left.len() > 0 {
        assert((left + rest).drop_first() == left.drop_first() + rest);
        lemma_trim_start_padded(left.drop_first(), rest);
    }
}

proof fn lemma_trim_end_padded(rest: Seq<char>, right: Seq<char>)
    requires
        spec_is_blank(right),
        rest.len() > 0 ==> !spec_is_whitespace(rest.last()),
    ensures
        trim_end(rest + right) == rest,
    decreases right.len(),
{
    if right.len() > 0 {
        assert((rest + right).drop_last() == rest + right.drop_last());
        lemma_trim_end_padded(rest, right.drop_last());
    }
}

/// There is one piece more than there are separators.
pub proof fn lemma_split_count(s: Seq<char>, sep: char)
    ensures
        split(s, sep).len() == s.to_multiset().count(sep) + 1,
    decreases s.len(),
{
    broadcast use vstd::multiset::group_multiset_axioms;

    if s.len() == 0 {
        assert(s.to_multiset() =~= Multiset::<char>::empty()) by {
            s.to_multiset_ensures();
        }
    } else {
        let front = s.drop_last();
        lemma_split_count(front, sep);
        lemma_split_len(front, sep);
        assert(s == front.push(s.last()));
        vstd::seq_lib::to_multiset_build(front, s.last());
    }
}

/// What trimming takes away is blank, and what it leaves neither starts nor
/// ends with white space. The result is the white space that stood before
/// the trimmed string and the white space that stood after it.
pub proof fn lemma_trim_is_core(s: Seq<char>) -> (pad: (Seq<char>, Seq<char>))
    ensures
        s == pad.0 + trim(s) + pad.1,
        spec_is_blank(pad.0),
        spec_is_blank(pad.1),
        trim(s).len() > 0 ==> !spec_is_whitespace(trim(s).first()) && !spec_is_whitespace(
            trim(s).last(),
        ),
{
    let left = lemma_trim_start_is_suffix(s);
    let right = lemma_trim_end_is_prefix(trim_start(s));
    (left, right)
}

proof fn lemma_trim_start_is_suffix(s: Seq<char>) -> (left: Seq<char>)
    ensures
        s == left + trim_start(s),
        spec_is_blank(left),
        trim_start(s).len() > 0 ==> !spec_is_whitespace(trim_start(s).first()),
    decreases s.len(),
{
    if s.len() > 0 && is_whitespace(s.first()) {
        let rest = lemma_trim_start_is_suffix(s.drop_first());
        let left = seq![s.first()] + rest;
        assert(s == seq![s.first()] + s.drop_first());
        left
    } else {
        Seq::<char>::empty()
    }
}

proof fn lemma_trim_end_is_prefix(s: Seq<char>) -> (right: Seq<char>)
    ensures
        s == trim_end(s) + right,
        spec_is_blank(right),
        trim_end(s).len() > 0 ==> !spec_is_whitespace(trim_end(s).last()) && trim_end(s).first()
            == s.first(),
    decreases s.len(),
{
    if s.len() > 0 && is_whitespace(s.last()) {
        let rest = lemma_trim_end_is_prefix(s.drop_last());
        let right = rest + seq![s.last()];
        assert(s == s.drop_last() + seq![s.last()]);
        right
    } else {
        Seq::<char>::empty()
    }
}

/// Trimming leaves nothing if and only if the string is blank.
pub proof fn lemma_trim_blank(s: Seq<char>)
    ensures
        trim(s).len() == 0 <==> spec_is_blank(s),
{
    if spec_is_blank(s) {
        lemma_trim_padded(s, Seq::<char>::empty(), Seq::<char>::empty());
        assert(s + Seq::<char>::empty() + Seq::<char>::empty() == s);
    }
    if trim(s).len() == 0 {
        let pad = lemma_trim_is_core(s);
        assert(s == pad.0 + pad.1);
    }
}

/// The spans of the pieces of `chars` between the occurrences of `sep`.
pub fn split_spans(chars: &Vec<char>, sep: char) -> (spans: Vec<(usize, usize)>)
    ensures
        spans_cut(chars@, spans@, split(chars@, sep)),
{
    let mut spans: Vec<(usize, usize)> = Vec::new();
    let mut start: usize = 0;
    let mut i: usize = 0;
    while i < chars.len()
        invariant
            start <= i <= chars.len(),
            split(chars@.take(i as int), sep).len() == spans@.len() + 1,
            spans_cut(chars@, spans@, split(chars@.take(i as int), sep).drop_last()),
            split(chars@.take(i as int), sep).last() == chars@.subrange(start as int, i as int),
        decreases chars.len() - i,
    {
        assert(chars@.take(i + 1).drop_last() == chars@.take(i as int));
        if chars[i] == sep {
            spans.push((start, i));
            start = i + 1;
        }
        i += 1;
    }
    assert(chars@.take(i as int) == chars@);
    spans.push((start, i));
    spans
}

/// The span of what is left of `chars[start..end]` when the white space at
/// both of its ends is taken away.
pub fn trim_span(chars: &Vec<char>, start: usize, end: usize) -> (span: (usize, usize))
    requires
        start <= end <= chars.len(),
    ensures
        start <= span.0 <= span.1 <= end,
        chars@.subrange(span.0 as int, span.1 as int) == trim(
            chars@.subrange(start as int, end as int),
        ),
{
    let mut first: usize = start;
    while first < end && is_whitespace(chars[first])
        invariant
            start <= first <= end <= chars.len(),
            trim_start(chars@.subrange(start as int, end as int)) == trim_start(
                chars@.subrange(first as int, end as int),
            ),
        decreases end - first,
    {
        assert(chars@.subrange(first as int, end as int).drop_first() == chars@.subrange(
            first + 1,
            end as int,
        ));
        first += 1;
    }
    let mut last: usize = end;
    while last > first && is_whitespace(chars[last - 1])
        invariant
            first <= last <= end <= chars.len(),
            trim_end(chars@.subrange(first as int, end as int)) == trim_end(
                chars@.subrange(first as int, last as int),
            ),
        decreases last - first,
    {
        assert(chars@.subrange(first as int, last as int).drop_last() == chars@.subrange(
            first as int,
            last - 1,
        ));
        last -= 1;
    }
    (first, last)
}

} // verus!
