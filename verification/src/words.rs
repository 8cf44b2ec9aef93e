//! White space and words: trimming a text, taking its words apart, and
//! finding one text in another.

use vstd::prelude::*;
use crate::text::{chars_of, string_of_range};

verus! {

/// The characters that count as white space: those that Unicode marks as
/// `White_Space`.
pub open spec fn is_space(c: char) -> bool {
    ||| c == ' '
    ||| '\u{9}' <= c <= '\u{d}'
    ||| c == '\u{85}'
    ||| c == '\u{a0}'
    ||| c == '\u{1680}'
    ||| '\u{2000}' <= c <= '\u{200a}'
    ||| c == '\u{2028}'
    ||| c == '\u{2029}'
    ||| c == '\u{202f}'
    ||| c == '\u{205f}'
    ||| c == '\u{3000}'
}

/// Whether a character counts as white space.
pub fn is_whitespace(c: char) -> (r: bool)
    ensures
        r == is_space(c),
{
    c == ' ' || ('\u{9}' <= c && c <= '\u{d}') || c == '\u{85}' || c == '\u{a0}' || c == '\u{1680}'
        || ('\u{2000}' <= c && c <= '\u{200a}') || c == '\u{2028}' || c == '\u{2029}' || c
        == '\u{202f}' || c == '\u{205f}' || c == '\u{3000}'
}

/// The number of white space characters that `s` starts with.
pub open spec fn leading_spaces(s: Seq<char>) -> int
    decreases s.len(),
{
    if s.len() > 0 && is_space(s[0]) {
        1 + leading_spaces(s.drop_first())
    } else {
        0
    }
}

/// The number of characters that `s` starts with before its first white
/// space.
pub open spec fn leading_word(s: Seq<char>) -> int
    decreases s.len(),
{
    if s.len() > 0 && !is_space(s[0]) {
        1 + leading_word(s.drop_first())
    } else {
        0
    }
}

/// The length of `s` without the white space that it ends with.
pub open spec fn trimmed_end(s: Seq<char>) -> int
    decreases s.len(),
{
    if s.len() > 0 && is_space(s.last()) {
        trimmed_end(s.drop_last())
    } else {
        s.len() as int
    }
}

/// `s` without the white space at its start and at its end.
pub open spec fn trim_of(s: Seq<char>) -> Seq<char> {
    let rest = s.skip(leading_spaces(s));
    rest.take(trimmed_end(rest))
}

/// `leading_spaces` is the place before which all is white space and at
/// which something else stands, or the text ends.
pub proof fn lemma_leading_spaces(s: Seq<char>, k: int)
    requires
        0 <= k <= s.len(),
        forall|j: int| 0 <= j < k ==> is_space(s[j]),
        k == s.len() || !is_space(s[k]),
    ensures
        leading_spaces(s) == k,
    decreases s.len(),
{
    if k > 0 {
        let t = s.drop_first();
        lemma_leading_spaces(t, k - 1);
    }
}

/// `leading_word` is the place before which nothing is white space and at
/// which white space stands, or the text ends.
pub proof fn lemma_leading_word(s: Seq<char>, k: int)
    requires
        0 <= k <= s.len(),
        forall|j: int| 0 <= j < k ==> !is_space(s[j]),
        k == s.len() || is_space(s[k]),
    ensures
        leading_word(s) == k,
    decreases s.len(),
{
    if k > 0 {
        let t = s.drop_first();
        lemma_leading_word(t, k - 1);
    }
}

/// `trimmed_end` is the place behind which all is white space and before
/// which something else stands, or the text starts.
pub proof fn lemma_trimmed_end(s: Seq<char>, k: int)
    requires
        0 <= k <= s.len(),
        forall|j: int| k <= j < s.len() ==> is_space(s[j]),
        k == 0 || !is_space(s[k - 1]),
    ensures
        trimmed_end(s) == k,
    decreases s.len(),
{
    if k < s.len() {
        lemma_trimmed_end(s.drop_last(), k);
    }
}

/// The index of the first character of `v[from..to]` that is no white
/// space, or `to`.
pub fn skip_spaces(v: &Vec<char>, from: usize, to: usize) -> (i: usize)
    requires
        from <= to <= v.len(),
    ensures
        from <= i <= to,
        i - from == leading_spaces(v@.subrange(from as int, to as int)),
{
    let mut i: usize = from;
    while i < to && is_whitespace(v[i])
        invariant
            from <= i <= to <= v.len(),
            forall|j: int| from <= j < i ==> is_space(v@[j]),
        decreases to - i,
    {
        i = i + 1;
    }
    proof {
        lemma_leading_spaces(v@.subrange(from as int, to as int), i - from);
    }
    i
}

/// The index of the first white space of `v[from..to]`, or `to`.
pub fn skip_word(v: &Vec<char>, from: usize, to: usize) -> (i: usize)
    requires
        from <= to <= v.len(),
    ensures
        from <= i <= to,
        i - from == leading_word(v@.subrange(from as int, to as int)),
{
    let mut i: usize = from;
    while i < to && !is_whitespace(v[i])
        invariant
            from <= i <= to <= v.len(),
            forall|j: int| from <= j < i ==> !is_space(v@[j]),
        decreases to - i,
    {
        i = i + 1;
    }
    proof {
        lemma_leading_word(v@.subrange(from as int, to as int), i - from);
    }
    i
}

/// The bounds of `v[from..to]` without the white space at its two ends.
pub fn trim_range(v: &Vec<char>, from: usize, to: usize) -> (r: (usize, usize))
    requires
        from <= to <= v.len(),
    ensures
        from <= r.0 <= r.1 <= to,
        v@.subrange(r.0 as int, r.1 as int) == trim_of(v@.subrange(from as int, to as int)),
{
    let start = skip_spaces(v, from, to);
    let mut end: usize = to;
    while end > start && is_whitespace(v[end - 1])
        invariant
            start <= end <= to <= v.len(),
            forall|j: int| end <= j < to ==> is_space(v@[j]),
        decreases end,
    {
        end = end - 1;
    }
    proof {
        let s = v@.subrange(from as int, to as int);
        let rest = s.skip(start - from);
        lemma_trimmed_end(rest, end - start);
    }
    (start, end)
}

/// `s` without the white space at its start and at its end.
pub fn trim(s: &str) -> (t: String)
    ensures
        t@ == trim_of(s@),
{
    let v = chars_of(s);
    let (a, b) = trim_range(&v, 0, v.len());
    proof {
        assert(v@.subrange(0, v.len() as int) == v@);
    }
    string_of_range(&v, a, b)
}

/// The first word of `s`: what stands between the white space at its start
/// and the next white space. Empty where `s` holds no word.
pub open spec fn first_word_of(s: Seq<char>) -> Seq<char> {
    let rest = s.skip(leading_spaces(s));
    rest.take(leading_word(rest))
}

/// What follows the first word of `s`.
pub open spec fn after_first_word(s: Seq<char>) -> Seq<char> {
    let rest = s.skip(leading_spaces(s));
    rest.skip(leading_word(rest))
}

/// The second word of `s`; empty where `s` holds fewer than two words.
pub open spec fn second_word_of(s: Seq<char>) -> Seq<char> {
    first_word_of(after_first_word(s))
}

/// The bounds of the first word of `v[from..]`.
pub fn next_word(v: &Vec<char>, from: usize) -> (r: (usize, usize))
    requires
        from <= v.len(),
    ensures
        from <= r.0 <= r.1 <= v.len(),
        v@.subrange(r.0 as int, r.1 as int) == first_word_of(v@.skip(from as int)),
        v@.skip(r.1 as int) == after_first_word(v@.skip(from as int)),
{
    let start = skip_spaces(v, from, v.len());
    let end = skip_word(v, start, v.len());
    proof {
        let s = v@.skip(from as int);
        let rest = s.skip(start - from);
        assert(rest == v@.subrange(start as int, v.len() as int));
    }
    (start, end)
}

/// Whether `needle` stands in `hay` at index `i`.
pub open spec fn occurs_at(hay: Seq<char>, needle: Seq<char>, i: int) -> bool {
    0 <= i && i + needle.len() <= hay.len() && hay.subrange(i, i + needle.len()) == needle
}

/// Whether `needle` stands anywhere in `hay`. The empty text stands in every
/// text.
pub open spec fn contains_text(hay: Seq<char>, needle: Seq<char>) -> bool {
    exists|i: int| occurs_at(hay, needle, i)
}

fn matches_at(hay: &Vec<char>, needle: &Vec<char>, i: usize) -> (r: bool)
    requires
        i + needle.len() <= hay.len(),
    ensures
        r == occurs_at(hay@, needle@, i as int),
{
    let mut j: usize = 0;
    while j < needle.len()
        invariant
            j <= needle.len(),
            i + needle.len() <= hay.len(),
            forall|k: int| 0 <= k < j ==> hay@[i + k] == needle@[k],
        decreases needle.len() - j,
    {
        if hay[i + j] != needle[j] {
            return false;
        }
        j = j + 1;
    }
    assert(hay@.subrange(i as int, i + needle.len()) =~= needle@);
    true
}

/// Whether `needle` stands anywhere in `hay`.
pub fn contains(hay: &str, needle: &str) -> (r: bool)
    ensures
        r == contains_text(hay@, needle@),
{
    let h = chars_of(hay);
    let n = chars_of(needle);
    if n.len() > h.len() {
        return false;
    }
    let last = h.len() - n.len();
    let mut i: usize = 0;
    while i < last
        invariant
            i <= last,
            last == h.len() - n.len(),
            h@ == hay@,
            n@ == needle@,
            forall|k: int| 0 <= k < i ==> !occurs_at(h@, n@, k),
        decreases last - i,
    {
        if matches_at(&h, &n, i) {
            return true;
        }
        i = i + 1;
    }
    matches_at(&h, &n, last)
}

/// A text in lower case, as Unicode maps it.
pub uninterp spec fn lowercase_of(text: Seq<char>) -> Seq<char>;

/// `str::to_lowercase`.
#[verifier::external_body]
pub(crate) fn to_lowercase(text: &str) -> (s: String)
    ensures
        s@ == lowercase_of(text@),
{
    text.to_lowercase()
}

/// The first character of what a character is in upper case, as Unicode
/// maps it.
pub uninterp spec fn uppercase_head(c: char) -> Option<char>;

/// `char::to_uppercase` and the first character that it yields.
#[verifier::external_body]
pub(crate) fn upper_head(c: char) -> (r: Option<char>)
    ensures
        r == uppercase_head(c),
{
    c.to_uppercase().next()
}

} // verus!
