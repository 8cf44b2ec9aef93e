//! Regular expressions, as the `regex` crate matches them.

use vstd::prelude::*;

verus! {

/// What a pattern captures in a text: nothing at all where the pattern
/// cannot be compiled, nothing where it does not match, and otherwise the
/// text of every group of its first match, the whole match first; a group
/// that took no part in the match holds nothing.
pub uninterp spec fn regex_captures(pattern: Seq<char>, text: Seq<char>) -> Option<
    Option<Seq<Option<Seq<char>>>>,
>;

/// The text with the first match of the pattern replaced by the replacement,
/// taken letter for letter; the text itself where the pattern does not match,
/// and nothing where the pattern cannot be compiled.
pub uninterp spec fn regex_replaced(
    pattern: Seq<char>,
    text: Seq<char>,
    replacement: Seq<char>,
) -> Option<Seq<char>>;

/// The groups of a match as what they hold.
pub open spec fn groups_view(groups: Vec<Option<String>>) -> Seq<Option<Seq<char>>> {
    Seq::new(
        groups@.len(),
        |i: int|
            match groups@[i] {
                Some(s) => Some(s@),
                None => None,
            },
    )
}

/// What a call of `captures` handed back, as what it holds.
pub open spec fn captured_view(r: Result<Option<Vec<Option<String>>>, regex::Error>) -> Option<
    Option<Seq<Option<Seq<char>>>>,
> {
    match r {
        Ok(Some(groups)) => Some(Some(groups_view(groups))),
        Ok(None) => Some(None),
        Err(_) => None,
    }
}

/// `Regex::new` and `Regex::captures`, with the text of every group copied
/// out.
#[verifier::external_body]
pub(crate) fn captures(pattern: &str, text: &str) -> (r: Result<
    Option<Vec<Option<String>>>,
    regex::Error,
>)
    ensures
        captured_view(r) == regex_captures(pattern@, text@),
{
    let re = regex::Regex::new(pattern)?;
    Ok(re.captures(text).map(|c| c.iter().map(|m| m.map(|m| m.as_str().to_string())).collect()))
}

/// `Regex::new` and `Regex::replace` with the replacement wrapped in
/// `NoExpand`.
#[verifier::external_body]
pub(crate) fn replace_first(pattern: &str, text: &str, replacement: &str) -> (r: Result<
    String,
    regex::Error,
>)
    ensures
        match r {
            Ok(s) => Some(s@),
            Err(_) => None,
        } == regex_replaced(pattern@, text@, replacement@),
{
    let re = regex::Regex::new(pattern)?;
    Ok(re.replace(text, regex::NoExpand(replacement)).into_owned())
}

} // verus!
