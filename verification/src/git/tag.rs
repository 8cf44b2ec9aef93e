//! Tags: the latest one, and a new one.

use vstd::prelude::*;
use vstd::string::*;
use crate::text::texts;
use crate::words::{trim, trim_of};

verus! {

/// The arguments of `git` that fetch the tags of the remote.
pub open spec fn fetch_tags_args() -> Seq<Seq<char>> {
    seq!["fetch"@, "--tags"@]
}

/// The arguments of `git` that fetch the tags of the remote.
pub fn fetch_tags() -> (args: Vec<String>)
    ensures
        texts(args@) == fetch_tags_args(),
{
    let mut args: Vec<String> = Vec::new();
    args.push(String::from_str("fetch"));
    args.push(String::from_str("--tags"));
    args
}

/// The arguments of `git` that name the latest tag that HEAD is reached
/// from.
pub open spec fn describe_args() -> Seq<Seq<char>> {
    seq!["describe"@, "--tags"@, "--abbrev=0"@]
}

/// The arguments of `git` that name the latest tag.
pub fn describe() -> (args: Vec<String>)
    ensures
        texts(args@) == describe_args(),
{
    let mut args: Vec<String> = Vec::new();
    args.push(String::from_str("describe"));
    args.push(String::from_str("--tags"));
    args.push(String::from_str("--abbrev=0"));
    args
}

/// The latest tag from what `git describe` printed: the text without the
/// white space around it, and `0.0.0` where the call failed.
pub open spec fn spec_latest(described: Option<Seq<char>>) -> Seq<char> {
    match described {
        Some(text) => trim_of(text),
        None => trim_of("0.0.0"@),
    }
}

/// The latest tag from what `git describe` printed, or from nothing where
/// the call failed.
pub fn latest(described: Option<&str>) -> (tag: String)
    ensures
        tag@ == spec_latest(
            match described {
                Some(text) => Some(text@),
                None => None,
            },
        ),
{
    match described {
        Some(text) => trim(text),
        None => trim("0.0.0"),
    }
}

/// The arguments of `git` that set a tag on HEAD.
pub open spec fn tag_args(tag: Seq<char>) -> Seq<Seq<char>> {
    seq!["tag"@, tag]
}

/// The arguments of `git` that set a tag on HEAD.
pub fn tag(name: String) -> (args: Vec<String>)
    ensures
        texts(args@) == tag_args(name@),
{
    let mut args: Vec<String> = Vec::new();
    args.push(String::from_str("tag"));
    args.push(name);
    args
}

} // verus!
