//! `git push`.

use vstd::prelude::*;
use vstd::string::*;
use crate::text::texts;

verus! {

/// The arguments of `git` that push to the remote.
pub open spec fn push_args() -> Seq<Seq<char>> {
    seq!["push"@]
}

/// The arguments of `git` that push to the remote.
pub fn push() -> (args: Vec<String>)
    ensures
        texts(args@) == push_args(),
{
    let mut args: Vec<String> = Vec::new();
    args.push(String::from_str("push"));
    args
}

} // verus!
