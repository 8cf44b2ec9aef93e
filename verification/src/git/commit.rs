//! `git commit`.

use vstd::prelude::*;
use vstd::string::*;
use crate::text::texts;

verus! {

/// The arguments of `git` that commit the staged changes with a message.
pub open spec fn commit_args(message: Seq<char>) -> Seq<Seq<char>> {
    seq!["commit"@, "-m"@, message]
}

/// The arguments of `git` that commit the staged changes with a message.
pub fn commit(message: String) -> (args: Vec<String>)
    ensures
        texts(args@) == commit_args(message@),
{
    let mut args: Vec<String> = Vec::new();
    args.push(String::from_str("commit"));
    args.push(String::from_str("-m"));
    args.push(message);
    args
}

} // verus!
