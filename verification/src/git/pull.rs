//! `git pull`.

use vstd::prelude::*;
use vstd::string::*;
use crate::text::texts;

verus! {

/// The arguments of `git` that pull from the remote where that only moves
/// the branch forward.
pub open spec fn pull_args() -> Seq<Seq<char>> {
    seq!["pull"@, "--ff-only"@]
}

/// The arguments of `git` that pull from the remote.
pub fn pull() -> (args: Vec<String>)
    ensures
        texts(args@) == pull_args(),
{
    let mut args: Vec<String> = Vec::new();
    args.push(String::from_str("pull"));
    args.push(String::from_str("--ff-only"));
    args
}

} // verus!
