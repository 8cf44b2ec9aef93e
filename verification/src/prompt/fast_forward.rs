//! The question whether to pull.

use vstd::prelude::*;
use crate::git::status::Status;
use crate::text::{chars_of, decimal, push_decimal, push_str, string_of};

verus! {

/// The word for a number of commits.
pub open spec fn commits_word(n: u32) -> Seq<char> {
    if n == 1 {
        "commit"@
    } else {
        "commits"@
    }
}

/// The question for a branch that is `behind` commits behind its remote.
pub open spec fn question_of(behind: u32) -> Seq<char> {
    "You are behind by "@ + decimal(behind as nat) + seq![' '] + commits_word(behind)
        + ". Do you want to pull from the remote?"@
}

/// The question whether to pull, for the status of the branch.
pub fn question(status: &Status) -> (s: String)
    ensures
        s@ == question_of(status.commits_behind),
{
    let mut out = chars_of("You are behind by ");
    push_decimal(&mut out, status.commits_behind as u64);
    out.push(' ');
    if status.commits_behind == 1 {
        push_str(&mut out, "commit");
    } else {
        push_str(&mut out, "commits");
    }
    push_str(&mut out, ". Do you want to pull from the remote?");
    string_of(&out)
}

} // verus!
