//! The question whether to push.

use vstd::prelude::*;
use crate::git::status::Status;
use crate::prompt::fast_forward::commits_word;
use crate::text::{chars_of, decimal, push_decimal, push_str, string_of};

verus! {

/// The question for a branch that is `ahead` commits ahead of its remote.
pub open spec fn question_of(ahead: u32) -> Seq<char> {
    "You are ahead by "@ + decimal(ahead as nat) + seq![' '] + commits_word(ahead)
        + ". Do you want to push to the remote?"@
}

/// The question whether to push, for the status of the branch.
pub fn question(status: &Status) -> (s: String)
    ensures
        s@ == question_of(status.commits_ahead),
{
    let mut out = chars_of("You are ahead by ");
    push_decimal(&mut out, status.commits_ahead as u64);
    out.push(' ');
    if status.commits_ahead == 1 {
        push_str(&mut out, "commit");
    } else {
        push_str(&mut out, "commits");
    }
    push_str(&mut out, ". Do you want to push to the remote?");
    string_of(&out)
}

} // verus!
