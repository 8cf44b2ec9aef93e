//! `git status`: how far the branch is ahead of its remote and behind it.

use vstd::prelude::*;
use vstd::string::*;
use crate::error::Failure;
use crate::pattern::{captures, groups_view, regex_captures};
use crate::text::{chars_of, texts};

verus! {

/// The branch against its remote.
#[derive(Debug)]
pub struct Status {
    pub commits_behind: u32,
    pub commits_ahead: u32,
    pub message: String,
}

/// What a status holds.
pub struct StatusView {
    pub commits_behind: u32,
    pub commits_ahead: u32,
    pub message: Seq<char>,
}

impl View for Status {
    type V = StatusView;

    open spec fn view(&self) -> StatusView {
        StatusView {
            commits_behind: self.commits_behind,
            commits_ahead: self.commits_ahead,
            message: self.message@,
        }
    }
}

/// The arguments of `git` that bring the remote branches up to date.
pub open spec fn remote_update_args() -> Seq<Seq<char>> {
    seq!["remote"@, "update"@]
}

/// The arguments of `git` that bring the remote branches up to date.
pub fn remote_update() -> (args: Vec<String>)
    ensures
        texts(args@) == remote_update_args(),
{
    let mut args: Vec<String> = Vec::new();
    args.push(String::from_str("remote"));
    args.push(String::from_str("update"));
    args
}

/// The arguments of `git` that print the short status with the branch line.
pub open spec fn status_args() -> Seq<Seq<char>> {
    seq!["--no-pager"@, "status"@, "-s"@, "-b"@, "--porcelain"@]
}

/// The arguments of `git` that print the short status with the branch line.
pub fn status_command() -> (args: Vec<String>)
    ensures
        texts(args@) == status_args(),
{
    let mut args: Vec<String> = Vec::new();
    args.push(String::from_str("--no-pager"));
    args.push(String::from_str("status"));
    args.push(String::from_str("-s"));
    args.push(String::from_str("-b"));
    args.push(String::from_str("--porcelain"));
    args
}

/// The pattern of the branch line: the branch, and in brackets how many
/// commits it is ahead and behind.
pub open spec fn status_pattern() -> Seq<char> {
    "## (.+?)(?:\\.{3})?(?:\\s\\[(?:ahead (\\d+))?(?:, )?(?:behind (\\d+))?\\])?$"@
}

/// The value of a decimal digit, where the character is one.
pub open spec fn digit_value(c: char) -> Option<nat> {
    if c == '0' {
        Some(0)
    } else if c == '1' {
        Some(1)
    } else if c == '2' {
        Some(2)
    } else if c == '3' {
        Some(3)
    } else if c == '4' {
        Some(4)
    } else if c == '5' {
        Some(5)
    } else if c == '6' {
        Some(6)
    } else if c == '7' {
        Some(7)
    } else if c == '8' {
        Some(8)
    } else if c == '9' {
        Some(9)
    } else {
        None
    }
}

/// The number that a text of decimal digits stands for; nothing where a
/// character is no digit. The empty text stands for zero.
pub open spec fn number_of(digits: Seq<char>) -> Option<nat>
    decreases digits.len(),
{
    if digits.len() == 0 {
        Some(0)
    } else {
        match (number_of(digits.drop_last()), digit_value(digits.last())) {
            (Some(n), Some(d)) => Some(n * 10 + d),
            _ => None,
        }
    }
}

/// The count that a text stands for: the number of its digits, where it has
/// any, all its characters are digits and the number fits.
pub open spec fn count_of(digits: Seq<char>) -> Option<u32> {
    match number_of(digits) {
        Some(n) => if digits.len() > 0 && n <= u32::MAX {
            Some(n as u32)
        } else {
            None
        },
        None => None,
    }
}

proof fn lemma_number_grows(digits: Seq<char>, k: int)
    requires
        0 <= k <= digits.len(),
        number_of(digits) is Some,
    ensures
        number_of(digits.take(k)) is Some,
        number_of(digits.take(k))->0 <= number_of(digits)->0,
    decreases digits.len() - k,
{
    if k < digits.len() {
        lemma_number_grows(digits, k + 1);
        assert(digits.take(k + 1).drop_last() == digits.take(k));
    } else {
        assert(digits.take(k) == digits);
    }
}

proof fn lemma_number_fails(digits: Seq<char>, k: int)
    requires
        0 <= k <= digits.len(),
        number_of(digits.take(k)) is None,
    ensures
        number_of(digits) is None,
    decreases digits.len() - k,
{
    if k < digits.len() {
        assert(digits.take(k + 1).drop_last() == digits.take(k));
        lemma_number_fails(digits, k + 1);
    } else {
        assert(digits.take(k) == digits);
    }
}

fn digit_of(c: char) -> (d: Option<u32>)
    ensures
        match d {
            Some(d) => digit_value(c) == Some(d as nat),
            None => digit_value(c) is None,
        },
{
    if c == '0' {
        Some(0)
    } else if c == '1' {
        Some(1)
    } else if c == '2' {
        Some(2)
    } else if c == '3' {
        Some(3)
    } else if c == '4' {
        Some(4)
    } else if c == '5' {
        Some(5)
    } else if c == '6' {
        Some(6)
    } else if c == '7' {
        Some(7)
    } else if c == '8' {
        Some(8)
    } else if c == '9' {
        Some(9)
    } else {
        None
    }
}

/// Reads a count off a text of decimal digits.
pub fn parse_count(digits: &str) -> (r: Option<u32>)
    ensures
        r == count_of(digits@),
{
    let cs = chars_of(digits);
    if cs.len() == 0 {
        return None;
    }
    let mut n: u32 = 0;
    let mut i: usize = 0;
    while i < cs.len()
        invariant
            i <= cs.len(),
            cs@ == digits@,
            number_of(cs@.take(i as int)) == Some(n as nat),
        decreases cs.len() - i,
    {
        proof {
            assert(cs@.take(i + 1).drop_last() == cs@.take(i as int));
        }
        let d = match digit_of(cs[i]) {
            Some(d) => d,
            None => {
                proof {
                    lemma_number_fails(cs@, i + 1);
                }
                return None;
            },
        };
        let next = match n.checked_mul(10) {
            Some(m) => m.checked_add(d),
            None => None,
        };
        n = match next {
            Some(next) => next,
            None => {
                proof {
                    if number_of(cs@) is Some {
                        lemma_number_grows(cs@, i + 1);
                    }
                }
                return None;
            },
        };
        i = i + 1;
    }
    proof {
        assert(cs@.take(i as int) == cs@);
    }
    Some(n)
}

/// The count in a group of a match: zero where the group is missing or took
/// no part in the match, and otherwise the count that its text stands for.
pub open spec fn group_count(groups: Seq<Option<Seq<char>>>, i: int) -> Option<u32> {
    if 0 <= i < groups.len() {
        match groups[i] {
            Some(digits) => count_of(digits),
            None => Some(0),
        }
    } else {
        Some(0)
    }
}

/// The status that the groups of the branch line's match stand for: ahead by
/// the count of the second group and behind by that of the third; both zero
/// where the line did not match. Nothing where a count cannot be read.
pub open spec fn status_of(message: Seq<char>, matched: Option<Seq<Option<Seq<char>>>>) -> Option<
    StatusView,
> {
    match matched {
        Some(groups) => match (group_count(groups, 2), group_count(groups, 3)) {
            (Some(ahead), Some(behind)) => Some(
                StatusView { commits_behind: behind, commits_ahead: ahead, message },
            ),
            _ => None,
        },
        None => Some(StatusView { commits_behind: 0, commits_ahead: 0, message }),
    }
}

fn count_in(groups: &Vec<Option<String>>, i: usize) -> (r: Result<u32, Failure>)
    ensures
        match r {
            Ok(n) => group_count(groups_view(*groups), i as int) == Some(n),
            Err(e) => group_count(groups_view(*groups), i as int) is None && e is Count,
        },
{
    if i < groups.len() {
        match &groups[i] {
            Some(digits) => match parse_count(digits.as_str()) {
                Some(n) => Ok(n),
                None => Err(Failure::Count(digits.clone())),
            },
            None => Ok(0),
        }
    } else {
        Ok(0)
    }
}

impl Status {
    /// The status from the printed text and the groups that the pattern of
    /// the branch line captured in it. A count that cannot be read is a
    /// failure.
    pub fn from_captures(message: String, matched: Option<Vec<Option<String>>>) -> (r: Result<
        Status,
        Failure,
    >)
        ensures
            match r {
                Ok(s) => status_of(
                    message@,
                    match matched {
                        Some(g) => Some(groups_view(g)),
                        None => None,
                    },
                ) == Some(s@),
                Err(e) => e is Count && status_of(
                    message@,
                    match matched {
                        Some(g) => Some(groups_view(g)),
                        None => None,
                    },
                ) is None,
            },
    {
        match matched {
            Some(groups) => {
                let ahead = match count_in(&groups, 2) {
                    Ok(n) => n,
                    Err(e) => {
                        return Err(e);
                    },
                };
                let behind = match count_in(&groups, 3) {
                    Ok(n) => n,
                    Err(e) => {
                        return Err(e);
                    },
                };
                Ok(Status { commits_ahead: ahead, commits_behind: behind, message })
            },
            None => Ok(Status { commits_ahead: 0, commits_behind: 0, message }),
        }
    }
}

/// Reads the status off what `git status` printed.
pub fn status(output: String) -> (r: Result<Status, Failure>)
    ensures
        match regex_captures(status_pattern(), output@) {
            Some(matched) => match r {
                Ok(s) => status_of(output@, matched) == Some(s@),
                Err(e) => e is Count && status_of(output@, matched) is None,
            },
            None => r matches Err(e) && e is Pattern,
        },
{
    let matched = captures(
        "## (.+?)(?:\\.{3})?(?:\\s\\[(?:ahead (\\d+))?(?:, )?(?:behind (\\d+))?\\])?$",
        output.as_str(),
    );
    match matched {
        Ok(matched) => Status::from_captures(output, matched),
        Err(e) => Err(Failure::Pattern(e)),
    }
}

} // verus!
