//! `git diff --name-status`: the changed paths, each with the kind of its
//! change.

use vstd::prelude::*;
use vstd::string::*;
use crate::text::{chars_of, lines, lines_of, string_of_range, texts};
use crate::words::{first_word_of, next_word, second_word_of};

verus! {

/// The kind of a change, as `git` abbreviates it.
#[derive(Clone, Copy, Debug, PartialEq, Eq, Structural)]
pub enum ChangeKind {
    Added,
    Copied,
    Deleted,
    Modified,
    Renamed,
    Changed,
    Unmerged,
    Unknown,
    Broken,
}

/// A changed path.
#[derive(Debug)]
pub struct Change {
    pub kind: ChangeKind,
    pub path: String,
    pub content: String,
}

/// What a change holds.
pub struct ChangeView {
    pub kind: ChangeKind,
    pub path: Seq<char>,
    pub content: Seq<char>,
}

impl View for Change {
    type V = ChangeView;

    open spec fn view(&self) -> ChangeView {
        ChangeView { kind: self.kind, path: self.path@, content: self.content@ }
    }
}

/// The arguments of `git` that list the changed paths: those of the index
/// against HEAD where only staged changes are asked for, and those of the
/// working tree against the index otherwise.
pub open spec fn diff_args(staged_only: bool) -> Seq<Seq<char>> {
    if staged_only {
        seq!["--no-pager"@, "diff"@, "--cached"@, "--name-status"@]
    } else {
        seq!["--no-pager"@, "diff"@, "--name-status"@]
    }
}

/// The arguments of `git` that list the changed paths.
pub fn diff_command(staged_only: bool) -> (args: Vec<String>)
    ensures
        texts(args@) == diff_args(staged_only),
{
    let mut args: Vec<String> = Vec::new();
    args.push(String::from_str("--no-pager"));
    args.push(String::from_str("diff"));
    if staged_only {
        args.push(String::from_str("--cached"));
    }
    args.push(String::from_str("--name-status"));
    args
}

/// The letter of a kind.
pub open spec fn kind_letter(kind: ChangeKind) -> char {
    match kind {
        ChangeKind::Added => 'A',
        ChangeKind::Copied => 'C',
        ChangeKind::Deleted => 'D',
        ChangeKind::Modified => 'M',
        ChangeKind::Renamed => 'R',
        ChangeKind::Changed => 'T',
        ChangeKind::Unmerged => 'U',
        ChangeKind::Unknown => 'X',
        ChangeKind::Broken => 'B',
    }
}

/// The kind that a word stands for: the kind whose letter the word is, and
/// `Unknown` for every other word.
pub open spec fn kind_of(word: Seq<char>) -> ChangeKind {
    if word.len() != 1 {
        ChangeKind::Unknown
    } else if word[0] == 'A' {
        ChangeKind::Added
    } else if word[0] == 'C' {
        ChangeKind::Copied
    } else if word[0] == 'D' {
        ChangeKind::Deleted
    } else if word[0] == 'M' {
        ChangeKind::Modified
    } else if word[0] == 'R' {
        ChangeKind::Renamed
    } else if word[0] == 'T' {
        ChangeKind::Changed
    } else if word[0] == 'U' {
        ChangeKind::Unmerged
    } else if word[0] == 'B' {
        ChangeKind::Broken
    } else {
        ChangeKind::Unknown
    }
}

/// The change that a line stands for: its first word is the kind, its second
/// word the path; the content is left empty.
pub open spec fn change_of(line: Seq<char>) -> ChangeView {
    ChangeView {
        kind: kind_of(first_word_of(line)),
        path: second_word_of(line),
        content: Seq::empty(),
    }
}

/// The changes that an output stands for, one for each line.
pub open spec fn changes_of(output: Seq<char>) -> Seq<ChangeView> {
    Seq::new(lines_of(output).len(), |i: int| change_of(lines_of(output)[i]))
}

impl ChangeKind {
    /// The letter of the kind.
    pub fn to_string(&self) -> (s: String)
        ensures
            s@ == seq![kind_letter(*self)],
    {
        let mut s = String::new();
        s.push(
            match self {
                ChangeKind::Added => 'A',
                ChangeKind::Copied => 'C',
                ChangeKind::Deleted => 'D',
                ChangeKind::Modified => 'M',
                ChangeKind::Renamed => 'R',
                ChangeKind::Changed => 'T',
                ChangeKind::Unmerged => 'U',
                ChangeKind::Unknown => 'X',
                ChangeKind::Broken => 'B',
            },
        );
        s
    }
}

/// Reads a change off a line.
pub fn parse_change(line: &str) -> (c: Change)
    ensures
        c@ == change_of(line@),
{
    let cs = chars_of(line);
    let (a, b) = next_word(&cs, 0);
    let (c, d) = next_word(&cs, b);
    proof {
        assert(cs@.skip(0) == cs@);
    }
    let kind = if b - a != 1 {
        ChangeKind::Unknown
    } else if cs[a] == 'A' {
        ChangeKind::Added
    } else if cs[a] == 'C' {
        ChangeKind::Copied
    } else if cs[a] == 'D' {
        ChangeKind::Deleted
    } else if cs[a] == 'M' {
        ChangeKind::Modified
    } else if cs[a] == 'R' {
        ChangeKind::Renamed
    } else if cs[a] == 'T' {
        ChangeKind::Changed
    } else if cs[a] == 'U' {
        ChangeKind::Unmerged
    } else if cs[a] == 'B' {
        ChangeKind::Broken
    } else {
        ChangeKind::Unknown
    };
    Change { kind, path: string_of_range(&cs, c, d), content: String::new() }
}

/// Reads the changes off what `git diff --name-status` printed.
pub fn diff(output: &str) -> (changes: Vec<Change>)
    ensures
        Seq::new(changes@.len(), |i: int| changes@[i]@) == changes_of(output@),
{
    let rows = lines(output);
    let mut changes: Vec<Change> = Vec::new();
    let mut i: usize = 0;
    while i < rows.len()
        invariant
            i <= rows.len(),
            texts(rows@) == lines_of(output@),
            changes@.len() == i,
            forall|j: int| 0 <= j < i ==> (#[trigger] changes@[j])@ == change_of(rows@[j]@),
        decreases rows.len() - i,
    {
        changes.push(parse_change(rows[i].as_str()));
        i = i + 1;
    }
    changes
}

} // verus!
