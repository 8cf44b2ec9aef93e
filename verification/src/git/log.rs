//! `git log`: the subjects of the commits, each taken apart into its emoji,
//! its scope and its message, and grouped by scope.

use vstd::prelude::*;
use vstd::string::*;
use vstd::pervasive::unreached;
use crate::pattern::{captures, groups_view, regex_captures};
use crate::text::{lines, lines_of, same_text, texts};
use crate::words::{trim, trim_of};

verus! {

/// A commit, as its subject line tells of it.
#[derive(Debug)]
pub struct Commit {
    pub emoji: Option<String>,
    pub scope: Option<String>,
    pub message: String,
}

/// What a commit holds.
pub struct CommitView {
    pub emoji: Option<Seq<char>>,
    pub scope: Option<Seq<char>>,
    pub message: Seq<char>,
}

impl View for Commit {
    type V = CommitView;

    open spec fn view(&self) -> CommitView {
        CommitView {
            emoji: match self.emoji {
                Some(e) => Some(e@),
                None => None,
            },
            scope: match self.scope {
                Some(s) => Some(s@),
                None => None,
            },
            message: self.message@,
        }
    }
}

/// The commits of one scope.
#[derive(Debug)]
pub struct ScopeGroup {
    pub scope: String,
    pub commits: Vec<Commit>,
}

/// What a group holds.
pub struct ScopeGroupView {
    pub scope: Seq<char>,
    pub commits: Seq<CommitView>,
}

impl View for ScopeGroup {
    type V = ScopeGroupView;

    open spec fn view(&self) -> ScopeGroupView {
        ScopeGroupView {
            scope: self.scope@,
            commits: Seq::new(self.commits@.len(), |i: int| self.commits@[i]@),
        }
    }
}

/// What a list of commits holds.
pub open spec fn commits_view(commits: Seq<Commit>) -> Seq<CommitView> {
    Seq::new(commits.len(), |i: int| commits[i]@)
}

/// What a list of groups holds.
pub open spec fn groups_of(groups: Seq<ScopeGroup>) -> Seq<ScopeGroupView> {
    Seq::new(groups.len(), |i: int| groups[i]@)
}

/// The arguments of `git` that print the subject of every commit.
pub open spec fn log_args() -> Seq<Seq<char>> {
    seq!["--no-pager"@, "log"@, "--all"@, "--decorate=short"@, "--pretty=format:%s"@]
}

/// The arguments of `git` that print the subject of every commit.
pub fn log_command() -> (args: Vec<String>)
    ensures
        texts(args@) == log_args(),
{
    let mut args: Vec<String> = Vec::new();
    args.push(String::from_str("--no-pager"));
    args.push(String::from_str("log"));
    args.push(String::from_str("--all"));
    args.push(String::from_str("--decorate=short"));
    args.push(String::from_str("--pretty=format:%s"));
    args
}

/// The arguments of `git` that print the subjects of the commits whose
/// message holds `grep`: those since the tag, or all of them where the tag
/// is `0.0.0`.
pub open spec fn since_args(tag: Seq<char>, grep: Seq<char>) -> Seq<Seq<char>> {
    let all = seq![
        "--no-pager"@,
        "log"@,
        "--grep="@ + grep,
        "--all"@,
        "--decorate=short"@,
        "--pretty=format:%s"@,
    ];
    if tag == "0.0.0"@ {
        all
    } else {
        all.push(tag + "..HEAD"@)
    }
}

/// The arguments of `git` that print the subjects of the commits since a
/// tag whose message holds `grep`.
pub fn since_command(tag: &String, grep: &str) -> (args: Vec<String>)
    ensures
        texts(args@) == since_args(tag@, grep@),
{
    let mut args: Vec<String> = Vec::new();
    args.push(String::from_str("--no-pager"));
    args.push(String::from_str("log"));
    args.push(String::from_str("--grep=").concat(grep));
    args.push(String::from_str("--all"));
    args.push(String::from_str("--decorate=short"));
    args.push(String::from_str("--pretty=format:%s"));
    if !same_text(tag.as_str(), "0.0.0") {
        args.push(tag.clone().concat("..HEAD"));
    }
    args
}

/// The arguments of `git` that print the breaking changes since a tag.
pub fn majors_since(tag: &String) -> (args: Vec<String>)
    ensures
        texts(args@) == since_args(tag@, "semver: major"@),
{
    since_command(tag, "semver: major")
}

/// The arguments of `git` that print the new features since a tag.
pub fn minors_since(tag: &String) -> (args: Vec<String>)
    ensures
        texts(args@) == since_args(tag@, "semver: minor"@),
{
    since_command(tag, "semver: minor")
}

/// The arguments of `git` that print the fixes since a tag.
pub fn patches_since(tag: &String) -> (args: Vec<String>)
    ensures
        texts(args@) == since_args(tag@, "semver: patch"@),
{
    since_command(tag, "semver: patch")
}

/// The pattern of a subject line: an emoji, a scope in brackets before a
/// colon, and a message of words.
pub open spec fn commit_pattern() -> Seq<char> {
    "^([^\\w\\s:()]+)?\\s*(?:\\(?([^\\)]+)\\)?\\s*:)?\\s*([\\s\\w]*)$"@
}

/// The text of a group without the white space around it, where the group
/// took part in the match.
pub open spec fn trimmed_group(groups: Seq<Option<Seq<char>>>, i: int) -> Option<Seq<char>> {
    if 0 <= i < groups.len() {
        match groups[i] {
            Some(text) => Some(trim_of(text)),
            None => None,
        }
    } else {
        None
    }
}

/// The commit that the groups of a match stand for: the first group is the
/// emoji, the second the scope, the third the message, each without the
/// white space around it. Nothing where the third group is missing.
pub open spec fn commit_of_groups(groups: Seq<Option<Seq<char>>>) -> Option<CommitView> {
    match trimmed_group(groups, 3) {
        Some(message) => Some(
            CommitView {
                emoji: trimmed_group(groups, 1),
                scope: trimmed_group(groups, 2),
                message,
            },
        ),
        None => None,
    }
}

/// The commit that a subject line stands for; nothing where the pattern of
/// subject lines does not match it.
pub open spec fn commit_of(subject: Seq<char>) -> Option<CommitView> {
    match regex_captures(commit_pattern(), subject) {
        Some(Some(groups)) => commit_of_groups(groups),
        _ => None,
    }
}

fn group_text(groups: &Vec<Option<String>>, i: usize) -> (r: Option<String>)
    ensures
        match r {
            Some(s) => Some(s@),
            None => None,
        } == trimmed_group(groups_view(*groups), i as int),
{
    if i < groups.len() {
        match &groups[i] {
            Some(text) => Some(trim(text.as_str())),
            None => None,
        }
    } else {
        None
    }
}

impl Commit {
    /// The commit that the groups of a match of the subject pattern stand
    /// for.
    pub fn from_captures(groups: &Vec<Option<String>>) -> (r: Option<Commit>)
        ensures
            match r {
                Some(c) => Some(c@),
                None => None,
            } == commit_of_groups(groups_view(*groups)),
    {
        match group_text(groups, 3) {
            Some(message) => Some(
                Commit { emoji: group_text(groups, 1), scope: group_text(groups, 2), message },
            ),
            None => None,
        }
    }

    /// Takes a subject line apart, where the pattern of subject lines
    /// matches it.
    pub fn parse(subject: &str) -> (r: Option<Commit>)
        ensures
            match r {
                Some(c) => Some(c@),
                None => None,
            } == commit_of(subject@),
    {
        let found = captures(
            "^([^\\w\\s:()]+)?\\s*(?:\\(?([^\\)]+)\\)?\\s*:)?\\s*([\\s\\w]*)$",
            subject,
        );
        match found {
            Ok(Some(groups)) => {
                if Commit::from_captures(&groups).is_some() {
                    Some(Commit::new(subject))
                } else {
                    None
                }
            },
            _ => None,
        }
    }

    /// Takes a subject line apart. The line has to be one that the pattern
    /// of subject lines matches.
    pub fn new(subject: &str) -> (c: Commit)
        requires
            commit_of(subject@) is Some,
        ensures
            Some(c@) == commit_of(subject@),
    {
        let found = captures(
            "^([^\\w\\s:()]+)?\\s*(?:\\(?([^\\)]+)\\)?\\s*:)?\\s*([\\s\\w]*)$",
            subject,
        );
        match found {
            Ok(Some(groups)) => {
                match Commit::from_captures(&groups) {
                    Some(c) => c,
                    None => unreached(),
                }
            },
            _ => unreached(),
        }
    }
}

/// The commits that a list of subject lines stands for, empty lines passed
/// over; nothing where a line is not matched by the pattern of subject
/// lines.
pub open spec fn commits_of(subjects: Seq<Seq<char>>) -> Option<Seq<CommitView>>
    decreases subjects.len(),
{
    if subjects.len() == 0 {
        Some(Seq::empty())
    } else {
        match commits_of(subjects.drop_last()) {
            Some(before) => if subjects.last().len() == 0 {
                Some(before)
            } else {
                match commit_of(subjects.last()) {
                    Some(c) => Some(before.push(c)),
                    None => None,
                }
            },
            None => None,
        }
    }
}

proof fn lemma_commits_fail(subjects: Seq<Seq<char>>, k: int)
    requires
        0 <= k <= subjects.len(),
        commits_of(subjects.take(k)) is None,
    ensures
        commits_of(subjects) is None,
    decreases subjects.len() - k,
{
    if k < subjects.len() {
        assert(subjects.take(k + 1).drop_last() == subjects.take(k));
        lemma_commits_fail(subjects, k + 1);
    } else {
        assert(subjects.take(k) == subjects);
    }
}

/// Reads the commits off what `git log` printed, a subject on every line.
/// Nothing where a subject is not matched by the pattern of subject lines.
pub fn log(output: &str) -> (r: Option<Vec<Commit>>)
    ensures
        match r {
            Some(commits) => Some(commits_view(commits@)),
            None => None,
        } == commits_of(lines_of(output@)),
{
    let rows = lines(output);
    let ghost subjects = lines_of(output@);
    let mut commits: Vec<Commit> = Vec::new();
    let mut i: usize = 0;
    while i < rows.len()
        invariant
            i <= rows.len(),
            texts(rows@) == subjects,
            subjects == lines_of(output@),
            commits_of(subjects.take(i as int)) == Some(commits_view(commits@)),
        decreases rows.len() - i,
    {
        proof {
            assert(subjects.take(i + 1).drop_last() == subjects.take(i as int));
        }
        if rows[i].as_str().unicode_len() > 0 {
            match Commit::parse(rows[i].as_str()) {
                Some(c) => {
                    let ghost before = commits_view(commits@);
                    commits.push(c);
                },
                None => {
                    proof {
                        lemma_commits_fail(subjects, i + 1);
                    }
                    return None;
                },
            }
        }
        i = i + 1;
    }
    proof {
        assert(subjects.take(i as int) == subjects);
    }
    Some(commits)
}

/// The scope that a commit is grouped under: its own, or the empty one.
pub open spec fn scope_of(commit: CommitView) -> Seq<char> {
    match commit.scope {
        Some(s) => s,
        None => Seq::empty(),
    }
}

/// The index of the group of a scope, or the number of groups where there
/// is none.
pub open spec fn group_index(groups: Seq<ScopeGroupView>, scope: Seq<char>) -> int
    decreases groups.len(),
{
    if groups.len() == 0 {
        0
    } else if groups[0].scope == scope {
        0
    } else {
        1 + group_index(groups.drop_first(), scope)
    }
}

/// The groups with one more commit: at the end of the group of its scope, or
/// in a new group behind the others.
pub open spec fn with_commit(groups: Seq<ScopeGroupView>, commit: CommitView) -> Seq<
    ScopeGroupView,
> {
    let i = group_index(groups, scope_of(commit));
    if 0 <= i < groups.len() {
        groups.update(
            i,
            ScopeGroupView { scope: groups[i].scope, commits: groups[i].commits.push(commit) },
        )
    } else {
        groups.push(ScopeGroupView { scope: scope_of(commit), commits: seq![commit] })
    }
}

/// Commits grouped by scope: the groups in the order in which their scopes
/// come first, the commits of a group in their own order.
pub open spec fn grouped(commits: Seq<CommitView>) -> Seq<ScopeGroupView>
    decreases commits.len(),
{
    if commits.len() == 0 {
        Seq::empty()
    } else {
        with_commit(grouped(commits.drop_last()), commits.last())
    }
}

proof fn lemma_group_index(groups: Seq<ScopeGroupView>, scope: Seq<char>, i: int)
    requires
        0 <= i <= groups.len(),
        forall|j: int| 0 <= j < i ==> groups[j].scope != scope,
        i == groups.len() || groups[i].scope == scope,
    ensures
        group_index(groups, scope) == i,
    decreases groups.len(),
{
    if i > 0 {
        let rest = groups.drop_first();
        lemma_group_index(rest, scope, i - 1);
    }
}

/// No scope has two groups, and no group is empty.
pub proof fn lemma_grouped_scopes_distinct(commits: Seq<CommitView>)
    ensures
        forall|i: int, j: int|
            0 <= i < j < grouped(commits).len() ==> grouped(commits)[i].scope != grouped(
                commits,
            )[j].scope,
        forall|i: int| 0 <= i < grouped(commits).len() ==> grouped(commits)[i].commits.len() > 0,
    decreases commits.len(),
{
    if commits.len() > 0 {
        let before = grouped(commits.drop_last());
        let c = commits.last();
        lemma_grouped_scopes_distinct(commits.drop_last());
        lemma_group_index_bounds(before, scope_of(c));
    }
}

proof fn lemma_group_index_bounds(groups: Seq<ScopeGroupView>, scope: Seq<char>)
    ensures
        0 <= group_index(groups, scope) <= groups.len(),
        group_index(groups, scope) < groups.len() ==> groups[group_index(groups, scope)].scope
            == scope,
        forall|j: int| 0 <= j < group_index(groups, scope) ==> groups[j].scope != scope,
    decreases groups.len(),
{
    if groups.len() > 0 && groups[0].scope != scope {
        let rest = groups.drop_first();
        lemma_group_index_bounds(rest, scope);
        assert forall|j: int| 0 <= j < group_index(groups, scope) implies groups[j].scope
            != scope by {
            if j > 0 {
                assert(rest[j - 1] == groups[j]);
            }
        }
    }
}

fn find_group(groups: &Vec<ScopeGroup>, scope: &str) -> (i: usize)
    ensures
        i == group_index(groups_of(groups@), scope@),
        i <= groups.len(),
{
    let mut i: usize = 0;
    while i < groups.len() && !same_text(groups[i].scope.as_str(), scope)
        invariant
            i <= groups.len(),
            forall|j: int| 0 <= j < i ==> groups_of(groups@)[j].scope != scope@,
        decreases groups.len() - i,
    {
        i = i + 1;
    }
    proof {
        lemma_group_index(groups_of(groups@), scope@, i as int);
    }
    i
}

/// Groups commits by scope.
pub fn group(commits: Vec<Commit>) -> (groups: Vec<ScopeGroup>)
    ensures
        groups_of(groups@) == grouped(commits_view(commits@)),
{
    let ghost all = commits_view(commits@);
    let mut groups: Vec<ScopeGroup> = Vec::new();
    for c in it: commits
        invariant
            it.seq() == commits@,
            all == commits_view(commits@),
            groups_of(groups@) == grouped(all.take(it.index() as int)),
    {
        proof {
            assert(all.take(it.index() + 1).drop_last() == all.take(it.index() as int));
        }
        let scope = match &c.scope {
            Some(s) => s.clone(),
            None => String::new(),
        };
        let i = find_group(&groups, scope.as_str());
        if i < groups.len() {
            let mut g = groups.remove(i);
            let ghost old_commits = g@.commits;
            g.commits.push(c);
            assert(g@.commits == old_commits.push(c@));
            groups.insert(i, g);
        } else {
            let mut only: Vec<Commit> = Vec::new();
            only.push(c);
            let g = ScopeGroup { scope, commits: only };
            assert(g@.commits == seq![c@]);
            groups.push(g);
        }
    }
    proof {
        assert(all.take(all.len() as int) == all);
    }
    groups
}

/// Reads the commits off what `git log` printed and groups them by scope.
/// Nothing where a subject is not matched by the pattern of subject lines.
pub fn since(output: &str) -> (r: Option<Vec<ScopeGroup>>)
    ensures
        match r {
            Some(groups) => Some(groups_of(groups@)),
            None => None,
        } == (match commits_of(lines_of(output@)) {
            Some(commits) => Some(grouped(commits)),
            None => None,
        }),
{
    match log(output) {
        Some(commits) => Some(group(commits)),
        None => None,
    }
}

} // verus!
