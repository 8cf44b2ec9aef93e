//! The next version and the changelog, from the latest tag and the commits
//! since it.

use vstd::prelude::*;
use vstd::string::*;
use crate::error::Failure;
use crate::git::log::{groups_of, Commit, CommitView, ScopeGroup, ScopeGroupView};
use crate::text::{chars_of, push_str, string_of};
use crate::version::{parse_version, parsed_version, plain_version, Version, VersionView};
use crate::words::{upper_head, uppercase_head};

verus! {

/// How often `c` stands in `s`.
pub open spec fn count_of_char(s: Seq<char>, c: char) -> nat
    decreases s.len(),
{
    if s.len() == 0 {
        0
    } else {
        count_of_char(s.drop_last(), c) + (if s.last() == c {
            1nat
        } else {
            0nat
        })
    }
}

/// `s` without every `c`.
pub open spec fn without_char(s: Seq<char>, c: char) -> Seq<char>
    decreases s.len(),
{
    if s.len() == 0 {
        Seq::empty()
    } else if s.last() == c {
        without_char(s.drop_last(), c)
    } else {
        without_char(s.drop_last(), c).push(s.last())
    }
}

/// A tag made ready to be read as a version: a tag of two parts gets a third
/// part of zero, and every `v` is taken out.
pub open spec fn clean_tag_of(tag: Seq<char>) -> Seq<char> {
    without_char(
        if count_of_char(tag, '.') == 1 {
            tag + ".0"@
        } else {
            tag
        },
        'v',
    )
}

/// Makes a tag ready to be read as a version.
pub fn clean_tag(tag: &str) -> (s: String)
    ensures
        s@ == clean_tag_of(tag@),
{
    let mut cs = chars_of(tag);
    let mut dots: usize = 0;
    let mut i: usize = 0;
    while i < cs.len()
        invariant
            i <= cs.len(),
            dots <= i,
            dots == count_of_char(cs@.take(i as int), '.'),
        decreases cs.len() - i,
    {
        proof {
            assert(cs@.take(i + 1).drop_last() == cs@.take(i as int));
        }
        if cs[i] == '.' {
            dots = dots + 1;
        }
        i = i + 1;
    }
    proof {
        assert(cs@.take(i as int) == cs@);
    }
    if dots == 1 {
        push_str(&mut cs, ".0");
    }
    let mut out: Vec<char> = Vec::new();
    let mut j: usize = 0;
    while j < cs.len()
        invariant
            j <= cs.len(),
            out@ == without_char(cs@.take(j as int), 'v'),
        decreases cs.len() - j,
    {
        proof {
            assert(cs@.take(j + 1).drop_last() == cs@.take(j as int));
        }
        if cs[j] != 'v' {
            out.push(cs[j]);
        }
        j = j + 1;
    }
    proof {
        assert(cs@.take(j as int) == cs@);
    }
    string_of(&out)
}

/// A scope with its first character in upper case.
pub open spec fn capitalized(scope: Seq<char>) -> Seq<char> {
    if scope.len() == 0 {
        scope
    } else {
        seq![
            match uppercase_head(scope[0]) {
                Some(upper) => upper,
                None => scope[0],
            },
        ] + scope.drop_first()
    }
}

/// The line of a commit in the changelog: its emoji, where it has one, and
/// its message.
pub open spec fn commit_line(commit: CommitView) -> Seq<char> {
    "\n- "@ + (match commit.emoji {
        Some(e) => e,
        None => Seq::empty(),
    }) + seq![' '] + commit.message
}

/// The lines of commits, in their order.
pub open spec fn commit_lines(commits: Seq<CommitView>) -> Seq<char>
    decreases commits.len(),
{
    if commits.len() == 0 {
        Seq::empty()
    } else {
        commit_lines(commits.drop_last()) + commit_line(commits.last())
    }
}

/// A group in the changelog: a heading with its scope and the lines of its
/// commits. A group without commits leaves nothing.
pub open spec fn group_text(group: ScopeGroupView) -> Seq<char> {
    if group.commits.len() == 0 {
        Seq::empty()
    } else {
        "\n### "@ + capitalized(group.scope) + commit_lines(group.commits)
    }
}

/// The groups of a section, in their order.
pub open spec fn groups_text(groups: Seq<ScopeGroupView>) -> Seq<char>
    decreases groups.len(),
{
    if groups.len() == 0 {
        Seq::empty()
    } else {
        groups_text(groups.drop_last()) + group_text(groups.last())
    }
}

/// A section of the changelog: its title, its groups and an empty line. A
/// section without groups leaves nothing.
pub open spec fn section_text(title: Seq<char>, groups: Seq<ScopeGroupView>) -> Seq<char> {
    if groups.len() == 0 {
        Seq::empty()
    } else {
        title + groups_text(groups) + "\n\n"@
    }
}

/// The changelog: the breaking changes, the new features and the fixes, each
/// in a section of its own.
pub open spec fn changelog_of(
    majors: Seq<ScopeGroupView>,
    minors: Seq<ScopeGroupView>,
    patches: Seq<ScopeGroupView>,
) -> Seq<char> {
    section_text("## \u{1f6a8} Breaking changes"@, majors) + section_text(
        "## \u{1f680} New features"@,
        minors,
    ) + section_text("## \u{1f41b} Bug fixes"@, patches)
}

fn push_capitalized(out: &mut Vec<char>, scope: &str)
    ensures
        final(out)@ == old(out)@ + capitalized(scope@),
{
    let cs = chars_of(scope);
    if cs.len() == 0 {
        return ;
    }
    let head = match upper_head(cs[0]) {
        Some(upper) => upper,
        None => cs[0],
    };
    out.push(head);
    let mut i: usize = 1;
    while i < cs.len()
        invariant
            1 <= i <= cs.len(),
            out@ == old(out)@ + seq![head] + cs@.subrange(1, i as int),
        decreases cs.len() - i,
    {
        out.push(cs[i]);
        i = i + 1;
    }
}

fn push_commit_line(out: &mut Vec<char>, commit: &Commit)
    ensures
        final(out)@ == old(out)@ + commit_line(commit@),
{
    push_str(out, "\n- ");
    match &commit.emoji {
        Some(e) => {
            push_str(out, e.as_str());
        },
        None => {},
    }
    out.push(' ');
    push_str(out, commit.message.as_str());
}

fn push_group(out: &mut Vec<char>, group: &ScopeGroup)
    ensures
        final(out)@ == old(out)@ + group_text(group@),
{
    if group.commits.len() == 0 {
        return ;
    }
    push_str(out, "\n### ");
    push_capitalized(out, group.scope.as_str());
    let ghost head = out@;
    let mut i: usize = 0;
    while i < group.commits.len()
        invariant
            i <= group.commits.len(),
            out@ == head + commit_lines(group@.commits.take(i as int)),
        decreases group.commits.len() - i,
    {
        push_commit_line(out, &group.commits[i]);
        proof {
            assert(group@.commits.take(i + 1).drop_last() == group@.commits.take(i as int));
        }
        i = i + 1;
    }
    proof {
        assert(group@.commits.take(i as int) == group@.commits);
    }
}

fn push_section(out: &mut Vec<char>, title: &str, groups: &Vec<ScopeGroup>)
    ensures
        final(out)@ == old(out)@ + section_text(title@, groups_of(groups@)),
{
    let ghost views = groups_of(groups@);
    if groups.len() == 0 {
        return ;
    }
    push_str(out, title);
    let ghost head = out@;
    let mut i: usize = 0;
    while i < groups.len()
        invariant
            i <= groups.len(),
            views == groups_of(groups@),
            out@ == head + groups_text(views.take(i as int)),
        decreases groups.len() - i,
    {
        push_group(out, &groups[i]);
        proof {
            assert(views.take(i + 1).drop_last() == views.take(i as int));
        }
        i = i + 1;
    }
    push_str(out, "\n\n");
    proof {
        assert(views.take(i as int) == views);
    }
}

/// Writes the changelog of the commits since the latest tag.
pub fn changelog(
    majors: &Vec<ScopeGroup>,
    minors: &Vec<ScopeGroup>,
    patches: &Vec<ScopeGroup>,
) -> (s: String)
    ensures
        s@ == changelog_of(groups_of(majors@), groups_of(minors@), groups_of(patches@)),
{
    let mut out: Vec<char> = Vec::new();
    push_section(&mut out, "## \u{1f6a8} Breaking changes", majors);
    assert(out@ == section_text("## \u{1f6a8} Breaking changes"@, groups_of(majors@)));
    push_section(&mut out, "## \u{1f680} New features", minors);
    push_section(&mut out, "## \u{1f41b} Bug fixes", patches);
    string_of(&out)
}

/// The version after a release: with breaking changes the major number goes
/// up and the other two go back to zero; else with new features the minor
/// number goes up and the patch number goes back to zero; else with fixes the
/// patch number goes up; pre-release and build metadata are left behind.
/// Nothing where the number that is to go up is the largest there is.
pub open spec fn successor(
    latest: VersionView,
    majors: bool,
    minors: bool,
    patches: bool,
) -> Option<VersionView> {
    if majors {
        if latest.major < u64::MAX {
            Some(plain_version((latest.major + 1) as u64, 0, 0))
        } else {
            None
        }
    } else if minors {
        if latest.minor < u64::MAX {
            Some(plain_version(latest.major, (latest.minor + 1) as u64, 0))
        } else {
            None
        }
    } else if patches {
        if latest.patch < u64::MAX {
            Some(plain_version(latest.major, latest.minor, (latest.patch + 1) as u64))
        } else {
            None
        }
    } else {
        Some(plain_version(latest.major, latest.minor, latest.patch))
    }
}

/// The version to release, where there is one: the successor of the latest
/// version, unless that is the latest version itself.
pub open spec fn new_tag_of(latest: VersionView, successor: VersionView) -> Option<VersionView> {
    if successor == latest {
        None
    } else {
        Some(successor)
    }
}

/// What a release consists of: the new version, where the commits call for
/// one, and the changelog.
#[derive(Debug)]
pub struct Release {
    pub version: Option<Version>,
    pub changelog: String,
}

/// What a release holds.
pub struct ReleaseView {
    pub version: Option<VersionView>,
    pub changelog: Seq<char>,
}

impl View for Release {
    type V = ReleaseView;

    open spec fn view(&self) -> ReleaseView {
        ReleaseView {
            version: match self.version {
                Some(v) => Some(v@),
                None => None,
            },
            changelog: self.changelog@,
        }
    }
}

/// The release that follows the latest version, from the commits since it.
/// Nothing where the number that is to go up has no successor.
pub open spec fn release_of(
    latest: VersionView,
    patches: Seq<ScopeGroupView>,
    minors: Seq<ScopeGroupView>,
    majors: Seq<ScopeGroupView>,
) -> Option<ReleaseView> {
    match successor(latest, majors.len() > 0, minors.len() > 0, patches.len() > 0) {
        Some(next) => Some(
            ReleaseView {
                version: new_tag_of(latest, next),
                changelog: changelog_of(majors, minors, patches),
            },
        ),
        None => None,
    }
}

impl Version {
    /// The version after a release with the given kinds of changes.
    pub fn successor(&self, majors: bool, minors: bool, patches: bool) -> (r: Option<Version>)
        ensures
            match r {
                Some(v) => Some(v@),
                None => None,
            } == successor(self@, majors, minors, patches),
    {
        if majors {
            match self.major.checked_add(1) {
                Some(major) => Some(Version::new(major, 0, 0)),
                None => None,
            }
        } else if minors {
            match self.minor.checked_add(1) {
                Some(minor) => Some(Version::new(self.major, minor, 0)),
                None => None,
            }
        } else if patches {
            match self.patch.checked_add(1) {
                Some(patch) => Some(Version::new(self.major, self.minor, patch)),
                None => None,
            }
        } else {
            Some(Version::new(self.major, self.minor, self.patch))
        }
    }
}

/// The release that follows the latest version. Where the number that is to
/// go up has no successor the failure is `Count`, with the latest version as
/// its text.
pub fn release_from(
    latest: Version,
    patches: &Vec<ScopeGroup>,
    minors: &Vec<ScopeGroup>,
    majors: &Vec<ScopeGroup>,
) -> (r: Result<Release, Failure>)
    ensures
        match r {
            Ok(release) => Some(release@),
            Err(_) => None,
        } == release_of(latest@, groups_of(patches@), groups_of(minors@), groups_of(majors@)),
        r matches Err(e) ==> e is Count,
{
    let log = changelog(majors, minors, patches);
    match latest.successor(majors.len() > 0, minors.len() > 0, patches.len() > 0) {
        Some(next) => {
            let version = if next.same(&latest) {
                None
            } else {
                Some(next)
            };
            Ok(Release { version, changelog: log })
        },
        None => Err(Failure::Count(latest.to_string())),
    }
}

/// The release that follows the latest tag, from the commits since it. A
/// tag that is no version is a failure.
pub fn calculate_new_tag_based_on_commits(
    latest_tag: &str,
    patches: &Vec<ScopeGroup>,
    minors: &Vec<ScopeGroup>,
    majors: &Vec<ScopeGroup>,
) -> (r: Result<Release, Failure>)
    ensures
        match parsed_version(clean_tag_of(latest_tag@)) {
            Some(latest) => (match r {
                Ok(release) => Some(release@),
                Err(_) => None,
            }) == release_of(
                latest,
                groups_of(patches@),
                groups_of(minors@),
                groups_of(majors@),
            ) && (r matches Err(e) ==> e is Count),
            None => r matches Err(e) && e is Version,
        },
{
    let clean = clean_tag(latest_tag);
    match parse_version(clean.as_str()) {
        Ok(latest) => release_from(latest, patches, minors, majors),
        Err(e) => Err(Failure::Version(e)),
    }
}

/// The file that keeps a variable for the steps of the workflow that follow.
pub open spec fn env_file_of(name: Seq<char>) -> Seq<char> {
    ".env/"@ + name
}

/// The file that keeps the variable of the given name.
pub fn env_file(name: &str) -> (s: String)
    ensures
        s@ == env_file_of(name@),
{
    String::from_str(".env/").concat(name)
}

/// What is said when a variable is written.
pub open spec fn env_notice_of(name: Seq<char>, value: Seq<char>) -> Seq<char> {
    "Writing "@ + value + " to .env/"@ + name
}

/// What is said when a variable is written.
pub fn env_notice(name: &str, value: &str) -> (s: String)
    ensures
        s@ == env_notice_of(name@, value@),
{
    let mut out = chars_of("Writing ");
    push_str(&mut out, value);
    push_str(&mut out, " to .env/");
    push_str(&mut out, name);
    string_of(&out)
}

} // verus!
