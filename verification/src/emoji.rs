//! The emojis that tell what a commit is about.

use vstd::prelude::*;
use vstd::string::*;
use crate::text::{chars_of, push_str, string_of};

verus! {

/// The part of the version that a commit of some kind moves on.
#[derive(Clone, Copy, Debug, PartialEq, Eq, Structural)]
pub enum SemVer {
    Major,
    Minor,
    Patch,
}

/// An emoji with what it stands for.
#[derive(Debug)]
pub struct Emoji {
    pub emoji: String,
    pub entity: String,
    pub code: String,
    pub description: String,
    pub name: String,
    pub semver: Option<SemVer>,
}

/// An emoji as it is listed: the emoji itself and its description.
pub open spec fn emoji_text(emoji: Seq<char>, description: Seq<char>) -> Seq<char> {
    emoji + seq![' '] + description
}

impl Emoji {
    /// The emoji as it is listed.
    pub fn to_string(&self) -> (s: String)
        ensures
            s@ == emoji_text(self.emoji@, self.description@),
    {
        let mut out = chars_of(self.emoji.as_str());
        out.push(' ');
        push_str(&mut out, self.description.as_str());
        string_of(&out)
    }
}

/// What the subject of a commit of some kind is to describe.
pub open spec fn spec_subject_hint(semver: Option<SemVer>) -> Seq<char> {
    match semver {
        Some(SemVer::Major) => "Describe the breaking change"@,
        Some(SemVer::Minor) => "Describe the new feature"@,
        Some(SemVer::Patch) => "Describe the patch"@,
        None => "Describe the chore"@,
    }
}

/// What the subject of a commit of some kind is to describe.
pub fn subject_hint(semver: Option<SemVer>) -> (s: String)
    ensures
        s@ == spec_subject_hint(semver),
{
    match semver {
        Some(SemVer::Major) => String::from_str("Describe the breaking change"),
        Some(SemVer::Minor) => String::from_str("Describe the new feature"),
        Some(SemVer::Patch) => String::from_str("Describe the patch"),
        None => String::from_str("Describe the chore"),
    }
}

} // verus!
