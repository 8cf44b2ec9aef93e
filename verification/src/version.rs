//! Semantic versions.

use vstd::prelude::*;
use vstd::string::*;
use crate::text::{decimal, push_decimal, push_str, same_text, string_of};

verus! {

/// A semantic version. The pre-release and the build metadata are kept as
/// text, empty where the version has none.
#[derive(Debug)]
pub struct Version {
    pub major: u64,
    pub minor: u64,
    pub patch: u64,
    pub pre: String,
    pub build: String,
}

/// What a version holds.
pub struct VersionView {
    pub major: u64,
    pub minor: u64,
    pub patch: u64,
    pub pre: Seq<char>,
    pub build: Seq<char>,
}

impl View for Version {
    type V = VersionView;

    open spec fn view(&self) -> VersionView {
        VersionView {
            major: self.major,
            minor: self.minor,
            patch: self.patch,
            pre: self.pre@,
            build: self.build@,
        }
    }
}

/// The version that a text stands for, where it is a semantic version.
pub uninterp spec fn parsed_version(text: Seq<char>) -> Option<VersionView>;

/// What a call of `parse_version` handed back, as what it holds.
pub open spec fn version_view(r: Result<Version, semver::Error>) -> Option<VersionView> {
    match r {
        Ok(v) => Some(v@),
        Err(_) => None,
    }
}

/// `semver::Version::parse`, with the three numbers and the texts of the
/// pre-release and of the build metadata copied out.
#[verifier::external_body]
pub(crate) fn parse_version(text: &str) -> (r: Result<Version, semver::Error>)
    ensures
        version_view(r) == parsed_version(text@),
{
    semver::Version::parse(text).map(|v| Version {
        major: v.major,
        minor: v.minor,
        patch: v.patch,
        pre: v.pre.as_str().to_string(),
        build: v.build.as_str().to_string(),
    })
}

/// A version of three numbers.
pub open spec fn plain_version(major: u64, minor: u64, patch: u64) -> VersionView {
    VersionView { major, minor, patch, pre: Seq::empty(), build: Seq::empty() }
}

/// A version as text: the three numbers with dots between them, then the
/// pre-release after a hyphen and the build metadata after a plus, where the
/// version has them.
pub open spec fn version_text(v: VersionView) -> Seq<char> {
    decimal(v.major as nat) + seq!['.'] + decimal(v.minor as nat) + seq!['.'] + decimal(
        v.patch as nat,
    ) + (if v.pre.len() > 0 {
        seq!['-'] + v.pre
    } else {
        Seq::empty()
    }) + (if v.build.len() > 0 {
        seq!['+'] + v.build
    } else {
        Seq::empty()
    })
}

impl Version {
    /// The version of three numbers, without pre-release and build metadata.
    pub fn new(major: u64, minor: u64, patch: u64) -> (v: Version)
        ensures
            v@ == plain_version(major, minor, patch),
    {
        Version { major, minor, patch, pre: String::new(), build: String::new() }
    }

    /// Whether two versions are the same in every part.
    pub fn same(&self, other: &Version) -> (r: bool)
        ensures
            r == (self@ == other@),
    {
        self.major == other.major && self.minor == other.minor && self.patch == other.patch
            && same_text(self.pre.as_str(), other.pre.as_str()) && same_text(
            self.build.as_str(),
            other.build.as_str(),
        )
    }

    /// The version as text.
    pub fn to_string(&self) -> (s: String)
        ensures
            s@ == version_text(self@),
    {
        let mut out: Vec<char> = Vec::new();
        push_decimal(&mut out, self.major);
        out.push('.');
        push_decimal(&mut out, self.minor);
        out.push('.');
        push_decimal(&mut out, self.patch);
        if self.pre.as_str().unicode_len() > 0 {
            out.push('-');
            push_str(&mut out, self.pre.as_str());
        }
        if self.build.as_str().unicode_len() > 0 {
            out.push('+');
            push_str(&mut out, self.build.as_str());
        }
        string_of(&out)
    }
}

} // verus!
