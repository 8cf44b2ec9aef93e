//! The failures that the library reports.

use vstd::prelude::*;

verus! {

/// The error type of `git2`; it is carried through unread.
#[verifier::external_type_specification]
#[verifier::external_body]
pub struct ExGitError(git2::Error);

/// The error type of `std::io`; it is carried through unread.
#[verifier::external_type_specification]
#[verifier::external_body]
pub struct ExIoError(std::io::Error);

/// The error type of `regex`; it is carried through unread.
#[verifier::external_type_specification]
#[verifier::external_body]
pub struct ExPatternError(regex::Error);

/// The error type of `semver`; it is carried through unread.
#[verifier::external_type_specification]
#[verifier::external_body]
pub struct ExVersionError(semver::Error);

/// What can go wrong while the repository is inspected or changed.
#[derive(Debug)]
pub enum Failure {
    /// The repository could not be opened or read.
    RepositoryAccess(git2::Error),
    /// The staging index could not be changed or written back.
    IndexWrite(git2::Error),
    /// The terminal could not be prepared or restored.
    TerminalSetup(std::io::Error),
    /// A pattern could not be compiled.
    Pattern(regex::Error),
    /// A tag is no semantic version.
    Version(semver::Error),
    /// A count of commits is no number, or one that is too large; the text
    /// that was found in its place is kept.
    Count(String),
}

/// What a step on the index comes to: its result where it succeeded, and
/// an `IndexWrite` failure with the step's error where it did not.
pub fn index_step<T>(step: Result<T, git2::Error>) -> (r: Result<T, Failure>)
    ensures
        match step {
            Ok(v) => r == Ok::<T, Failure>(v),
            Err(e) => r == Err::<T, Failure>(Failure::IndexWrite(e)),
        },
{
    match step {
        Ok(v) => Ok(v),
        Err(e) => Err(Failure::IndexWrite(e)),
    }
}

/// What a step of reading the repository comes to: its result where it
/// succeeded, and a `RepositoryAccess` failure with the step's error where it
/// did not.
pub fn access_step<T>(step: Result<T, git2::Error>) -> (r: Result<T, Failure>)
    ensures
        match step {
            Ok(v) => r == Ok::<T, Failure>(v),
            Err(e) => r == Err::<T, Failure>(Failure::RepositoryAccess(e)),
        },
{
    match step {
        Ok(v) => Ok(v),
        Err(e) => Err(Failure::RepositoryAccess(e)),
    }
}

} // verus!
