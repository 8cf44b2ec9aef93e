//! The version that a manifest states.

use vstd::prelude::*;
use vstd::string::*;
use crate::error::Failure;
use crate::pattern::{regex_replaced, replace_first};
use crate::text::{chars_of, push_str, string_of};
use crate::version::{version_text, Version, VersionView};
use crate::words::{contains, contains_text};

verus! {

/// The pattern of the line that states the version.
pub open spec fn version_pattern() -> Seq<char> {
    "version\\s*=\\s*\".+\""@
}

/// The line that states a version.
pub open spec fn version_line(version: VersionView) -> Seq<char> {
    "version = \""@ + version_text(version) + "\""@
}

/// Whether a file of that name is a manifest: its name holds `Cargo.toml`.
pub fn is_manifest(file_name: &str) -> (r: bool)
    ensures
        r == contains_text(file_name@, "Cargo.toml"@),
{
    contains(file_name, "Cargo.toml")
}

/// The content of a manifest with the version set: the first statement of a
/// version is replaced by one of the given version. A content without such a
/// statement stays as it is.
pub fn set_version(content: &str, version: &Version) -> (r: Result<String, Failure>)
    ensures
        match regex_replaced(version_pattern(), content@, version_line(version@)) {
            Some(updated) => r matches Ok(s) && s@ == updated,
            None => r matches Err(e) && e is Pattern,
        },
{
    let mut line = chars_of("version = \"");
    push_str(&mut line, version.to_string().as_str());
    push_str(&mut line, "\"");
    let line = string_of(&line);
    match replace_first("version\\s*=\\s*\".+\"", content, line.as_str()) {
        Ok(updated) => Ok(updated),
        Err(e) => Err(Failure::Pattern(e)),
    }
}

} // verus!
