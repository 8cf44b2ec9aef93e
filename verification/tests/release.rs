use committer::cmd::failure_context;
use committer::error::Failure;
use committer::git::log::{Commit, ScopeGroup};
use committer::helper::{calculate_new_tag_based_on_commits, changelog, clean_tag, env_file, env_notice, release_from};
use committer::updater::{is_manifest, set_version};
use committer::version::Version;

fn one_group(scope: &str, commits: &[(Option<&str>, &str)]) -> Vec<ScopeGroup> {
    vec![ScopeGroup {
        scope: scope.to_string(),
        commits: commits
            .iter()
            .map(|(emoji, message)| Commit {
                emoji: emoji.map(String::from),
                scope: if scope.is_empty() { None } else { Some(scope.to_string()) },
                message: message.to_string(),
            })
            .collect(),
    }]
}

fn numbers(v: &Option<Version>) -> Option<(u64, u64, u64)> {
    v.as_ref().map(|v| (v.major, v.minor, v.patch))
}

#[test]
fn a_tag_is_cleaned_before_it_is_read() {
    assert_eq!(clean_tag("v1.2"), "1.2.0");
    assert_eq!(clean_tag("v1.2.3"), "1.2.3");
    assert_eq!(clean_tag("1.2"), "1.2.0");
    assert_eq!(clean_tag("0.0.0"), "0.0.0");
    assert_eq!(clean_tag("v1"), "1");
    assert_eq!(clean_tag("1.0.0-dev"), "1.0.0-de");
    assert_eq!(clean_tag(""), "");
}

#[test]
fn the_largest_change_decides_the_next_version() {
    let none: Vec<ScopeGroup> = Vec::new();
    let some = one_group("", &[(None, "x")]);
    let r = calculate_new_tag_based_on_commits("v1.2.3", &some, &some, &some).unwrap();
    assert_eq!(numbers(&r.version), Some((2, 0, 0)));
    let r = calculate_new_tag_based_on_commits("v1.2.3", &some, &some, &none).unwrap();
    assert_eq!(numbers(&r.version), Some((1, 3, 0)));
    let r = calculate_new_tag_based_on_commits("v1.2.3", &some, &none, &none).unwrap();
    assert_eq!(numbers(&r.version), Some((1, 2, 4)));
    let r = calculate_new_tag_based_on_commits("v1.2.3", &none, &none, &none).unwrap();
    assert_eq!(numbers(&r.version), None);
    assert_eq!(r.changelog, "");
    let r = calculate_new_tag_based_on_commits("1.2", &none, &some, &none).unwrap();
    assert_eq!(numbers(&r.version), Some((1, 3, 0)));
}

#[test]
fn a_pre_release_is_left_behind() {
    let none: Vec<ScopeGroup> = Vec::new();
    let r = calculate_new_tag_based_on_commits("1.2.3-alpha", &none, &none, &none).unwrap();
    let version = r.version.unwrap();
    assert_eq!((version.major, version.minor, version.patch), (1, 2, 3));
    assert_eq!(version.pre, "");
    assert_eq!(version.to_string(), "1.2.3");
}

#[test]
fn a_tag_that_is_no_version_is_a_failure() {
    let none: Vec<ScopeGroup> = Vec::new();
    let r = calculate_new_tag_based_on_commits("latest", &none, &none, &none);
    assert!(matches!(r, Err(Failure::Version(_))));
    let r = calculate_new_tag_based_on_commits("1.02.3", &none, &none, &none);
    assert!(matches!(r, Err(Failure::Version(_))));
}

#[test]
fn a_number_without_successor_is_a_failure() {
    let none: Vec<ScopeGroup> = Vec::new();
    let some = one_group("", &[(None, "x")]);
    let r = release_from(Version::new(u64::MAX, 0, 0), &none, &none, &some);
    assert!(matches!(r, Err(Failure::Count(ref text)) if text == "18446744073709551615.0.0"));
    let r = release_from(Version::new(u64::MAX, 0, 0), &none, &some, &none).unwrap();
    assert_eq!(numbers(&r.version), Some((u64::MAX, 1, 0)));
}

#[test]
fn the_changelog_has_a_section_for_every_kind_of_change() {
    let majors = one_group("cli", &[(Some("\u{1f4a5}"), "Drop the old flags"), (None, "Rename")]);
    let minors = one_group("", &[(Some("\u{2728}"), "Add a flag")]);
    let patches: Vec<ScopeGroup> = Vec::new();
    assert_eq!(
        changelog(&majors, &minors, &patches),
        "## \u{1f6a8} Breaking changes\n### Cli\n- \u{1f4a5} Drop the old flags\n-  Rename\n\n\
         ## \u{1f680} New features\n### \n- \u{2728} Add a flag\n\n"
    );
    let fixes = one_group("\u{df}x", &[(None, "Fix")]);
    assert_eq!(
        changelog(&patches, &patches, &fixes),
        "## \u{1f41b} Bug fixes\n### Sx\n-  Fix\n\n"
    );
}

#[test]
fn a_group_without_commits_leaves_nothing() {
    let empty = vec![ScopeGroup { scope: "cli".to_string(), commits: Vec::new() }];
    let none: Vec<ScopeGroup> = Vec::new();
    assert_eq!(changelog(&empty, &none, &none), "## \u{1f6a8} Breaking changes\n\n");
}

#[test]
fn versions_print_with_their_parts() {
    assert_eq!(Version::new(1, 20, 300).to_string(), "1.20.300");
    assert_eq!(Version::new(0, 0, 0).to_string(), "0.0.0");
    let v = Version { major: 1, minor: 0, patch: 0, pre: "rc.1".to_string(), build: "b5".to_string() };
    assert_eq!(v.to_string(), "1.0.0-rc.1+b5");
    assert!(v.same(&v));
    assert!(!v.same(&Version::new(1, 0, 0)));
    assert!(Version::new(1, 0, 0).same(&Version::new(1, 0, 0)));
}

#[test]
fn the_version_of_a_manifest_is_set() {
    let manifest = "[package]\nname = \"x\"\nversion = \"0.1.0\"\nedition = \"2021\"\n\n[dependencies]\ny = { version = \"1\" }\n";
    let updated = set_version(manifest, &Version::new(1, 2, 3)).unwrap();
    assert_eq!(
        updated,
        "[package]\nname = \"x\"\nversion = \"1.2.3\"\nedition = \"2021\"\n\n[dependencies]\ny = { version = \"1\" }\n"
    );
    assert_eq!(set_version("nothing here", &Version::new(1, 2, 3)).unwrap(), "nothing here");
    let odd = Version { major: 1, minor: 0, patch: 0, pre: "$0".to_string(), build: String::new() };
    assert_eq!(set_version("version=\"x\"", &odd).unwrap(), "version = \"1.0.0-$0\"");
}

#[test]
fn manifests_are_known_by_their_name() {
    assert!(is_manifest("Cargo.toml"));
    assert!(is_manifest("Cargo.toml.orig"));
    assert!(!is_manifest("cargo.toml"));
    assert!(!is_manifest("Cargo.lock"));
}

#[test]
fn variables_are_kept_in_a_directory_of_their_own() {
    assert_eq!(env_file("COMMITTER_CHANGELOG"), ".env/COMMITTER_CHANGELOG");
    assert_eq!(env_notice("NAME", "value"), "Writing value to .env/NAME");
}

#[test]
fn a_failed_call_is_described_by_its_command_line() {
    let args = vec!["commit".to_string(), "-m".to_string(), "x y".to_string()];
    assert_eq!(failure_context("git", &args), "Failed to execute command: git commit -m x y");
    assert_eq!(failure_context("git", &Vec::new()), "Failed to execute command: git ");
    assert_eq!(failure_context("ls", &vec!["-l".to_string()]), "Failed to execute command: ls -l");
}
