use committer::emoji::{subject_hint, Emoji, SemVer};
use committer::git::status::Status;
use committer::prompt::fast_forward;
use committer::prompt::push;
use committer::prompt::scope::{dedup, holds, CommitScopeCompleter};
use committer::prompt::subject::CommitSubjectCompleter;

fn strings(items: &[&str]) -> Vec<String> {
    items.iter().map(|s| s.to_string()).collect()
}

#[test]
fn the_questions_count_commits() {
    let one = Status { commits_behind: 1, commits_ahead: 1, message: String::new() };
    let many = Status { commits_behind: 12, commits_ahead: 0, message: String::new() };
    assert_eq!(
        fast_forward::question(&one),
        "You are behind by 1 commit. Do you want to pull from the remote?"
    );
    assert_eq!(
        fast_forward::question(&many),
        "You are behind by 12 commits. Do you want to pull from the remote?"
    );
    assert_eq!(
        push::question(&one),
        "You are ahead by 1 commit. Do you want to push to the remote?"
    );
    assert_eq!(
        push::question(&many),
        "You are ahead by 0 commits. Do you want to push to the remote?"
    );
}

#[test]
fn every_text_is_kept_once_where_it_comes_first() {
    assert_eq!(dedup(strings(&["b", "a", "b", "c", "a"])), vec!["b", "a", "c"]);
    assert!(dedup(Vec::new()).is_empty());
    assert!(holds(&strings(&["a", "b"]), "b"));
    assert!(!holds(&strings(&["a", "b"]), "c"));
}

#[test]
fn scopes_are_suggested_in_lower_case() {
    let completer = CommitScopeCompleter::new(strings(&["cli", "core", "cli", "API", "docs"]));
    assert_eq!(completer.get_suggestions("c"), vec!["cli", "core", "docs"]);
    assert_eq!(completer.get_suggestions("A"), vec!["api"]);
    assert_eq!(completer.get_suggestions(""), vec!["cli", "core", "api", "docs"]);
    assert!(completer.get_suggestions("zzz").is_empty());
}

#[test]
fn a_scope_is_completed_from_the_highlighted_suggestion_or_the_first_match() {
    let completer = CommitScopeCompleter::new(strings(&["cli", "core", "API"]));
    assert_eq!(completer.get_completion("co", None), Some("core".to_string()));
    assert_eq!(completer.get_completion("c", None), Some("cli".to_string()));
    assert_eq!(completer.get_completion("P", None), Some("API".to_string()));
    assert_eq!(completer.get_completion("co", Some("picked".to_string())), Some("picked".to_string()));
    assert_eq!(completer.get_completion("zzz", None), None);
}

#[test]
fn subjects_are_suggested_as_they_are() {
    let completer = CommitSubjectCompleter::new(strings(&["Fix typo", "Add Flag", "Fix typo", "fix build"]));
    assert_eq!(completer.get_suggestions("Fix"), vec!["Fix typo"]);
    assert_eq!(completer.get_suggestions("F"), vec!["Fix typo", "Add Flag"]);
    assert_eq!(completer.get_suggestions(""), vec!["Fix typo", "Add Flag", "fix build"]);
    assert_eq!(completer.get_completion("Fix", None), None);
    assert_eq!(completer.get_completion("Fix", Some("Fix typo".to_string())), Some("Fix typo".to_string()));
}

#[test]
fn an_emoji_is_listed_with_its_description() {
    let emoji = Emoji {
        emoji: "\u{2728}".to_string(),
        entity: "&#x2728;".to_string(),
        code: ":sparkles:".to_string(),
        description: "Introduce new features.".to_string(),
        name: "sparkles".to_string(),
        semver: Some(SemVer::Minor),
    };
    assert_eq!(emoji.to_string(), "\u{2728} Introduce new features.");
}

#[test]
fn the_hint_for_the_subject_goes_by_the_kind_of_change() {
    assert_eq!(subject_hint(Some(SemVer::Major)), "Describe the breaking change");
    assert_eq!(subject_hint(Some(SemVer::Minor)), "Describe the new feature");
    assert_eq!(subject_hint(Some(SemVer::Patch)), "Describe the patch");
    assert_eq!(subject_hint(None), "Describe the chore");
}
