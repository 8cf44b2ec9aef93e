use committer::repository::StatusRecord;
use committer::status::{classify, StatusChange, Statuses};

use git2::Repository;
use std::io::Write;
use std::path::Path;
use tempfile::TempDir;

fn put(root: &Path, file: &str, content: &str) {
    let mut written = tempfile::NamedTempFile::new_in(root).unwrap();
    written.write_all(content.as_bytes()).unwrap();
    written.persist(root.join(file)).unwrap();
}

fn add(repo: &Repository, file: &str) {
    let mut index = repo.index().unwrap();
    index.add_path(Path::new(file)).unwrap();
    index.write().unwrap();
}

fn commit_index(repo: &Repository, message: &str) {
    let mut index = repo.index().unwrap();
    let tree = repo.find_tree(index.write_tree().unwrap()).unwrap();
    let sig = git2::Signature::now("Test", "test@example.com").unwrap();
    let parent = repo.head().ok().and_then(|h| h.peel_to_commit().ok());
    let parents: Vec<&git2::Commit> = parent.as_ref().map(|c| vec![c]).unwrap_or_default();
    repo.commit(Some("HEAD"), &sig, &sig, message, &tree, &parents).unwrap();
}

fn record(path: Option<&str>, bits: u32) -> StatusRecord {
    StatusRecord { path: path.map(String::from), bits }
}

#[test]
fn every_entry_of_a_snapshot_shows_a_change() {
    let temp = TempDir::new().unwrap();
    let repo = Repository::init(temp.path()).unwrap();
    put(temp.path(), "a.txt", "a");
    put(temp.path(), "b.txt", "b");
    put(temp.path(), "c.txt", "c");
    add(&repo, "a.txt");
    add(&repo, "b.txt");
    add(&repo, "c.txt");
    commit_index(&repo, "Initial commit");
    put(temp.path(), "a.txt", "changed a");
    add(&repo, "a.txt");
    put(temp.path(), "a.txt", "changed a once more");
    put(temp.path(), "b.txt", "changed b");
    put(temp.path(), "d.txt", "new");
    let statuses = Statuses::query(&repo).unwrap();
    assert_eq!(statuses.len(), 3);
    for file in statuses.files() {
        assert!(file.staged.is_some() || file.unstaged.is_some());
    }
    let paths: Vec<&str> = statuses.files().iter().map(|f| f.path.as_str()).collect();
    assert_eq!(paths, vec!["a.txt", "b.txt", "d.txt"]);
}

#[test]
fn a_file_staged_and_then_reverted_leaves_the_snapshot() {
    let temp = TempDir::new().unwrap();
    let repo = Repository::init(temp.path()).unwrap();
    put(temp.path(), "file.txt", "hello");
    add(&repo, "file.txt");
    commit_index(&repo, "Initial commit");
    put(temp.path(), "file.txt", "something else");
    add(&repo, "file.txt");
    assert_eq!(Statuses::query(&repo).unwrap().files()[0].staged, Some(StatusChange::Modified));
    put(temp.path(), "file.txt", "hello");
    add(&repo, "file.txt");
    let statuses = Statuses::query(&repo).unwrap();
    assert!(statuses.is_clean());
    assert_eq!(statuses.files().len(), 0);
}

#[test]
fn an_untracked_directory_shows_its_files() {
    let temp = TempDir::new().unwrap();
    let repo = Repository::init(temp.path()).unwrap();
    put(temp.path(), "initial.txt", "initial");
    add(&repo, "initial.txt");
    commit_index(&repo, "Initial commit");
    let sub = tempfile::Builder::new().prefix("sub").rand_bytes(0).tempdir_in(temp.path()).unwrap().keep();
    put(&sub, "x.txt", "x");
    let statuses = Statuses::query(&repo).unwrap();
    assert_eq!(statuses.files().len(), 1);
    assert_eq!(statuses.files()[0].path, "sub/x.txt");
    assert_eq!(statuses.files()[0].staged, None);
    assert_eq!(statuses.files()[0].unstaged, Some(StatusChange::Added));
}

#[test]
fn the_scan_for_a_snapshot() {
    let scan = Statuses::scan();
    assert!(scan.untracked);
    assert!(!scan.ignored);
    assert!(scan.recurse_untracked_dirs);
}

#[test]
fn ignored_files_are_left_out() {
    let temp = TempDir::new().unwrap();
    let repo = Repository::init(temp.path()).unwrap();
    put(temp.path(), ".gitignore", "*.log\n");
    add(&repo, ".gitignore");
    commit_index(&repo, "Initial commit");
    put(temp.path(), "debug.log", "noise");
    assert!(Statuses::query(&repo).unwrap().is_clean());
}

#[test]
fn a_staged_deletion() {
    let temp = TempDir::new().unwrap();
    let repo = Repository::init(temp.path()).unwrap();
    put(temp.path(), "file.txt", "content");
    add(&repo, "file.txt");
    commit_index(&repo, "Initial commit");
    tempfile::TempPath::from_path(temp.path().join("file.txt")).close().unwrap();
    let mut index = repo.index().unwrap();
    index.remove_path(Path::new("file.txt")).unwrap();
    index.write().unwrap();
    let statuses = Statuses::query(&repo).unwrap();
    assert_eq!(statuses.files().len(), 1);
    assert_eq!(statuses.files()[0].staged, Some(StatusChange::Deleted));
    assert_eq!(statuses.files()[0].unstaged, None);
}

#[test]
fn flags_are_read_side_by_side() {
    assert_eq!(classify(0), (None, None));
    assert_eq!(classify(0x0001), (Some(StatusChange::Added), None));
    assert_eq!(classify(0x0002), (Some(StatusChange::Modified), None));
    assert_eq!(classify(0x0004), (Some(StatusChange::Deleted), None));
    assert_eq!(classify(0x0008), (Some(StatusChange::Renamed), None));
    assert_eq!(classify(0x0010), (Some(StatusChange::TypeChange), None));
    assert_eq!(classify(0x0080), (None, Some(StatusChange::Added)));
    assert_eq!(classify(0x0100), (None, Some(StatusChange::Modified)));
    assert_eq!(classify(0x0200), (None, Some(StatusChange::Deleted)));
    assert_eq!(classify(0x0400), (None, Some(StatusChange::TypeChange)));
    assert_eq!(classify(0x0800), (None, Some(StatusChange::Renamed)));
    assert_eq!(classify(0x0102), (Some(StatusChange::Modified), Some(StatusChange::Modified)));
    assert_eq!(classify(0x0201), (Some(StatusChange::Added), Some(StatusChange::Deleted)));
    assert_eq!(classify(0x001f), (Some(StatusChange::Added), None));
    assert_eq!(classify(0x001e), (Some(StatusChange::Modified), None));
    assert_eq!(classify(0x0f80), (None, Some(StatusChange::Added)));
    assert_eq!(classify(0x0c00), (None, Some(StatusChange::Renamed)));
    assert_eq!(classify(0x1000), (None, None));
    assert_eq!(classify(0x4000), (None, None));
    assert_eq!(classify(0x8000), (None, None));
}

#[test]
fn flags_are_numbered_as_the_repository_numbers_them() {
    assert_eq!(classify(git2::Status::INDEX_NEW.bits()), (Some(StatusChange::Added), None));
    assert_eq!(classify(git2::Status::INDEX_MODIFIED.bits()), (Some(StatusChange::Modified), None));
    assert_eq!(classify(git2::Status::INDEX_DELETED.bits()), (Some(StatusChange::Deleted), None));
    assert_eq!(classify(git2::Status::INDEX_RENAMED.bits()), (Some(StatusChange::Renamed), None));
    assert_eq!(classify(git2::Status::INDEX_TYPECHANGE.bits()), (Some(StatusChange::TypeChange), None));
    assert_eq!(classify(git2::Status::WT_NEW.bits()), (None, Some(StatusChange::Added)));
    assert_eq!(classify(git2::Status::WT_MODIFIED.bits()), (None, Some(StatusChange::Modified)));
    assert_eq!(classify(git2::Status::WT_DELETED.bits()), (None, Some(StatusChange::Deleted)));
    assert_eq!(classify(git2::Status::WT_RENAMED.bits()), (None, Some(StatusChange::Renamed)));
    assert_eq!(classify(git2::Status::WT_TYPECHANGE.bits()), (None, Some(StatusChange::TypeChange)));
    assert_eq!(classify(git2::Status::IGNORED.bits()), (None, None));
    assert_eq!(classify(git2::Status::CONFLICTED.bits()), (None, None));
}

#[test]
fn records_without_a_change_leave_no_entry() {
    let statuses = Statuses::from_records(vec![
        record(Some("a.txt"), 0x0100),
        record(Some("b.txt"), 0),
        record(Some("c.txt"), 0x8000),
        record(Some("d.txt"), 0x0001),
        record(None, 0x0080),
        record(Some("f.txt"), 0x4000),
    ]);
    let seen: Vec<(&str, Option<StatusChange>, Option<StatusChange>)> =
        statuses.files().iter().map(|f| (f.path.as_str(), f.staged, f.unstaged)).collect();
    assert_eq!(
        seen,
        vec![
            ("a.txt", None, Some(StatusChange::Modified)),
            ("d.txt", Some(StatusChange::Added), None),
            ("", None, Some(StatusChange::Added)),
        ]
    );
    assert!(!statuses.is_clean());
    assert!(Statuses::from_records(vec![record(Some("x"), 0)]).is_clean());
    assert!(Statuses::from_records(Vec::new()).is_clean());
}

#[test]
fn a_change_prints_as_its_glyph_in_its_colour() {
    assert_eq!(StatusChange::Modified.to_string(), "\u{1b}[93m\u{f0dc8}\u{1b}[39m ");
    assert_eq!(StatusChange::Added.to_string(), "\u{1b}[92m\u{f0752}\u{1b}[39m ");
    assert_eq!(StatusChange::Deleted.to_string(), "\u{1b}[91m\u{f0b98}\u{1b}[39m ");
    assert_eq!(StatusChange::Renamed.to_string(), "\u{1b}[94m\u{f0ab9}\u{1b}[39m ");
    assert_eq!(StatusChange::TypeChange.to_string(), "\u{1b}[95m\u{f0fb4}\u{1b}[39m ");
}

#[test]
fn a_file_prints_with_its_box_its_change_and_its_path() {
    let statuses = Statuses::from_records(vec![
        record(Some("both.txt"), 0x0102),
        record(Some("staged.txt"), 0x0001),
        record(Some("unstaged.txt"), 0x0200),
    ]);
    let files = statuses.files();
    assert_eq!(
        files[0].to_string(),
        "\u{1b}[93m\u{f0375}\u{1b}[39m \u{1b}[93m\u{f0dc8}\u{1b}[39m  both.txt"
    );
    assert_eq!(
        files[1].to_string(),
        "\u{1b}[92m\u{f0132}\u{1b}[39m \u{1b}[92m\u{f0752}\u{1b}[39m  staged.txt"
    );
    assert_eq!(
        files[2].to_string(),
        "\u{1b}[90m\u{f0131}\u{1b}[39m \u{1b}[91m\u{f0b98}\u{1b}[39m  unstaged.txt"
    );
}

#[test]
fn a_snapshot_prints_a_line_for_every_file() {
    let clean = Statuses::from_records(Vec::new());
    assert_eq!(clean.to_string(), " \u{1b}[92mWorking directory clean\u{1b}[39m\n");
    let statuses = Statuses::from_records(vec![record(Some("a"), 0x0001), record(Some("b"), 0x0080)]);
    assert_eq!(
        statuses.to_string(),
        "\n \u{1b}[92m\u{f0132}\u{1b}[39m \u{1b}[92m\u{f0752}\u{1b}[39m  a\
         \n \u{1b}[90m\u{f0131}\u{1b}[39m \u{1b}[92m\u{f0752}\u{1b}[39m  b\n"
    );
}
