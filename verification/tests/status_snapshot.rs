use committer::status::{StatusChange, Statuses};

use git2::Repository;
use std::io::Write;
use std::path::Path;
use tempfile::TempDir;

fn init_repo(path: &Path) -> Repository {
    Repository::init(path).unwrap()
}

fn create_change(repo: &Repository, file: &str, content: &str) {
    let repo_path = repo.workdir().unwrap();
    let mut written = tempfile::NamedTempFile::new_in(repo_path).unwrap();
    written.write_all(content.as_bytes()).unwrap();
    written.persist(repo_path.join(file)).unwrap();
}

fn stage_file(repo: &Repository, file: &str) {
    let mut index = repo.index().unwrap();
    index.add_path(Path::new(file)).unwrap();
    index.write().unwrap();
}

fn create_commit(repo: &Repository, files: &[(&str, &str)], message: &str) {
    for (file, content) in files {
        create_change(repo, file, content);
    }

    for (file, _) in files {
        stage_file(repo, file);
    }

    let mut index = repo.index().unwrap();
    let tree_id = index.write_tree().unwrap();
    let tree = repo.find_tree(tree_id).unwrap();
    let sig = git2::Signature::now("Test", "test@example.com").unwrap();

    let parent_commit = repo.head().ok().and_then(|h| h.peel_to_commit().ok());
    let parents: Vec<&git2::Commit> = parent_commit.as_ref().map(|c| vec![c]).unwrap_or_default();

    repo.commit(Some("HEAD"), &sig, &sig, message, &tree, &parents)
        .unwrap();
}

#[test]
fn test_status_with_unstaged_modified_file() {
    let temp = TempDir::new().unwrap();
    let repo_path = temp.path();

    let repo = init_repo(repo_path);
    create_commit(&repo, &[("file.txt", "hello")], "Initial commit");

    create_change(&repo, "file.txt", "modified");

    let statuses = Statuses::query(&repo).unwrap();
    assert!(!statuses.is_clean());
    assert_eq!(statuses.files().len(), 1);
    assert_eq!(statuses.files()[0].staged, None);
    assert_eq!(statuses.files()[0].unstaged, Some(StatusChange::Modified));
    assert_eq!(statuses.files()[0].path.as_str(), "file.txt");
}

#[test]
fn test_status_with_untracked_file() {
    let temp = TempDir::new().unwrap();
    let repo_path = temp.path();

    let repo = init_repo(repo_path);
    create_commit(&repo, &[("initial.txt", "initial")], "Initial commit");

    create_change(&repo, "untracked.txt", "untracked");

    let statuses = Statuses::query(&repo).unwrap();
    assert!(!statuses.is_clean());
    assert_eq!(statuses.files().len(), 1);
    assert_eq!(statuses.files()[0].staged, None);
    assert_eq!(statuses.files()[0].unstaged, Some(StatusChange::Added));
    assert_eq!(statuses.files()[0].path.as_str(), "untracked.txt");
}

#[test]
fn test_status_with_staged_new_file() {
    let temp = TempDir::new().unwrap();
    let repo_path = temp.path();

    let repo = init_repo(repo_path);
    create_commit(&repo, &[("initial.txt", "initial")], "Initial commit");

    create_change(&repo, "staged.txt", "staged");
    stage_file(&repo, "staged.txt");

    let statuses = Statuses::query(&repo).unwrap();
    assert!(!statuses.is_clean());
    assert_eq!(statuses.files().len(), 1);
    assert_eq!(statuses.files()[0].staged, Some(StatusChange::Added));
    assert_eq!(statuses.files()[0].unstaged, None);
    assert_eq!(statuses.files()[0].path.as_str(), "staged.txt");
}

#[test]
fn test_status_with_staged_modified_file() {
    let temp = TempDir::new().unwrap();
    let repo_path = temp.path();

    let repo = init_repo(repo_path);
    create_commit(&repo, &[("file.txt", "initial")], "Initial commit");

    create_change(&repo, "file.txt", "modified");
    stage_file(&repo, "file.txt");

    let statuses = Statuses::query(&repo).unwrap();
    assert!(!statuses.is_clean());
    assert_eq!(statuses.files().len(), 1);
    assert_eq!(statuses.files()[0].staged, Some(StatusChange::Modified));
    assert_eq!(statuses.files()[0].unstaged, None);
    assert_eq!(statuses.files()[0].path.as_str(), "file.txt");
}

#[test]
fn test_status_with_staged_and_unstaged_changes() {
    let temp = TempDir::new().unwrap();
    let repo_path = temp.path();

    let repo = init_repo(repo_path);
    create_commit(&repo, &[("file.txt", "initial")], "Initial commit");

    create_change(&repo, "file.txt", "staged change");
    stage_file(&repo, "file.txt");

    create_change(&repo, "file.txt", "unstaged change");

    let statuses = Statuses::query(&repo).unwrap();
    assert!(!statuses.is_clean());
    assert_eq!(statuses.files().len(), 1);
    assert_eq!(statuses.files()[0].staged, Some(StatusChange::Modified));
    assert_eq!(statuses.files()[0].unstaged, Some(StatusChange::Modified));
    assert_eq!(statuses.files()[0].path.as_str(), "file.txt");
}

#[test]
fn test_status_clean_repo() {
    let temp = TempDir::new().unwrap();
    let repo_path = temp.path();

    let repo = init_repo(repo_path);
    create_commit(&repo, &[("initial.txt", "initial")], "Initial commit");

    let statuses = Statuses::query(&repo).unwrap();
    assert!(statuses.is_clean());
    assert_eq!(statuses.files().len(), 0);
}

#[test]
fn test_status_with_deleted_file() {
    let temp = TempDir::new().unwrap();
    let repo_path = temp.path();

    let repo = init_repo(repo_path);
    create_commit(&repo, &[("file.txt", "content")], "Initial commit");

    tempfile::TempPath::from_path(repo_path.join("file.txt")).close().unwrap();

    let statuses = Statuses::query(&repo).unwrap();
    assert!(!statuses.is_clean());
    assert_eq!(statuses.files().len(), 1);
    assert_eq!(statuses.files()[0].staged, None);
    assert_eq!(statuses.files()[0].unstaged, Some(StatusChange::Deleted));
    assert_eq!(statuses.files()[0].path.as_str(), "file.txt");
}
