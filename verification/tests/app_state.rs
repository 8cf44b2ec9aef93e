use committer::app::{command_for, file_action, has_unstaged, toggle_action, App, Command, Flow, Key, StageAction};
use committer::diff_view::content_or_empty;
use committer::error::{access_step, index_step, Failure};
use committer::repository::{StatusRecord, TreeRecord};
use committer::staging::{change_for, head_entry, stage_file, unstage_file, IndexChange};
use committer::status::{Status, StatusChange, Statuses};

use git2::Repository;
use std::io::Write;
use std::path::Path;
use tempfile::TempDir;

fn write_file(repo: &Repository, file: &str, content: &str) {
    let root = repo.workdir().unwrap();
    let mut written = tempfile::NamedTempFile::new_in(root).unwrap();
    written.write_all(content.as_bytes()).unwrap();
    written.persist(root.join(file)).unwrap();
}

fn commit_all(repo: &Repository, files: &[&str], message: &str) {
    let mut index = repo.index().unwrap();
    for file in files {
        index.add_path(Path::new(file)).unwrap();
    }
    index.write().unwrap();
    let tree = repo.find_tree(index.write_tree().unwrap()).unwrap();
    let sig = git2::Signature::now("Test", "test@example.com").unwrap();
    let parent = repo.head().ok().and_then(|h| h.peel_to_commit().ok());
    let parents: Vec<&git2::Commit> = parent.as_ref().map(|c| vec![c]).unwrap_or_default();
    repo.commit(Some("HEAD"), &sig, &sig, message, &tree, &parents).unwrap();
}

fn app_with_modified(files: &[&str]) -> (TempDir, App) {
    let temp = TempDir::new().unwrap();
    let repo = Repository::init(temp.path()).unwrap();
    write_file(&repo, "keep.txt", "kept");
    for file in files {
        write_file(&repo, file, "first");
    }
    let mut all = vec!["keep.txt"];
    all.extend_from_slice(files);
    commit_all(&repo, &all, "Initial commit");
    for file in files {
        write_file(&repo, file, "second, and longer");
    }
    let statuses = Statuses::query(&repo).unwrap();
    (temp, App::new(repo, statuses))
}

fn sides(app: &App) -> Vec<(String, Option<StatusChange>, Option<StatusChange>)> {
    app.statuses().files().iter().map(|f| (f.path.clone(), f.staged, f.unstaged)).collect()
}

fn record(path: &str, bits: u32) -> StatusRecord {
    StatusRecord { path: Some(path.to_string()), bits }
}

#[test]
fn the_state_at_the_start() {
    let (_temp, app) = app_with_modified(&["a.txt", "b.txt"]);
    assert_eq!(app.statuses().files().len(), 2);
    assert_eq!(app.selected(), Some(0));
    assert_eq!(app.diff_scroll(), 0);
    assert_eq!(app.editor().text(), "");
    assert!(app.cached_diff().is_none());
    assert_eq!(app.recent_commits(), &vec!["Initial commit".to_string()]);
    assert_eq!(app.selected_file().unwrap().path, "a.txt");

    let (_temp, clean) = app_with_modified(&[]);
    assert_eq!(clean.selected(), None);
    assert!(clean.selected_file().is_none());
}

#[test]
fn selecting_wraps_around_a_snapshot_of_three() {
    let (_temp, mut app) = app_with_modified(&["a.txt", "b.txt", "c.txt"]);
    assert_eq!(app.selected(), Some(0));
    app.next();
    assert_eq!(app.selected(), Some(1));
    app.next();
    assert_eq!(app.selected(), Some(2));
    app.next();
    assert_eq!(app.selected(), Some(0));
    app.previous();
    assert_eq!(app.selected(), Some(2));
    app.previous();
    assert_eq!(app.selected(), Some(1));
    for _ in 0..10 {
        app.next();
        assert!(app.selected().unwrap() < 3);
        assert_eq!(app.selected_file().unwrap().path, ["a.txt", "b.txt", "c.txt"][app.selected().unwrap()]);
    }
}

#[test]
fn selecting_in_an_empty_snapshot_selects_nothing() {
    let (_temp, mut app) = app_with_modified(&[]);
    app.next();
    assert_eq!(app.selected(), None);
    app.previous();
    assert_eq!(app.selected(), None);
}

#[test]
fn selecting_another_file_drops_the_cached_diff() {
    let (_temp, mut app) = app_with_modified(&["a.txt", "b.txt"]);
    app.next();
    app.store_diff(vec!["the diff of b".to_string()], true);
    let cached = app.cached_diff().unwrap();
    assert_eq!((cached.selected_index, cached.is_staged), (1, true));
    assert_eq!(cached.lines, vec!["the diff of b"]);
    assert!(!app.needs_diff());
    app.previous();
    assert_eq!(app.selected(), Some(0));
    assert!(app.cached_diff().is_none());
    assert!(app.needs_diff());
    app.next();
    assert_eq!(app.selected(), Some(1));
    assert!(app.cached_diff().is_none());
}

#[test]
fn selecting_scrolls_the_diff_back_to_its_top() {
    let (_temp, mut app) = app_with_modified(&["a.txt", "b.txt"]);
    app.scroll_diff_up();
    assert_eq!(app.diff_scroll(), 0);
    app.scroll_diff_down();
    app.scroll_diff_down();
    app.scroll_diff_down();
    assert_eq!(app.diff_scroll(), 3);
    app.scroll_diff_up();
    assert_eq!(app.diff_scroll(), 2);
    app.next();
    assert_eq!(app.diff_scroll(), 0);
}

#[test]
fn scrolling_stops_at_the_largest_offset() {
    let (_temp, mut app) = app_with_modified(&["a.txt"]);
    for _ in 0..70000 {
        app.scroll_diff_down();
    }
    assert_eq!(app.diff_scroll(), u16::MAX);
    app.scroll_diff_up();
    assert_eq!(app.diff_scroll(), u16::MAX - 1);
}

#[test]
fn toggling_stages_an_unstaged_file() {
    let (_temp, mut app) = app_with_modified(&["a.txt"]);
    assert_eq!(sides(&app), vec![("a.txt".to_string(), None, Some(StatusChange::Modified))]);
    app.store_diff(vec!["old".to_string()], false);
    app.toggle_stage().unwrap();
    assert_eq!(sides(&app), vec![("a.txt".to_string(), Some(StatusChange::Modified), None)]);
    assert!(app.cached_diff().is_none());
    assert_eq!(app.selected(), Some(0));
}

#[test]
fn toggling_twice_restores_the_classification() {
    let (_temp, mut app) = app_with_modified(&["a.txt", "b.txt"]);
    app.next();
    let before = sides(&app);
    app.toggle_stage().unwrap();
    assert_eq!(
        sides(&app),
        vec![
            ("a.txt".to_string(), None, Some(StatusChange::Modified)),
            ("b.txt".to_string(), Some(StatusChange::Modified), None),
        ]
    );
    app.toggle_stage().unwrap();
    assert_eq!(sides(&app), before);
    assert_eq!(app.selected(), Some(1));
}

#[test]
fn toggling_a_new_file_takes_it_out_of_the_index_again() {
    let (_temp, mut app) = app_with_modified(&[]);
    write_file(app.repo(), "new.txt", "new");
    let statuses = Statuses::query(app.repo()).unwrap();
    app.refresh(statuses);
    assert_eq!(sides(&app), vec![("new.txt".to_string(), None, Some(StatusChange::Added))]);
    app.toggle_stage().unwrap();
    assert_eq!(sides(&app), vec![("new.txt".to_string(), Some(StatusChange::Added), None)]);
    app.toggle_stage().unwrap();
    assert_eq!(sides(&app), vec![("new.txt".to_string(), None, Some(StatusChange::Added))]);
}

#[test]
fn toggling_with_nothing_selected_does_nothing() {
    let (_temp, mut app) = app_with_modified(&[]);
    assert!(app.toggle_stage().is_ok());
    assert!(app.statuses().is_clean());
    assert_eq!(app.selected(), None);
}

#[test]
fn toggling_all_files_twice_stages_and_then_unstages_them() {
    let (_temp, mut app) = app_with_modified(&["a.txt", "b.txt"]);
    let before = sides(&app);
    app.stage_all().unwrap();
    assert_eq!(
        sides(&app),
        vec![
            ("a.txt".to_string(), Some(StatusChange::Modified), None),
            ("b.txt".to_string(), Some(StatusChange::Modified), None),
        ]
    );
    app.stage_all().unwrap();
    assert_eq!(sides(&app), before);
}

#[test]
fn toggling_all_files_stages_everything_while_anything_is_unstaged() {
    let (_temp, mut app) = app_with_modified(&["a.txt", "b.txt"]);
    app.toggle_stage().unwrap();
    assert!(has_unstaged(app.statuses().files()));
    app.stage_all().unwrap();
    assert!(!has_unstaged(app.statuses().files()));
    assert!(app.statuses().files().iter().all(|f| f.staged == Some(StatusChange::Modified)));
}

#[test]
fn a_failed_unstage_is_reported_and_the_snapshot_asked_again() {
    let temp = TempDir::new().unwrap();
    let repo = Repository::init(temp.path()).unwrap();
    write_file(&repo, "new.txt", "new");
    stage_file(&repo, "new.txt").unwrap();
    let statuses = Statuses::query(&repo).unwrap();
    let mut app = App::new(repo, statuses);
    assert!(app.recent_commits().is_empty());
    assert_eq!(sides(&app), vec![("new.txt".to_string(), Some(StatusChange::Added), None)]);
    app.store_diff(vec!["x".to_string()], true);
    let r = app.toggle_stage();
    assert!(matches!(r, Err(Failure::RepositoryAccess(_))));
    assert_eq!(sides(&app), vec![("new.txt".to_string(), Some(StatusChange::Added), None)]);
    assert!(app.cached_diff().is_none());
    let r = app.apply(Command::ToggleStage);
    assert!(matches!(r, Err(Failure::RepositoryAccess(_))));
}

#[test]
fn staging_a_file_that_is_not_there_fails_on_the_index() {
    let temp = TempDir::new().unwrap();
    let repo = Repository::init(temp.path()).unwrap();
    assert!(matches!(stage_file(&repo, "missing.txt"), Err(Failure::IndexWrite(_))));
    assert!(matches!(unstage_file(&repo, "missing.txt"), Err(Failure::RepositoryAccess(_))));
}

#[test]
fn the_entry_that_restores_a_path_has_nothing_but_mode_and_id() {
    let id = git2::Oid::from_str("0123456789abcdef0123456789abcdef01234567").unwrap();
    let entry = head_entry(0o100644, id, "dir/a.txt");
    assert_eq!(entry.mode, 0o100644);
    assert_eq!(entry.id, id);
    assert_eq!(entry.path, b"dir/a.txt");
    assert_eq!((entry.ctime, entry.mtime), ((0, 0), (0, 0)));
    assert_eq!((entry.dev, entry.ino, entry.uid, entry.gid, entry.file_size), (0, 0, 0, 0, 0));
    assert_eq!((entry.flags, entry.flags_extended), (0, 0));
}

#[test]
fn a_step_keeps_its_result_and_names_its_failure() {
    assert!(matches!(index_step(Ok(5)), Ok(5)));
    assert!(matches!(access_step(Ok("a")), Ok("a")));
    let r: Result<(), Failure> = index_step(Err(git2::Error::from_str("locked")));
    assert!(matches!(r, Err(Failure::IndexWrite(ref e)) if e.message() == "locked"));
    let r: Result<(), Failure> = access_step(Err(git2::Error::from_str("gone")));
    assert!(matches!(r, Err(Failure::RepositoryAccess(ref e)) if e.message() == "gone"));
    let r = Statuses::from_scan(Err(git2::Error::from_str("no repository")));
    assert!(matches!(r, Err(Failure::RepositoryAccess(ref e)) if e.message() == "no repository"));
}

#[test]
fn unstaging_restores_what_head_holds_and_removes_what_it_does_not() {
    let id = git2::Oid::from_str("0123456789abcdef0123456789abcdef01234567").unwrap();
    match change_for(Ok(TreeRecord { mode: 0o100755, id }), "bin/run") {
        IndexChange::Restore(entry) => {
            assert_eq!(entry.mode, 0o100755);
            assert_eq!(entry.id, id);
            assert_eq!(entry.path, b"bin/run");
            assert_eq!((entry.ctime, entry.mtime, entry.file_size), ((0, 0), (0, 0), 0));
            assert_eq!((entry.dev, entry.ino, entry.uid, entry.gid), (0, 0, 0, 0));
            assert_eq!((entry.flags, entry.flags_extended), (0, 0));
        }
        IndexChange::Remove => panic!("the entry of a path that HEAD holds is restored"),
    }
    assert!(matches!(
        change_for(Err(git2::Error::from_str("not in the tree")), "new.txt"),
        IndexChange::Remove
    ));
}

#[test]
fn what_was_read_is_kept_and_nothing_else() {
    assert_eq!(content_or_empty(Ok(b"hello".to_vec())), b"hello");
    assert_eq!(content_or_empty(Ok(Vec::new())), b"");
    assert!(content_or_empty(Err(git2::Error::from_str("no blob"))).is_empty());
    let mut commits = vec!["first".to_string()];
    App::keep_message(&mut commits, Ok(Some("second".to_string())));
    assert_eq!(commits, vec!["first", "second"]);
    App::keep_message(&mut commits, Ok(None));
    App::keep_message(&mut commits, Err(git2::Error::from_str("no commit")));
    assert_eq!(commits, vec!["first", "second"]);
}

#[test]
fn the_state_keeps_the_repository_it_was_made_with() {
    let temp = TempDir::new().unwrap();
    let repo = Repository::init(temp.path()).unwrap();
    let other = TempDir::new().unwrap();
    let _second = Repository::init(other.path()).unwrap();
    let path = repo.path().to_path_buf();
    let statuses = Statuses::query(&repo).unwrap();
    let mut app = App::new(repo, statuses);
    assert_eq!(app.repo().path(), path);
    app.next();
    app.insert_char('x');
    app.stage_all().unwrap();
    assert_eq!(app.repo().path(), path);
}

#[test]
fn a_new_snapshot_carries_the_selection_over() {
    let (_temp, mut app) = app_with_modified(&["a.txt", "b.txt", "c.txt"]);
    app.next();
    app.next();
    app.store_diff(vec!["x".to_string()], false);
    app.refresh(Statuses::from_records(vec![record("a.txt", 0x100), record("b.txt", 0x100)]));
    assert_eq!(app.selected(), Some(1));
    assert!(app.cached_diff().is_none());
    app.refresh(Statuses::from_records(vec![record("a.txt", 0x100), record("b.txt", 0x100)]));
    assert_eq!(app.selected(), Some(1));
    app.refresh(Statuses::from_records(Vec::new()));
    assert_eq!(app.selected(), None);
    app.refresh(Statuses::from_records(vec![record("z.txt", 0x1)]));
    assert_eq!(app.selected(), Some(0));
}

#[test]
fn a_failed_question_keeps_the_snapshot_and_drops_the_cache() {
    let (_temp, mut app) = app_with_modified(&["a.txt"]);
    app.store_diff(vec!["x".to_string()], false);
    let failure = Failure::Count("why".to_string());
    let r = app.settle(Ok(()), Err(failure));
    assert!(matches!(r, Err(Failure::Count(_))));
    assert_eq!(sides(&app), vec![("a.txt".to_string(), None, Some(StatusChange::Modified))]);
    assert!(app.cached_diff().is_none());
    let r = app.settle(Err(Failure::Count("first".to_string())), Err(Failure::Count("second".to_string())));
    assert!(matches!(r, Err(Failure::Count(ref text)) if text == "first"));
    let r = app.settle(Err(Failure::Count("first".to_string())), Ok(Statuses::from_records(Vec::new())));
    assert!(matches!(r, Err(Failure::Count(ref text)) if text == "first"));
    assert!(app.statuses().is_clean());
    assert!(app.settle(Ok(()), Ok(Statuses::from_records(Vec::new()))).is_ok());
}

#[test]
fn at_most_ten_recent_commits_are_kept_the_latest_first() {
    let temp = TempDir::new().unwrap();
    let repo = Repository::init(temp.path()).unwrap();
    assert!(App::get_recent_commits(&repo).is_empty());
    for n in 1..=12 {
        write_file(&repo, "a.txt", &format!("content {}", n));
        commit_all(&repo, &["a.txt"], &format!("Commit {}\n\nbody", n));
    }
    let recent = App::get_recent_commits(&repo);
    assert_eq!(recent.len(), 10);
    assert_eq!(recent[0], "Commit 12\n\nbody");
    assert_eq!(recent[9], "Commit 3\n\nbody");
}

#[test]
fn what_a_toggle_does_goes_by_the_staged_side() {
    let file = |staged, unstaged| Status { path: "a".to_string(), staged, unstaged };
    assert_eq!(toggle_action(&file(None, Some(StatusChange::Modified))), StageAction::Stage);
    assert_eq!(toggle_action(&file(Some(StatusChange::Modified), None)), StageAction::Unstage);
    assert_eq!(
        toggle_action(&file(Some(StatusChange::Added), Some(StatusChange::Modified))),
        StageAction::Unstage
    );
}

#[test]
fn what_the_toggle_of_all_files_does_to_a_file() {
    let file = |staged, unstaged| Status { path: "a".to_string(), staged, unstaged };
    let unstaged = file(None, Some(StatusChange::Modified));
    let staged = file(Some(StatusChange::Added), None);
    let both = file(Some(StatusChange::Modified), Some(StatusChange::Deleted));
    assert_eq!(file_action(true, &unstaged), Some(StageAction::Stage));
    assert_eq!(file_action(true, &staged), Some(StageAction::Stage));
    assert_eq!(file_action(true, &both), Some(StageAction::Stage));
    assert_eq!(file_action(false, &staged), Some(StageAction::Unstage));
    assert_eq!(file_action(false, &both), Some(StageAction::Unstage));
    assert_eq!(file_action(false, &unstaged), None);
    assert!(has_unstaged(&[file(Some(StatusChange::Added), None), both]));
    assert!(!has_unstaged(&[file(Some(StatusChange::Added), None)]));
    assert!(!has_unstaged(&[]));
}

#[test]
fn keys_stand_for_commands() {
    assert_eq!(command_for(Key::Char('q'), true, true), Some(Command::Quit));
    assert_eq!(command_for(Key::Char('q'), false, true), Some(Command::InsertChar('q')));
    assert_eq!(command_for(Key::Char('s'), true, true), Some(Command::SelectNext));
    assert_eq!(command_for(Key::Char('w'), true, true), Some(Command::SelectPrevious));
    assert_eq!(command_for(Key::Char(' '), true, true), Some(Command::ToggleStage));
    assert_eq!(command_for(Key::Char(' '), false, true), Some(Command::InsertChar(' ')));
    assert_eq!(command_for(Key::Char('a'), true, true), Some(Command::StageAllToggle));
    assert_eq!(command_for(Key::Char('x'), true, true), Some(Command::InsertChar('x')));
    assert_eq!(command_for(Key::Down, false, true), Some(Command::ScrollDiffDown));
    assert_eq!(command_for(Key::Up, true, true), Some(Command::ScrollDiffUp));
    assert_eq!(command_for(Key::Left, false, true), Some(Command::MoveLeft));
    assert_eq!(command_for(Key::Right, false, true), Some(Command::MoveRight));
    assert_eq!(command_for(Key::Backspace, false, true), Some(Command::Backspace));
    assert_eq!(command_for(Key::Enter, false, true), Some(Command::InsertNewline));
    assert_eq!(command_for(Key::Other, false, true), None);
    assert_eq!(command_for(Key::Char('q'), true, false), None);
    assert_eq!(command_for(Key::Down, false, false), None);
}

#[test]
fn editing_commands_change_the_message_alone() {
    let (_temp, mut app) = app_with_modified(&["a.txt", "b.txt"]);
    app.store_diff(vec!["x".to_string()], false);
    for c in "hi\u{1f600}".chars() {
        assert!(matches!(app.apply(Command::InsertChar(c)), Ok(Flow::Continue)));
    }
    assert!(matches!(app.apply(Command::InsertNewline), Ok(Flow::Continue)));
    assert_eq!(app.editor().text(), "hi\u{1f600}\n");
    assert_eq!(app.editor().cursor(), 7);
    app.apply(Command::MoveLeft).unwrap();
    app.apply(Command::MoveLeft).unwrap();
    assert_eq!(app.editor().cursor(), 2);
    app.apply(Command::Backspace).unwrap();
    assert_eq!(app.editor().text(), "h\u{1f600}\n");
    app.apply(Command::MoveRight).unwrap();
    assert_eq!(app.editor().cursor(), 5);
    assert_eq!(app.selected(), Some(0));
    assert_eq!(app.diff_scroll(), 0);
    assert!(app.cached_diff().is_some());
    assert_eq!(app.statuses().files().len(), 2);
}

#[test]
fn commands_are_carried_out() {
    let (_temp, mut app) = app_with_modified(&["a.txt", "b.txt"]);
    assert!(matches!(app.apply(Command::SelectNext), Ok(Flow::Continue)));
    assert_eq!(app.selected(), Some(1));
    assert!(matches!(app.apply(Command::SelectPrevious), Ok(Flow::Continue)));
    assert_eq!(app.selected(), Some(0));
    assert!(matches!(app.apply(Command::ScrollDiffDown), Ok(Flow::Continue)));
    assert_eq!(app.diff_scroll(), 1);
    assert!(matches!(app.apply(Command::ScrollDiffUp), Ok(Flow::Continue)));
    assert_eq!(app.diff_scroll(), 0);
    assert!(matches!(app.apply(Command::ToggleStage), Ok(Flow::Continue)));
    assert_eq!(app.statuses().files()[0].staged, Some(StatusChange::Modified));
    assert!(matches!(app.apply(Command::StageAllToggle), Ok(Flow::Continue)));
    assert!(app.statuses().files().iter().all(|f| f.unstaged.is_none()));
    assert!(matches!(app.apply(Command::Quit), Ok(Flow::Quit)));
    assert_eq!(app.selected(), Some(0));
}
