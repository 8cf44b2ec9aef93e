//! The state behind the screen: the snapshot, the selected file, the diff
//! cache and its scroll offset, the commit message and the recent commits,
//! and the commands that change them.

use vstd::prelude::*;
use vstd::string::*;
use crate::editor::{EditorBuffer, EditorView};
use crate::error::Failure;
use crate::repository::{commit_message, walk_next};
use crate::staging::{stage_file, unstage_file};
use crate::status::{Status, StatusView, Statuses};
use crate::text::texts;

verus! {

/// How many recent commit messages are kept.
pub const RECENT_CAPACITY: usize = 10;

/// The rendered diff of one file, kept until the selection or the index
/// changes.
pub struct DiffCacheEntry {
    pub selected_index: usize,
    pub lines: Vec<String>,
    pub is_staged: bool,
}

/// What a cached diff holds.
pub struct DiffCacheView {
    pub selected_index: usize,
    pub lines: Seq<Seq<char>>,
    pub is_staged: bool,
}

impl View for DiffCacheEntry {
    type V = DiffCacheView;

    open spec fn view(&self) -> DiffCacheView {
        DiffCacheView {
            selected_index: self.selected_index,
            lines: texts(self.lines@),
            is_staged: self.is_staged,
        }
    }
}

/// What a toggle does to a file.
#[derive(Clone, Copy, Debug, PartialEq, Eq, Structural)]
pub enum StageAction {
    Stage,
    Unstage,
}

/// Whether the event loop goes on after a command.
#[derive(Clone, Copy, Debug, PartialEq, Eq, Structural)]
pub enum Flow {
    Continue,
    Quit,
}

/// A key as the terminal reports it.
#[derive(Clone, Copy, Debug, PartialEq, Eq, Structural)]
pub enum Key {
    Char(char),
    Up,
    Down,
    Left,
    Right,
    Backspace,
    Enter,
    Other,
}

/// A command of the user.
#[derive(Clone, Copy, Debug, PartialEq, Eq, Structural)]
pub enum Command {
    Quit,
    ScrollDiffDown,
    ScrollDiffUp,
    SelectNext,
    SelectPrevious,
    ToggleStage,
    StageAllToggle,
    MoveLeft,
    MoveRight,
    Backspace,
    InsertNewline,
    InsertChar(char),
}

/// The command that a key stands for. Only a key press counts. With the
/// control key held, `q` quits, `s` and `w` select the next and the previous
/// file, the space bar toggles the selected file and `a` toggles all files;
/// the arrow keys scroll the diff and move the cursor; every other character
/// is typed into the commit message.
pub open spec fn spec_command_for(key: Key, ctrl: bool, pressed: bool) -> Option<Command> {
    if !pressed {
        None
    } else {
        match key {
            Key::Char(c) => if ctrl && c == 'q' {
                Some(Command::Quit)
            } else if ctrl && c == 's' {
                Some(Command::SelectNext)
            } else if ctrl && c == 'w' {
                Some(Command::SelectPrevious)
            } else if ctrl && c == ' ' {
                Some(Command::ToggleStage)
            } else if ctrl && c == 'a' {
                Some(Command::StageAllToggle)
            } else {
                Some(Command::InsertChar(c))
            },
            Key::Down => Some(Command::ScrollDiffDown),
            Key::Up => Some(Command::ScrollDiffUp),
            Key::Left => Some(Command::MoveLeft),
            Key::Right => Some(Command::MoveRight),
            Key::Backspace => Some(Command::Backspace),
            Key::Enter => Some(Command::InsertNewline),
            Key::Other => None,
        }
    }
}

/// The command that a key stands for.
pub fn command_for(key: Key, ctrl: bool, pressed: bool) -> (r: Option<Command>)
    ensures
        r == spec_command_for(key, ctrl, pressed),
{
    if !pressed {
        return None;
    }
    match key {
        Key::Char(c) => {
            if ctrl && c == 'q' {
                Some(Command::Quit)
            } else if ctrl && c == 's' {
                Some(Command::SelectNext)
            } else if ctrl && c == 'w' {
                Some(Command::SelectPrevious)
            } else if ctrl && c == ' ' {
                Some(Command::ToggleStage)
            } else if ctrl && c == 'a' {
                Some(Command::StageAllToggle)
            } else {
                Some(Command::InsertChar(c))
            }
        },
        Key::Down => Some(Command::ScrollDiffDown),
        Key::Up => Some(Command::ScrollDiffUp),
        Key::Left => Some(Command::MoveLeft),
        Key::Right => Some(Command::MoveRight),
        Key::Backspace => Some(Command::Backspace),
        Key::Enter => Some(Command::InsertNewline),
        Key::Other => None,
    }
}

/// A selection fits a snapshot when it names one of its entries, or nothing
/// where there is none.
pub open spec fn selection_fits(selection: Option<usize>, len: nat) -> bool {
    match selection {
        Some(i) => i < len,
        None => len == 0,
    }
}

/// The selection after a step forwards: the next entry, and the first one
/// after the last.
pub open spec fn next_index(selection: Option<usize>, len: nat) -> Option<usize> {
    if len == 0 {
        None
    } else {
        match selection {
            Some(i) => if i + 1 >= len {
                Some(0)
            } else {
                Some((i + 1) as usize)
            },
            None => Some(0),
        }
    }
}

/// The selection after a step backwards: the entry before, and the last one
/// before the first.
pub open spec fn previous_index(selection: Option<usize>, len: nat) -> Option<usize> {
    if len == 0 {
        None
    } else {
        match selection {
            Some(i) => if i == 0 || i > len {
                Some((len - 1) as usize)
            } else {
                Some((i - 1) as usize)
            },
            None => Some(0),
        }
    }
}

/// The selection carried over to a snapshot of `len` entries: kept where it
/// still names an entry, moved to the last entry where it lies behind it, the
/// first entry where nothing was selected, and nothing where there are no
/// entries.
pub open spec fn clamp_selection(selection: Option<usize>, len: nat) -> Option<usize> {
    if len == 0 {
        None
    } else {
        match selection {
            Some(i) => if i < len {
                Some(i)
            } else {
                Some((len - 1) as usize)
            },
            None => Some(0),
        }
    }
}

/// What a toggle does to a file: it takes a file with a staged change out of
/// the index again and puts any other file in.
pub open spec fn spec_toggle_action(file: StatusView) -> StageAction {
    if file.staged is Some {
        StageAction::Unstage
    } else {
        StageAction::Stage
    }
}

/// Whether any entry has a change that is not staged.
pub open spec fn any_unstaged(snapshot: Seq<StatusView>) -> bool {
    exists|i: int| 0 <= i < snapshot.len() && (#[trigger] snapshot[i]).unstaged is Some
}

/// What the toggle of all files does to a file. Where files are staged,
/// every file is, whatever its own state; where they are unstaged, every file
/// with a staged change is.
pub open spec fn spec_file_action(stage: bool, file: StatusView) -> Option<StageAction> {
    if stage {
        Some(StageAction::Stage)
    } else if file.staged is Some {
        Some(StageAction::Unstage)
    } else {
        None
    }
}

/// What the toggle of all files does to entry `i`: files are staged where any
/// file has an unstaged change, and unstaged otherwise.
pub open spec fn bulk_action(snapshot: Seq<StatusView>, i: int) -> Option<StageAction> {
    spec_file_action(any_unstaged(snapshot), snapshot[i])
}

/// What the state holds.
pub struct AppView {
    pub repo: git2::Repository,
    pub snapshot: Seq<StatusView>,
    pub selection: Option<usize>,
    pub diff_scroll: u16,
    pub editor: EditorView,
    pub recent: Seq<Seq<char>>,
    pub cache: Option<DiffCacheView>,
}

impl AppView {
    /// The selection names an entry of the snapshot, or nothing where the
    /// snapshot is empty; a cached diff belongs to the selected entry; at
    /// most ten recent commits are kept.
    pub open spec fn wf(self) -> bool {
        &&& selection_fits(self.selection, self.snapshot.len())
        &&& self.editor.wf()
        &&& self.recent.len() <= RECENT_CAPACITY
        &&& (self.cache matches Some(c) ==> self.selection == Some(c.selected_index))
        &&& forall|i: int| 0 <= i < self.snapshot.len() ==>
            (#[trigger] self.snapshot[i]).is_changed()
    }

    /// The next entry is selected, the diff scrolled to its top and the cached
    /// diff dropped.
    pub open spec fn select_next(self) -> AppView {
        AppView {
            selection: next_index(self.selection, self.snapshot.len()),
            diff_scroll: 0,
            cache: None,
            ..self
        }
    }

    /// The entry before is selected, the diff scrolled to its top and the
    /// cached diff dropped.
    pub open spec fn select_previous(self) -> AppView {
        AppView {
            selection: previous_index(self.selection, self.snapshot.len()),
            diff_scroll: 0,
            cache: None,
            ..self
        }
    }

    /// The diff is scrolled down by a line, as far as the counter goes.
    pub open spec fn scroll_down(self) -> AppView {
        AppView {
            diff_scroll: if self.diff_scroll < u16::MAX {
                (self.diff_scroll + 1) as u16
            } else {
                self.diff_scroll
            },
            ..self
        }
    }

    /// The diff is scrolled up by a line, not beyond its top.
    pub open spec fn scroll_up(self) -> AppView {
        AppView {
            diff_scroll: if self.diff_scroll > 0 {
                (self.diff_scroll - 1) as u16
            } else {
                self.diff_scroll
            },
            ..self
        }
    }

    /// The cached diff is dropped.
    pub open spec fn invalidated(self) -> AppView {
        AppView { cache: None, ..self }
    }

    /// A new snapshot takes the place of the old one: the cached diff is
    /// dropped and the selection carried over.
    pub open spec fn refreshed(self, snapshot: Seq<StatusView>) -> AppView {
        AppView {
            snapshot,
            selection: clamp_selection(self.selection, snapshot.len()),
            cache: None,
            ..self
        }
    }

    /// The state after the index was changed and the repository asked again:
    /// with the new snapshot where there is one, and otherwise as before,
    /// without the cached diff.
    pub open spec fn settled(self, queried: Option<Seq<StatusView>>) -> AppView {
        match queried {
            Some(snapshot) => self.refreshed(snapshot),
            None => self.invalidated(),
        }
    }

    /// The commit message is another one; nothing else is.
    pub open spec fn with_editor(self, editor: EditorView) -> AppView {
        AppView { editor, ..self }
    }

    /// A character is typed into the commit message, where it has room.
    pub open spec fn typed(self, c: char) -> AppView {
        if self.editor.has_room() {
            self.with_editor(self.editor.insert(c))
        } else {
            self
        }
    }

    /// The cached diff, where it belongs to the selected entry.
    pub open spec fn cached_for_selection(self) -> Option<DiffCacheView> {
        match (self.cache, self.selection) {
            (Some(c), Some(i)) => if c.selected_index == i {
                Some(c)
            } else {
                None
            },
            _ => None,
        }
    }
}

/// The state of the application.
pub struct App {
    repo: git2::Repository,
    statuses: Statuses,
    selection: Option<usize>,
    diff_scroll: u16,
    editor: EditorBuffer,
    recent_commits: Vec<String>,
    cached_diff: Option<DiffCacheEntry>,
}

impl View for App {
    type V = AppView;

    closed spec fn view(&self) -> AppView {
        AppView {
            repo: self.repo,
            snapshot: self.statuses@,
            selection: self.selection,
            diff_scroll: self.diff_scroll,
            editor: self.editor@,
            recent: texts(self.recent_commits@),
            cache: match self.cached_diff {
                Some(c) => Some(c@),
                None => None,
            },
        }
    }
}

/// What a toggle does to `file`.
pub fn toggle_action(file: &Status) -> (a: StageAction)
    ensures
        a == spec_toggle_action(file@),
{
    if file.staged.is_some() {
        StageAction::Unstage
    } else {
        StageAction::Stage
    }
}

/// What the toggle of all files does to `file`, where `stage` says whether
/// files are staged or unstaged.
pub fn file_action(stage: bool, file: &Status) -> (a: Option<StageAction>)
    ensures
        a == spec_file_action(stage, file@),
{
    if stage {
        Some(StageAction::Stage)
    } else if file.staged.is_some() {
        Some(StageAction::Unstage)
    } else {
        None
    }
}

/// Whether any of `files` has a change that is not staged.
pub fn has_unstaged(files: &[Status]) -> (r: bool)
    ensures
        r == any_unstaged(Seq::new(files@.len(), |i: int| files@[i]@)),
{
    let ghost snapshot = Seq::new(files@.len(), |i: int| files@[i]@);
    let mut i: usize = 0;
    while i < files.len()
        invariant
            i <= files@.len(),
            snapshot == Seq::new(files@.len(), |i: int| files@[i]@),
            forall|j: int| 0 <= j < i ==> (#[trigger] snapshot[j]).unstaged is None,
        decreases files@.len() - i,
    {
        if files[i].unstaged.is_some() {
            assert(snapshot[i as int].unstaged is Some);
            return true;
        }
        i = i + 1;
    }
    false
}

impl App {
    /// Whether the state is consistent. Every state that the library hands
    /// out is.
    pub open spec fn wf(&self) -> bool {
        self@.wf()
    }

    /// The repository that the state belongs to.
    pub fn repo(&self) -> (r: &git2::Repository)
        ensures
            *r == self@.repo,
    {
        &self.repo
    }

    /// The snapshot.
    pub fn statuses(&self) -> (s: &Statuses)
        ensures
            s@ == self@.snapshot,
    {
        &self.statuses
    }

    /// The index of the selected entry.
    pub fn selected(&self) -> (r: Option<usize>)
        ensures
            r == self@.selection,
    {
        self.selection
    }

    /// How many lines of the diff are scrolled away.
    pub fn diff_scroll(&self) -> (r: u16)
        ensures
            r == self@.diff_scroll,
    {
        self.diff_scroll
    }

    /// The commit message.
    pub fn editor(&self) -> (e: &EditorBuffer)
        ensures
            e@ == self@.editor,
    {
        &self.editor
    }

    /// The messages of the most recent commits, the latest first.
    pub fn recent_commits(&self) -> (r: &Vec<String>)
        ensures
            texts(r@) == self@.recent,
    {
        &self.recent_commits
    }

    /// Keeps the message of a commit, from what reading the commit came to:
    /// a message that was read is added behind the others; a commit that could
    /// not be read, or whose message is not valid UTF-8, adds nothing.
    pub fn keep_message(commits: &mut Vec<String>, read: Result<Option<String>, git2::Error>)
        ensures
            final(commits)@ == (match read {
                Ok(Some(message)) => old(commits)@.push(message),
                _ => old(commits)@,
            }),
    {
        match read {
            Ok(Some(message)) => {
                commits.push(message);
            },
            _ => {},
        }
    }

    /// The messages of the commits that a walk from HEAD meets first, at
    /// most ten of them. A commit that cannot be read, or whose message is not
    /// valid UTF-8, is passed over; where the history cannot be walked there
    /// are none.
    pub fn get_recent_commits(repo: &git2::Repository) -> (commits: Vec<String>)
        ensures
            commits@.len() <= RECENT_CAPACITY,
    {
        let mut commits: Vec<String> = Vec::new();
        match repo.revwalk() {
            Ok(walk) => {
                let mut walk = walk;
                if walk.push_head().is_ok() {
                    let mut taken: usize = 0;
                    while taken < RECENT_CAPACITY
                        invariant
                            commits@.len() <= taken <= RECENT_CAPACITY,
                        decreases RECENT_CAPACITY - taken,
                    {
                        match walk_next(&mut walk) {
                            Some(step) => {
                                match step {
                                    Ok(id) => {
                                        Self::keep_message(
                                            &mut commits,
                                            commit_message(repo, id),
                                        );
                                    },
                                    Err(_) => {},
                                }
                            },
                            None => {
                                break ;
                            },
                        }
                        taken = taken + 1;
                    }
                }
            },
            Err(_) => {},
        }
        commits
    }

    /// The state at the start: the first entry selected where there is one,
    /// an empty commit message, nothing cached.
    pub fn new(repo: git2::Repository, statuses: Statuses) -> (app: App)
        ensures
            app.wf(),
            app@.repo == repo,
            app@.snapshot == statuses@,
            app@.selection == (if statuses@.len() > 0 {
                Some(0usize)
            } else {
                None
            }),
            app@.diff_scroll == 0,
            app@.editor.text == Seq::<char>::empty(),
            app@.editor.pos == 0,
            app@.cache is None,
    {
        let selection = if statuses.len() > 0 {
            Some(0)
        } else {
            None
        };
        let recent_commits = Self::get_recent_commits(&repo);
        let app = App {
            repo,
            statuses,
            selection,
            diff_scroll: 0,
            editor: EditorBuffer::new(),
            recent_commits,
            cached_diff: None,
        };
        app
    }
    /// The selected entry.
    pub fn selected_file(&self) -> (r: Option<&Status>)
        requires
            self.wf(),
        ensures
            r is Some == self@.selection is Some,
            r matches Some(file) ==> file@ == self@.snapshot[self@.selection->0 as int],
    {
        match self.selection {
            Some(i) => {
                let files = self.statuses.files();
                Some(&files[i])
            },
            None => None,
        }
    }

    /// Selects the next entry, the first one after the last; the diff is
    /// scrolled back to its top and the cached diff dropped.
    pub fn next(&mut self)
        requires
            old(self).wf(),
        ensures
            final(self).wf(),
            final(self)@ == old(self)@.select_next(),
            final(self)@.snapshot.len() > 0 ==> final(self)@.selection is Some
                && final(self)@.selection->0 < final(self)@.snapshot.len(),
            final(self)@.cached_for_selection() is None,
    {
        let len = self.statuses.len();
        let i = if len == 0 {
            None
        } else {
            match self.selection {
                Some(i) => if i >= len - 1 {
                    Some(0)
                } else {
                    Some(i + 1)
                },
                None => Some(0),
            }
        };
        self.selection = i;
        self.diff_scroll = 0;
        self.cached_diff = None;
    }

    /// Selects the entry before, the last one before the first; the diff is
    /// scrolled back to its top and the cached diff dropped.
    pub fn previous(&mut self)
        requires
            old(self).wf(),
        ensures
            final(self).wf(),
            final(self)@ == old(self)@.select_previous(),
            final(self)@.snapshot.len() > 0 ==> final(self)@.selection is Some
                && final(self)@.selection->0 < final(self)@.snapshot.len(),
            final(self)@.cached_for_selection() is None,
    {
        let len = self.statuses.len();
        let i = if len == 0 {
            None
        } else {
            match self.selection {
                Some(i) => if i == 0 || i > len {
                    Some(len - 1)
                } else {
                    Some(i - 1)
                },
                None => Some(0),
            }
        };
        self.selection = i;
        self.diff_scroll = 0;
        self.cached_diff = None;
    }

    /// Scrolls the diff down by a line, as far as the counter goes.
    pub fn scroll_diff_down(&mut self)
        requires
            old(self).wf(),
        ensures
            final(self).wf(),
            final(self)@ == old(self)@.scroll_down(),
    {
        self.diff_scroll = self.diff_scroll.saturating_add(1);
    }

    /// Scrolls the diff up by a line, not beyond its top.
    pub fn scroll_diff_up(&mut self)
        requires
            old(self).wf(),
        ensures
            final(self).wf(),
            final(self)@ == old(self)@.scroll_up(),
    {
        self.diff_scroll = self.diff_scroll.saturating_sub(1);
    }

    /// Puts a new snapshot in the place of the old one. The cached diff is
    /// dropped; the selection stays where it still names an entry, moves to
    /// the last entry where it lies behind it, and is cleared where no entry
    /// is left.
    pub fn refresh(&mut self, statuses: Statuses)
        requires
            old(self).wf(),
        ensures
            final(self).wf(),
            final(self)@ == old(self)@.refreshed(statuses@),
    {
        let len = statuses.len();
        let selection = if len == 0 {
            None
        } else {
            match self.selection {
                Some(i) => if i < len {
                    Some(i)
                } else {
                    Some(len - 1)
                },
                None => Some(0),
            }
        };
        self.cached_diff = None;
        self.statuses = statuses;
        self.selection = selection;
    }

    /// Takes in what a change of the index and the question to the repository
    /// that follows it came to. With a new snapshot the state is refreshed;
    /// without one it stays, short of the cached diff. The failure of the
    /// change is reported before that of the question.
    pub fn settle(
        &mut self,
        changed: Result<(), Failure>,
        queried: Result<Statuses, Failure>,
    ) -> (r: Result<(), Failure>)
        requires
            old(self).wf(),
        ensures
            final(self).wf(),
            final(self)@ == old(self)@.settled(
                match queried {
                    Ok(s) => Some(s@),
                    Err(_) => None,
                },
            ),
            changed is Err ==> r == changed,
            changed is Ok ==> (r is Ok <==> queried is Ok),
            changed is Ok ==> (queried matches Err(e) ==> r == Err::<(), Failure>(e)),
    {
        let asked = match queried {
            Ok(statuses) => {
                self.refresh(statuses);
                Ok(())
            },
            Err(e) => {
                self.cached_diff = None;
                Err(e)
            },
        };
        match changed {
            Ok(()) => asked,
            Err(e) => Err(e),
        }
    }

    /// Stages the selected file, or unstages it where it has a staged change,
    /// and asks the repository for its status again. With no file selected
    /// nothing happens.
    ///
    /// What the repository answers is not known here. Whatever it is, the
    /// state afterwards is the old one refreshed with the snapshot it now
    /// holds, or, where the repository could not be asked, the old one
    /// without its cached diff. A failure does not undo the question: the
    /// snapshot shows what the repository holds after the attempt.
    pub fn toggle_stage(&mut self) -> (r: Result<(), Failure>)
        requires
            old(self).wf(),
        ensures
            final(self).wf(),
            old(self)@.selection is None ==> r is Ok && final(self)@ == old(self)@,
            old(self)@.selection is Some ==> final(self)@ == old(self)@.refreshed(
                final(self)@.snapshot,
            ) || final(self)@ == old(self)@.invalidated(),
            old(self)@.selection is Some && r is Ok ==> final(self)@ == old(self)@.refreshed(
                final(self)@.snapshot,
            ),
            r matches Err(e) ==> e is IndexWrite || e is RepositoryAccess,
    {
        let changed = match self.selected_file() {
            Some(file) => {
                match toggle_action(file) {
                    StageAction::Unstage => unstage_file(&self.repo, file.path.as_str()),
                    StageAction::Stage => stage_file(&self.repo, file.path.as_str()),
                }
            },
            None => {
                return Ok(());
            },
        };
        let queried = Statuses::query(&self.repo);
        self.settle(changed, queried)
    }

    /// Stages every file where any file has an unstaged change, and otherwise
    /// unstages every file that has a staged change; then asks the repository
    /// for its status again. The first failure ends the changes.
    ///
    /// The state afterwards is the old one refreshed with the snapshot that
    /// the repository now holds, or, where it could not be asked, the old one
    /// without its cached diff.
    pub fn stage_all(&mut self) -> (r: Result<(), Failure>)
        requires
            old(self).wf(),
        ensures
            final(self).wf(),
            final(self)@ == old(self)@.refreshed(final(self)@.snapshot) || final(self)@ == old(
                self,
            )@.invalidated(),
            r is Ok ==> final(self)@ == old(self)@.refreshed(final(self)@.snapshot),
            r matches Err(e) ==> e is IndexWrite || e is RepositoryAccess,
    {
        let files = self.statuses.files();
        let stage = has_unstaged(files);
        let mut changed: Result<(), Failure> = Ok(());
        let mut i: usize = 0;
        while i < files.len() && changed.is_ok()
            invariant
                i <= files@.len(),
                changed matches Err(e) ==> e is IndexWrite || e is RepositoryAccess,
            decreases files@.len() - i,
        {
            match file_action(stage, &files[i]) {
                Some(StageAction::Stage) => {
                    changed = stage_file(&self.repo, files[i].path.as_str());
                },
                Some(StageAction::Unstage) => {
                    changed = unstage_file(&self.repo, files[i].path.as_str());
                },
                None => {},
            }
            i = i + 1;
        }
        let queried = Statuses::query(&self.repo);
        self.settle(changed, queried)
    }

    /// The cached diff, where there is one for the selected entry.
    pub fn cached_diff(&self) -> (r: Option<&DiffCacheEntry>)
        requires
            self.wf(),
        ensures
            match r {
                Some(c) => Some(c@),
                None => None,
            } == self@.cached_for_selection(),
    {
        match &self.cached_diff {
            Some(c) => Some(c),
            None => None,
        }
    }

    /// Keeps a rendered diff for the selected entry. With nothing selected
    /// nothing is kept.
    pub fn store_diff(&mut self, lines: Vec<String>, is_staged: bool)
        requires
            old(self).wf(),
        ensures
            final(self).wf(),
            final(self)@ == (AppView {
                cache: match old(self)@.selection {
                    Some(i) => Some(
                        DiffCacheView { selected_index: i, lines: texts(lines@), is_staged },
                    ),
                    None => None,
                },
                ..old(self)@
            }),
    {
        match self.selection {
            Some(i) => {
                self.cached_diff = Some(DiffCacheEntry { selected_index: i, lines, is_staged });
            },
            None => {
                self.cached_diff = None;
            },
        }
    }

    /// Types a character into the commit message, where it has room.
    pub fn insert_char(&mut self, c: char)
        requires
            old(self).wf(),
        ensures
            final(self).wf(),
            final(self)@ == old(self)@.typed(c),
    {
        if self.editor.has_room() {
            self.editor.insert_char(c);
        }
    }

    /// Breaks the line of the commit message at the cursor, where the
    /// message has room.
    pub fn insert_newline(&mut self)
        requires
            old(self).wf(),
        ensures
            final(self).wf(),
            final(self)@ == old(self)@.typed('\n'),
    {
        if self.editor.has_room() {
            self.editor.insert_newline();
        }
    }

    /// Deletes the character before the cursor of the commit message.
    pub fn backspace(&mut self)
        requires
            old(self).wf(),
        ensures
            final(self).wf(),
            final(self)@ == old(self)@.with_editor(old(self)@.editor.backspace()),
    {
        self.editor.backspace();
    }

    /// Moves the cursor of the commit message a character to the left.
    pub fn move_left(&mut self)
        requires
            old(self).wf(),
        ensures
            final(self).wf(),
            final(self)@ == old(self)@.with_editor(old(self)@.editor.left()),
    {
        self.editor.move_left();
    }

    /// Moves the cursor of the commit message a character to the right.
    pub fn move_right(&mut self)
        requires
            old(self).wf(),
        ensures
            final(self).wf(),
            final(self)@ == old(self)@.with_editor(old(self)@.editor.right()),
    {
        self.editor.move_right();
    }

    /// Carries out a command. Editing changes the commit message alone;
    /// selecting changes the selection, the scroll offset and the cache;
    /// scrolling changes the scroll offset alone; quitting changes nothing
    /// and ends the loop.
    pub fn apply(&mut self, command: Command) -> (r: Result<Flow, Failure>)
        requires
            old(self).wf(),
        ensures
            final(self).wf(),
            r matches Ok(flow) ==> (flow == Flow::Quit <==> command == Command::Quit),
            r matches Err(e) ==> e is IndexWrite || e is RepositoryAccess,
            match command {
                Command::Quit => r is Ok && final(self)@ == old(self)@,
                Command::ScrollDiffDown => r is Ok && final(self)@ == old(self)@.scroll_down(),
                Command::ScrollDiffUp => r is Ok && final(self)@ == old(self)@.scroll_up(),
                Command::SelectNext => r is Ok && final(self)@ == old(self)@.select_next(),
                Command::SelectPrevious => r is Ok && final(self)@ == old(self)@.select_previous(),
                Command::ToggleStage => {
                    &&& old(self)@.selection is None ==> r is Ok && final(self)@ == old(self)@
                    &&& old(self)@.selection is Some ==> final(self)@ == old(self)@.refreshed(
                        final(self)@.snapshot,
                    ) || final(self)@ == old(self)@.invalidated()
                },
                Command::StageAllToggle => final(self)@ == old(self)@.refreshed(
                    final(self)@.snapshot,
                ) || final(self)@ == old(self)@.invalidated(),
                Command::MoveLeft => r is Ok && final(self)@ == old(self)@.with_editor(
                    old(self)@.editor.left(),
                ),
                Command::MoveRight => r is Ok && final(self)@ == old(self)@.with_editor(
                    old(self)@.editor.right(),
                ),
                Command::Backspace => r is Ok && final(self)@ == old(self)@.with_editor(
                    old(self)@.editor.backspace(),
                ),
                Command::InsertNewline => r is Ok && final(self)@ == old(self)@.typed('\n'),
                Command::InsertChar(c) => r is Ok && final(self)@ == old(self)@.typed(c),
            },
    {
        match command {
            Command::Quit => {
                return Ok(Flow::Quit);
            },
            Command::ScrollDiffDown => self.scroll_diff_down(),
            Command::ScrollDiffUp => self.scroll_diff_up(),
            Command::SelectNext => self.next(),
            Command::SelectPrevious => self.previous(),
            Command::ToggleStage => {
                match self.toggle_stage() {
                    Ok(()) => {},
                    Err(e) => {
                        return Err(e);
                    },
                }
            },
            Command::StageAllToggle => {
                match self.stage_all() {
                    Ok(()) => {},
                    Err(e) => {
                        return Err(e);
                    },
                }
            },
            Command::MoveLeft => self.move_left(),
            Command::MoveRight => self.move_right(),
            Command::Backspace => self.backspace(),
            Command::InsertNewline => self.insert_newline(),
            Command::InsertChar(c) => self.insert_char(c),
        }
        Ok(Flow::Continue)
    }
}

/// After a step forwards or backwards the selection names an entry of the
/// snapshot, whenever there is one; a step forwards from the last entry leads
/// to the first, and a step backwards from the first to the last.
pub proof fn lemma_selection_stays_inside(v: AppView)
    requires
        v.wf(),
        0 < v.snapshot.len() <= usize::MAX,
    ensures
        v.select_next().selection is Some,
        v.select_next().selection->0 < v.snapshot.len(),
        v.select_previous().selection is Some,
        v.select_previous().selection->0 < v.snapshot.len(),
        v.selection matches Some(i) && i + 1 == v.snapshot.len() ==> v.select_next().selection
            == Some(0usize),
        v.selection == Some(0usize) ==> v.select_previous().selection->0 + 1 == v.snapshot.len(),
        v.select_next().wf(),
        v.select_previous().wf(),
{
}

/// A change of the selection drops the cached diff: whatever was cached
/// before, nothing is cached for the entry that is selected afterwards, so
/// the diff of one file is never shown for another.
pub proof fn lemma_selection_change_drops_cache(v: AppView)
    requires
        v.wf(),
    ensures
        v.select_next().cached_for_selection() is None,
        v.select_previous().cached_for_selection() is None,
        v.select_next().select_previous().cached_for_selection() is None,
        v.select_previous().select_next().cached_for_selection() is None,
{
}

/// A change of the index drops the cached diff.
pub proof fn lemma_refresh_drops_cache(v: AppView, snapshot: Seq<StatusView>)
    requires
        v.wf(),
        forall|i: int| 0 <= i < snapshot.len() ==> (#[trigger] snapshot[i]).is_changed(),
    ensures
        v.refreshed(snapshot).cache is None,
        v.refreshed(snapshot).wf(),
        v.invalidated().cache is None,
        v.invalidated().wf(),
{
}

/// A toggle undoes itself: a file without a staged change is staged, and
/// the same file, once it has a staged change, is unstaged.
pub proof fn lemma_toggle_inverts(before: StatusView, after: StatusView)
    requires
        before.staged is None,
        after.staged is Some,
    ensures
        spec_toggle_action(before) == StageAction::Stage,
        spec_toggle_action(after) == StageAction::Unstage,
{
}

/// The toggle of all files goes by what it finds: where every file has an
/// unstaged change it stages every file, and where it then finds every file
/// staged and none with an unstaged change it unstages every file.
pub proof fn lemma_bulk_toggle_alternates(before: Seq<StatusView>, after: Seq<StatusView>)
    requires
        before.len() > 0,
        forall|i: int| 0 <= i < before.len() ==> (#[trigger] before[i]).unstaged is Some,
        forall|i: int|
            0 <= i < after.len() ==>
                (#[trigger] after[i]).staged is Some && after[i].unstaged is None,
    ensures
        forall|i: int| 0 <= i < before.len() ==> bulk_action(before, i) == Some(StageAction::Stage),
        forall|i: int| 0 <= i < after.len() ==> bulk_action(after, i) == Some(StageAction::Unstage),
{
}

} // verus!
