//! The status snapshot: for every changed path, what is staged and what is
//! not, each on its own.

use vstd::prelude::*;
use vstd::pervasive::unreached;
use crate::error::Failure;
use crate::repository::{
    scan_statuses, status_at, status_count, status_records, Scan, StatusList, StatusRecord,
    StatusRecordView,
};

verus! {

/// One side of a path's change: the index against HEAD, or the working tree
/// against the index.
#[derive(Clone, Copy, Debug, PartialEq, Eq, Structural)]
pub enum StatusChange {
    Modified,
    Added,
    Deleted,
    Renamed,
    TypeChange,
}

/// A changed path with the two sides of its change.
#[derive(Debug)]
pub struct Status {
    pub path: String,
    pub staged: Option<StatusChange>,
    pub unstaged: Option<StatusChange>,
}

/// What an entry holds.
pub struct StatusView {
    pub path: Seq<char>,
    pub staged: Option<StatusChange>,
    pub unstaged: Option<StatusChange>,
}

impl View for Status {
    type V = StatusView;

    open spec fn view(&self) -> StatusView {
        StatusView { path: self.path@, staged: self.staged, unstaged: self.unstaged }
    }
}

impl StatusView {
    /// A path belongs in a snapshot only while one side of it has changed.
    pub open spec fn is_changed(self) -> bool {
        self.staged is Some || self.unstaged is Some
    }
}

/// The flag of a file that is new in the index. The flags are numbered as
/// the repository library numbers them.
pub const INDEX_NEW: u32 = 0x0001;

/// The flag of a file that is modified in the index.
pub const INDEX_MODIFIED: u32 = 0x0002;

/// The flag of a file that is deleted from the index.
pub const INDEX_DELETED: u32 = 0x0004;

/// The flag of a file that is renamed in the index.
pub const INDEX_RENAMED: u32 = 0x0008;

/// The flag of a file whose type is changed in the index.
pub const INDEX_TYPECHANGE: u32 = 0x0010;

/// The flag of a file that is new in the working tree.
pub const WT_NEW: u32 = 0x0080;

/// The flag of a file that is modified in the working tree.
pub const WT_MODIFIED: u32 = 0x0100;

/// The flag of a file that is deleted from the working tree.
pub const WT_DELETED: u32 = 0x0200;

/// The flag of a file whose type is changed in the working tree.
pub const WT_TYPECHANGE: u32 = 0x0400;

/// The flag of a file that is renamed in the working tree.
pub const WT_RENAMED: u32 = 0x0800;

/// Whether `bits` holds the flag `flag`.
pub open spec fn has_flag(bits: u32, flag: u32) -> bool {
    bits & flag != 0
}

/// The staged side that a set of status flags stands for: the first of new,
/// modified, deleted, renamed and type change that is flagged for the index.
pub open spec fn staged_of(bits: u32) -> Option<StatusChange> {
    if has_flag(bits, INDEX_NEW) {
        Some(StatusChange::Added)
    } else if has_flag(bits, INDEX_MODIFIED) {
        Some(StatusChange::Modified)
    } else if has_flag(bits, INDEX_DELETED) {
        Some(StatusChange::Deleted)
    } else if has_flag(bits, INDEX_RENAMED) {
        Some(StatusChange::Renamed)
    } else if has_flag(bits, INDEX_TYPECHANGE) {
        Some(StatusChange::TypeChange)
    } else {
        None
    }
}

/// The unstaged side that a set of status flags stands for; an untracked file
/// is flagged as new in the working tree and so counts as added.
pub open spec fn unstaged_of(bits: u32) -> Option<StatusChange> {
    if has_flag(bits, WT_NEW) {
        Some(StatusChange::Added)
    } else if has_flag(bits, WT_MODIFIED) {
        Some(StatusChange::Modified)
    } else if has_flag(bits, WT_DELETED) {
        Some(StatusChange::Deleted)
    } else if has_flag(bits, WT_RENAMED) {
        Some(StatusChange::Renamed)
    } else if has_flag(bits, WT_TYPECHANGE) {
        Some(StatusChange::TypeChange)
    } else {
        None
    }
}

/// The path of a record; one that is not valid UTF-8 reads as empty.
pub open spec fn record_path(r: StatusRecordView) -> Seq<char> {
    match r.path {
        Some(p) => p,
        None => Seq::empty(),
    }
}

/// The snapshot entry that a record stands for.
pub open spec fn status_of(r: StatusRecordView) -> StatusView {
    StatusView { path: record_path(r), staged: staged_of(r.bits), unstaged: unstaged_of(r.bits) }
}

/// The snapshot of a list of records: the entries of those that show a change
/// on either side, in the order of the records.
pub open spec fn snapshot_of(records: Seq<StatusRecordView>) -> Seq<StatusView>
    decreases records.len(),
{
    if records.len() == 0 {
        Seq::empty()
    } else {
        let rest = snapshot_of(records.drop_last());
        let entry = status_of(records.last());
        if entry.is_changed() {
            rest.push(entry)
        } else {
            rest
        }
    }
}

/// Every entry of a snapshot shows a change on at least one side.
pub proof fn lemma_snapshot_entries_changed(records: Seq<StatusRecordView>)
    ensures
        forall|i: int| 0 <= i < snapshot_of(records).len() ==>
            (#[trigger] snapshot_of(records)[i]).is_changed(),
    decreases records.len(),
{
    if records.len() > 0 {
        lemma_snapshot_entries_changed(records.drop_last());
        let rest = snapshot_of(records.drop_last());
    }
}

/// A record that differs neither between HEAD and index nor between index and
/// working tree leaves no entry: a snapshot is the same with and without it.
pub proof fn lemma_unchanged_record_leaves_no_entry(
    before: Seq<StatusRecordView>,
    r: StatusRecordView,
    after: Seq<StatusRecordView>,
)
    requires
        staged_of(r.bits) is None,
        unstaged_of(r.bits) is None,
    ensures
        snapshot_of(before.push(r) + after) == snapshot_of(before + after),
    decreases after.len(),
{
    if after.len() == 0 {
        assert(before.push(r).drop_last() == before);
    } else {
        lemma_unchanged_record_leaves_no_entry(before, r, after.drop_last());
        assert((before.push(r) + after).drop_last() == before.push(r) + after.drop_last());
        assert((before + after).drop_last() == before + after.drop_last());
    }
}

/// Reads the two sides of a change off a set of status flags.
pub fn classify(bits: u32) -> (r: (Option<StatusChange>, Option<StatusChange>))
    ensures
        r.0 == staged_of(bits),
        r.1 == unstaged_of(bits),
{
    let staged = if bits & INDEX_NEW != 0 {
        Some(StatusChange::Added)
    } else if bits & INDEX_MODIFIED != 0 {
        Some(StatusChange::Modified)
    } else if bits & INDEX_DELETED != 0 {
        Some(StatusChange::Deleted)
    } else if bits & INDEX_RENAMED != 0 {
        Some(StatusChange::Renamed)
    } else if bits & INDEX_TYPECHANGE != 0 {
        Some(StatusChange::TypeChange)
    } else {
        None
    };
    let unstaged = if bits & WT_NEW != 0 {
        Some(StatusChange::Added)
    } else if bits & WT_MODIFIED != 0 {
        Some(StatusChange::Modified)
    } else if bits & WT_DELETED != 0 {
        Some(StatusChange::Deleted)
    } else if bits & WT_RENAMED != 0 {
        Some(StatusChange::Renamed)
    } else if bits & WT_TYPECHANGE != 0 {
        Some(StatusChange::TypeChange)
    } else {
        None
    };
    (staged, unstaged)
}

/// The snapshot: the changed paths of a repository in the order in which the
/// repository reported them.
pub struct Statuses(Vec<Status>);

impl View for Statuses {
    type V = Seq<StatusView>;

    closed spec fn view(&self) -> Seq<StatusView> {
        Seq::new(self.0@.len(), |i: int| self.0@[i]@)
    }
}

impl Statuses {
    #[verifier::type_invariant]
    spec fn all_changed(self) -> bool {
        forall|i: int| 0 <= i < self.0@.len() ==> (#[trigger] self.0@[i]@).is_changed()
    }

    /// Whether nothing has changed.
    pub fn is_clean(&self) -> (r: bool)
        ensures
            r == (self@.len() == 0),
    {
        self.0.is_empty()
    }

    /// The entries of the snapshot. Each shows a change on at least one side.
    pub fn files(&self) -> (r: &[Status])
        ensures
            r@.len() == self@.len(),
            forall|i: int| 0 <= i < r@.len() ==> (#[trigger] r@[i])@ == self@[i],
            forall|i: int| 0 <= i < self@.len() ==> (#[trigger] self@[i]).is_changed(),
    {
        proof {
            use_type_invariant(self);
        }
        self.0.as_slice()
    }

    /// The number of entries.
    pub fn len(&self) -> (n: usize)
        ensures
            n == self@.len(),
            forall|i: int| 0 <= i < self@.len() ==> (#[trigger] self@[i]).is_changed(),
    {
        proof {
            use_type_invariant(self);
        }
        self.0.len()
    }

    /// The snapshot that a list of records stands for.
    pub fn from_records(records: Vec<StatusRecord>) -> (s: Statuses)
        ensures
            s@ == snapshot_of(Seq::new(records@.len(), |i: int| records@[i]@)),
    {
        let ghost all = Seq::new(records@.len(), |i: int| records@[i]@);
        let mut out: Vec<Status> = Vec::new();
        for r in it: records
            invariant
                it.seq() == records@,
                all == Seq::new(records@.len(), |i: int| records@[i]@),
                Seq::new(out@.len(), |i: int| out@[i]@) == snapshot_of(
                    all.take(it.index() as int),
                ),
                forall|i: int| 0 <= i < out@.len() ==> (#[trigger] out@[i]@).is_changed(),
        {
            assert(all.take(it.index() + 1).drop_last() == all.take(it.index() as int));
            let (staged, unstaged) = classify(r.bits);
            let path = match r.path {
                Some(p) => p,
                None => String::new(),
            };
            if staged.is_some() || unstaged.is_some() {
                out.push(Status { path, staged, unstaged });
            }
        }
        assert(all.take(all.len() as int) == all);
        Statuses(out)
    }

    /// What a scan for the snapshot reports: untracked files too, every file
    /// of an untracked directory on its own, and no ignored files.
    pub fn scan() -> (s: Scan)
        ensures
            s.untracked,
            !s.ignored,
            s.recurse_untracked_dirs,
    {
        Scan { untracked: true, ignored: false, recurse_untracked_dirs: true }
    }

    /// Gathers the snapshot from a status list.
    pub fn collect(list: &StatusList) -> (s: Statuses)
        ensures
            s@ == snapshot_of(status_records(list)),
    {
        let n = status_count(list);
        let mut records: Vec<StatusRecord> = Vec::new();
        let mut i: usize = 0;
        while i < n
            invariant
                i <= n,
                n == status_records(list).len(),
                records@.len() == i,
                forall|j: int| 0 <= j < i ==> (#[trigger] records@[j])@ == status_records(list)[j],
            decreases n - i,
        {
            match status_at(list, i) {
                Some(r) => {
                    records.push(r);
                },
                None => unreached(),
            }
            i = i + 1;
        }
        assert(Seq::new(records@.len(), |i: int| records@[i]@) == status_records(list));
        Statuses::from_records(records)
    }

    /// What a scan of the repository comes to: the snapshot of the list where
    /// the scan succeeded, and a `RepositoryAccess` failure with the scan's
    /// error where it did not.
    pub fn from_scan(scanned: Result<StatusList, git2::Error>) -> (r: Result<Statuses, Failure>)
        ensures
            match scanned {
                Ok(list) => r matches Ok(s) && s@ == snapshot_of(status_records(&list)),
                Err(e) => r matches Err(f) && f == Failure::RepositoryAccess(e),
            },
            r matches Ok(s) ==>
                forall|i: int| 0 <= i < s@.len() ==> (#[trigger] s@[i]).is_changed(),
    {
        match scanned {
            Ok(list) => {
                let s = Statuses::collect(&list);
                proof {
                    lemma_snapshot_entries_changed(status_records(&list));
                }
                Ok(s)
            },
            Err(e) => Err(Failure::RepositoryAccess(e)),
        }
    }

    /// Asks the repository for its changed paths: tracked and untracked files,
    /// every file of an untracked directory on its own, ignored files left
    /// out.
    ///
    /// What the repository holds is not known here, so the contract states
    /// what holds of every answer: a failure of the repository comes back as
    /// `RepositoryAccess`, and every entry of a snapshot shows a change.
    pub fn query(repo: &git2::Repository) -> (r: Result<Statuses, Failure>)
        ensures
            r matches Err(e) ==> e is RepositoryAccess,
            r matches Ok(s) ==>
                forall|i: int| 0 <= i < s@.len() ==> (#[trigger] s@[i]).is_changed(),
    {
        Statuses::from_scan(scan_statuses(repo, &Statuses::scan()))
    }
}

} // verus!
