//! The repository as `git2` offers it: the handles that are carried through
//! and the calls that the library makes on them. Nothing here is proved; each
//! item says what it takes from `git2`.

use vstd::prelude::*;

verus! {

/// `git2::Repository`, an open repository.
#[verifier::external_type_specification]
#[verifier::external_body]
pub struct ExRepository(git2::Repository);

/// `git2::Index`, the staging index of a repository.
#[verifier::external_type_specification]
#[verifier::external_body]
pub struct ExIndex(git2::Index);

/// `git2::Tree`, a tree of a commit.
#[verifier::external_type_specification]
#[verifier::external_body]
pub struct ExTree<'repo>(git2::Tree<'repo>);

/// `git2::Oid`, the id of an object.
#[verifier::external_type_specification]
#[verifier::external_body]
pub struct ExOid(git2::Oid);

/// `git2::Revwalk`, a walk over the history of commits.
#[verifier::external_type_specification]
#[verifier::external_body]
pub struct ExRevwalk<'repo>(git2::Revwalk<'repo>);

/// A `git2::Statuses`, the list of entries that one status scan produced.
/// What it holds is read through `status_count` and `status_at` alone.
#[verifier::external_body]
pub struct StatusList<'repo> {
    list: git2::Statuses<'repo>,
}

/// What one entry of a status list holds: its path, where that is valid
/// UTF-8, and its status flags as a number.
pub struct StatusRecord {
    pub path: Option<String>,
    pub bits: u32,
}

/// What a record holds.
pub struct StatusRecordView {
    pub path: Option<Seq<char>>,
    pub bits: u32,
}

impl View for StatusRecord {
    type V = StatusRecordView;

    open spec fn view(&self) -> StatusRecordView {
        StatusRecordView {
            path: match self.path {
                Some(p) => Some(p@),
                None => None,
            },
            bits: self.bits,
        }
    }
}

/// Which files a status scan reports beside the tracked ones.
pub struct Scan {
    pub untracked: bool,
    pub ignored: bool,
    pub recurse_untracked_dirs: bool,
}

/// The entries of a status list, in the list's order.
pub uninterp spec fn status_records(list: &StatusList) -> Seq<StatusRecordView>;

/// `Repository::statuses` with options made by `StatusOptions::new` and set
/// by `include_untracked`, `include_ignored` and `recurse_untracked_dirs`.
/// What comes back depends on the repository on disk, so nothing is claimed
/// of it.
#[verifier::external_body]
pub(crate) fn scan_statuses<'r>(repo: &'r git2::Repository, scan: &Scan) -> (r: Result<
    StatusList<'r>,
    git2::Error,
>) {
    let mut opts = git2::StatusOptions::new();
    opts.include_untracked(scan.untracked);
    opts.include_ignored(scan.ignored);
    opts.recurse_untracked_dirs(scan.recurse_untracked_dirs);
    repo.statuses(Some(&mut opts)).map(|list| StatusList { list })
}

/// `Statuses::len`: the number of entries of the list.
#[verifier::external_body]
pub(crate) fn status_count(list: &StatusList) -> (n: usize)
    ensures
        n == status_records(list).len(),
{
    list.list.len()
}

/// `Statuses::get`, with the entry's `path` and the `bits` of its `status`
/// copied out; nothing for an index at or behind the length.
#[verifier::external_body]
pub(crate) fn status_at(list: &StatusList, i: usize) -> (r: Option<StatusRecord>)
    ensures
        i < status_records(list).len() ==> r.is_some() && r.unwrap()@ == status_records(
            list,
        )[i as int],
        i >= status_records(list).len() ==> r.is_none(),
{
    list.list.get(i).map(
        |e| StatusRecord { path: e.path().map(String::from), bits: e.status().bits() },
    )
}

/// What an entry of a tree holds for the index: its file mode and the id of
/// its content.
pub struct TreeRecord {
    pub mode: i32,
    pub id: git2::Oid,
}

/// An entry of the index, field by field as `git2::IndexEntry` holds it; a
/// time is seconds and nanoseconds.
pub struct IndexRecord {
    pub ctime: (i32, u32),
    pub mtime: (i32, u32),
    pub dev: u32,
    pub ino: u32,
    pub mode: u32,
    pub uid: u32,
    pub gid: u32,
    pub file_size: u32,
    pub id: git2::Oid,
    pub flags: u16,
    pub flags_extended: u16,
    pub path: Vec<u8>,
}

/// `Repository::index`: the index of the repository, or why it cannot be had.
pub assume_specification[ git2::Repository::index ](repo: &git2::Repository) -> (r: Result<
    git2::Index,
    git2::Error,
>)
;

/// `Index::write`: writes the index back to disk, or says why it could not.
pub assume_specification[ git2::Index::write ](index: &mut git2::Index) -> (r: Result<
    (),
    git2::Error,
>)
;

/// `Index::add_path` with the path given as text: the file of the working
/// tree goes into the index, or the call says why not.
#[verifier::external_body]
pub(crate) fn index_add_path(index: &mut git2::Index, path: &str) -> (r: Result<(), git2::Error>) {
    index.add_path(std::path::Path::new(path))
}

/// `Index::remove_path` with the path given as text: the entry of the path
/// leaves the index, or the call says why not.
#[verifier::external_body]
pub(crate) fn index_remove_path(index: &mut git2::Index, path: &str) -> (r: Result<
    (),
    git2::Error,
>) {
    index.remove_path(std::path::Path::new(path))
}

/// `Index::add` with the entry written out field by field: the entry goes
/// into the index in place of one with the same path, or the call says why
/// not.
#[verifier::external_body]
pub(crate) fn index_add(index: &mut git2::Index, entry: &IndexRecord) -> (r: Result<
    (),
    git2::Error,
>) {
    index.add(&git2::IndexEntry {
        ctime: git2::IndexTime::new(entry.ctime.0, entry.ctime.1),
        mtime: git2::IndexTime::new(entry.mtime.0, entry.mtime.1),
        dev: entry.dev,
        ino: entry.ino,
        mode: entry.mode,
        uid: entry.uid,
        gid: entry.gid,
        file_size: entry.file_size,
        id: entry.id,
        flags: entry.flags,
        flags_extended: entry.flags_extended,
        path: entry.path.clone(),
    })
}

/// `Repository::head`, `Reference::peel_to_commit` and `Commit::tree` in a
/// row: the tree of the commit that HEAD points to, or the first failure.
#[verifier::external_body]
pub(crate) fn head_tree<'r>(repo: &'r git2::Repository) -> (r: Result<
    git2::Tree<'r>,
    git2::Error,
>) {
    repo.head()?.peel_to_commit()?.tree()
}

/// `Tree::get_path` with the path given as text, and the entry's `filemode`
/// and `id` copied out; a failure when the tree has no such path.
#[verifier::external_body]
pub(crate) fn tree_record(tree: &git2::Tree, path: &str) -> (r: Result<TreeRecord, git2::Error>) {
    tree.get_path(std::path::Path::new(path)).map(|e| TreeRecord { mode: e.filemode(), id: e.id() })
}

/// `Repository::find_blob` and `Blob::content`: the bytes of the blob with
/// the given id, or a failure when there is no such blob.
#[verifier::external_body]
pub(crate) fn blob_content(repo: &git2::Repository, id: git2::Oid) -> (r: Result<
    Vec<u8>,
    git2::Error,
>) {
    repo.find_blob(id).map(|b| b.content().to_vec())
}

/// `Repository::revwalk`: a new walk over the history, or why none can be
/// had.
pub assume_specification<'r>[ git2::Repository::revwalk ](repo: &'r git2::Repository) -> (r: Result<
    git2::Revwalk<'r>,
    git2::Error,
>)
;

/// `Revwalk::push_head`: the walk starts at HEAD, or the call says why not.
pub assume_specification<'r>[ git2::Revwalk::<'r>::push_head ](walk: &mut git2::Revwalk<'r>) -> (r:
    Result<(), git2::Error>)
;

/// `Iterator::next` of a walk: the id of the next commit, a failure, or
/// nothing when the walk is over.
#[verifier::external_body]
pub(crate) fn walk_next(walk: &mut git2::Revwalk) -> (r: Option<Result<git2::Oid, git2::Error>>) {
    walk.next()
}

/// `Repository::find_commit` and `Commit::message`: the message of the commit
/// with the given id, nothing where it is not valid UTF-8, or a failure when
/// there is no such commit.
#[verifier::external_body]
pub(crate) fn commit_message(repo: &git2::Repository, id: git2::Oid) -> (r: Result<
    Option<String>,
    git2::Error,
>) {
    repo.find_commit(id).map(|c| c.message().map(String::from))
}

} // verus!
