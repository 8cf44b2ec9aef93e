//! Staging and unstaging: the two changes that the library makes to the
//! index of a repository.

use vstd::prelude::*;
use vstd::string::*;
use vstd::utf8::*;
use crate::error::{access_step, index_step, Failure};
use crate::repository::{
    head_tree, index_add, index_add_path, index_remove_path, tree_record, IndexRecord, TreeRecord,
};

verus! {

/// Whether an index entry is the one that restores a path to what HEAD
/// holds: it has the mode and the content id of HEAD's entry and the path, and
/// every other field is zero.
pub open spec fn is_head_entry(e: IndexRecord, mode: i32, id: git2::Oid, path: Seq<char>) -> bool {
    &&& e.mode == mode as u32
    &&& e.id == id
    &&& e.path@ == encode_utf8(path)
    &&& e.ctime == (0i32, 0u32)
    &&& e.mtime == (0i32, 0u32)
    &&& e.dev == 0
    &&& e.ino == 0
    &&& e.uid == 0
    &&& e.gid == 0
    &&& e.file_size == 0
    &&& e.flags == 0
    &&& e.flags_extended == 0
}

/// The index entry that restores a path to what HEAD holds.
pub fn head_entry(mode: i32, id: git2::Oid, path: &str) -> (e: IndexRecord)
    ensures
        is_head_entry(e, mode, id, path@),
{
    IndexRecord {
        ctime: (0, 0),
        mtime: (0, 0),
        dev: 0,
        ino: 0,
        mode: mode as u32,
        uid: 0,
        gid: 0,
        file_size: 0,
        id,
        flags: 0,
        flags_extended: 0,
        path: path.as_bytes_vec(),
    }
}

/// What unstaging does to the index entry of a path.
pub enum IndexChange {
    /// The entry is set to the given one.
    Restore(IndexRecord),
    /// The entry is removed.
    Remove,
}

/// What unstaging does to the index entry of `path`, from what HEAD's tree
/// holds for the path: where it holds an entry, the index entry is set back to
/// it; where it holds none, the index entry is removed.
pub fn change_for(found: Result<TreeRecord, git2::Error>, path: &str) -> (c: IndexChange)
    ensures
        match found {
            Ok(held) => c matches IndexChange::Restore(e) && is_head_entry(
                e,
                held.mode,
                held.id,
                path@,
            ),
            Err(_) => c is Remove,
        },
{
    match found {
        Ok(held) => IndexChange::Restore(head_entry(held.mode, held.id, path)),
        Err(_) => IndexChange::Remove,
    }
}

/// Puts the working tree's version of `path` into the index and writes the
/// index back.
///
/// Whether that succeeds lies with the repository; a failure of any step
/// comes back as `IndexWrite`, and the steps after it are not taken.
pub fn stage_file(repo: &git2::Repository, path: &str) -> (r: Result<(), Failure>)
    ensures
        r matches Err(e) ==> e is IndexWrite,
{
    let mut index = match index_step(repo.index()) {
        Ok(index) => index,
        Err(failure) => {
            return Err(failure);
        },
    };
    match index_step(index_add_path(&mut index, path)) {
        Ok(()) => {},
        Err(failure) => {
            return Err(failure);
        },
    }
    index_step(index.write())
}

/// Takes `path` back out of the staged changes: where HEAD holds the path,
/// the index entry is set back to HEAD's; where it does not, the entry is
/// removed. The index is then written back.
///
/// Whether that succeeds lies with the repository. Where HEAD's tree cannot
/// be read the failure is `RepositoryAccess`; a failure of a step on the
/// index is `IndexWrite`.
pub fn unstage_file(repo: &git2::Repository, path: &str) -> (r: Result<(), Failure>)
    ensures
        r matches Err(e) ==> e is IndexWrite || e is RepositoryAccess,
{
    let tree = match access_step(head_tree(repo)) {
        Ok(tree) => tree,
        Err(failure) => {
            return Err(failure);
        },
    };
    let mut index = match index_step(repo.index()) {
        Ok(index) => index,
        Err(failure) => {
            return Err(failure);
        },
    };
    let changed = match change_for(tree_record(&tree, path), path) {
        IndexChange::Restore(entry) => index_add(&mut index, &entry),
        IndexChange::Remove => index_remove_path(&mut index, path),
    };
    match index_step(changed) {
        Ok(()) => {},
        Err(failure) => {
            return Err(failure);
        },
    }
    index_step(index.write())
}

} // verus!
