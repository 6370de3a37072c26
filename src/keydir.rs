//! Replacing the key-material directory: what to do for each kind of entry
//! found at its path, and a model of the file system entry that shows the
//! result is always one fresh, empty directory.
use vstd::prelude::*;

verus! {

/// What occupies a path before the key directory is replaced.
#[derive(Clone, Copy, Debug, PartialEq, Eq, Structural)]
pub enum EntryKind {
    Absent,
    File,
    Directory,
}

/// One file-system operation on the key directory's path.
#[derive(Clone, Copy, Debug, PartialEq, Eq, Structural)]
pub enum FsOp {
    /// Remove the plain file at the path.
    RemoveFile,
    /// Remove the directory at the path with everything inside it.
    RemoveDirectory,
    /// Create the directory, with any missing parents.
    CreateDirectory,
}

/// A file-system entry at one path: nothing, a plain file, or a directory
/// holding some number of entries.
pub enum Entry {
    Missing,
    PlainFile,
    Dir { entries: nat },
}

pub open spec fn kind_of(e: Entry) -> EntryKind {
    match e {
        Entry::Missing => EntryKind::Absent,
        Entry::PlainFile => EntryKind::File,
        Entry::Dir { .. } => EntryKind::Directory,
    }
}

/// The entry after `op`, or `None` where the operation fails on it.
pub open spec fn apply_op(e: Entry, op: FsOp) -> Option<Entry> {
    match (op, e) {
        (FsOp::RemoveFile, Entry::PlainFile) => Some(Entry::Missing),
        (FsOp::RemoveDirectory, Entry::Dir { .. }) => Some(Entry::Missing),
        (FsOp::CreateDirectory, Entry::Missing) => Some(Entry::Dir { entries: 0 }),
        _ => None,
    }
}

/// The entry after every operation of `ops` in turn, or `None` where one fails.
pub open spec fn apply_ops(e: Entry, ops: Seq<FsOp>) -> Option<Entry>
    decreases ops.len(),
{
    if ops.len() == 0 {
        Some(e)
    } else {
        match apply_op(e, ops[0]) {
            Some(next) => apply_ops(next, ops.drop_first()),
            None => None,
        }
    }
}

/// The operations that replace whatever is at the path by a new directory.
pub open spec fn reset_plan_spec(kind: EntryKind) -> Seq<FsOp> {
    match kind {
        EntryKind::Absent => seq![FsOp::CreateDirectory],
        EntryKind::File => seq![FsOp::RemoveFile, FsOp::CreateDirectory],
        EntryKind::Directory => seq![FsOp::RemoveDirectory, FsOp::CreateDirectory],
    }
}

/// The operations that replace the entry of kind `kind` by a new, empty
/// directory: an existing directory is removed with its contents, a plain
/// file in its place is removed, and then the directory is created.
pub fn reset_plan(kind: EntryKind) -> (r: Vec<FsOp>)
    ensures
        r@ == reset_plan_spec(kind),
{
    let mut ops: Vec<FsOp> = Vec::new();
    match kind {
        EntryKind::Absent => {},
        EntryKind::File => ops.push(FsOp::RemoveFile),
        EntryKind::Directory => ops.push(FsOp::RemoveDirectory),
    }
    ops.push(FsOp::CreateDirectory);
    proof {
        assert(ops@ =~= reset_plan_spec(kind));
    }
    ops
}

/// Whatever occupies the key directory's path (nothing, a plain file, or a
/// directory with stale keys), carrying out its reset plan succeeds and
/// leaves exactly one empty directory there.
pub proof fn lemma_reset_gives_empty_dir(e: Entry)
    ensures
        apply_ops(e, reset_plan_spec(kind_of(e))) == Some(Entry::Dir { entries: 0 }),
{
    let ops = reset_plan_spec(kind_of(e));
    reveal_with_fuel(apply_ops, 3);
    assert(seq![FsOp::CreateDirectory].drop_first() =~= Seq::<FsOp>::empty());
    if ops.len() == 2 {
        assert(ops.drop_first() =~= seq![FsOp::CreateDirectory]);
    }
}

/// Resetting the key directory a second time, as a second run does, leaves
/// the same single empty directory as the first: keys never accumulate.
pub proof fn lemma_reset_twice(e: Entry)
    ensures
        apply_ops(e, reset_plan_spec(kind_of(e))) matches Some(first)
            && apply_ops(first, reset_plan_spec(kind_of(first))) == Some(first),
{
    lemma_reset_gives_empty_dir(e);
    lemma_reset_gives_empty_dir(Entry::Dir { entries: 0 });
}

} // verus!
