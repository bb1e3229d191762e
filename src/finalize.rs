//! Keeping or leaving the downloaded clip once the prompt has decided.
//!
//! A kept clip is copied from its temporary place to its destination; a
//! copy that succeeded is followed by removing the temporary file, and one
//! that failed by removing whatever part of the destination it wrote, so a
//! truncated file is never left behind as if saved. A discarded clip is left
//! where it is.
use vstd::prelude::*;

verus! {

/// The copy from the temporary place to the destination failed.
#[derive(Clone, Copy, Debug, PartialEq, Eq, Structural)]
pub struct CopyError;

/// A filesystem operation for the caller to perform.
#[derive(Clone, Copy, Debug, PartialEq, Eq, Structural)]
pub enum FileOp {
    /// Copy the temporary file to the destination.
    Copy,
    /// Remove the temporary file (best effort: a failure is only reported).
    RemoveTemp,
    /// Remove the partly written destination.
    RemoveDest,
}

/// Which of the two files are present.
#[derive(Clone, Copy, Debug, PartialEq, Eq, Structural)]
pub struct Files {
    pub temp: bool,
    pub dest: bool,
}

/// The files after an operation; `ok` says whether it succeeded and
/// `partial` whether a failed copy left part of the destination behind.
pub open spec fn apply(f: Files, op: FileOp, ok: bool, partial: bool) -> Files {
    match op {
        FileOp::Copy => if ok {
            Files { temp: f.temp, dest: true }
        } else {
            Files { temp: f.temp, dest: f.dest || partial }
        },
        FileOp::RemoveTemp => Files { temp: false, dest: f.dest },
        FileOp::RemoveDest => Files { temp: f.temp, dest: false },
    }
}

pub open spec fn after_copy_spec(copied: bool) -> (FileOp, Result<(), CopyError>) {
    if copied {
        (FileOp::RemoveTemp, Ok(()))
    } else {
        (FileOp::RemoveDest, Err(CopyError))
    }
}

/// The first operation for a decision: a copy when the clip is kept,
/// nothing when it is discarded.
pub fn first_op(keep: bool) -> (r: Option<FileOp>)
    ensures
        keep ==> r == Some(FileOp::Copy),
        !keep ==> r is None,
{
    if keep {
        Some(FileOp::Copy)
    } else {
        None
    }
}

/// The clean-up after the copy, and the result of finalizing: the temporary
/// file goes after a successful copy, the partial destination after a failed
/// one, which is an error.
pub fn after_copy(copied: bool) -> (r: (FileOp, Result<(), CopyError>))
    ensures
        r == after_copy_spec(copied),
{
    if copied {
        (FileOp::RemoveTemp, Ok(()))
    } else {
        (FileOp::RemoveDest, Err(CopyError))
    }
}

/// Keeping a clip that is present only in its temporary place: a successful
/// copy ends with the clip at the destination and the temporary file gone; a
/// failed one ends with the temporary file untouched and no destination file,
/// whatever part of it the copy wrote.
pub proof fn lemma_keep_moves_or_leaves(copied: bool, partial: bool)
    ensures
        ({
            let start = Files { temp: true, dest: false };
            let copy = apply(start, FileOp::Copy, copied, partial);
            let end = apply(copy, after_copy_spec(copied).0, true, false);
            &&& copied ==> !end.temp && end.dest && after_copy_spec(copied).1 is Ok
            &&& !copied ==> end.temp && !end.dest && after_copy_spec(copied).1 is Err
        }),
{
}

} // verus!
