//! Properties of the staged list that relate several of its operations.

use vstd::prelude::*;

use crate::staged::{CommitOutcome, EditError, LinkedList};

verus! {

/// A commit, whatever its outcome, leaves no operation pending.
pub proof fn lemma_commit_resets_counters(pre: LinkedList, post: LinkedList, r: CommitOutcome)
    requires
        LinkedList::commit_post(pre, post, r),
    ensures
        post.attempted_ops() == 0,
        post.succeeded_ops() == 0,
{
}

/// A rollback leaves no operation pending.
pub proof fn lemma_rollback_resets_counters(pre: LinkedList, post: LinkedList)
    requires
        LinkedList::rollback_post(pre, post),
    ensures
        post.attempted_ops() == 0,
        post.succeeded_ops() == 0,
{
}

/// Rolling back twice in a row gives the same list as rolling back once.
pub proof fn lemma_rollback_idempotent(s0: LinkedList, s1: LinkedList, s2: LinkedList)
    requires
        LinkedList::rollback_post(s0, s1),
        LinkedList::rollback_post(s1, s2),
    ensures
        s2.working_items() == s1.working_items(),
        s2.saved_items() == s1.saved_items(),
        s2.attempted_ops() == s1.attempted_ops(),
        s2.succeeded_ops() == s1.succeeded_ops(),
{
}

/// On a batch with no failed operation so far, an insert in bounds followed by
/// a commit is committed, and the saved sequence is then the working sequence
/// as it stood at the commit.
pub proof fn lemma_insert_then_commit_saves(
    s0: LinkedList,
    s1: LinkedList,
    s2: LinkedList,
    pos: int,
    value: String,
    r_add: Result<(), EditError>,
    r_commit: CommitOutcome,
)
    requires
        s0.attempted_ops() == s0.succeeded_ops(),
        0 <= pos <= s0.working_items().len(),
        LinkedList::add_post(s0, s1, pos, value, r_add),
        LinkedList::commit_post(s1, s2, r_commit),
    ensures
        r_commit == CommitOutcome::Committed,
        s2.saved_items() == s1.working_items(),
        s2.saved_items() == s0.working_items().insert(pos, value),
{
}

/// From a clean state, an insert in bounds and a delete out of bounds make the
/// next commit abort, and the working sequence is then the saved sequence from
/// before the batch.
pub proof fn lemma_failed_delete_aborts_commit(
    s0: LinkedList,
    s1: LinkedList,
    s2: LinkedList,
    s3: LinkedList,
    ins_pos: int,
    value: String,
    del_pos: int,
    r_add: Result<(), EditError>,
    r_del: Result<(), EditError>,
    r_commit: CommitOutcome,
)
    requires
        s0.is_clean(),
        0 <= ins_pos <= s0.working_items().len(),
        LinkedList::add_post(s0, s1, ins_pos, value, r_add),
        del_pos >= s1.working_items().len(),
        LinkedList::delete_post(s1, s2, del_pos, r_del),
        LinkedList::commit_post(s2, s3, r_commit),
    ensures
        r_del == Err::<(), EditError>(EditError::OutOfBounds),
        r_commit == CommitOutcome::Aborted,
        s3.working_items() == s0.saved_items(),
        s3.saved_items() == s0.saved_items(),
{
}

} // verus!
