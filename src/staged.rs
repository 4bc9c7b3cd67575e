//! The staged list: a working chain edited in batches and a saved chain that
//! only a successful commit replaces.

use vstd::prelude::*;

use crate::chain::Chain;

verus! {

/// Why an insert or a delete was refused.
#[derive(Clone, Copy, Debug, PartialEq, Eq, Structural)]
pub enum EditError {
    /// The position is not addressable in the current working sequence.
    OutOfBounds,
}

/// What a commit did with the batch.
#[derive(Clone, Copy, Debug, PartialEq, Eq, Structural)]
pub enum CommitOutcome {
    /// Every operation of the batch succeeded: the working sequence is now saved.
    Committed,
    /// Some operation of the batch failed: the working sequence was rolled back.
    Aborted,
}

/// Which of the two sequences to read.
#[derive(Clone, Copy, Debug, PartialEq, Eq, Structural)]
pub enum Version {
    /// The sequence that inserts and deletes edit.
    Working,
    /// The sequence as of the last successful commit.
    Saved,
}

/// An ordered list of text elements with two-phase commit and rollback.
///
/// Inserts and deletes apply to the working sequence and are counted: every
/// call adds to `attempted`, every call that was in bounds to `succeeded`.
/// A commit saves the working sequence only when the two counts agree.
pub struct LinkedList {
    working: Chain,
    saved: Chain,
    attempted: usize,
    succeeded: usize,
}

impl LinkedList {
    /// No more operations can have succeeded than were attempted.
    #[verifier::type_invariant]
    closed spec fn counts_agree(self) -> bool {
        self.succeeded <= self.attempted
    }

    /// The working sequence.
    pub closed spec fn working_items(self) -> Seq<String> {
        self.working@
    }

    /// The saved sequence.
    pub closed spec fn saved_items(self) -> Seq<String> {
        self.saved@
    }

    /// Inserts and deletes issued since the last commit or rollback.
    pub closed spec fn attempted_ops(self) -> nat {
        self.attempted as nat
    }

    /// Those of the attempted operations that were in bounds.
    pub closed spec fn succeeded_ops(self) -> nat {
        self.succeeded as nat
    }

    /// No operation is pending: both counters are zero.
    pub open spec fn is_clean(self) -> bool {
        self.attempted_ops() == 0 && self.succeeded_ops() == 0
    }

    /// `post` is `pre` after `Add(pos, value)` returned `r`.
    pub open spec fn add_post(
        pre: Self,
        post: Self,
        pos: int,
        value: String,
        r: Result<(), EditError>,
    ) -> bool {
        &&& post.attempted_ops() == pre.attempted_ops() + 1
        &&& post.saved_items() == pre.saved_items()
        &&& if pos <= pre.working_items().len() {
            &&& r == Ok::<(), EditError>(())
            &&& post.working_items() == pre.working_items().insert(pos, value)
            &&& post.succeeded_ops() == pre.succeeded_ops() + 1
        } else {
            &&& r == Err::<(), EditError>(EditError::OutOfBounds)
            &&& post.working_items() == pre.working_items()
            &&& post.succeeded_ops() == pre.succeeded_ops()
        }
    }

    /// `post` is `pre` after `Delete(pos)` returned `r`.
    pub open spec fn delete_post(pre: Self, post: Self, pos: int, r: Result<(), EditError>) -> bool {
        &&& post.attempted_ops() == pre.attempted_ops() + 1
        &&& post.saved_items() == pre.saved_items()
        &&& if pos < pre.working_items().len() {
            &&& r == Ok::<(), EditError>(())
            &&& post.working_items() == pre.working_items().remove(pos)
            &&& post.succeeded_ops() == pre.succeeded_ops() + 1
        } else {
            &&& r == Err::<(), EditError>(EditError::OutOfBounds)
            &&& post.working_items() == pre.working_items()
            &&& post.succeeded_ops() == pre.succeeded_ops()
        }
    }

    /// `post` is `pre` after a rollback: the working sequence is the saved one
    /// again and the counters are reset.
    pub open spec fn rollback_post(pre: Self, post: Self) -> bool {
        &&& post.working_items() == pre.saved_items()
        &&& post.saved_items() == pre.saved_items()
        &&& post.is_clean()
    }

    /// `post` is `pre` after `Commit` returned `r`: when every attempted
    /// operation succeeded, the working sequence is saved; otherwise the batch
    /// is rolled back.
    pub open spec fn commit_post(pre: Self, post: Self, r: CommitOutcome) -> bool {
        if pre.attempted_ops() == pre.succeeded_ops() {
            &&& r == CommitOutcome::Committed
            &&& post.saved_items() == pre.working_items()
            &&& post.working_items() == pre.working_items()
            &&& post.is_clean()
        } else {
            &&& r == CommitOutcome::Aborted
            &&& Self::rollback_post(pre, post)
        }
    }

    /// An empty list: both sequences empty, no operation pending.
    pub fn new() -> (r: LinkedList)
        ensures
            r.working_items() == Seq::<String>::empty(),
            r.saved_items() == Seq::<String>::empty(),
            r.is_clean(),
    {
        LinkedList { working: Chain::new(), saved: Chain::new(), attempted: 0, succeeded: 0 }
    }

    /// Inserts `value` into the working sequence at `position`, shifting the
    /// later elements back. Fails with `OutOfBounds`, changing nothing but the
    /// attempt count, when `position` is past the end.
    #[allow(non_snake_case)]
    pub fn Add(&mut self, position: usize, value: String) -> (r: Result<(), EditError>)
        requires
            old(self).attempted_ops() < usize::MAX,
            old(self).working_items().len() < usize::MAX,
        ensures
            Self::add_post(*old(self), *final(self), position as int, value, r),
    {
        proof {
            use_type_invariant(&*self);
        }
        self.attempted = self.attempted + 1;
        if position > self.working.len() {
            return Err(EditError::OutOfBounds);
        }
        let mut edited = Chain::new();
        std::mem::swap(&mut self.working, &mut edited);
        edited.insert(position, value);
        self.working = edited;
        self.succeeded = self.succeeded + 1;
        Ok(())
    }

    /// Deletes the element of the working sequence at `position`, shifting the
    /// later elements forward. Fails with `OutOfBounds`, changing nothing but
    /// the attempt count, when no element stands there.
    #[allow(non_snake_case)]
    pub fn Delete(&mut self, position: usize) -> (r: Result<(), EditError>)
        requires
            old(self).attempted_ops() < usize::MAX,
        ensures
            Self::delete_post(*old(self), *final(self), position as int, r),
    {
        proof {
            use_type_invariant(&*self);
        }
        self.attempted = self.attempted + 1;
        if position >= self.working.len() {
            return Err(EditError::OutOfBounds);
        }
        let mut edited = Chain::new();
        std::mem::swap(&mut self.working, &mut edited);
        edited.remove(position);
        self.working = edited;
        self.succeeded = self.succeeded + 1;
        Ok(())
    }

    /// Ends the batch. The first phase compares the counters; the second
    /// either saves a copy of the working sequence or, when some operation
    /// failed, rolls the working sequence back to the saved one.
    #[allow(non_snake_case)]
    pub fn Commit(&mut self) -> (r: CommitOutcome)
        ensures
            Self::commit_post(*old(self), *final(self), r),
    {
        proof {
            use_type_invariant(&*self);
        }
        if self.attempted != self.succeeded {
            self.Rollback();
            return CommitOutcome::Aborted;
        }
        self.saved = self.working.deep_copy();
        self.succeeded = 0;
        self.attempted = 0;
        CommitOutcome::Committed
    }

    /// Discards the pending edits: the working sequence becomes a copy of the
    /// saved one and both counters return to zero.
    #[allow(non_snake_case)]
    pub fn Rollback(&mut self)
        ensures
            Self::rollback_post(*old(self), *final(self)),
    {
        proof {
            use_type_invariant(&*self);
        }
        self.working = self.saved.deep_copy();
        self.succeeded = 0;
        self.attempted = 0;
    }

    /// A snapshot of one of the two sequences, in order.
    pub fn render(&self, which: Version) -> (r: Vec<String>)
        ensures
            r@ == match which {
                Version::Working => self.working_items(),
                Version::Saved => self.saved_items(),
            },
    {
        match which {
            Version::Working => self.working.to_vec(),
            Version::Saved => self.saved.to_vec(),
        }
    }

    /// The number of elements in the working sequence.
    pub fn working_len(&self) -> (r: usize)
        ensures
            r == self.working_items().len(),
    {
        self.working.len()
    }

    /// The number of inserts and deletes issued since the last commit or rollback.
    pub fn attempted(&self) -> (r: usize)
        ensures
            r == self.attempted_ops(),
    {
        self.attempted
    }

    /// The number of those operations that were in bounds; never more than
    /// were attempted.
    pub fn succeeded(&self) -> (r: usize)
        ensures
            r == self.succeeded_ops(),
            r <= self.attempted_ops(),
    {
        proof {
            use_type_invariant(self);
        }
        self.succeeded
    }
}

} // verus!
