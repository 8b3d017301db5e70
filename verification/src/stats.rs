//! Counting what a clean-up removed, and the retry rule for a file that
//! resists removal.

use vstd::prelude::*;

verus! {

/// Items removed, bytes freed and errors met, by one directory or by a
/// whole run.
pub struct CleanupStats {
    pub total_deleted: u64,
    pub total_bytes: u64,
    pub total_errors: u64,
}

impl CleanupStats {
    /// Whether adding the given counts to these keeps every total in range.
    pub open spec fn fits(self, deleted: int, bytes: int, errors: int) -> bool {
        &&& self.total_deleted + deleted <= u64::MAX
        &&& self.total_bytes + bytes <= u64::MAX
        &&& self.total_errors + errors <= u64::MAX
    }

    /// Nothing counted yet.
    pub fn new() -> (r: Self)
        ensures
            r.total_deleted == 0,
            r.total_bytes == 0,
            r.total_errors == 0,
    {
        Self { total_deleted: 0, total_bytes: 0, total_errors: 0 }
    }

    /// Whether [`CleanupStats::add`] may take these counts.
    pub fn can_add(&self, deleted: u64, bytes: u64, errors: u64) -> (r: bool)
        ensures
            r == self.fits(deleted as int, bytes as int, errors as int),
    {
        deleted <= u64::MAX - self.total_deleted && bytes <= u64::MAX - self.total_bytes && errors
            <= u64::MAX - self.total_errors
    }

    /// Adds counts to the totals.
    pub fn add(&mut self, deleted: u64, bytes: u64, errors: u64)
        requires
            old(self).fits(deleted as int, bytes as int, errors as int),
        ensures
            final(self).total_deleted == old(self).total_deleted + deleted,
            final(self).total_bytes == old(self).total_bytes + bytes,
            final(self).total_errors == old(self).total_errors + errors,
    {
        self.total_deleted = self.total_deleted + deleted;
        self.total_bytes = self.total_bytes + bytes;
        self.total_errors = self.total_errors + errors;
    }

    /// Adds the totals of `other` to these.
    pub fn absorb(&mut self, other: &CleanupStats)
        requires
            old(self).fits(
                other.total_deleted as int,
                other.total_bytes as int,
                other.total_errors as int,
            ),
        ensures
            final(self).total_deleted == old(self).total_deleted + other.total_deleted,
            final(self).total_bytes == old(self).total_bytes + other.total_bytes,
            final(self).total_errors == old(self).total_errors + other.total_errors,
    {
        self.add(other.total_deleted, other.total_bytes, other.total_errors);
    }

    /// Whether anything was removed or failed: a directory where neither
    /// happened was already clean.
    pub fn found_work(&self) -> (r: bool)
        ensures
            r == (self.total_deleted > 0 || self.total_errors > 0),
    {
        self.total_deleted > 0 || self.total_errors > 0
    }
}

/// Which attempt at removing a file comes next.
#[derive(PartialEq, Eq, Structural, Clone, Copy, Debug)]
pub enum RemovalStage {
    /// The file has not been tried yet.
    FirstAttempt,
    /// The first attempt failed and the read-only flag was then cleared.
    AfterClearingReadOnly,
}

/// What to do after an attempt at removing a file.
#[derive(PartialEq, Eq, Structural, Clone, Copy, Debug)]
pub enum RemovalStep {
    /// The file is gone: count it as removed.
    Removed,
    /// Clear the file's read-only flag and try once more.
    ClearReadOnlyAndRetry,
    /// The file stays: count an error.
    Failed,
}

/// The step that follows an attempt at `stage` that did or did not remove
/// the file.
pub open spec fn next_removal_step(stage: RemovalStage, removed: bool) -> RemovalStep {
    if removed {
        RemovalStep::Removed
    } else {
        match stage {
            RemovalStage::FirstAttempt => RemovalStep::ClearReadOnlyAndRetry,
            RemovalStage::AfterClearingReadOnly => RemovalStep::Failed,
        }
    }
}

/// Decides what follows an attempt at removing a file: done when it was
/// removed; after a failed first attempt, clear the read-only flag and
/// retry; after a failed retry, give up.
pub fn removal_step(stage: RemovalStage, removed: bool) -> (r: RemovalStep)
    ensures
        r == next_removal_step(stage, removed),
{
    if removed {
        RemovalStep::Removed
    } else {
        match stage {
            RemovalStage::FirstAttempt => RemovalStep::ClearReadOnlyAndRetry,
            RemovalStage::AfterClearingReadOnly => RemovalStep::Failed,
        }
    }
}

/// Counts a file once its removal has settled: a removed file as one item
/// deleted, freeing its size when that is known; a file that stays as one
/// error, freeing nothing.
pub fn record_visited_file(stats: &mut CleanupStats, size: Option<u64>, step: RemovalStep)
    requires
        step != RemovalStep::ClearReadOnlyAndRetry,
        step == RemovalStep::Removed ==> old(stats).fits(
            1,
            match size {
                Some(n) => n as int,
                None => 0,
            },
            0,
        ),
        step == RemovalStep::Failed ==> old(stats).fits(0, 0, 1),
    ensures
        final(stats).total_deleted == old(stats).total_deleted + if step == RemovalStep::Removed {
            1int
        } else {
            0int
        },
        final(stats).total_errors == old(stats).total_errors + if step == RemovalStep::Failed {
            1int
        } else {
            0int
        },
        final(stats).total_bytes == old(stats).total_bytes + match (step, size) {
            (RemovalStep::Removed, Some(n)) => n as int,
            _ => 0int,
        },
{
    match step {
        RemovalStep::Removed => {
            let freed = match size {
                Some(n) => n,
                None => 0,
            };
            stats.add(1, freed, 0);
        },
        _ => stats.add(0, 0, 1),
    }
}

/// Counts a directory whose entries could not be listed as one error.
pub fn record_unreadable_dir(stats: &mut CleanupStats)
    requires
        old(stats).fits(0, 0, 1),
    ensures
        final(stats).total_errors == old(stats).total_errors + 1,
        final(stats).total_deleted == old(stats).total_deleted,
        final(stats).total_bytes == old(stats).total_bytes,
{
    stats.add(0, 0, 1);
}

/// A file is tried at most twice: the attempt after clearing the read-only
/// flag never asks for another retry, and the file ends as removed exactly
/// when one of the two attempts removed it.
pub proof fn lemma_removal_settles_within_two_attempts(first_removed: bool, second_removed: bool)
    ensures
        next_removal_step(RemovalStage::AfterClearingReadOnly, second_removed)
            != RemovalStep::ClearReadOnlyAndRetry,
        ({
            let first = next_removal_step(RemovalStage::FirstAttempt, first_removed);
            let outcome = if first == RemovalStep::ClearReadOnlyAndRetry {
                next_removal_step(RemovalStage::AfterClearingReadOnly, second_removed)
            } else {
                first
            };
            &&& outcome != RemovalStep::ClearReadOnlyAndRetry
            &&& (outcome == RemovalStep::Removed <==> (first_removed || second_removed))
        }),
{
}

} // verus!
