//! Bookkeeping of a whole client run: which task ids have been handed out,
//! how many attempts are still out, and what to do with each outcome.
use vstd::prelude::*;
use crate::dispatch::{AttemptError, is_retryable, retryable};

verus! {

/// Milliseconds to wait before a failed task is tried again.
pub const RETRY_DELAY_MS: u64 = 150;

/// Totals of a run.
#[derive(Debug, Clone, Copy, PartialEq, Eq, Structural)]
pub struct Counts {
    /// Tasks delivered.
    pub succeeded: u64,
    /// Attempts that failed in a way worth another try, each followed by one.
    pub retried: u64,
    /// Tasks given up for good.
    pub failed: u64,
}

/// What to do with a task after one of its attempts ended.
#[derive(Debug, Clone, Copy, PartialEq, Eq, Structural)]
pub enum Verdict {
    /// The task is done with, one way or the other.
    Retire,
    /// Wait the retry delay and start a new attempt of the task.
    Resubmit(u32),
}

/// Tracks a run over task ids `1..=total`. Each task handed out is either
/// settled (delivered or given up) or has exactly one attempt out.
pub struct Orchestrator {
    total: u32,
    issued: u32,
    outstanding: u32,
    counts: Counts,
}

impl Orchestrator {
    /// The number of task ids in the run.
    pub closed spec fn spec_total(self) -> u32 {
        self.total
    }

    /// Task ids handed out so far: they are `1..=issued`.
    pub closed spec fn spec_issued(self) -> u32 {
        self.issued
    }

    /// Attempts not yet settled.
    pub closed spec fn spec_outstanding(self) -> u32 {
        self.outstanding
    }

    /// Totals so far.
    pub closed spec fn spec_counts(self) -> Counts {
        self.counts
    }

    /// Every task handed out is delivered, given up, or has one attempt out.
    pub open spec fn wf(self) -> bool {
        &&& self.spec_issued() <= self.spec_total()
        &&& self.spec_counts().succeeded + self.spec_counts().failed + self.spec_outstanding()
            == self.spec_issued()
    }

    /// Whether every task id is handed out and no attempt is out.
    pub open spec fn done(self) -> bool {
        self.spec_issued() == self.spec_total() && self.spec_outstanding() == 0
    }

    /// A run over task ids `1..=total`, nothing handed out yet.
    pub fn new(total: u32) -> (r: Self)
        ensures
            r.wf(),
            r.spec_total() == total,
            r.spec_issued() == 0,
            r.spec_outstanding() == 0,
            r.spec_counts() == (Counts { succeeded: 0, retried: 0, failed: 0 }),
    {
        Orchestrator { total, issued: 0, outstanding: 0, counts: Counts { succeeded: 0, retried: 0, failed: 0 } }
    }

    /// Hands out the next task id for its first attempt, in increasing order.
    pub fn next_task(&mut self) -> (r: Option<u32>)
        requires
            old(self).wf(),
        ensures
            final(self).wf(),
            final(self).spec_total() == old(self).spec_total(),
            final(self).spec_counts() == old(self).spec_counts(),
            old(self).spec_issued() == old(self).spec_total() ==> r is None && *final(self)
                == *old(self),
            old(self).spec_issued() < old(self).spec_total() ==> r == Some(
                (old(self).spec_issued() + 1) as u32,
            ) && final(self).spec_issued() == old(self).spec_issued() + 1
                && final(self).spec_outstanding() == old(self).spec_outstanding() + 1,
    {
        if self.issued == self.total {
            None
        } else {
            self.issued = self.issued + 1;
            self.outstanding = self.outstanding + 1;
            Some(self.issued)
        }
    }

    /// Settles one ended attempt of `task`. A success counts as delivered, a
    /// connect or write failure is counted and sent round again, any other
    /// failure gives the task up.
    pub fn settle(&mut self, task: u32, outcome: Result<(), AttemptError>) -> (r: Verdict)
        requires
            old(self).wf(),
            old(self).spec_outstanding() > 0,
            old(self).spec_counts().retried < u64::MAX,
        ensures
            final(self).wf(),
            final(self).spec_total() == old(self).spec_total(),
            final(self).spec_issued() == old(self).spec_issued(),
            ({
                let c = old(self).spec_counts();
                match outcome {
                    Ok(()) => r == Verdict::Retire && final(self).spec_counts() == Counts {
                        succeeded: (c.succeeded + 1) as u64,
                        ..c
                    } && final(self).spec_outstanding() == old(self).spec_outstanding() - 1,
                    Err(e) => if retryable(e) {
                        r == Verdict::Resubmit(task) && final(self).spec_counts() == Counts {
                            retried: (c.retried + 1) as u64,
                            ..c
                        } && final(self).spec_outstanding() == old(self).spec_outstanding()
                    } else {
                        r == Verdict::Retire && final(self).spec_counts() == Counts {
                            failed: (c.failed + 1) as u64,
                            ..c
                        } && final(self).spec_outstanding() == old(self).spec_outstanding() - 1
                    },
                }
            }),
    {
        match outcome {
            Ok(()) => {
                self.counts.succeeded = self.counts.succeeded + 1;
                self.outstanding = self.outstanding - 1;
                Verdict::Retire
            },
            Err(e) => {
                if is_retryable(e) {
                    self.counts.retried = self.counts.retried + 1;
                    Verdict::Resubmit(task)
                } else {
                    self.counts.failed = self.counts.failed + 1;
                    self.outstanding = self.outstanding - 1;
                    Verdict::Retire
                }
            },
        }
    }

    /// Whether the run is over: every task id handed out and settled. Then
    /// each task was delivered or given up, exactly once.
    pub fn is_done(&self) -> (r: bool)
        requires
            self.wf(),
        ensures
            r == self.done(),
            r ==> self.spec_counts().succeeded + self.spec_counts().failed
                == self.spec_total(),
    {
        self.issued == self.total && self.outstanding == 0
    }

    /// Attempts not yet settled.
    pub fn outstanding(&self) -> (r: u32)
        ensures
            r == self.spec_outstanding(),
    {
        self.outstanding
    }

    /// Totals so far.
    pub fn counts(&self) -> (r: Counts)
        ensures
            r == self.spec_counts(),
    {
        self.counts
    }
}

} // verus!
