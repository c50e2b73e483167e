use vstd::prelude::*;
use crate::deleter::DeleteOutcome;

verus! {

/// Counters shared by the lister and the deleter.
#[derive(Debug, Clone, Copy, PartialEq, Eq, Structural)]
pub struct Stats {
    pub total_deleted: usize,
    pub total_failed: usize,
    pub messages_in_process: usize,
}

/// The counters after one message of the batch is resolved.
pub open spec fn recorded(s: Stats, outcome: DeleteOutcome) -> Stats {
    Stats {
        total_deleted: if outcome == DeleteOutcome::Deleted {
            (s.total_deleted + 1) as usize
        } else {
            s.total_deleted
        },
        total_failed: if outcome == DeleteOutcome::Failed {
            (s.total_failed + 1) as usize
        } else {
            s.total_failed
        },
        messages_in_process: if s.messages_in_process > 0 {
            (s.messages_in_process - 1) as usize
        } else {
            0
        },
    }
}

impl Stats {
    pub fn new() -> (r: Stats)
        ensures
            r.total_deleted == 0,
            r.total_failed == 0,
            r.messages_in_process == 0,
    {
        Stats { total_deleted: 0, total_failed: 0, messages_in_process: 0 }
    }

    /// A batch of `n` messages is handed to the deleter.
    pub fn begin_batch(&mut self, n: usize)
        ensures
            final(self).messages_in_process == n,
            final(self).total_deleted == old(self).total_deleted,
            final(self).total_failed == old(self).total_failed,
    {
        self.messages_in_process = n;
    }

    /// One message's outcome is known: count it, and take it out of the
    /// messages in process (never below zero).
    pub fn record(&mut self, outcome: DeleteOutcome)
        requires
            old(self).total_deleted + old(self).total_failed < usize::MAX,
        ensures
            *final(self) == recorded(*old(self), outcome),
    {
        match outcome {
            DeleteOutcome::Deleted => {
                self.total_deleted = self.total_deleted + 1;
            },
            DeleteOutcome::Failed => {
                self.total_failed = self.total_failed + 1;
            },
            DeleteOutcome::AlreadyGone => {},
        }
        self.messages_in_process = self.messages_in_process.saturating_sub(1);
    }
}

} // verus!
