use vstd::prelude::*;
use crate::backoff::{is_retryable, is_success, next_backoff, retry_wait, Backoff, NOT_FOUND};

verus! {

/// How the deletion of one message ended.
#[derive(Debug, Clone, Copy, PartialEq, Eq, Structural)]
pub enum DeleteOutcome {
    /// The server confirmed the deletion.
    Deleted,
    /// The message was not found: it is already gone. Not a failure.
    AlreadyGone,
    /// The message could not be deleted (no permission, or another error).
    Failed,
}

/// What came back from one delete request.
#[derive(Debug, Clone, Copy, PartialEq, Eq, Structural)]
pub enum DeleteReply {
    /// A response with this status; on a 429, the server's retry-after.
    Status { code: u16, retry_after_ms: Option<u64> },
    /// The request did not complete, or its body could not be read.
    Broken,
}

/// What the deleter does next with the current message.
#[derive(Debug, Clone, Copy, PartialEq, Eq, Structural)]
pub enum DeleteStep {
    /// Wait this many milliseconds, then send the same delete again.
    Retry { wait_ms: u64 },
    /// The message is resolved.
    Resolved(DeleteOutcome),
}

/// The outcome of a delete answered with a status that is not retried.
pub open spec fn delete_outcome(code: u16) -> DeleteOutcome {
    if is_success(code) {
        DeleteOutcome::Deleted
    } else if code == NOT_FOUND {
        DeleteOutcome::AlreadyGone
    } else {
        DeleteOutcome::Failed
    }
}

/// What the deleter does on `reply` while its backoff stands at `backoff_ms`.
pub open spec fn delete_decision(reply: DeleteReply, backoff_ms: u64) -> DeleteStep {
    match reply {
        DeleteReply::Status { code, retry_after_ms } => if is_retryable(code) {
            DeleteStep::Retry { wait_ms: retry_wait(code, retry_after_ms, backoff_ms) }
        } else {
            DeleteStep::Resolved(delete_outcome(code))
        },
        DeleteReply::Broken => DeleteStep::Resolved(DeleteOutcome::Failed),
    }
}

/// Classifies a status that is not retried.
pub fn classify_delete(code: u16) -> (r: DeleteOutcome)
    ensures
        r == delete_outcome(code),
{
    if code >= 200 && code <= 299 {
        DeleteOutcome::Deleted
    } else if code == NOT_FOUND {
        DeleteOutcome::AlreadyGone
    } else {
        DeleteOutcome::Failed
    }
}

/// Decides on one reply to a delete request, under the backoff of this
/// message's deletion: 429 and 5xx are retried, anything else resolves it.
pub fn delete_step(backoff: &mut Backoff, reply: DeleteReply) -> (r: DeleteStep)
    requires
        old(backoff).wf(),
    ensures
        final(backoff).wf(),
        r == delete_decision(reply, old(backoff).delay_ms),
        r is Retry ==> final(backoff).delay_ms == next_backoff(old(backoff).delay_ms),
        r is Resolved ==> *final(backoff) == *old(backoff),
{
    match reply {
        DeleteReply::Status { code, retry_after_ms } => {
            match backoff.on_status(code, retry_after_ms) {
                Some(wait_ms) => DeleteStep::Retry { wait_ms },
                None => DeleteStep::Resolved(classify_delete(code)),
            }
        },
        DeleteReply::Broken => DeleteStep::Resolved(DeleteOutcome::Failed),
    }
}

} // verus!
