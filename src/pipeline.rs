use vstd::prelude::*;
use crate::backoff::{
    is_retryable, next_backoff, retry_wait, Backoff, FORBIDDEN, INITIAL_BACKOFF_MS, NOT_FOUND,
};
use crate::deleter::{delete_decision, delete_step, DeleteOutcome, DeleteReply, DeleteStep};
use crate::lister::{ids_of, optional_id, took_page, Lister, Message, Prompt};
use crate::stats::{recorded, Stats};

verus! {

/// The next thing the driver of a run has to do.
#[derive(Debug, Clone)]
pub enum Request {
    /// List the page before this cursor (the most recent page if `None`).
    Fetch { before: Option<String> },
    /// Delete this message.
    Delete { id: String },
    /// Ask the user whether to go on, and hand back the answer.
    Ask(Prompt),
    /// The run is over.
    Finish,
}

/// What came back from one listing request.
#[derive(Debug, Clone)]
pub enum FetchReply {
    /// A successful response and the messages it listed, newest first.
    Page(Vec<Message>),
    /// A response with a status other than success; on a 429, the server's
    /// retry-after.
    Status { code: u16, retry_after_ms: Option<u64> },
    /// The request did not complete, or its body could not be read.
    Broken,
}

/// Why listing stopped the run.
#[derive(Debug, Clone, Copy, PartialEq, Eq, Structural)]
pub enum ListError {
    /// The server answered with this status, which is not retried.
    Status(u16),
    /// The request did not complete, or its body could not be read.
    Broken,
}

/// What the driver does after a listing reply.
#[derive(Debug, Clone, Copy, PartialEq, Eq, Structural)]
pub enum FetchStep {
    /// Wait this many milliseconds, then send the same request again.
    Retry { wait_ms: u64 },
    /// The page was taken in; this many messages now wait for deletion.
    Listed { forwarded: usize },
    /// Listing failed and the run is over.
    Failed(ListError),
}

/// One run: the lister, the messages of the current batch that the deleter
/// has still to resolve, the shared counters, and the backoff of the fetch
/// and of the delete in progress. The lister fetches only once the batch is
/// drained, so the two alternate.
#[derive(Debug)]
pub struct Pipeline {
    pub lister: Lister,
    pub stats: Stats,
    /// The current batch, in the order it is deleted.
    pub pending: Vec<String>,
    /// How many messages of the current batch are resolved.
    pub next: usize,
    pub fetch_backoff: Backoff,
    pub delete_backoff: Backoff,
}

impl Pipeline {
    pub open spec fn wf(&self) -> bool {
        &&& self.lister.wf()
        &&& self.fetch_backoff.wf()
        &&& self.delete_backoff.wf()
        &&& self.next <= self.pending@.len()
        &&& self.stats.messages_in_process == self.pending@.len() - self.next
        &&& self.stats.total_deleted + self.stats.total_failed + self.stats.messages_in_process
            <= self.lister.seen@.len()
        &&& self.pending@.len() <= self.lister.seen@.len()
        &&& ids_of(self.pending@) == self.lister.seen_ids().subrange(
            self.lister.seen@.len() - self.pending@.len(),
            self.lister.seen@.len() as int,
        )
        &&& (self.lister.prompt is Some || self.lister.done) ==> self.next == self.pending@.len()
    }

    /// Whether the deleter has a message of the current batch to resolve.
    pub open spec fn deleting(&self) -> bool {
        self.next < self.pending@.len()
    }

    /// The id of the message the deleter is on.
    pub open spec fn pending_id(&self) -> Seq<char> {
        self.pending@[self.next as int]@
    }

    /// A run for `author_id`, before the first fetch.
    pub fn new(author_id: String) -> (r: Pipeline)
        ensures
            r.wf(),
            r.lister.author_id == author_id,
            r.lister.cursor is None,
            r.lister.seen@.len() == 0,
            r.lister.total_batches == 0,
            r.lister.empty_pages == 0,
            r.lister.zero_match_batches == 0,
            r.lister.prompt is None,
            !r.lister.done,
            r.pending@.len() == 0,
            r.next == 0,
            r.fetch_backoff.delay_ms == INITIAL_BACKOFF_MS,
            r.delete_backoff.delay_ms == INITIAL_BACKOFF_MS,
            r.stats.total_deleted == 0,
            r.stats.total_failed == 0,
            r.stats.messages_in_process == 0,
    {
        let r = Pipeline {
            lister: Lister::new(author_id),
            stats: Stats::new(),
            pending: Vec::new(),
            next: 0,
            fetch_backoff: Backoff::new(),
            delete_backoff: Backoff::new(),
        };
        assert(ids_of(r.pending@) =~= r.lister.seen_ids().subrange(0, 0));
        r
    }

    /// The next step of the run: the batch is drained before anything else,
    /// then a pending question is asked, and only then is a page fetched.
    pub fn next_request(&self) -> (r: Request)
        requires
            self.wf(),
        ensures
            r is Fetch ==> self.stats.messages_in_process == 0,
            self.deleting() ==> (r matches Request::Delete { id } && id@ == self.pending_id()),
            !self.deleting() && self.lister.prompt is Some ==> r == Request::Ask(
                self.lister.prompt.unwrap(),
            ),
            !self.deleting() && self.lister.prompt is None && self.lister.done ==> r
                is Finish,
            !self.deleting() && self.lister.prompt is None && !self.lister.done ==> (r matches Request::Fetch {
                before,
            } && optional_id(before) == self.lister.cursor_id()),
    {
        if self.next < self.pending.len() {
            Request::Delete { id: self.pending[self.next].clone() }
        } else if let Some(p) = self.lister.prompt {
            Request::Ask(p)
        } else if self.lister.done {
            Request::Finish
        } else {
            let before = match &self.lister.cursor {
                Some(c) => Some(c.clone()),
                None => None,
            };
            Request::Fetch { before }
        }
    }

    /// Takes the reply to a listing request. A page is taken in by the
    /// lister and what it forwards becomes the new batch; 429 and 5xx are
    /// retried under the fetch's backoff; anything else ends the run.
    pub fn on_fetch_reply(&mut self, reply: FetchReply) -> (r: FetchStep)
        requires
            old(self).wf(),
            !old(self).deleting(),
            old(self).lister.prompt is None,
            !old(self).lister.done,
        ensures
            final(self).wf(),
            final(self).stats.total_deleted == old(self).stats.total_deleted,
            final(self).stats.total_failed == old(self).stats.total_failed,
            final(self).delete_backoff == old(self).delete_backoff,
            match reply {
                FetchReply::Page(page) => {
                    &&& r == FetchStep::Listed { forwarded: final(self).pending@.len() as usize }
                    &&& took_page(
                        old(self).lister,
                        final(self).lister,
                        page@,
                        ids_of(final(self).pending@),
                    )
                    &&& final(self).next == 0
                    &&& final(self).stats.messages_in_process == final(self).pending@.len()
                    &&& final(self).fetch_backoff.delay_ms == INITIAL_BACKOFF_MS
                },
                FetchReply::Status { code, retry_after_ms } => if is_retryable(code) {
                    &&& r == FetchStep::Retry {
                        wait_ms: retry_wait(code, retry_after_ms, old(self).fetch_backoff.delay_ms),
                    }
                    &&& final(self).fetch_backoff.delay_ms == next_backoff(
                        old(self).fetch_backoff.delay_ms,
                    )
                    &&& final(self).lister == old(self).lister
                    &&& final(self).stats == old(self).stats
                } else {
                    &&& r == FetchStep::Failed(ListError::Status(code))
                    &&& final(self).lister.done
                    &&& final(self).lister.seen == old(self).lister.seen
                },
                FetchReply::Broken => {
                    &&& r == FetchStep::Failed(ListError::Broken)
                    &&& final(self).lister.done
                    &&& final(self).lister.seen == old(self).lister.seen
                },
            },
    {
        match reply {
            FetchReply::Page(page) => {
                let ghost pre = *self;
                let batch = self.lister.on_page(&page);
                proof {
                    let fwd = ids_of(batch@);
                    let sa = pre.lister.seen_ids();
                    assert(fwd.len() == batch@.len());
                    assert(sa.len() == pre.lister.seen@.len());
                    assert(self.lister.seen_ids().len() == self.lister.seen@.len());
                    assert(self.lister.seen_ids() == sa + fwd);
                    assert(fwd =~= (sa + fwd).subrange(sa.len() as int, (sa.len() + fwd.len()) as int));
                    if batch@.len() > 0 {
                        crate::lister::lemma_forwarding_needs_match(
                            page@,
                            pre.lister.author_id@,
                            pre.lister.seen_ids(),
                        );
                    }
                    assert(self.lister.seen@.len() == self.lister.seen_ids().len());
                    assert(pre.lister.seen@.len() == pre.lister.seen_ids().len());
                }
                let n = batch.len();
                self.pending = batch;
                self.next = 0;
                self.stats.begin_batch(n);
                self.fetch_backoff.reset();
                FetchStep::Listed { forwarded: n }
            },
            FetchReply::Status { code, retry_after_ms } => {
                match self.fetch_backoff.on_status(code, retry_after_ms) {
                    Some(wait_ms) => FetchStep::Retry { wait_ms },
                    None => {
                        self.lister.done = true;
                        self.fetch_backoff.reset();
                        FetchStep::Failed(ListError::Status(code))
                    },
                }
            },
            FetchReply::Broken => {
                self.lister.done = true;
                self.fetch_backoff.reset();
                FetchStep::Failed(ListError::Broken)
            },
        }
    }

    /// Takes the reply to the delete of the current message. A retry leaves
    /// everything but the backoff as it was, so the same delete is sent
    /// again; a resolved message is counted and the deleter moves on.
    pub fn on_delete_reply(&mut self, reply: DeleteReply) -> (r: DeleteStep)
        requires
            old(self).wf(),
            old(self).deleting(),
        ensures
            final(self).wf(),
            r == delete_decision(reply, old(self).delete_backoff.delay_ms),
            final(self).lister == old(self).lister,
            final(self).pending == old(self).pending,
            final(self).fetch_backoff == old(self).fetch_backoff,
            match r {
                DeleteStep::Retry { .. } => {
                    &&& final(self).next == old(self).next
                    &&& final(self).stats == old(self).stats
                    &&& final(self).delete_backoff.delay_ms == next_backoff(
                        old(self).delete_backoff.delay_ms,
                    )
                },
                DeleteStep::Resolved(outcome) => {
                    &&& final(self).next == old(self).next + 1
                    &&& final(self).stats == recorded(old(self).stats, outcome)
                    &&& final(self).delete_backoff.delay_ms == INITIAL_BACKOFF_MS
                },
            },
    {
        let seen_len = self.lister.seen.len();
        let pending_len = self.pending.len();
        let step = delete_step(&mut self.delete_backoff, reply);
        match step {
            DeleteStep::Retry { .. } => {},
            DeleteStep::Resolved(outcome) => {
                self.stats.record(outcome);
                self.next = self.next + 1;
                self.delete_backoff.reset();
            },
        }
        step
    }

    /// Hands the user's answer to the lister's pending question.
    pub fn on_answer(&mut self, keep_going: bool)
        requires
            old(self).wf(),
            old(self).lister.prompt is Some,
        ensures
            final(self).wf(),
            final(self).lister.prompt is None,
            final(self).lister.done == !keep_going,
            final(self).lister.cursor == old(self).lister.cursor,
            final(self).lister.seen == old(self).lister.seen,
            keep_going ==> final(self).lister.zero_match_batches == 0,
            final(self).stats == old(self).stats,
            final(self).pending == old(self).pending,
            final(self).next == old(self).next,
    {
        self.lister.on_answer(keep_going);
    }
}

/// Over a whole run, the messages counted as deleted or failed never
/// outnumber the distinct messages forwarded to the deleter, and no message
/// is forwarded twice.
pub proof fn resolved_within_forwarded(p: Pipeline)
    requires
        p.wf(),
    ensures
        p.stats.total_deleted + p.stats.total_failed <= p.lister.seen_ids().len(),
        p.lister.seen_ids().no_duplicates(),
{
}

/// A 404 on a delete resolves the message without counting it as deleted
/// or as failed.
pub proof fn not_found_counts_nothing(s: Stats, backoff_ms: u64, retry_after_ms: Option<u64>)
    ensures
        delete_decision(
            DeleteReply::Status { code: NOT_FOUND, retry_after_ms },
            backoff_ms,
        ) == DeleteStep::Resolved(DeleteOutcome::AlreadyGone),
        recorded(s, DeleteOutcome::AlreadyGone).total_deleted == s.total_deleted,
        recorded(s, DeleteOutcome::AlreadyGone).total_failed == s.total_failed,
{
}

/// A 403 on a delete is not retried: it is counted once as failed.
pub proof fn forbidden_fails_once(s: Stats, backoff_ms: u64, retry_after_ms: Option<u64>)
    requires
        s.total_failed < usize::MAX,
    ensures
        delete_decision(
            DeleteReply::Status { code: FORBIDDEN, retry_after_ms },
            backoff_ms,
        ) == DeleteStep::Resolved(DeleteOutcome::Failed),
        recorded(s, DeleteOutcome::Failed).total_failed == s.total_failed + 1,
        recorded(s, DeleteOutcome::Failed).total_deleted == s.total_deleted,
{
}

} // verus!
