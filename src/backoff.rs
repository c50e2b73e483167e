use vstd::prelude::*;

verus! {

/// Backoff of a fresh operation, in milliseconds.
pub const INITIAL_BACKOFF_MS: u64 = 1000;

/// Ceiling of the backoff, in milliseconds.
pub const MAX_BACKOFF_MS: u64 = 30000;

/// HTTP status "too many requests".
pub const TOO_MANY_REQUESTS: u16 = 429;

/// HTTP status "forbidden".
pub const FORBIDDEN: u16 = 403;

/// HTTP status "not found".
pub const NOT_FOUND: u16 = 404;

pub open spec fn is_success(code: u16) -> bool {
    200 <= code <= 299
}

pub open spec fn is_server_error(code: u16) -> bool {
    500 <= code <= 599
}

/// Statuses after which the same request is sent again.
pub open spec fn is_retryable(code: u16) -> bool {
    code == TOO_MANY_REQUESTS || is_server_error(code)
}

pub open spec fn max_u64(a: u64, b: u64) -> u64 {
    if a >= b {
        a
    } else {
        b
    }
}

/// The backoff after one more consecutive failure: doubled, capped.
pub open spec fn next_backoff(b: u64) -> u64 {
    if 2 * b <= MAX_BACKOFF_MS {
        (2 * b) as u64
    } else {
        MAX_BACKOFF_MS
    }
}

/// How long to wait before retrying: the larger of the server's
/// retry-after and the backoff on a 429, the backoff on a 5xx.
pub open spec fn retry_wait(code: u16, retry_after_ms: Option<u64>, backoff_ms: u64) -> u64 {
    if code == TOO_MANY_REQUESTS {
        match retry_after_ms {
            Some(ra) => max_u64(ra, backoff_ms),
            None => backoff_ms,
        }
    } else {
        backoff_ms
    }
}

/// Exponential backoff of one logical operation (one fetch or one delete).
#[derive(Debug, Clone, Copy, PartialEq, Eq, Structural)]
pub struct Backoff {
    pub delay_ms: u64,
}

impl Backoff {
    pub open spec fn wf(&self) -> bool {
        INITIAL_BACKOFF_MS <= self.delay_ms <= MAX_BACKOFF_MS
    }

    pub fn new() -> (r: Backoff)
        ensures
            r.delay_ms == INITIAL_BACKOFF_MS,
            r.wf(),
    {
        Backoff { delay_ms: INITIAL_BACKOFF_MS }
    }

    /// Starts the backoff over, for the next operation.
    pub fn reset(&mut self)
        ensures
            final(self).delay_ms == INITIAL_BACKOFF_MS,
            final(self).wf(),
    {
        self.delay_ms = INITIAL_BACKOFF_MS;
    }

    /// Decides on a response status: the wait before the same request is
    /// sent again, or `None` when the status is not retried.
    pub fn on_status(&mut self, code: u16, retry_after_ms: Option<u64>) -> (r: Option<u64>)
        requires
            old(self).wf(),
        ensures
            final(self).wf(),
            is_retryable(code) ==> r == Some(retry_wait(code, retry_after_ms, old(self).delay_ms))
                && final(self).delay_ms == next_backoff(old(self).delay_ms),
            !is_retryable(code) ==> r is None && final(self).delay_ms == old(self).delay_ms,
    {
        if code == TOO_MANY_REQUESTS || (code >= 500 && code <= 599) {
            let wait = if code == TOO_MANY_REQUESTS {
                match retry_after_ms {
                    Some(ra) => if ra >= self.delay_ms {
                        ra
                    } else {
                        self.delay_ms
                    },
                    None => self.delay_ms,
                }
            } else {
                self.delay_ms
            };
            self.delay_ms = if self.delay_ms <= MAX_BACKOFF_MS / 2 {
                self.delay_ms * 2
            } else {
                MAX_BACKOFF_MS
            };
            Some(wait)
        } else {
            None
        }
    }
}

/// Under rate limiting a retry never comes before the server's retry-after,
/// and a second consecutive 429 of one operation waits the larger of its
/// retry-after and twice the earlier backoff (capped).
pub proof fn rate_limit_waits(b: Backoff, first_retry_after_ms: u64, second_retry_after_ms: u64)
    requires
        b.wf(),
    ensures
        retry_wait(TOO_MANY_REQUESTS, Some(first_retry_after_ms), b.delay_ms)
            >= first_retry_after_ms,
        retry_wait(TOO_MANY_REQUESTS, Some(second_retry_after_ms), next_backoff(b.delay_ms))
            == max_u64(
            second_retry_after_ms,
            if 2 * b.delay_ms <= MAX_BACKOFF_MS {
                (2 * b.delay_ms) as u64
            } else {
                MAX_BACKOFF_MS
            },
        ),
        b.delay_ms == INITIAL_BACKOFF_MS ==> retry_wait(
            TOO_MANY_REQUESTS,
            Some(second_retry_after_ms),
            next_backoff(b.delay_ms),
        ) == max_u64(second_retry_after_ms, (2 * INITIAL_BACKOFF_MS) as u64),
{
}

} // verus!
