//! The retry scheduler: exponential backoff between attempts, capped at a
//! maximum interval, giving up when a time or attempt budget runs out.
//!
//! The scheduler only decides; it neither sleeps nor calls the operation.
//! A driver loops: run the operation; on failure hand the error to
//! [`RetryPolicy::on_failure`]; sleep the returned delay and try again, or
//! surface the exhaustion error. Every failure kind is treated as
//! transient alike — a deliberate robustness trade-off for devices slower
//! than the host, at the cost of masking permanent errors until the
//! budget runs out.

use vstd::prelude::*;

use crate::error::Error;

verus! {

/// Largest allowed cap on the interval, so that growing an interval by
/// half can never overflow.
pub const MAX_INTERVAL_CAP_MS: u64 = 0x5555555555555555;

/// What a retrying driver does after one more failure.
#[derive(Debug, PartialEq, Eq)]
pub enum RetryStep {
    /// Sleep this long, then run the operation again.
    Retry { delay_ms: u64 },
    /// Stop retrying and surface this error.
    GiveUp { error: Error },
}

/// The state of one retry sequence: how long to wait before the next
/// attempt, and how much of the time and attempt budget is spent.
#[derive(Debug, Clone, PartialEq, Eq)]
pub struct RetryPolicy {
    /// Delay before the next retry, in milliseconds.
    pub current_interval_ms: u64,
    /// No delay ever exceeds this.
    pub max_interval_ms: u64,
    /// The delays handed out so far, summed (saturating).
    pub elapsed_ms: u64,
    /// Once `elapsed_ms` passes this, the next failure gives up.
    pub max_elapsed_ms: u64,
    /// Failures seen so far.
    pub attempts: u64,
    /// Once this many failures have been seen, the next one gives up.
    pub max_attempts: u64,
}

impl RetryPolicy {
    /// The arithmetic below never overflows while this holds.
    pub open spec fn wf(&self) -> bool {
        self.current_interval_ms <= self.max_interval_ms && self.max_interval_ms
            <= MAX_INTERVAL_CAP_MS
    }

    /// One growth step: the delay to sleep now, and the policy for the
    /// attempt after it — the interval grown by half, capped; the budgets
    /// charged.
    pub open spec fn spec_next(self) -> (u64, RetryPolicy) {
        let grown = self.current_interval_ms as int * 3 / 2;
        let next = if grown <= self.max_interval_ms as int {
            grown
        } else {
            self.max_interval_ms as int
        };
        let spent = self.elapsed_ms as int + self.current_interval_ms as int;
        let elapsed = if spent <= u64::MAX as int {
            spent
        } else {
            u64::MAX as int
        };
        (
            self.current_interval_ms,
            RetryPolicy {
                current_interval_ms: next as u64,
                elapsed_ms: elapsed as u64,
                attempts: (self.attempts + 1) as u64,
                ..self
            },
        )
    }

    /// The default strategy: half a second to start, growing by half per
    /// failure, at most five seconds between attempts, giving up after
    /// fifteen minutes; no attempt count limit.
    pub fn new() -> (r: RetryPolicy)
        ensures
            r.wf(),
            r.current_interval_ms == 500,
            r.max_interval_ms == 5000,
            r.elapsed_ms == 0,
            r.max_elapsed_ms == 900000,
            r.attempts == 0,
            r.max_attempts == u64::MAX,
    {
        RetryPolicy {
            current_interval_ms: 500,
            max_interval_ms: 5000,
            elapsed_ms: 0,
            max_elapsed_ms: 900000,
            attempts: 0,
            max_attempts: u64::MAX,
        }
    }

    /// A strategy with every knob chosen by the caller.
    pub fn with_limits(
        initial_interval_ms: u64,
        max_interval_ms: u64,
        max_elapsed_ms: u64,
        max_attempts: u64,
    ) -> (r: RetryPolicy)
        requires
            initial_interval_ms <= max_interval_ms,
            max_interval_ms <= MAX_INTERVAL_CAP_MS,
        ensures
            r.wf(),
            r.current_interval_ms == initial_interval_ms,
            r.max_interval_ms == max_interval_ms,
            r.elapsed_ms == 0,
            r.max_elapsed_ms == max_elapsed_ms,
            r.attempts == 0,
            r.max_attempts == max_attempts,
    {
        RetryPolicy {
            current_interval_ms: initial_interval_ms,
            max_interval_ms,
            elapsed_ms: 0,
            max_elapsed_ms,
            attempts: 0,
            max_attempts,
        }
    }

    /// Decides what a retrying driver does after one more failure: when
    /// the attempt budget is spent the failure is wrapped in
    /// [`Error::AttemptsExceeded`], when the time budget is spent in
    /// [`Error::TimeoutExceeded`]; otherwise the driver is told to sleep
    /// the current interval and the policy grows it for the next time.
    pub fn on_failure(&mut self, last: Error) -> (r: RetryStep)
        requires
            old(self).wf(),
        ensures
            final(self).wf(),
            old(self).attempts >= old(self).max_attempts ==> *final(self) == *old(self) && (
            r matches RetryStep::GiveUp { error } && (error matches Error::AttemptsExceeded {
                source,
            } && *source == last)),
            old(self).attempts < old(self).max_attempts && old(self).elapsed_ms > old(
                self,
            ).max_elapsed_ms ==> *final(self) == *old(self) && (
            r matches RetryStep::GiveUp { error } && (error matches Error::TimeoutExceeded {
                source,
            } && *source == last)),
            old(self).attempts < old(self).max_attempts && old(self).elapsed_ms <= old(
                self,
            ).max_elapsed_ms ==> r == (RetryStep::Retry { delay_ms: old(self).spec_next().0 })
                && *final(self) == old(self).spec_next().1,
    {
        if self.attempts >= self.max_attempts {
            return RetryStep::GiveUp {
                error: Error::AttemptsExceeded { source: Box::new(last) },
            };
        }
        if self.elapsed_ms > self.max_elapsed_ms {
            return RetryStep::GiveUp {
                error: Error::TimeoutExceeded { source: Box::new(last) },
            };
        }
        let delay = self.current_interval_ms;
        let grown = (self.current_interval_ms * 3) / 2;
        self.current_interval_ms = if grown <= self.max_interval_ms {
            grown
        } else {
            self.max_interval_ms
        };
        self.elapsed_ms = if self.elapsed_ms > u64::MAX - delay {
            u64::MAX
        } else {
            self.elapsed_ms + delay
        };
        self.attempts = self.attempts + 1;
        RetryStep::Retry { delay_ms: delay }
    }
}

/// Whether one more failure would make the policy give up rather than
/// schedule a retry.
pub open spec fn spec_gives_up(p: RetryPolicy) -> bool {
    p.attempts >= p.max_attempts || p.elapsed_ms > p.max_elapsed_ms
}

/// The delays a driver sleeps when the operation fails `failures` times
/// in a row, each one scheduled by [`RetryPolicy::on_failure`], stopping
/// early if the policy gives up.
pub open spec fn retry_delays(p: RetryPolicy, failures: nat) -> Seq<u64>
    decreases failures,
{
    if failures == 0 || spec_gives_up(p) {
        Seq::empty()
    } else {
        seq![p.spec_next().0] + retry_delays(p.spec_next().1, (failures - 1) as nat)
    }
}

/// Whether a driver whose operation fails `failures` times and then
/// succeeds reaches that successful attempt, rather than giving up first.
pub open spec fn retry_reaches_success(p: RetryPolicy, failures: nat) -> bool
    decreases failures,
{
    failures == 0 || (!spec_gives_up(p) && retry_reaches_success(
        p.spec_next().1,
        (failures - 1) as nat,
    ))
}

/// Consecutive retry delays never decrease, and none exceeds the
/// configured maximum interval: across a whole sequence of failures the
/// sleeps grow monotonically until they sit at the cap.
pub proof fn lemma_backoff_monotone(p: RetryPolicy)
    requires
        p.wf(),
    ensures
        ({
            let (d1, p1) = p.spec_next();
            let (d2, p2) = p1.spec_next();
            d1 <= d2 && d1 <= p.max_interval_ms && d2 <= p.max_interval_ms && p1.wf()
        }),
{
    assert(p.current_interval_ms as int * 3 / 2 >= p.current_interval_ms as int)
        by (nonlinear_arith);
    assert(p.current_interval_ms as int * 3 / 2 <= MAX_INTERVAL_CAP_MS as int * 3 / 2)
        by (nonlinear_arith)
        requires
            p.current_interval_ms <= MAX_INTERVAL_CAP_MS,
    ;
}

/// Over a whole run of failures, the scheduled sleeps never decrease and
/// stay within the configured maximum interval.
pub proof fn lemma_retry_delays_monotone(p: RetryPolicy, failures: nat)
    requires
        p.wf(),
    ensures
        ({
            let d = retry_delays(p, failures);
            (forall|i: int| 0 <= i < d.len() ==> #[trigger] d[i] <= p.max_interval_ms) && (
            forall|i: int| 0 <= i && i + 1 < d.len() ==> #[trigger] d[i] <= d[i + 1])
        }),
    decreases failures,
{
    if failures > 0 && !spec_gives_up(p) {
        let d0 = p.spec_next().0;
        let p1 = p.spec_next().1;
        lemma_backoff_monotone(p);
        lemma_retry_delays_monotone(p1, (failures - 1) as nat);
        let d = retry_delays(p, failures);
        let rest = retry_delays(p1, (failures - 1) as nat);
        assert(d == seq![d0] + rest);
        assert(p1.max_interval_ms == p.max_interval_ms);
        if rest.len() > 0 {
            assert(rest[0] == p1.spec_next().0);
            assert(d0 <= rest[0]);
        }
        assert forall|i: int| 0 <= i < d.len() implies #[trigger] d[i] <= p.max_interval_ms by {
            if i > 0 {
                assert(d[i] == rest[i - 1]);
            }
        }
        assert forall|i: int| 0 <= i && i + 1 < d.len() implies #[trigger] d[i] <= d[i + 1] by {
            if i > 0 {
                assert(d[i] == rest[i - 1] && d[i + 1] == rest[i]);
            }
        }
    }
}

/// A retried operation that fails some number of times and then succeeds
/// does succeed, whenever the budgets cover the failures: enough attempts
/// are left, and the time budget holds even if every sleep sat at the
/// configured cap.
pub proof fn lemma_retry_reaches_success(p: RetryPolicy, failures: nat)
    requires
        p.wf(),
        p.attempts + failures <= p.max_attempts,
        p.elapsed_ms + failures * p.max_interval_ms <= p.max_elapsed_ms,
    ensures
        retry_reaches_success(p, failures),
    decreases failures,
{
    if failures > 0 {
        assert(failures * p.max_interval_ms >= 1 * p.max_interval_ms) by (nonlinear_arith)
            requires
                failures >= 1,
                p.max_interval_ms >= 0,
        ;
        assert(!spec_gives_up(p));
        let p1 = p.spec_next().1;
        assert((failures - 1) * p.max_interval_ms == failures * p.max_interval_ms
            - p.max_interval_ms) by (nonlinear_arith);
        assert(p1.elapsed_ms <= p.elapsed_ms + p.max_interval_ms);
        lemma_retry_reaches_success(p1, (failures - 1) as nat);
    }
}

} // verus!
