//! Restart supervision and backoff policies.
//!
//! Every engine runs as a long-lived loop under a supervisor that logs the
//! failure, sleeps, and restarts the whole unit.  The sleep is either a
//! fixed interval or — for loops prone to hot-looping during sustained
//! outages — an escalating one, computed from an error counter over a
//! sliding window that resets after a quiet spell.

use vstd::prelude::*;

verus! {

/// How many connection attempts a client makes before giving up.
pub const MAX_CONNECT_ATTEMPTS: u32 = 6;

/// How many times a flaky read is retried before giving up.
pub const MAX_QUERY_RETRIES: u32 = 3;

/// The escalated sleep: one base unit per error over the threshold, capped.
pub open spec fn spec_escalated_wait(base: u64, excess: u64, max: u64) -> int {
    vstd::math::min(base as int * excess as int, max as int)
}

/// Restart policy of one supervised task.
#[derive(Clone, Copy, Debug, PartialEq, Eq, Structural)]
pub struct Supervisor {
    /// Fixed sleep between restarts.
    pub restart_interval_secs: u64,
    /// Length of the sliding error window.
    pub window_secs: u64,
    /// Errors tolerated within one window before sleeps escalate.
    pub threshold: u64,
    /// Escalation unit.
    pub base_wait_secs: u64,
    /// Cap on the escalated sleep.
    pub max_wait_secs: u64,
    /// Errors seen in the current window.
    pub error_count: u64,
    /// When the current window opened.
    pub window_start: u64,
}

impl Supervisor {
    /// A fresh policy with no errors on record.
    pub fn new(
        restart_interval_secs: u64,
        window_secs: u64,
        threshold: u64,
        base_wait_secs: u64,
        max_wait_secs: u64,
    ) -> (r: Self)
        ensures
            r == (Supervisor {
                restart_interval_secs,
                window_secs,
                threshold,
                base_wait_secs,
                max_wait_secs,
                error_count: 0,
                window_start: 0,
            }),
    {
        Supervisor {
            restart_interval_secs,
            window_secs,
            threshold,
            base_wait_secs,
            max_wait_secs,
            error_count: 0,
            window_start: 0,
        }
    }

    /// Record a failure at time `now` (seconds) and say how long to sleep
    /// beyond the fixed interval: nothing while the error rate is below the
    /// threshold, an escalating capped wait once it is crossed.  A window
    /// that has gone quiet for longer than `window_secs` resets the count.
    pub fn plus_and_check(&mut self, now: u64) -> (r: Option<u64>)
        requires
            old(self).error_count < u64::MAX,
        ensures
            ({
                let expired = now > old(self).window_start + old(self).window_secs;
                &&& final(self).window_start == (if expired {
                    now
                } else {
                    old(self).window_start
                })
                &&& final(self).error_count == (if expired {
                    1
                } else {
                    old(self).error_count + 1
                })
                &&& (r is Some <==> final(self).error_count > old(self).threshold)
                &&& (r matches Some(w) ==> w == spec_escalated_wait(
                    old(self).base_wait_secs,
                    (final(self).error_count - old(self).threshold) as u64,
                    old(self).max_wait_secs,
                ))
            }),
            final(self).restart_interval_secs == old(self).restart_interval_secs,
            final(self).window_secs == old(self).window_secs,
            final(self).threshold == old(self).threshold,
            final(self).base_wait_secs == old(self).base_wait_secs,
            final(self).max_wait_secs == old(self).max_wait_secs,
    {
        let expired = self.window_secs > u64::MAX - self.window_start || now > self.window_start
            + self.window_secs;
        proof {
            // Beyond the representable window end, `now` can never pass it.
            if self.window_secs > u64::MAX - self.window_start {
                assert(!(now > self.window_start + self.window_secs));
            }
        }
        if self.window_secs > u64::MAX - self.window_start {
            // The window stretches past any representable time: never
            // expires.
        } else if now > self.window_start + self.window_secs {
            self.window_start = now;
            self.error_count = 0;
        }
        self.error_count = self.error_count + 1;
        if self.error_count > self.threshold {
            Some(escalated_wait(
                self.base_wait_secs,
                self.error_count - self.threshold,
                self.max_wait_secs,
            ))
        } else {
            None
        }
    }
}

/// Compute `min(base * excess, max)` without overflowing.
fn escalated_wait(base: u64, excess: u64, max: u64) -> (r: u64)
    ensures
        r == spec_escalated_wait(base, excess, max),
{
    if base == 0 {
        return 0;
    }
    let quotient = max / base;
    proof {
        vstd::arithmetic::div_mod::lemma_fundamental_div_mod(max as int, base as int);
    }
    if excess > quotient {
        assert(base as int * excess as int > max as int) by (nonlinear_arith)
            requires
                base >= 1,
                excess as int >= quotient as int + 1,
                max as int == base as int * quotient as int + max as int % base as int,
                0 <= (max as int % base as int),
                (max as int % base as int) < base as int,
        {}
        return max;
    }
    assert(base as int * excess as int <= max as int) by (nonlinear_arith)
        requires
            base >= 1,
            excess <= quotient,
            max as int == base as int * quotient as int + max as int % base as int,
            0 <= max as int % base as int,
    {}
    base * excess
}

/// Connection backoff: wait one second before the first attempt, then
/// double the wait after each failure, giving up after
/// `MAX_CONNECT_ATTEMPTS` attempts.
#[derive(Clone, Copy, Debug, PartialEq, Eq, Structural)]
pub struct ReconnectBackoff {
    /// Attempts made so far, counting the one about to run.
    pub attempts: u32,
    /// Seconds to wait before the next attempt.
    pub wait_secs: u64,
}

impl ReconnectBackoff {
    /// Policy state before the first attempt.
    pub fn new() -> (r: Self)
        ensures
            r.attempts == 1,
            r.wait_secs == 1,
    {
        ReconnectBackoff { attempts: 1, wait_secs: 1 }
    }

    /// After a failed attempt: whether to retry, doubling the wait.
    pub fn next_attempt(&mut self) -> (retry: bool)
        requires
            old(self).wait_secs <= u64::MAX / 2,
        ensures
            retry <==> old(self).attempts < MAX_CONNECT_ATTEMPTS,
            retry ==> final(self).attempts == old(self).attempts + 1 && final(self).wait_secs
                == 2 * old(self).wait_secs,
            !retry ==> *final(self) == *old(self),
    {
        if self.attempts < MAX_CONNECT_ATTEMPTS {
            self.attempts = self.attempts + 1;
            self.wait_secs = 2 * self.wait_secs;
            true
        } else {
            false
        }
    }
}

/// After the `failures`-th failure of a flaky chain read: retry after that
/// many seconds, or give up once `MAX_QUERY_RETRIES` failures are on
/// record (the caller then reports an empty answer rather than an error).
pub fn retry_delay(failures: u32) -> (r: Option<u32>)
    ensures
        r is Some <==> failures < MAX_QUERY_RETRIES,
        r matches Some(s) ==> s == failures,
{
    if failures < MAX_QUERY_RETRIES {
        Some(failures)
    } else {
        None
    }
}

} // verus!
