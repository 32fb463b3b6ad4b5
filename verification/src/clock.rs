//! The timers of the main loop: when the log is to be tailed, when the live
//! indicator blinks, and how long the loop may wait for input without
//! missing either.
//!
//! Time is a count of nanoseconds on a clock that never runs backwards.

use vstd::prelude::*;

verus! {

/// The interval at which the log is tailed and the live indicator blinks.
pub const LIVE_TAIL_INTERVAL_NS: u64 = 500_000_000;

/// The longest wait for input while an action runs.
pub const ACTION_POLL_NS: u64 = 100_000_000;

/// The longest wait for input otherwise.
pub const IDLE_POLL_NS: u64 = 60_000_000_000;

/// The timers of live tailing.
#[derive(Debug, Clone, Copy, PartialEq, Eq, Structural)]
pub struct LiveTailClock {
    /// The start of the current tail interval.
    pub last_refresh: u64,
    /// The start of the current blink interval.
    pub last_blink: u64,
    /// The live indicator is lit.
    pub indicator_on: bool,
    /// Live tailing was active at the last tick.
    pub was_active: bool,
}

/// The time from `since` to `now`; none where the clock reads less.
pub open spec fn elapsed(now: u64, since: u64) -> int {
    if now >= since {
        now - since
    } else {
        0
    }
}

/// The start of the interval that `now` lies in, counting whole intervals
/// from `since`.
pub open spec fn interval_start(now: u64, since: u64) -> u64 {
    (since + (elapsed(now, since) / (LIVE_TAIL_INTERVAL_NS as int)) * LIVE_TAIL_INTERVAL_NS) as u64
}

/// The wait until the interval that began at `since` ends; none where it
/// has ended.
pub open spec fn remaining(now: u64, since: u64) -> int {
    if elapsed(now, since) >= LIVE_TAIL_INTERVAL_NS {
        0
    } else {
        LIVE_TAIL_INTERVAL_NS - elapsed(now, since)
    }
}

/// The smaller of two numbers.
pub open spec fn min_int(a: int, b: int) -> int {
    if a <= b {
        a
    } else {
        b
    }
}

impl LiveTailClock {
    /// The clock as live tailing starts at `now`: both intervals begin, and
    /// the indicator is lit.
    pub open spec fn restarted(now: u64) -> LiveTailClock {
        LiveTailClock { last_refresh: now, last_blink: now, indicator_on: true, was_active: true }
    }

    /// The clock after a tick at `now`. While live tailing is inactive only
    /// that is noted. When it becomes active the clock restarts. While it is
    /// active the indicator changes once for every blink interval that has
    /// ended, and both interval starts move up to the interval that `now`
    /// lies in.
    pub open spec fn ticked(self, now: u64, active: bool) -> LiveTailClock {
        if !active {
            LiveTailClock { was_active: false, ..self }
        } else {
            let base = if self.was_active {
                self
            } else {
                LiveTailClock::restarted(now)
            };
            let blinks = elapsed(now, base.last_blink) / (LIVE_TAIL_INTERVAL_NS as int);
            LiveTailClock {
                last_refresh: interval_start(now, base.last_refresh),
                last_blink: interval_start(now, base.last_blink),
                indicator_on: if blinks % 2 == 0 {
                    base.indicator_on
                } else {
                    !base.indicator_on
                },
                was_active: true,
            }
        }
    }

    /// The log is to be tailed at a tick at `now`: live tailing was active
    /// before and is active, and a tail interval has ended.
    pub open spec fn tail_due(self, now: u64, active: bool) -> bool {
        active && self.was_active && elapsed(now, self.last_refresh) >= LIVE_TAIL_INTERVAL_NS
    }

    /// The longest wait for input at `now` that misses nothing: the wait
    /// for a running action or the idle wait, cut down while live tailing is
    /// active to the end of the tail interval and of the blink interval.
    pub open spec fn wait(self, now: u64, active: bool, action_in_progress: bool) -> int {
        let base: int = if action_in_progress {
            ACTION_POLL_NS as int
        } else {
            IDLE_POLL_NS as int
        };
        if active {
            min_int(
                base,
                min_int(remaining(now, self.last_refresh), remaining(now, self.last_blink)),
            )
        } else {
            base
        }
    }

    /// The clock of a session that starts at `now`.
    pub fn new(now: u64) -> (r: Self)
        ensures
            r == (LiveTailClock {
                last_refresh: now,
                last_blink: now,
                indicator_on: true,
                was_active: false,
            }),
    {
        LiveTailClock { last_refresh: now, last_blink: now, indicator_on: true, was_active: false }
    }

    /// Advances the clock to `now` and says whether the log is to be tailed,
    /// see `ticked` and `tail_due`.
    pub fn tick(&mut self, now: u64, active: bool) -> (due: bool)
        ensures
            *final(self) == old(self).ticked(now, active),
            due == old(self).tail_due(now, active),
            active ==> elapsed(now, final(self).last_refresh) < LIVE_TAIL_INTERVAL_NS,
            active ==> elapsed(now, final(self).last_blink) < LIVE_TAIL_INTERVAL_NS,
    {
        if !active {
            self.was_active = false;
            return false;
        }
        if !self.was_active {
            self.indicator_on = true;
            self.last_refresh = now;
            self.last_blink = now;
        }
        let since_blink: u64 = if now >= self.last_blink {
            now - self.last_blink
        } else {
            0
        };
        let blinks: u64 = since_blink / LIVE_TAIL_INTERVAL_NS;
        proof {
            lemma_whole_intervals(since_blink as int);
        }
        if blinks % 2 == 1 {
            self.indicator_on = !self.indicator_on;
        }
        self.last_blink = self.last_blink + blinks * LIVE_TAIL_INTERVAL_NS;
        let since_refresh: u64 = if now >= self.last_refresh {
            now - self.last_refresh
        } else {
            0
        };
        let due = self.was_active && since_refresh >= LIVE_TAIL_INTERVAL_NS;
        let intervals: u64 = since_refresh / LIVE_TAIL_INTERVAL_NS;
        proof {
            lemma_whole_intervals(since_refresh as int);
        }
        self.last_refresh = self.last_refresh + intervals * LIVE_TAIL_INTERVAL_NS;
        self.was_active = true;
        due
    }

    /// The longest wait for input at `now` that misses nothing, see `wait`.
    pub fn poll_timeout(&self, now: u64, active: bool, action_in_progress: bool) -> (r: u64)
        ensures
            r == self.wait(now, active, action_in_progress),
    {
        let mut timeout: u64 = if action_in_progress {
            ACTION_POLL_NS
        } else {
            IDLE_POLL_NS
        };
        if active {
            let refresh_wait = wait_for(now, self.last_refresh);
            let blink_wait = wait_for(now, self.last_blink);
            let least: u64 = if refresh_wait <= blink_wait {
                refresh_wait
            } else {
                blink_wait
            };
            if least < timeout {
                timeout = least;
            }
        }
        timeout
    }
}

fn wait_for(now: u64, since: u64) -> (r: u64)
    ensures
        r == remaining(now, since),
{
    let passed: u64 = if now >= since {
        now - since
    } else {
        0
    };
    if passed >= LIVE_TAIL_INTERVAL_NS {
        0
    } else {
        LIVE_TAIL_INTERVAL_NS - passed
    }
}

/// The whole intervals in a span of time take no more than the span, and
/// less than one interval is left over.
proof fn lemma_whole_intervals(span: int)
    requires
        span >= 0,
    ensures
        0 <= (span / (LIVE_TAIL_INTERVAL_NS as int)) * LIVE_TAIL_INTERVAL_NS <= span,
        span - (span / (LIVE_TAIL_INTERVAL_NS as int)) * LIVE_TAIL_INTERVAL_NS
            < LIVE_TAIL_INTERVAL_NS,
{
    vstd::arithmetic::div_mod::lemma_fundamental_div_mod(span, LIVE_TAIL_INTERVAL_NS as int);
    vstd::arithmetic::div_mod::lemma_mod_bound(span, LIVE_TAIL_INTERVAL_NS as int);
    vstd::arithmetic::div_mod::lemma_div_pos_is_pos(span, LIVE_TAIL_INTERVAL_NS as int);
    let q = span / (LIVE_TAIL_INTERVAL_NS as int);
    assert(q * (LIVE_TAIL_INTERVAL_NS as int) == (LIVE_TAIL_INTERVAL_NS as int) * q)
        by (nonlinear_arith);
    assert(q * (LIVE_TAIL_INTERVAL_NS as int) >= 0) by (nonlinear_arith)
        requires
            q >= 0,
    ;
}

} // verus!
