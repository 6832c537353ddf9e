//! Settle timers on the simulation clock, in whole milliseconds.
use vstd::prelude::*;

verus! {

/// A span of simulation time that starts at `start_time` and lasts `expire`
/// milliseconds.
#[derive(Debug, Clone, Copy, PartialEq, Eq, Structural)]
pub struct Timer {
    pub start_time: i64,
    pub expire: i64,
}

impl Timer {
    /// Time passed since the timer started.
    pub open spec fn elapsed(&self, now: int) -> int {
        now - self.start_time
    }

    /// The timer has run out: at least its duration has passed.
    pub open spec fn expired(&self, now: int) -> bool {
        self.elapsed(now) >= self.expire
    }

    /// A timer of `duration` starting at `now`.
    pub fn new(duration: i64, now: i64) -> (r: Self)
        ensures
            r.start_time == now,
            r.expire == duration,
    {
        Timer { start_time: now, expire: duration }
    }

    /// Whether at least the timer's duration has passed by `now`; the
    /// boundary itself counts as expired.
    pub fn is_expired(&self, now: i64) -> (r: bool)
        ensures
            r == self.expired(now as int),
    {
        (now as i128) - (self.start_time as i128) >= self.expire as i128
    }

    /// Time passed since the timer started.
    pub fn get_elapsed_time(&self, now: i64) -> (r: i128)
        ensures
            r == self.elapsed(now as int),
    {
        (now as i128) - (self.start_time as i128)
    }
}

impl Default for Timer {
    fn default() -> (r: Self)
        ensures
            r.start_time == 0,
            r.expire == 0,
    {
        Timer { start_time: 0, expire: 0 }
    }
}

/// A timer of duration `d` started at `t0` is not expired strictly before
/// `t0 + d` and is expired exactly at `t0 + d`.
pub proof fn lemma_expiry_boundary(d: int, t0: int, eps: int)
    requires
        eps > 0,
        i64::MIN <= d <= i64::MAX,
        i64::MIN <= t0 <= i64::MAX,
    ensures
        !(Timer { start_time: t0 as i64, expire: d as i64 }).expired(t0 + d - eps),
        (Timer { start_time: t0 as i64, expire: d as i64 }).expired(t0 + d),
{
}

} // verus!
