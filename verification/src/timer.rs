//! The keepalive timer: a restartable countdown with a fixed interval.
//! The multiplexer checks it at the start of every pull step; when it has
//! elapsed it is reset to fire one interval later and a ping is sent.
use vstd::prelude::*;

verus! {

/// The platform's documented heartbeat interval, in milliseconds.
pub const KEEPALIVE_INTERVAL_MS: u64 = 30000;

/// A restartable countdown: fires once `now` reaches the deadline.
#[derive(Debug, Clone, PartialEq, Eq)]
pub struct KeepaliveTimer {
    /// The fixed interval between fires, in milliseconds.
    pub interval_ms: u64,
    /// The next moment the timer fires, in milliseconds.
    pub deadline_ms: u64,
}

impl KeepaliveTimer {
    /// A timer armed one interval after `now_ms`.
    pub fn new(interval_ms: u64, now_ms: u64) -> (r: KeepaliveTimer)
        requires
            now_ms + interval_ms <= u64::MAX,
        ensures
            r.interval_ms == interval_ms,
            r.deadline_ms == now_ms + interval_ms,
    {
        KeepaliveTimer { interval_ms, deadline_ms: now_ms + interval_ms }
    }

    /// Whether the interval has elapsed at `now_ms`.
    pub fn elapsed(&self, now_ms: u64) -> (r: bool)
        ensures
            r == (now_ms >= self.deadline_ms),
    {
        now_ms >= self.deadline_ms
    }

    /// Rearm the timer to fire one interval after `now_ms`.
    pub fn reset(&mut self, now_ms: u64)
        requires
            now_ms + old(self).interval_ms <= u64::MAX,
        ensures
            final(self).interval_ms == old(self).interval_ms,
            final(self).deadline_ms == now_ms + old(self).interval_ms,
    {
        self.deadline_ms = now_ms + self.interval_ms;
    }
}

/// The timer after `n` fires, each taken exactly at its deadline and each
/// followed by the reset the multiplexer performs.
pub open spec fn spec_fire_at_deadline_n(t: KeepaliveTimer, n: nat) -> KeepaliveTimer
    decreases n,
{
    if n == 0 {
        t
    } else {
        let prev = spec_fire_at_deadline_n(t, (n - 1) as nat);
        KeepaliveTimer {
            interval_ms: prev.interval_ms,
            deadline_ms: (prev.deadline_ms + prev.interval_ms) as u64,
        }
    }
}

/// Idempotent periodicity: when every fire is taken exactly at the deadline,
/// each reset advances the deadline by exactly one interval, so after `n`
/// fires the deadline stands `n` intervals after where it began.  (Stated for
/// runs whose deadlines stay within the clock's range.)
pub proof fn lemma_keepalive_periodicity(t: KeepaliveTimer, n: nat)
    requires
        t.deadline_ms + n * t.interval_ms <= u64::MAX,
    ensures
        spec_fire_at_deadline_n(t, n).interval_ms == t.interval_ms,
        spec_fire_at_deadline_n(t, n).deadline_ms == t.deadline_ms + n * t.interval_ms,
    decreases n,
{
    if n == 0 {
        assert(n * t.interval_ms == 0) by (nonlinear_arith)
            requires
                n == 0,
        ;
    } else {
        assert((n - 1) * t.interval_ms == n * t.interval_ms - t.interval_ms) by (nonlinear_arith);
        lemma_keepalive_periodicity(t, (n - 1) as nat);
        let prev = spec_fire_at_deadline_n(t, (n - 1) as nat);
        assert(prev.deadline_ms + prev.interval_ms <= u64::MAX);
    }
}

} // verus!
