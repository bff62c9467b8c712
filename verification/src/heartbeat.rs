//! Heartbeat: periodic liveness pings for a registered identity.
//!
//! The scheduler decides when a ping may go out and what it carries; a
//! driver owns the channel and the clock, asks the scheduler whether a
//! ping is due, sends it, and reports the acknowledgment back. Ticks are
//! strictly sequential: no ping starts before the previous one's outcome
//! is known, and consecutive sends are separated by at least the
//! configured interval.

use vstd::prelude::*;

verus! {

/// The exact and complete input required to start the heartbeat
/// scheduler. Constructed once, consumed once, not mutated afterward.
pub struct HeartbeatConfig {
    /// The interval between consecutive liveness pings, in time units.
    pub interval: u64,
    /// The identity assigned by the registry to the service reporting in.
    pub id: String,
}

impl HeartbeatConfig {
    /// Bundle an interval and an assigned identity.
    pub fn new(interval: u64, id: String) -> (c: Self)
        ensures
            c.interval == interval,
            c.id == id,
    {
        HeartbeatConfig { interval, id }
    }
}

/// One liveness ping, identifying the service it reports on.
pub struct HeartbeatPayload {
    /// The identity of the service heartbeating.
    pub id: String,
}

/// The send times are ordered and consecutive ones lie at least
/// `interval` apart.
pub open spec fn spaced_by(times: Seq<int>, interval: int) -> bool {
    forall|k: int| 0 <= k < times.len() - 1 ==> (#[trigger] times[k]) + interval <= times[k + 1]
}

/// The repeating tick state of one heartbeat task, together with the
/// trace of send times it has recorded so far.
pub struct HeartbeatScheduler {
    /// The interval and identity the scheduler was configured with.
    pub config: HeartbeatConfig,
    /// The time of the most recent acknowledged send, if any.
    pub last_sent: Option<u64>,
    /// The times of all acknowledged sends, oldest first.
    pub history: Ghost<Seq<int>>,
}

impl HeartbeatScheduler {
    /// The scheduler's bookkeeping is consistent: recorded send times are
    /// spaced by at least the interval, and `last_sent` is the most
    /// recent of them.
    pub open spec fn wf(&self) -> bool {
        &&& spaced_by(self.history@, self.config.interval as int)
        &&& match self.last_sent {
            Some(t) => self.history@.len() > 0 && self.history@.last() == t as int,
            None => self.history@.len() == 0,
        }
    }

    /// Enter the running state: no ping has been sent yet.
    pub fn new(config: HeartbeatConfig) -> (s: Self)
        ensures
            s.wf(),
            s.config == config,
            s.last_sent is None,
            s.history@ == Seq::<int>::empty(),
    {
        HeartbeatScheduler { config, last_sent: None, history: Ghost(Seq::empty()) }
    }

    /// Whether a ping may be sent at time `now`: the first may go at
    /// once; every later one only after a full interval has elapsed since
    /// the previous acknowledged send.
    pub open spec fn spec_ready(&self, now: u64) -> bool {
        match self.last_sent {
            None => true,
            Some(t) => t + self.config.interval <= now,
        }
    }

    /// Whether a ping is due at time `now`.
    pub fn ready(&self, now: u64) -> (r: bool)
        ensures
            r == self.spec_ready(now),
    {
        match self.last_sent {
            None => true,
            Some(t) => now >= t && now - t >= self.config.interval,
        }
    }

    /// The payload of the next ping: it carries, unchanged, the identity
    /// the scheduler was configured with.
    pub fn payload(&self) -> (p: HeartbeatPayload)
        ensures
            p.id == self.config.id,
    {
        HeartbeatPayload { id: self.config.id.clone() }
    }

    /// Record the outcome of a ping sent at time `now` and decide whether
    /// the task keeps running. An acknowledged ping extends the trace; a
    /// failed ping is fatal to the task, which must stop rather than go
    /// on pinging with a possibly invalid identity.
    pub fn after_ping(&mut self, now: u64, acked: bool) -> (keep_running: bool)
        requires
            old(self).wf(),
            old(self).spec_ready(now),
        ensures
            final(self).wf(),
            keep_running == acked,
            final(self).config == old(self).config,
            acked ==> final(self).last_sent == Some(now) && final(self).history@ == old(
                self,
            ).history@.push(now as int),
            !acked ==> *final(self) == *old(self),
    {
        if acked {
            self.last_sent = Some(now);
            proof {
                let h = self.history@;
                let h2 = h.push(now as int);
                assert forall|k: int| 0 <= k < h2.len() - 1 implies (#[trigger] h2[k])
                    + self.config.interval <= h2[k + 1] by {
                    if k < h.len() - 1 {
                        assert(h2[k] == h[k]);
                        assert(h2[k + 1] == h[k + 1]);
                    } else {
                        assert(h2[k] == h.last());
                        assert(h2[k + 1] == now as int);
                    }
                }
            }
            self.history = Ghost(self.history@.push(now as int));
            true
        } else {
            false
        }
    }
}

/// Law: heartbeat ticks are strictly sequential. In every well-formed
/// scheduler, each recorded send lies at least the configured interval
/// after the one before it — ticks never overlap or pipeline.
pub proof fn lemma_ticks_sequential(s: &HeartbeatScheduler, k: int)
    requires
        s.wf(),
        0 <= k < s.history@.len() - 1,
    ensures
        s.history@[k] + s.config.interval <= s.history@[k + 1],
{
}

} // verus!
