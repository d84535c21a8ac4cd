use super::config::RttConfig;
use crate::time::elapsed;
use crate::time::Nanos;
use crate::time::Stopwatch;
use vstd::prelude::*;

verus! {

/// The last measured round-trip time and the bookkeeping of the ping that is
/// under way, if any.
#[derive(Clone, Copy, Debug)]
pub struct Rtt {
    /// The round-trip time of the last ping that was answered.
    pub latest_rtt: Nanos,
    /// Runs from the moment a ping left until its pong arrives.
    pub ping_request_stopwatch: Option<Stopwatch>,
    /// When the last pong arrived.
    pub last_pong: Nanos,
    pub cfg: RttConfig,
}

impl Rtt {
    /// Whether a new ping is due at `now`: tracking is enabled, no ping is
    /// under way, and the last pong is older than the configured delay.
    pub open spec fn due(&self, now: Nanos) -> bool {
        &&& self.cfg.enabled
        &&& elapsed(self.last_pong, now) > self.cfg.ping_request_delay
        &&& self.ping_request_stopwatch is None
    }

    /// This value once a ping-classified message left at `now`: the stopwatch
    /// starts, unless one is running for an earlier ping.
    pub open spec fn ping_sent(self, now: Nanos) -> Rtt {
        if self.ping_request_stopwatch is None {
            Rtt {
                latest_rtt: self.latest_rtt,
                ping_request_stopwatch: Some(Stopwatch::Running { start_time: now }),
                last_pong: self.last_pong,
                cfg: self.cfg,
            }
        } else {
            self
        }
    }

    /// This value once a pong-classified message arrived at `now`: with a
    /// ping under way, the stopwatch is read into the round-trip time and
    /// cleared; with none, nothing changes.
    pub open spec fn pong_received(self, now: Nanos) -> Rtt {
        match self.ping_request_stopwatch {
            Some(stopwatch) => Rtt {
                latest_rtt: stopwatch.reading(now),
                ping_request_stopwatch: None,
                last_pong: now,
                cfg: self.cfg,
            },
            None => self,
        }
    }

    /// No measurement yet, no ping under way, and `now` as the time of the
    /// last pong.
    pub fn new(cfg: RttConfig, now: Nanos) -> (rtt: Self)
        ensures
            rtt == (Rtt { latest_rtt: 0, ping_request_stopwatch: None, last_pong: now, cfg }),
    {
        Self { latest_rtt: 0, ping_request_stopwatch: None, last_pong: now, cfg }
    }

    pub fn needs_ping(&self, now: Nanos) -> (needed: bool)
        ensures
            needed == self.due(now),
    {
        if !self.cfg.enabled {
            return false;
        }
        now.saturating_sub(self.last_pong) > self.cfg.ping_request_delay
            && self.ping_request_stopwatch.is_none()
    }

    pub fn set(&mut self, rtt: Nanos)
        ensures
            *final(self) == (Rtt {
                latest_rtt: rtt,
                ping_request_stopwatch: old(self).ping_request_stopwatch,
                last_pong: old(self).last_pong,
                cfg: old(self).cfg,
            }),
    {
        self.latest_rtt = rtt
    }

    pub fn get(&self) -> (rtt: Nanos)
        ensures
            rtt == self.latest_rtt,
    {
        self.latest_rtt
    }
}

/// A ping that is sent and not answered leaves the measured round-trip time
/// as it was.
pub proof fn lemma_unanswered_ping_keeps_rtt(rtt: Rtt, now: Nanos)
    ensures
        rtt.ping_sent(now).latest_rtt == rtt.latest_rtt,
        rtt.ping_sent(now).ping_request_stopwatch is Some,
        !rtt.ping_sent(now).due(now),
{
}

/// A pong that arrives at `received` for a ping that left at `sent` sets the
/// round-trip time to the time between the two, which is never more than the
/// gap between them on the clock, and clears the pending ping, so that a new
/// ping becomes due once the configured delay has passed.
pub proof fn lemma_pong_measures_rtt(rtt: Rtt, sent: Nanos, received: Nanos, later: Nanos)
    requires
        rtt.ping_request_stopwatch is None,
        sent <= received,
    ensures
        rtt.ping_sent(sent).pong_received(received).latest_rtt == received - sent,
        0 <= rtt.ping_sent(sent).pong_received(received).latest_rtt <= received - sent,
        rtt.ping_sent(sent).pong_received(received).ping_request_stopwatch is None,
        rtt.ping_sent(sent).pong_received(received).last_pong == received,
        rtt.ping_sent(sent).pong_received(received).due(later) <==> rtt.cfg.enabled && elapsed(
            received,
            later,
        ) > rtt.cfg.ping_request_delay,
{
}

/// A pong that no ping asked for changes nothing.
pub proof fn lemma_unsolicited_pong_is_ignored(rtt: Rtt, now: Nanos)
    requires
        rtt.ping_request_stopwatch is None,
    ensures
        rtt.pong_received(now) == rtt,
{
}

} // verus!
