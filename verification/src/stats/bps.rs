use super::config::BpsConfig;
use crate::socket::Header;
use crate::socket::HEADER_SIZE;
use crate::time::Nanos;
use vstd::prelude::*;

verus! {

/// The horizon of the rolling window: ten seconds.
pub const WINDOW_NANOS: u64 = 10_000_000_000;

/// The traffic of one tick.
#[derive(Clone, Copy, Debug, PartialEq, Eq, Structural)]
pub struct WindowEntry {
    pub time: Nanos,
    pub bytes_sent: u64,
    pub bytes_received: u64,
}

/// A byte count that stops at the largest representable value.
pub open spec fn saturate(count: int) -> u64 {
    if count > u64::MAX {
        u64::MAX
    } else if count < 0 {
        0
    } else {
        count as u64
    }
}

/// Whether an entry stays in the window at `now`: it is at most ten seconds
/// old and has counted traffic.
pub open spec fn kept(entry: WindowEntry, now: Nanos) -> bool {
    entry.time + WINDOW_NANOS >= now && (entry.bytes_sent != 0 || entry.bytes_received != 0)
}

/// The entries that stay in the window at `now`, in their order.
pub open spec fn survivors(window: Seq<WindowEntry>, now: Nanos) -> Seq<WindowEntry>
    decreases window.len(),
{
    if window.len() == 0 {
        Seq::empty()
    } else {
        let earlier = survivors(window.drop_last(), now);
        if kept(window.last(), now) {
            earlier.push(window.last())
        } else {
            earlier
        }
    }
}

/// The window after a tick at `now`: the survivors, then an empty entry for
/// the new tick.
pub open spec fn refreshed(window: Seq<WindowEntry>, now: Nanos) -> Seq<WindowEntry> {
    survivors(window, now).push(WindowEntry { time: now, bytes_sent: 0, bytes_received: 0 })
}

/// The bytes sent over the whole window.
pub open spec fn sent_in(window: Seq<WindowEntry>) -> int
    decreases window.len(),
{
    if window.len() == 0 {
        0
    } else {
        sent_in(window.drop_last()) + window.last().bytes_sent
    }
}

/// The bytes received over the whole window.
pub open spec fn received_in(window: Seq<WindowEntry>) -> int
    decreases window.len(),
{
    if window.len() == 0 {
        0
    } else {
        received_in(window.drop_last()) + window.last().bytes_received
    }
}

/// The window after `bytes` were sent during its current tick.
pub open spec fn credit_sent(window: Seq<WindowEntry>, bytes: u64) -> Seq<WindowEntry>
    recommends
        window.len() > 0,
{
    window.update(
        window.len() - 1,
        WindowEntry {
            time: window.last().time,
            bytes_sent: saturate(window.last().bytes_sent + bytes),
            bytes_received: window.last().bytes_received,
        },
    )
}

/// The window after `bytes` were received during its current tick.
pub open spec fn credit_received(window: Seq<WindowEntry>, bytes: u64) -> Seq<WindowEntry>
    recommends
        window.len() > 0,
{
    window.update(
        window.len() - 1,
        WindowEntry {
            time: window.last().time,
            bytes_sent: window.last().bytes_sent,
            bytes_received: saturate(window.last().bytes_received + bytes),
        },
    )
}

/// The state of the throughput counters, as their contracts speak of it.
pub struct BpsView {
    pub total_sent: u64,
    pub total_received: u64,
    /// The per-tick entries, oldest first; the last one is the current tick.
    pub window: Seq<WindowEntry>,
    pub cfg: BpsConfig,
}

impl BpsView {
    /// Nothing counted yet, and a window that holds the tick at `now`.
    pub open spec fn fresh(cfg: BpsConfig, now: Nanos) -> BpsView {
        BpsView {
            total_sent: 0,
            total_received: 0,
            window: seq![WindowEntry { time: now, bytes_sent: 0, bytes_received: 0 }],
            cfg,
        }
    }

    /// The counters after the tick at `now` began.
    pub open spec fn ticked(self, now: Nanos) -> BpsView {
        BpsView {
            total_sent: self.total_sent,
            total_received: self.total_received,
            window: refreshed(self.window, now),
            cfg: self.cfg,
        }
    }

    /// The counters after a message under `header` was sent: the payload and
    /// the header in front of it are counted.
    pub open spec fn sent(self, header: Header) -> BpsView {
        BpsView {
            total_sent: saturate(self.total_sent + saturate(header.size + HEADER_SIZE)),
            total_received: self.total_received,
            window: credit_sent(self.window, saturate(header.size + HEADER_SIZE)),
            cfg: self.cfg,
        }
    }

    /// The counters after a message under `header` was received: the payload
    /// is counted, the header is not.
    pub open spec fn received(self, header: Header) -> BpsView {
        BpsView {
            total_sent: self.total_sent,
            total_received: saturate(self.total_received + header.size),
            window: credit_received(self.window, header.size),
            cfg: self.cfg,
        }
    }

    /// The bytes sent over the window.
    pub open spec fn sent_last_10_sec(self) -> u64 {
        saturate(sent_in(self.window))
    }

    /// The bytes received over the window.
    pub open spec fn received_last_10_sec(self) -> u64 {
        saturate(received_in(self.window))
    }
}

/// Lifetime byte totals and a rolling ten-second window of per-tick counts.
pub struct Bps {
    total_sent: u64,
    total_received: u64,
    rolling_window: Vec<WindowEntry>,
    cfg: BpsConfig,
}

impl View for Bps {
    type V = BpsView;

    closed spec fn view(&self) -> BpsView {
        BpsView {
            total_sent: self.total_sent,
            total_received: self.total_received,
            window: self.rolling_window@,
            cfg: self.cfg,
        }
    }
}

impl Bps {
    /// The window holds the entry of the current tick. A new value is
    /// well-formed, and every operation keeps it so.
    pub open spec fn wf(&self) -> bool {
        self@.window.len() > 0
    }

    pub fn new(cfg: BpsConfig, now: Nanos) -> (bps: Self)
        ensures
            bps.wf(),
            bps@ == BpsView::fresh(cfg, now),
    {
        let mut rolling_window = Vec::new();
        rolling_window.push(WindowEntry { time: now, bytes_sent: 0, bytes_received: 0 });
        assert(rolling_window@ =~= seq![
            WindowEntry { time: now, bytes_sent: 0, bytes_received: 0 },
        ]);
        Self { total_sent: 0, total_received: 0, rolling_window, cfg }
    }

    pub fn enabled(&self) -> (enabled: bool)
        ensures
            enabled == self@.cfg.enabled,
    {
        self.cfg.enabled
    }

    /// Starts the tick at `now`: entries older than ten seconds and entries
    /// that counted nothing leave the window, and an empty entry for the new
    /// tick joins it.
    pub fn update(&mut self, now: Nanos)
        ensures
            final(self).wf(),
            final(self)@ == old(self)@.ticked(now),
    {
        let ten_seconds_ago = now.saturating_sub(WINDOW_NANOS);
        let mut window: Vec<WindowEntry> = Vec::new();
        let mut i: usize = 0;
        while i < self.rolling_window.len()
            invariant
                i <= self.rolling_window@.len(),
                self.rolling_window@ == old(self).rolling_window@,
                ten_seconds_ago == if now >= WINDOW_NANOS {
                    (now - WINDOW_NANOS) as u64
                } else {
                    0
                },
                window@ == survivors(self.rolling_window@.subrange(0, i as int), now),
            decreases self.rolling_window@.len() - i,
        {
            let entry = self.rolling_window[i];
            assert(self.rolling_window@.subrange(0, i + 1).drop_last()
                =~= self.rolling_window@.subrange(0, i as int));
            if entry.time >= ten_seconds_ago && (entry.bytes_sent != 0 || entry.bytes_received
                != 0) {
                window.push(entry);
            }
            i += 1;
        }
        assert(self.rolling_window@.subrange(0, i as int) =~= self.rolling_window@);
        window.push(WindowEntry { time: now, bytes_sent: 0, bytes_received: 0 });
        self.rolling_window = window;
    }

    pub fn total_received(&self) -> (total: u64)
        ensures
            total == self@.total_received,
    {
        self.total_received
    }

    pub fn total_sent(&self) -> (total: u64)
        ensures
            total == self@.total_sent,
    {
        self.total_sent
    }

    /// The bytes received over the window.
    pub fn received_last_10_sec(&self) -> (bytes: u64)
        ensures
            bytes == self@.received_last_10_sec(),
    {
        let mut sum: u64 = 0;
        let mut i: usize = 0;
        while i < self.rolling_window.len()
            invariant
                i <= self.rolling_window@.len(),
                received_in(self.rolling_window@.subrange(0, i as int)) >= 0,
                sum == saturate(received_in(self.rolling_window@.subrange(0, i as int))),
            decreases self.rolling_window@.len() - i,
        {
            assert(self.rolling_window@.subrange(0, i + 1).drop_last()
                =~= self.rolling_window@.subrange(0, i as int));
            sum = sum.saturating_add(self.rolling_window[i].bytes_received);
            i += 1;
        }
        assert(self.rolling_window@.subrange(0, i as int) =~= self.rolling_window@);
        sum
    }

    /// The average number of bytes received per second over the window.
    pub fn bps_received_last_10_sec(&self) -> (rate: u64)
        ensures
            rate == self@.received_last_10_sec() / 10,
    {
        self.received_last_10_sec() / 10
    }

    /// The bytes sent over the window.
    pub fn sent_last_10_sec(&self) -> (bytes: u64)
        ensures
            bytes == self@.sent_last_10_sec(),
    {
        let mut sum: u64 = 0;
        let mut i: usize = 0;
        while i < self.rolling_window.len()
            invariant
                i <= self.rolling_window@.len(),
                sent_in(self.rolling_window@.subrange(0, i as int)) >= 0,
                sum == saturate(sent_in(self.rolling_window@.subrange(0, i as int))),
            decreases self.rolling_window@.len() - i,
        {
            assert(self.rolling_window@.subrange(0, i + 1).drop_last()
                =~= self.rolling_window@.subrange(0, i as int));
            sum = sum.saturating_add(self.rolling_window[i].bytes_sent);
            i += 1;
        }
        assert(self.rolling_window@.subrange(0, i as int) =~= self.rolling_window@);
        sum
    }

    /// The average number of bytes sent per second over the window.
    pub fn bps_sent_last_10_sec(&self) -> (rate: u64)
        ensures
            rate == self@.sent_last_10_sec() / 10,
    {
        self.sent_last_10_sec() / 10
    }

    /// Counts a received payload. The header's own bytes are not counted.
    pub fn on_bytes_recv(&mut self, header: &Header)
        requires
            old(self).wf(),
        ensures
            final(self).wf(),
            final(self)@ == old(self)@.received(*header),
    {
        self.total_received = self.total_received.saturating_add(header.size);
        let last = self.rolling_window.len() - 1;
        let entry = self.rolling_window[last];
        self.rolling_window.set(
            last,
            WindowEntry {
                time: entry.time,
                bytes_sent: entry.bytes_sent,
                bytes_received: entry.bytes_received.saturating_add(header.size),
            },
        );
    }

    /// Counts a sent message: its payload and the header in front of it.
    pub fn on_bytes_send(&mut self, header: &Header)
        requires
            old(self).wf(),
        ensures
            final(self).wf(),
            final(self)@ == old(self)@.sent(*header),
    {
        let byte_sent = header.size.saturating_add(HEADER_SIZE);
        self.total_sent = self.total_sent.saturating_add(byte_sent);
        let last = self.rolling_window.len() - 1;
        let entry = self.rolling_window[last];
        self.rolling_window.set(
            last,
            WindowEntry {
                time: entry.time,
                bytes_sent: entry.bytes_sent.saturating_add(byte_sent),
                bytes_received: entry.bytes_received,
            },
        );
    }
}

impl Clone for Bps {
    fn clone(&self) -> (copy: Self)
        ensures
            copy@ == self@,
    {
        let mut rolling_window: Vec<WindowEntry> = Vec::new();
        let mut i: usize = 0;
        while i < self.rolling_window.len()
            invariant
                i <= self.rolling_window@.len(),
                rolling_window@ == self.rolling_window@.subrange(0, i as int),
            decreases self.rolling_window@.len() - i,
        {
            rolling_window.push(self.rolling_window[i]);
            assert(rolling_window@ =~= self.rolling_window@.subrange(0, i + 1));
            i += 1;
        }
        assert(rolling_window@ =~= self.rolling_window@);
        Self {
            total_sent: self.total_sent,
            total_received: self.total_received,
            rolling_window,
            cfg: self.cfg,
        }
    }
}

/// Nothing older than ten seconds survives a tick, whatever it counted.
pub proof fn lemma_survivors_are_recent(window: Seq<WindowEntry>, now: Nanos, i: int)
    requires
        0 <= i < survivors(window, now).len(),
    ensures
        kept(survivors(window, now)[i], now),
        window.contains(survivors(window, now)[i]),
    decreases window.len(),
{
    if window.len() > 0 {
        let earlier = survivors(window.drop_last(), now);
        if i < earlier.len() {
            lemma_survivors_are_recent(window.drop_last(), now, i);
            let entry = earlier[i];
            let j = choose|j: int| 0 <= j < window.drop_last().len() && window.drop_last()[j] == entry;
            assert(window[j] == entry);
        } else {
            assert(window[window.len() - 1] == window.last());
        }
    }
}

/// Traffic that was counted more than ten seconds before a tick is no longer
/// part of the window after it: where every entry is older than that, the
/// window holds the new tick alone and its sums are zero.
pub proof fn lemma_window_expiry(window: Seq<WindowEntry>, now: Nanos)
    requires
        forall|i: int| 0 <= i < window.len() ==> (#[trigger] window[i]).time + WINDOW_NANOS < now,
    ensures
        refreshed(window, now) == seq![
            WindowEntry { time: now, bytes_sent: 0, bytes_received: 0 },
        ],
        sent_in(refreshed(window, now)) == 0,
        received_in(refreshed(window, now)) == 0,
{
    lemma_all_expired(window, now);
    let fresh = seq![WindowEntry { time: now, bytes_sent: 0, bytes_received: 0 }];
    assert(refreshed(window, now) =~= fresh);
    assert(fresh.drop_last() =~= Seq::<WindowEntry>::empty());
    assert(sent_in(fresh) == sent_in(fresh.drop_last()) + fresh.last().bytes_sent);
    assert(received_in(fresh) == received_in(fresh.drop_last()) + fresh.last().bytes_received);
}

proof fn lemma_all_expired(window: Seq<WindowEntry>, now: Nanos)
    requires
        forall|i: int| 0 <= i < window.len() ==> (#[trigger] window[i]).time + WINDOW_NANOS < now,
    ensures
        survivors(window, now) == Seq::<WindowEntry>::empty(),
    decreases window.len(),
{
    if window.len() > 0 {
        assert forall|i: int| 0 <= i < window.drop_last().len() implies (
        #[trigger] window.drop_last()[i]).time + WINDOW_NANOS < now by {
            assert(window.drop_last()[i] == window[i]);
        }
        lemma_all_expired(window.drop_last(), now);
        assert(window.last() == window[window.len() - 1]);
    }
}

/// Windowing: traffic that is counted, followed by more than ten seconds of
/// silence, is not part of the ten-second figures of what is counted after
/// the next tick, while the lifetime totals keep it.
pub proof fn lemma_old_traffic_is_excluded(bps: BpsView, first: Header, second: Header, now: Nanos)
    requires
        bps.window.len() > 0,
        forall|i: int|
            0 <= i < bps.window.len() ==> (#[trigger] bps.window[i]).time + WINDOW_NANOS < now,
    ensures
        bps.received(first).ticked(now).received(second).received_last_10_sec() == second.size,
        bps.received(first).ticked(now).received(second).sent_last_10_sec() == 0,
        bps.sent(first).ticked(now).sent(second).sent_last_10_sec() == saturate(
            second.size + HEADER_SIZE,
        ),
        bps.sent(first).ticked(now).sent(second).received_last_10_sec() == 0,
        bps.received(first).ticked(now).received(second).total_received == saturate(
            saturate(bps.total_received + first.size) + second.size,
        ),
{
    let received = bps.received(first);
    assert forall|i: int| 0 <= i < received.window.len() implies (
    #[trigger] received.window[i]).time + WINDOW_NANOS < now by {
        assert(received.window[i].time == bps.window[i].time);
    }
    lemma_window_expiry(received.window, now);
    let after = received.ticked(now).received(second).window;
    assert(after =~= seq![
        WindowEntry { time: now, bytes_sent: 0, bytes_received: second.size },
    ]);
    assert(after.drop_last() =~= Seq::<WindowEntry>::empty());
    assert(received_in(after) == received_in(after.drop_last()) + after.last().bytes_received);
    assert(sent_in(after) == sent_in(after.drop_last()) + after.last().bytes_sent);

    let sent = bps.sent(first);
    assert forall|i: int| 0 <= i < sent.window.len() implies (#[trigger] sent.window[i]).time
        + WINDOW_NANOS < now by {
        assert(sent.window[i].time == bps.window[i].time);
    }
    lemma_window_expiry(sent.window, now);
    let later = sent.ticked(now).sent(second).window;
    assert(later =~= seq![
        WindowEntry {
            time: now,
            bytes_sent: saturate(second.size + HEADER_SIZE),
            bytes_received: 0,
        },
    ]);
    assert(later.drop_last() =~= Seq::<WindowEntry>::empty());
    assert(received_in(later) == received_in(later.drop_last()) + later.last().bytes_received);
    assert(sent_in(later) == sent_in(later.drop_last()) + later.last().bytes_sent);
}

} // verus!
