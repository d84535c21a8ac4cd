pub mod bps;
pub mod config;
pub mod rtt;

use crate::message::Message;
use crate::message::Packet;
use crate::socket::Header;
use crate::socket::Socket;
use crate::socket::SocketError;
use crate::socket::SocketView;
use crate::stats::bps::Bps;
use crate::stats::bps::BpsView;
use crate::stats::config::StatConfig;
use crate::stats::rtt::Rtt;
use crate::time::Nanos;
use core::marker::PhantomData;
use vstd::prelude::*;

verus! {

/// The state of the statistics, as their contracts speak of it.
pub struct StatsView {
    /// The throughput counters, where throughput is tracked.
    pub bps: Option<BpsView>,
    /// The round-trip bookkeeping, where round-trip time is tracked.
    pub rtt: Option<Rtt>,
    pub cfg: StatConfig,
}

impl StatsView {
    /// Statistics that track what `cfg` enables, starting at `now`.
    pub open spec fn fresh(cfg: StatConfig, now: Nanos) -> StatsView {
        StatsView {
            bps: if cfg.bps.enabled {
                Some(BpsView::fresh(cfg.bps, now))
            } else {
                None
            },
            rtt: if cfg.rtt.enabled {
                Some(Rtt { latest_rtt: 0, ping_request_stopwatch: None, last_pong: now, cfg: cfg.rtt })
            } else {
                None
            },
            cfg,
        }
    }

    /// The throughput window, where there is one, holds the current tick.
    pub open spec fn wf(self) -> bool {
        self.bps matches Some(b) ==> b.window.len() > 0
    }

    /// The statistics after a message left at `now`: a ping starts the
    /// round-trip stopwatch unless one is running.
    pub open spec fn msg_sent(self, is_ping: bool, now: Nanos) -> StatsView {
        StatsView {
            bps: self.bps,
            rtt: match self.rtt {
                Some(r) => if is_ping {
                    Some(r.ping_sent(now))
                } else {
                    Some(r)
                },
                None => None,
            },
            cfg: self.cfg,
        }
    }

    /// The statistics after the bytes of a sent message were counted.
    pub open spec fn bytes_sent(self, header: Header) -> StatsView {
        StatsView {
            bps: match self.bps {
                Some(b) => Some(b.sent(header)),
                None => None,
            },
            rtt: self.rtt,
            cfg: self.cfg,
        }
    }

    /// The statistics after the bytes of a received message were counted.
    pub open spec fn bytes_received(self, header: Header) -> StatsView {
        StatsView {
            bps: match self.bps {
                Some(b) => Some(b.received(header)),
                None => None,
            },
            rtt: self.rtt,
            cfg: self.cfg,
        }
    }

    /// The statistics after a message was handed to a socket at `now` and
    /// the socket answered with `receipt`: the message is noted, and counted
    /// where the socket took it.
    pub open spec fn sent_through(self, is_ping: bool, receipt: Option<Header>, now: Nanos)
        -> StatsView {
        match receipt {
            Some(header) => self.msg_sent(is_ping, now).bytes_sent(header),
            None => self.msg_sent(is_ping, now),
        }
    }

    /// The statistics after a pong arrived at `now`: with a ping under way,
    /// its round-trip time is measured.
    pub open spec fn pong_received(self, now: Nanos) -> StatsView {
        StatsView {
            bps: self.bps,
            rtt: match self.rtt {
                Some(r) => Some(r.pong_received(now)),
                None => None,
            },
            cfg: self.cfg,
        }
    }

    /// The statistics after the throughput window aged at `now`.
    pub open spec fn ticked(self, now: Nanos) -> StatsView {
        StatsView {
            bps: match self.bps {
                Some(b) => Some(b.ticked(now)),
                None => None,
            },
            rtt: self.rtt,
            cfg: self.cfg,
        }
    }

    /// Whether a ping is due at `now`.
    pub open spec fn ping_due(self, now: Nanos) -> bool {
        self.rtt matches Some(r) && r.due(now)
    }

    /// Whether the update at `now` sends a ping.
    pub open spec fn pings_on_update(self, now: Nanos) -> bool {
        self.cfg.rtt.enabled && self.ping_due(now)
    }

    /// The statistics after the update at `now`, where `receipt` is what the
    /// socket answered for the ping, if one was due, and `probe_is_ping`
    /// whether the canonical ping is classified as one. A ping that the
    /// socket refused ends the update before the throughput window ages.
    pub open spec fn updated(self, probe_is_ping: bool, receipt: Option<Header>, now: Nanos)
        -> StatsView {
        if self.pings_on_update(now) {
            if receipt is Some {
                self.sent_through(probe_is_ping, receipt, now).ticked(now)
            } else {
                self.sent_through(probe_is_ping, receipt, now)
            }
        } else {
            self.ticked(now)
        }
    }

    /// The statistics after a message arrived at `now`, where `receipt` is
    /// what the socket answered for the pong that a ping is answered with,
    /// and `answer_is_ping` whether that canonical pong is classified as a
    /// ping.
    pub open spec fn msg_received(
        self,
        is_ping: bool,
        is_pong: bool,
        answer_is_ping: bool,
        receipt: Option<Header>,
        now: Nanos,
    ) -> StatsView {
        if is_ping {
            self.sent_through(answer_is_ping, receipt, now)
        } else if is_pong {
            self.pong_received(now)
        } else {
            self
        }
    }

    /// The statistics after the round-trip part of an update at `now`, where
    /// `receipt` is what the socket answered for the ping, if one was due.
    pub open spec fn rtt_updated(self, probe_is_ping: bool, receipt: Option<Header>, now: Nanos)
        -> StatsView {
        if self.ping_due(now) {
            self.sent_through(probe_is_ping, receipt, now)
        } else {
            self
        }
    }

    /// Whether `result` is what an update answers that hands `probe` to
    /// `socket` where `pings` says that a ping is due: success unless the
    /// socket refuses a ping that is due, and the socket's error then.
    pub open spec fn ping_answer(
        pings: bool,
        socket: SocketView,
        probe: Packet,
        result: Result<(), SocketError>,
    ) -> bool {
        match result {
            Ok(_) => pings ==> socket.accepts(probe.wire()),
            Err(e) => {
                &&& pings
                &&& !socket.accepts(probe.wire())
                &&& socket.refusal(probe.wire(), e)
            },
        }
    }

    /// Whether the values after are what the round-trip part of an update at
    /// `now` makes of the values before, with `probe` as the ping.
    pub open spec fn rtt_update_post(
        self,
        socket: SocketView,
        probe: Packet,
        now: Nanos,
        after: StatsView,
        socket_after: SocketView,
        result: Result<(), SocketError>,
    ) -> bool {
        &&& socket_after == if self.ping_due(now) {
            socket.sent(probe.wire())
        } else {
            socket
        }
        &&& after == self.rtt_updated(probe.is_ping, socket.receipt(probe.wire()), now)
        &&& Self::ping_answer(self.ping_due(now), socket, probe, result)
    }

    /// Whether the values after are what an update at `now` makes of the
    /// values before, with `probe` as the ping.
    pub open spec fn update_post(
        self,
        socket: SocketView,
        probe: Packet,
        now: Nanos,
        after: StatsView,
        socket_after: SocketView,
        result: Result<(), SocketError>,
    ) -> bool {
        &&& socket_after == if self.pings_on_update(now) {
            socket.sent(probe.wire())
        } else {
            socket
        }
        &&& after == self.updated(probe.is_ping, socket.receipt(probe.wire()), now)
        &&& Self::ping_answer(self.pings_on_update(now), socket, probe, result)
    }

    /// Whether the values after are what the arrival of a message at `now`
    /// makes of the values before, with `answer` as the pong that a ping is
    /// answered with.
    pub open spec fn arrival_post(
        self,
        socket: SocketView,
        is_ping: bool,
        is_pong: bool,
        answer: Packet,
        now: Nanos,
        after: StatsView,
        socket_after: SocketView,
    ) -> bool {
        &&& socket_after == if is_ping {
            socket.sent(answer.wire())
        } else {
            socket
        }
        &&& after == self.msg_received(
            is_ping,
            is_pong,
            answer.is_ping,
            socket.receipt(answer.wire()),
            now,
        )
    }

    /// The measured round-trip time; zero where it is not tracked.
    pub open spec fn rtt_value(self) -> Nanos {
        match self.rtt {
            Some(r) => r.latest_rtt,
            None => 0,
        }
    }
}

/// Throughput and round-trip statistics of one connection.
pub struct NetworkStats<SRCW: Message, SWCR: Message> {
    bps_opt: Option<Bps>,
    rtt_opt: Option<Rtt>,
    srcw: PhantomData<SRCW>,
    swcr: PhantomData<SWCR>,
    cfg: StatConfig,
}

impl<SRCW: Message, SWCR: Message> View for NetworkStats<SRCW, SWCR> {
    type V = StatsView;

    closed spec fn view(&self) -> StatsView {
        StatsView {
            bps: match self.bps_opt {
                Some(b) => Some(b@),
                None => None,
            },
            rtt: self.rtt_opt,
            cfg: self.cfg,
        }
    }
}

impl<SRCW: Message, SWCR: Message> NetworkStats<SRCW, SWCR> {
    /// The throughput window, where there is one, holds the current tick. A
    /// new value is well-formed, and every operation keeps it so.
    pub open spec fn wf(&self) -> bool {
        self@.wf()
    }

    /// Statistics that track what `cfg` enables, starting at `now`.
    pub fn new(cfg: StatConfig, now: Nanos) -> (stats: Self)
        ensures
            stats.wf(),
            stats@ == StatsView::fresh(cfg, now),
    {
        Self {
            bps_opt: if cfg.bps.enabled {
                Some(Bps::new(cfg.bps, now))
            } else {
                None
            },
            rtt_opt: if cfg.rtt.enabled {
                Some(Rtt::new(cfg.rtt, now))
            } else {
                None
            },
            srcw: PhantomData,
            swcr: PhantomData,
            cfg,
        }
    }

    /// Notes that a message leaves at `now`: a ping starts the round-trip
    /// stopwatch unless one is running.
    pub fn note_sent(&mut self, is_ping: bool, now: Nanos)
        ensures
            final(self)@ == old(self)@.msg_sent(is_ping, now),
    {
        if let Some(rtt) = self.rtt_opt {
            if is_ping && rtt.ping_request_stopwatch.is_none() {
                self.rtt_opt = Some(
                    Rtt {
                        latest_rtt: rtt.latest_rtt,
                        ping_request_stopwatch: Some(crate::time::Stopwatch::start_new(now)),
                        last_pong: rtt.last_pong,
                        cfg: rtt.cfg,
                    },
                );
            }
        }
    }

    /// Notes that `msg` is about to leave at `now`: the message is asked
    /// whether it is a ping, and where it says so, the round-trip stopwatch
    /// starts unless one is running.
    pub fn on_msg_send(&mut self, msg: &SWCR, now: Nanos)
        ensures
            exists|is_ping: bool| #[trigger]
                call_ensures(SWCR::is_ping, (msg,), is_ping) && final(self)@ == old(
                    self,
                )@.msg_sent(is_ping, now),
    {
        let is_ping = msg.is_ping();
        self.note_sent(is_ping, now);
        assert(call_ensures(SWCR::is_ping, (msg,), is_ping) && self@ == old(self)@.msg_sent(
            is_ping,
            now,
        ));
    }

    /// Counts a sent message, where throughput is tracked.
    pub fn on_bytes_send(&mut self, header: &Header)
        requires
            old(self).wf(),
        ensures
            final(self).wf(),
            final(self)@ == old(self)@.bytes_sent(*header),
    {
        let mut bps_opt = None;
        core::mem::swap(&mut bps_opt, &mut self.bps_opt);
        if let Some(mut bps) = bps_opt {
            bps.on_bytes_send(header);
            self.bps_opt = Some(bps);
        }
    }

    /// Counts a received message, where throughput is tracked.
    pub fn on_bytes_recv(&mut self, header: &Header)
        requires
            old(self).wf(),
        ensures
            final(self).wf(),
            final(self)@ == old(self)@.bytes_received(*header),
    {
        let mut bps_opt = None;
        core::mem::swap(&mut bps_opt, &mut self.bps_opt);
        if let Some(mut bps) = bps_opt {
            bps.on_bytes_recv(header);
            self.bps_opt = Some(bps);
        }
    }

    /// Notes the message behind `packet`, sends it through `socket` and
    /// counts it where the socket took it.
    pub fn send_noted(&mut self, packet: Packet, socket: &mut Socket<SRCW, SWCR>, now: Nanos) -> (r:
        Result<Header, SocketError>)
        requires
            old(self).wf(),
        ensures
            final(self).wf(),
            final(socket)@ == old(socket)@.sent(packet.wire()),
            final(self)@ == old(self)@.sent_through(
                packet.is_ping,
                old(socket)@.receipt(packet.wire()),
                now,
            ),
            match r {
                Ok(header) => Some(header) == old(socket)@.receipt(packet.wire()),
                Err(e) => !old(socket)@.accepts(packet.wire()) && old(socket)@.refusal(
                    packet.wire(),
                    e,
                ),
            },
    {
        self.note_sent(packet.is_ping, now);
        let header = match socket.send_packet(packet) {
            Ok(header) => header,
            Err(e) => {
                return Err(e);
            },
        };
        self.on_bytes_send(&header);
        Ok(header)
    }

    /// Sends `probe` as a ping through `socket` where one is due at `now`.
    ///
    /// Fails, with the socket's error, where a ping is due and the socket
    /// does not accept it; the stopwatch of that ping is running all the same.
    pub fn update_rtt_with(
        &mut self,
        probe: &Packet,
        socket: &mut Socket<SRCW, SWCR>,
        now: Nanos,
    ) -> (r: Result<(), SocketError>)
        requires
            old(self).wf(),
        ensures
            final(self).wf(),
            old(self)@.rtt_update_post(old(socket)@, *probe, now, final(self)@, final(socket)@, r),
    {
        let needs_ping = match &self.rtt_opt {
            Some(rtt) => rtt.needs_ping(now),
            None => false,
        };
        if needs_ping {
            match self.send_noted(probe.duplicate(), socket, now) {
                Ok(_) => {},
                Err(e) => {
                    return Err(e);
                },
            }
        }
        Ok(())
    }

    /// Sends the canonical ping through `socket` where one is due at `now`.
    ///
    /// The ping is what the message type gives as its canonical ping, and the
    /// outcome is that of `update_rtt_with` for its packet.
    pub fn update_rtt(&mut self, socket: &mut Socket<SRCW, SWCR>, now: Nanos) -> (r: Result<
        (),
        SocketError,
    >)
        requires
            old(self).wf(),
        ensures
            final(self).wf(),
            exists|probe: Packet| #[trigger]
                old(self)@.rtt_update_post(
                    old(socket)@,
                    probe,
                    now,
                    final(self)@,
                    final(socket)@,
                    r,
                ) && probe.is_canonical_ping::<SWCR>(),
    {
        let probe = Packet::canonical_ping::<SWCR>();
        let r = self.update_rtt_with(&probe, socket, now);
        assert(old(self)@.rtt_update_post(old(socket)@, probe, now, self@, socket@, r)
            && probe.is_canonical_ping::<SWCR>());
        r
    }

    /// Starts the tick at `now`: sends `probe` as a ping through `socket`
    /// where round-trip tracking is enabled and a ping is due, then ages the
    /// throughput window.
    ///
    /// Fails, with the socket's error, where a ping is due and the socket
    /// does not accept it; the throughput window is then left as it was.
    pub fn update_with(&mut self, probe: &Packet, socket: &mut Socket<SRCW, SWCR>, now: Nanos) -> (r:
        Result<(), SocketError>)
        requires
            old(self).wf(),
        ensures
            final(self).wf(),
            old(self)@.update_post(old(socket)@, *probe, now, final(self)@, final(socket)@, r),
    {
        if self.cfg.rtt.enabled {
            match self.update_rtt_with(probe, socket, now) {
                Ok(_) => {},
                Err(e) => {
                    return Err(e);
                },
            }
        }
        let mut bps_opt = None;
        core::mem::swap(&mut bps_opt, &mut self.bps_opt);
        if let Some(mut bps) = bps_opt {
            bps.update(now);
            self.bps_opt = Some(bps);
        }
        Ok(())
    }

    /// Starts the tick at `now` with the canonical ping.
    ///
    /// The ping is what the message type gives as its canonical ping, and the
    /// outcome is that of `update_with` for its packet.
    pub fn update(&mut self, socket: &mut Socket<SRCW, SWCR>, now: Nanos) -> (r: Result<
        (),
        SocketError,
    >)
        requires
            old(self).wf(),
        ensures
            final(self).wf(),
            exists|probe: Packet| #[trigger]
                old(self)@.update_post(old(socket)@, probe, now, final(self)@, final(socket)@, r)
                    && probe.is_canonical_ping::<SWCR>(),
    {
        let probe = Packet::canonical_ping::<SWCR>();
        let r = self.update_with(&probe, socket, now);
        assert(old(self)@.update_post(old(socket)@, probe, now, self@, socket@, r)
            && probe.is_canonical_ping::<SWCR>());
        r
    }

    /// Reacts to a message that arrived at `now` and was classified as
    /// `is_ping` and `is_pong` say.
    ///
    /// A ping is answered at once with `answer` through `socket`; the answer
    /// is counted where the socket took it, and a socket that does not take
    /// it is no error. A pong ends the measurement of the ping that is under
    /// way. Any other message changes nothing.
    pub fn on_arrival(
        &mut self,
        is_ping: bool,
        is_pong: bool,
        answer: &Packet,
        socket: &mut Socket<SRCW, SWCR>,
        now: Nanos,
    )
        requires
            old(self).wf(),
        ensures
            final(self).wf(),
            old(self)@.arrival_post(
                old(socket)@,
                is_ping,
                is_pong,
                *answer,
                now,
                final(self)@,
                final(socket)@,
            ),
    {
        if is_ping {
            let _ = self.send_noted(answer.duplicate(), socket, now);
        } else if is_pong {
            if let Some(rtt) = self.rtt_opt {
                if let Some(stopwatch) = rtt.ping_request_stopwatch {
                    self.rtt_opt = Some(
                        Rtt {
                            latest_rtt: stopwatch.read(now),
                            ping_request_stopwatch: None,
                            last_pong: now,
                            cfg: rtt.cfg,
                        },
                    );
                }
            }
        }
    }

    /// Reacts to `msg`, which arrived at `now`, with the canonical pong as
    /// the answer to a ping.
    ///
    /// The message is asked whether it is a ping or a pong, the answer to a
    /// ping is what the message type gives as its canonical pong, and the
    /// outcome is that of `on_arrival` for these.
    pub fn on_msg_recv(&mut self, msg: &SRCW, socket: &mut Socket<SRCW, SWCR>, now: Nanos)
        requires
            old(self).wf(),
        ensures
            final(self).wf(),
            exists|is_ping: bool, is_pong: bool, answer: Packet|
                #![trigger old(self)@.arrival_post(
                    old(socket)@,
                    is_ping,
                    is_pong,
                    answer,
                    now,
                    final(self)@,
                    final(socket)@,
                )]
                {
                    &&& call_ensures(SRCW::is_ping, (msg,), is_ping)
                    &&& call_ensures(SRCW::is_pong, (msg,), is_pong)
                    &&& answer.is_canonical_pong::<SWCR>()
                    &&& old(self)@.arrival_post(
                        old(socket)@,
                        is_ping,
                        is_pong,
                        answer,
                        now,
                        final(self)@,
                        final(socket)@,
                    )
                },
    {
        let is_ping = msg.is_ping();
        let is_pong = msg.is_pong();
        let answer = Packet::canonical_pong::<SWCR>();
        self.on_arrival(is_ping, is_pong, &answer, socket, now);
        assert(call_ensures(SRCW::is_ping, (msg,), is_ping) && call_ensures(
            SRCW::is_pong,
            (msg,),
            is_pong,
        ) && answer.is_canonical_pong::<SWCR>() && old(self)@.arrival_post(
            old(socket)@,
            is_ping,
            is_pong,
            answer,
            now,
            self@,
            socket@,
        ));
    }

    /// Overwrites the measured round-trip time, where it is tracked.
    pub fn set_rtt(&mut self, duration: Nanos)
        ensures
            final(self)@ == (StatsView {
                bps: old(self)@.bps,
                rtt: match old(self)@.rtt {
                    Some(r) => Some(
                        Rtt {
                            latest_rtt: duration,
                            ping_request_stopwatch: r.ping_request_stopwatch,
                            last_pong: r.last_pong,
                            cfg: r.cfg,
                        },
                    ),
                    None => None,
                },
                cfg: old(self)@.cfg,
            }),
    {
        if let Some(mut rtt) = self.rtt_opt {
            rtt.set(duration);
            self.rtt_opt = Some(rtt);
        }
    }

    /// The measured round-trip time; zero where it is not tracked.
    pub fn get_rtt(&self) -> (rtt: Nanos)
        ensures
            rtt == self@.rtt_value(),
    {
        match &self.rtt_opt {
            Some(rtt) => rtt.get(),
            None => 0,
        }
    }

    /// The bytes received so far; zero where throughput is not tracked.
    pub fn total_received(&self) -> (total: u64)
        ensures
            total == match self@.bps {
                Some(b) => b.total_received,
                None => 0,
            },
    {
        match &self.bps_opt {
            Some(bps) => bps.total_received(),
            None => 0,
        }
    }

    /// The bytes sent so far; zero where throughput is not tracked.
    pub fn total_sent(&self) -> (total: u64)
        ensures
            total == match self@.bps {
                Some(b) => b.total_sent,
                None => 0,
            },
    {
        match &self.bps_opt {
            Some(bps) => bps.total_sent(),
            None => 0,
        }
    }

    /// The bytes received over the window; zero where throughput is not
    /// tracked.
    pub fn received_last_10_sec(&self) -> (bytes: u64)
        ensures
            bytes == match self@.bps {
                Some(b) => b.received_last_10_sec(),
                None => 0,
            },
    {
        match &self.bps_opt {
            Some(bps) => bps.received_last_10_sec(),
            None => 0,
        }
    }

    /// The average number of bytes received per second over the window.
    pub fn bps_received_last_10_sec(&self) -> (rate: u64)
        ensures
            rate == match self@.bps {
                Some(b) => b.received_last_10_sec() / 10,
                None => 0,
            },
    {
        match &self.bps_opt {
            Some(bps) => bps.bps_received_last_10_sec(),
            None => 0,
        }
    }

    /// The bytes sent over the window; zero where throughput is not tracked.
    pub fn sent_last_10_sec(&self) -> (bytes: u64)
        ensures
            bytes == match self@.bps {
                Some(b) => b.sent_last_10_sec(),
                None => 0,
            },
    {
        match &self.bps_opt {
            Some(bps) => bps.sent_last_10_sec(),
            None => 0,
        }
    }

    /// The average number of bytes sent per second over the window.
    pub fn bps_sent_last_10_sec(&self) -> (rate: u64)
        ensures
            rate == match self@.bps {
                Some(b) => b.sent_last_10_sec() / 10,
                None => 0,
            },
    {
        match &self.bps_opt {
            Some(bps) => bps.bps_sent_last_10_sec(),
            None => 0,
        }
    }
}

impl<SRCW: Message, SWCR: Message> Default for NetworkStats<SRCW, SWCR> {
    /// Statistics that track nothing.
    fn default() -> (stats: Self)
        ensures
            stats.wf(),
            stats@ == (StatsView {
                bps: None,
                rtt: None,
                cfg: StatConfig {
                    bps: crate::stats::config::BpsConfig { enabled: false },
                    rtt: crate::stats::config::RttConfig {
                        enabled: false,
                        ping_request_delay: 1_000_000_000,
                    },
                },
            }),
    {
        Self {
            bps_opt: None,
            rtt_opt: None,
            srcw: PhantomData,
            swcr: PhantomData,
            cfg: StatConfig::default(),
        }
    }
}

impl<SRCW: Message, SWCR: Message> Clone for NetworkStats<SRCW, SWCR> {
    fn clone(&self) -> (copy: Self)
        ensures
            copy@ == self@,
    {
        Self {
            bps_opt: match &self.bps_opt {
                Some(bps) => Some(bps.clone()),
                None => None,
            },
            rtt_opt: self.rtt_opt,
            srcw: PhantomData,
            swcr: PhantomData,
            cfg: self.cfg,
        }
    }
}

} // verus!
