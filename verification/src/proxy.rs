pub mod config;
pub mod error;
pub mod message;

use crate::channel::Channel;
use crate::channel::Lull;
use crate::channel::Received;
use crate::message::Arrival;
use crate::message::Message;
use crate::message::Packet;
use crate::proxy::config::ProxyConfig;
use crate::proxy::error::Fault;
use crate::proxy::error::ProxyError;
use crate::proxy::message::ProxyMessage;
use crate::socket::Header;
use crate::socket::IoError;
use crate::socket::IoKind;
use crate::socket::Socket;
use crate::socket::SocketError;
use crate::socket::SocketView;
use crate::stats::NetworkStats;
use crate::stats::StatsView;
use crate::time::Nanos;
use vstd::prelude::*;

verus! {

/// How an attempt to open the connection ended.
pub enum ConnectOutcome {
    /// The connection is open and set up.
    Connected,
    /// The connection opened but could not be set to non-blocking mode.
    Unconfigurable(String),
    /// The connection did not open.
    Refused,
}

/// What the owner of the transport does after a round of the proxy.
#[derive(Clone, Copy, Debug, PartialEq, Eq, Structural)]
pub enum Step {
    /// There is no link: try to open the connection and report how it ended.
    Connect,
    /// Move the bytes, publish the statistics, sleep to the target rate, and
    /// run the next round.
    Continue,
    /// Leave the loop and shut the proxy down.
    Stop,
}

/// How a receive attempt of the proxy's socket ended.
pub enum Fetched {
    /// There is no link.
    NoLink,
    /// The data is not complete yet.
    Idle,
    /// The data is not complete and the transport has failed.
    Broken(SocketError),
    /// A whole payload arrived under this header.
    Payload(Header, Vec<u8>),
}

/// The state of a proxy, as its contracts speak of it.
pub struct ProxyView<SRCW: Message> {
    pub cfg: ProxyConfig,
    /// The socket of the link, while there is a link.
    pub socket: Option<SocketView>,
    pub running: bool,
    pub connected: bool,
    pub stats: StatsView,
    /// The caller's messages that wait to be sent, oldest first.
    pub inbound: Seq<Packet>,
    /// Whether the caller has gone, so that no more messages will come.
    pub inbound_closed: bool,
    /// The messages for the caller that wait to be handed over, oldest first.
    pub mailbox: Seq<ProxyMessage<SRCW>>,
    /// The bytes that a dropped link should still carry, where it can.
    pub parting: Seq<u8>,
    /// The canonical ping, pong and exit message.
    pub ping: Packet,
    pub pong: Packet,
    pub exit: Packet,
}

impl<SRCW: Message> ProxyView<SRCW> {
    /// The proxy after its link was dropped: the socket queues the exit
    /// message and hands what it had queued to the parting bytes, and the
    /// caller is told once. Without a link there is nothing to drop.
    pub open spec fn reset(self) -> Self {
        match self.socket {
            Some(socket) => ProxyView {
                socket: None,
                connected: false,
                mailbox: self.mailbox.push(ProxyMessage::ConnectionResetError),
                parting: socket.sent(self.exit.wire()).outgoing,
                ..self
            },
            None => ProxyView { connected: false, ..self },
        }
    }

    /// The proxy after a failure of the given kind was handled.
    ///
    /// A failure of the link resets the connection where the proxy reconnects
    /// by itself and stops the proxy where it does not. A failure of the
    /// configuration or of the caller's channel stops the proxy. Being
    /// disconnected is no failure.
    pub open spec fn failed(self, fault: Fault) -> Self {
        match fault {
            Fault::Disconnected => self,
            Fault::SocketSend | Fault::SocketRecv => if self.cfg.auto_reconnect {
                self.reset()
            } else {
                ProxyView { running: false, ..self }
            },
            _ => ProxyView { running: false, ..self },
        }
    }

    /// The proxy after an attempt to open the connection ended as `outcome`
    /// says.
    pub open spec fn connected_as(self, outcome: ConnectOutcome) -> Self {
        match outcome {
            ConnectOutcome::Connected => ProxyView {
                socket: Some(SocketView::fresh()),
                connected: true,
                inbound: if self.cfg.keep_msg_while_disconnected {
                    self.inbound
                } else {
                    Seq::empty()
                },
                ..self
            },
            ConnectOutcome::Unconfigurable(_) => self,
            ConnectOutcome::Refused => ProxyView { connected: false, ..self },
        }
    }

    /// The failure that forwarding one of the caller's messages ends with,
    /// if any.
    pub open spec fn local_fault(self) -> Option<Fault> {
        match self.socket {
            None => Some(Fault::Disconnected),
            Some(socket) => if self.inbound.len() > 0 {
                if socket.accepts(self.inbound[0].wire()) {
                    None
                } else {
                    Some(Fault::SocketSend)
                }
            } else if self.inbound_closed {
                Some(Fault::ChannelRecv)
            } else {
                None
            },
        }
    }

    /// The proxy after it tried to forward the oldest of the caller's
    /// messages at `now`: the message leaves the queue, is noted in the
    /// statistics, and is framed and counted where the socket takes it.
    pub open spec fn local_done(self, now: Nanos) -> Self {
        match self.socket {
            Some(socket) => if self.inbound.len() > 0 {
                ProxyView {
                    socket: Some(socket.sent(self.inbound[0].wire())),
                    stats: self.stats.sent_through(
                        self.inbound[0].is_ping,
                        socket.receipt(self.inbound[0].wire()),
                        now,
                    ),
                    inbound: self.inbound.subrange(1, self.inbound.len() as int),
                    ..self
                }
            } else {
                self
            },
            None => self,
        }
    }

    /// The proxy after the statistics were brought up to `now`, which sends
    /// the canonical ping where one is due. A ping that the socket refuses is
    /// handled as a failure to send.
    pub open spec fn refreshed(self, now: Nanos) -> Self {
        match self.socket {
            Some(socket) => {
                let pings = self.stats.pings_on_update(now);
                let updated = ProxyView {
                    socket: Some(
                        if pings {
                            socket.sent(self.ping.wire())
                        } else {
                            socket
                        },
                    ),
                    stats: self.stats.updated(
                        self.ping.is_ping,
                        socket.receipt(self.ping.wire()),
                        now,
                    ),
                    ..self
                };
                if pings && !socket.accepts(self.ping.wire()) {
                    updated.failed(Fault::SocketSend)
                } else {
                    updated
                }
            },
            None => self,
        }
    }

    /// The failure that a payload which arrived ends with, if any, where
    /// `parsed` is what the payload was parsed to: a payload that is no
    /// message is a failure to receive, and an exit message says that the
    /// peer has gone.
    pub open spec fn arrival_fault(self, parsed: Result<Arrival<SRCW>, String>) -> Option<Fault> {
        match self.socket {
            None => Some(Fault::Disconnected),
            Some(_) => match parsed {
                Err(_) => Some(Fault::SocketRecv),
                Ok(arrival) => if arrival.is_exit {
                    Some(Fault::Disconnected)
                } else {
                    None
                },
            },
        }
    }

    /// The proxy after a payload arrived under `header` at `now` and was
    /// parsed to `parsed`.
    ///
    /// A message is answered where it is a ping, measured where it is a pong,
    /// counted, and queued for the caller. A payload that is no message drops
    /// the link. An exit message changes nothing.
    pub open spec fn arrived(
        self,
        header: Header,
        parsed: Result<Arrival<SRCW>, String>,
        now: Nanos,
    ) -> Self {
        match self.socket {
            None => self,
            Some(socket) => match parsed {
                Err(_) => self.reset(),
                Ok(arrival) => if arrival.is_exit {
                    self
                } else {
                    ProxyView {
                        socket: Some(
                            if arrival.is_ping {
                                socket.sent(self.pong.wire())
                            } else {
                                socket
                            },
                        ),
                        stats: self.stats.msg_received(
                            arrival.is_ping,
                            arrival.is_pong,
                            self.pong.is_ping,
                            socket.receipt(self.pong.wire()),
                            now,
                        ).bytes_received(header),
                        mailbox: self.mailbox.push(ProxyMessage::Forward(arrival.message)),
                        ..self
                    }
                },
            },
        }
    }

    /// The proxy after its socket, where it has one, made a receive attempt.
    pub open spec fn fetched(self) -> Self {
        match self.socket {
            Some(socket) => ProxyView { socket: Some(socket.received()), ..self },
            None => self,
        }
    }

    /// Whether the socket's receive attempt fails for good: data is missing
    /// and the transport has reported a failure other than would-block.
    pub open spec fn link_broken(self) -> bool {
        self.socket matches Some(socket) && socket.payload() is None
            && crate::socket::starved(socket.read_fault).kind != IoKind::WouldBlock
    }

    /// The failure that the receiving side of a round ends with, if any,
    /// where `parsed` is what the payload that arrived, if one did, was
    /// parsed to. Missing data is no failure.
    pub open spec fn distant_fault(self, parsed: Result<Arrival<SRCW>, String>) -> Option<Fault> {
        match self.socket {
            None => Some(Fault::Disconnected),
            Some(socket) => match socket.payload() {
                None => if self.link_broken() {
                    Some(Fault::SocketRecv)
                } else {
                    None
                },
                Some(_) => self.fetched().arrival_fault(parsed),
            },
        }
    }

    /// The proxy after the receiving side of a round at `now`, where
    /// `parsed` is what the payload that arrived, if one did, was parsed to.
    /// A transport failure drops the link.
    pub open spec fn distant_done(self, parsed: Result<Arrival<SRCW>, String>, now: Nanos) -> Self {
        match self.socket {
            None => self,
            Some(socket) => match socket.payload() {
                None => if self.link_broken() {
                    self.fetched().reset()
                } else {
                    self.fetched()
                },
                Some(_) => self.fetched().arrived(socket.header().unwrap(), parsed, now),
            },
        }
    }

    /// The payload that a receive attempt of the link extracts, where there
    /// is a link and a payload is complete.
    pub open spec fn incoming(self) -> Option<Seq<u8>> {
        match self.socket {
            Some(socket) => socket.payload(),
            None => None,
        }
    }

    /// Whether `parsed` is what the message type makes of the payload that
    /// a receive attempt extracts. Where no payload is complete, nothing is
    /// parsed, and `parsed` is of no account.
    pub open spec fn parses(self, parsed: Result<Arrival<SRCW>, String>) -> bool {
        self.incoming() matches Some(payload) ==> Arrival::<SRCW>::parsed_from(payload, parsed)
    }

    /// Whether `after` and `result` are what the receiving side of a round at
    /// `now` makes of this proxy, where `parsed` is what the message type
    /// made of the payload that arrived, if one did.
    pub open spec fn distant_post(
        self,
        parsed: Result<Arrival<SRCW>, String>,
        now: Nanos,
        after: Self,
        result: Result<(), ProxyError>,
    ) -> bool {
        &&& self.parses(parsed)
        &&& after == self.distant_done(parsed, now)
        &&& match result {
            Ok(_) => self.distant_fault(parsed) is None,
            Err(e) => self.distant_fault(parsed) == Some(e.fault()),
        }
    }

    /// What the owner of the transport does next.
    pub open spec fn step(self) -> Step {
        if !self.running {
            Step::Stop
        } else if self.socket is None {
            if self.cfg.auto_reconnect {
                Step::Connect
            } else {
                Step::Stop
            }
        } else {
            Step::Continue
        }
    }

    /// The proxy after one round at `now`, where `parsed` is what the payload
    /// that arrived during the round, if one did, was parsed to.
    ///
    /// A round without a link, or of a proxy that has stopped, changes
    /// nothing. Otherwise the statistics are brought up to date, then one of
    /// the caller's messages is forwarded, then one of the peer's; a failure
    /// is handled and ends the round.
    pub open spec fn ticked(self, parsed: Result<Arrival<SRCW>, String>, now: Nanos) -> Self {
        if self.step() != Step::Continue {
            self
        } else {
            let refreshed = self.refreshed(now);
            match refreshed.local_fault() {
                Some(fault) => refreshed.local_done(now).failed(fault),
                None => {
                    let forwarded = refreshed.local_done(now);
                    match forwarded.distant_fault(parsed) {
                        Some(fault) => forwarded.distant_done(parsed, now).failed(fault),
                        None => forwarded.distant_done(parsed, now),
                    }
                },
            }
        }
    }

    /// The proxy as the receiving side of a round at `now` finds it: with the
    /// statistics brought up to date and one of the caller's messages
    /// forwarded. There is none where the round does not get that far.
    pub open spec fn before_distant(self, now: Nanos) -> Option<Self> {
        if self.step() != Step::Continue || self.refreshed(now).local_fault() is Some {
            None
        } else {
            Some(self.refreshed(now).local_done(now))
        }
    }

    /// Whether `after` is this proxy after one round at `now`, where
    /// `parsed` is what the message type made of the payload that arrived
    /// during the round, if one did.
    pub open spec fn tick_post(
        self,
        parsed: Result<Arrival<SRCW>, String>,
        now: Nanos,
        after: Self,
    ) -> bool {
        &&& after == self.ticked(parsed, now)
        &&& self.before_distant(now) matches Some(found) ==> found.parses(parsed)
    }

    /// The proxy after it shut down: the caller is told, the flags are
    /// cleared, and the link, where there is one, is dropped with the exit
    /// message as its parting bytes.
    pub open spec fn shut_down(self) -> Self {
        ProxyView {
            socket: None,
            running: false,
            connected: false,
            mailbox: self.mailbox.push(ProxyMessage::Exit),
            parting: match self.socket {
                Some(socket) => socket.sent(self.exit.wire()).outgoing,
                None => self.parting,
            },
            ..self
        }
    }

    /// Whether `after` is this proxy with `message` queued for the remote
    /// side: a packet that holds what the message answers has joined the
    /// queue behind everything that waits there.
    pub open spec fn queued<SWCR: Message>(self, message: SWCR, after: Self) -> bool {
        exists|packet: Packet| #[trigger]
            packet.taken_from(&message) && after == (ProxyView {
                inbound: self.inbound.push(packet),
                ..self
            })
    }

    /// Whether `after` is this proxy once it has taken note of what a look
    /// into the caller's channel found: a message is queued for the remote
    /// side, a caller that has gone is recorded, and an empty channel changes
    /// nothing.
    pub open spec fn accepted<SWCR: Message>(self, event: Received<SWCR>, after: Self) -> bool {
        match event {
            Received::Message(message) => self.queued(message, after),
            Received::Nothing(Lull::Empty) => after == self,
            Received::Nothing(Lull::Disconnected) => after == (ProxyView {
                inbound_closed: true,
                ..self
            }),
        }
    }

    /// The proxy after the transport wrote, or failed to write, the bytes it
    /// was handed: a failure is recorded with the socket and handled as a
    /// failure to send.
    pub open spec fn written(self, outcome: Result<(), IoError>) -> Self {
        match outcome {
            Ok(_) => self,
            Err(e) => (match self.socket {
                Some(socket) => ProxyView {
                    socket: Some(SocketView { write_fault: Some(e), ..socket }),
                    ..self
                },
                None => self,
            }).failed(Fault::SocketSend),
        }
    }

    /// The throughput window, where there is one, holds the current tick.
    pub open spec fn wf(self) -> bool {
        self.stats.wf()
    }
}

/// The connection lifecycle of one link: connect, forward in both directions,
/// keep statistics, reconnect or stop on failure.
///
/// The proxy decides; whoever owns the transport, the caller's channel and
/// the clock moves the bytes and the messages and tells the proxy the time.
pub struct Proxy<SRCW: Message, SWCR: Message> {
    cfg: ProxyConfig,
    socket_opt: Option<Socket<SRCW, SWCR>>,
    running: bool,
    connected: bool,
    stats: NetworkStats<SRCW, SWCR>,
    inbound: Vec<Packet>,
    inbound_closed: bool,
    mailbox: Vec<ProxyMessage<SRCW>>,
    parting: Vec<u8>,
    ping: Packet,
    pong: Packet,
    exit: Packet,
}

impl<SRCW: Message, SWCR: Message> View for Proxy<SRCW, SWCR> {
    type V = ProxyView<SRCW>;

    closed spec fn view(&self) -> ProxyView<SRCW> {
        ProxyView {
            cfg: self.cfg,
            socket: match self.socket_opt {
                Some(socket) => Some(socket@),
                None => None,
            },
            running: self.running,
            connected: self.connected,
            stats: self.stats@,
            inbound: self.inbound@,
            inbound_closed: self.inbound_closed,
            mailbox: self.mailbox@,
            parting: self.parting@,
            ping: self.ping,
            pong: self.pong,
            exit: self.exit,
        }
    }
}

impl<SRCW: Message, SWCR: Message> Proxy<SRCW, SWCR> {
    /// The throughput window, where there is one, holds the current tick. A
    /// new proxy is well-formed, and every operation keeps it so.
    pub open spec fn wf(&self) -> bool {
        self@.wf()
    }

    /// The state that a new proxy with these canonical messages starts in:
    /// running, with a link where the caller brought an open connection, and
    /// with nothing queued.
    pub open spec fn initial(
        cfg: ProxyConfig,
        connected: bool,
        now: Nanos,
        ping: Packet,
        pong: Packet,
        exit: Packet,
    ) -> ProxyView<SRCW> {
        ProxyView {
            cfg,
            socket: if connected {
                Some(SocketView::fresh())
            } else {
                None
            },
            running: true,
            connected,
            stats: StatsView::fresh(cfg.stat_cfg, now),
            inbound: Seq::empty(),
            inbound_closed: false,
            mailbox: Seq::empty(),
            parting: Seq::empty(),
            ping,
            pong,
            exit,
        }
    }

    /// A new proxy that uses the given canonical messages.
    pub fn with_packets(
        cfg: ProxyConfig,
        connected: bool,
        now: Nanos,
        ping: Packet,
        pong: Packet,
        exit: Packet,
    ) -> (proxy: Self)
        ensures
            proxy.wf(),
            proxy@ == Self::initial(cfg, connected, now, ping, pong, exit),
    {
        Proxy {
            cfg,
            socket_opt: if connected {
                Some(Socket::new())
            } else {
                None
            },
            running: true,
            connected,
            stats: NetworkStats::new(cfg.stat_cfg, now),
            inbound: Vec::new(),
            inbound_closed: false,
            mailbox: Vec::new(),
            parting: Vec::new(),
            ping,
            pong,
            exit,
        }
    }

    /// A new proxy, which starts at `now`. `connected` says whether the
    /// caller brought an open connection.
    ///
    /// The canonical messages of the proxy are those of the type that it
    /// sends.
    pub fn start_new(cfg: ProxyConfig, connected: bool, now: Nanos) -> (proxy: Self)
        ensures
            proxy.wf(),
            proxy@ == Self::initial(cfg, connected, now, proxy@.ping, proxy@.pong, proxy@.exit),
            proxy@.ping.is_canonical_ping::<SWCR>(),
            proxy@.pong.is_canonical_pong::<SWCR>(),
            proxy@.exit.is_canonical_exit::<SWCR>(),
    {
        Self::with_packets(
            cfg,
            connected,
            now,
            Packet::canonical_ping::<SWCR>(),
            Packet::canonical_pong::<SWCR>(),
            Packet::canonical_exit::<SWCR>(),
        )
    }

    pub fn is_running(&self) -> (running: bool)
        ensures
            running == self@.running,
    {
        self.running
    }

    pub fn is_connected(&self) -> (connected: bool)
        ensures
            connected == self@.connected,
    {
        self.connected
    }

    pub fn config(&self) -> (cfg: ProxyConfig)
        ensures
            cfg == self@.cfg,
    {
        self.cfg
    }

    /// The statistics as they stand.
    pub fn stats(&self) -> (stats: &NetworkStats<SRCW, SWCR>)
        ensures
            stats@ == self@.stats,
    {
        &self.stats
    }

    /// What the owner of the transport does next.
    pub fn next_step(&self) -> (step: Step)
        ensures
            step == self@.step(),
    {
        if !self.running {
            Step::Stop
        } else if self.socket_opt.is_none() {
            if self.cfg.auto_reconnect {
                Step::Connect
            } else {
                Step::Stop
            }
        } else {
            Step::Continue
        }
    }

    /// Queues the message behind `packet` for the remote side.
    pub fn accept_packet(&mut self, packet: Packet)
        ensures
            final(self)@ == (ProxyView { inbound: old(self)@.inbound.push(packet), ..old(self)@ }),
    {
        self.inbound.push(packet);
    }

    /// Queues one of the caller's messages for the remote side.
    pub fn accept_local(&mut self, message: SWCR)
        ensures
            old(self)@.queued(message, final(self)@),
    {
        let packet = Packet::of(&message);
        self.accept_packet(packet);
        assert(packet.taken_from(&message) && self@ == (ProxyView {
            inbound: old(self)@.inbound.push(packet),
            ..old(self)@
        }));
    }

    /// Records that the caller has gone: once its queued messages are sent,
    /// the proxy stops.
    pub fn close_local(&mut self)
        ensures
            final(self)@ == (ProxyView { inbound_closed: true, ..old(self)@ }),
    {
        self.inbound_closed = true;
    }

    /// Takes the messages that wait for the caller, oldest first.
    pub fn take_mailbox(&mut self) -> (messages: Vec<ProxyMessage<SRCW>>)
        ensures
            messages@ == old(self)@.mailbox,
            final(self)@ == (ProxyView { mailbox: Seq::empty(), ..old(self)@ }),
    {
        let mut messages = Vec::new();
        core::mem::swap(&mut messages, &mut self.mailbox);
        messages
    }

    /// Takes the bytes that a dropped link should still carry.
    pub fn take_parting(&mut self) -> (bytes: Vec<u8>)
        ensures
            bytes@ == old(self)@.parting,
            final(self)@ == (ProxyView { parting: Seq::empty(), ..old(self)@ }),
    {
        let mut bytes = Vec::new();
        core::mem::swap(&mut bytes, &mut self.parting);
        bytes
    }

    /// Hands the link bytes that the transport delivered. Without a link
    /// they are dropped.
    pub fn feed(&mut self, bytes: &[u8])
        ensures
            final(self)@ == match old(self)@.socket {
                Some(socket) => ProxyView { socket: Some(socket.fed(bytes@)), ..old(self)@ },
                None => old(self)@,
            },
    {
        let mut socket_opt = None;
        core::mem::swap(&mut socket_opt, &mut self.socket_opt);
        if let Some(mut socket) = socket_opt {
            socket.feed(bytes);
            self.socket_opt = Some(socket);
        }
    }

    /// Takes the framed bytes that wait for the transport; none without a
    /// link.
    pub fn take_outgoing(&mut self) -> (bytes: Vec<u8>)
        ensures
            bytes@ == match old(self)@.socket {
                Some(socket) => socket.outgoing,
                None => Seq::empty(),
            },
            final(self)@ == match old(self)@.socket {
                Some(socket) => ProxyView {
                    socket: Some(SocketView { outgoing: Seq::empty(), ..socket }),
                    ..old(self)@
                },
                None => old(self)@,
            },
    {
        let mut socket_opt = None;
        core::mem::swap(&mut socket_opt, &mut self.socket_opt);
        match socket_opt {
            Some(mut socket) => {
                let bytes = socket.take_outgoing();
                self.socket_opt = Some(socket);
                bytes
            },
            None => Vec::new(),
        }
    }

    /// Records that the transport can deliver no more bytes.
    pub fn fail_reads(&mut self, error: IoError)
        ensures
            final(self)@ == match old(self)@.socket {
                Some(socket) => ProxyView {
                    socket: Some(SocketView { read_fault: Some(error), ..socket }),
                    ..old(self)@
                },
                None => old(self)@,
            },
    {
        let mut socket_opt = None;
        core::mem::swap(&mut socket_opt, &mut self.socket_opt);
        if let Some(mut socket) = socket_opt {
            socket.fail_reads(error);
            self.socket_opt = Some(socket);
        }
    }

    /// Records that the transport accepts no more bytes.
    pub fn fail_writes(&mut self, error: IoError)
        ensures
            final(self)@ == match old(self)@.socket {
                Some(socket) => ProxyView {
                    socket: Some(SocketView { write_fault: Some(error), ..socket }),
                    ..old(self)@
                },
                None => old(self)@,
            },
    {
        let mut socket_opt = None;
        core::mem::swap(&mut socket_opt, &mut self.socket_opt);
        if let Some(mut socket) = socket_opt {
            socket.fail_writes(error);
            self.socket_opt = Some(socket);
        }
    }

    fn set_connected(&mut self, val: bool)
        ensures
            final(self)@ == (ProxyView { connected: val, ..old(self)@ }),
    {
        self.connected = val;
    }

    fn set_running(&mut self, val: bool)
        ensures
            final(self)@ == (ProxyView { running: val, ..old(self)@ }),
    {
        self.running = val;
    }

    /// Takes note of how an attempt to open the connection ended.
    ///
    /// An open connection becomes the link; unless queued messages are kept
    /// across disconnections, those that piled up are discarded. A connection
    /// that could not be set up fails with `Config`. A connection that did
    /// not open leaves the proxy disconnected, for the next attempt.
    pub fn try_connect(&mut self, outcome: ConnectOutcome) -> (r: Result<(), ProxyError>)
        ensures
            final(self)@ == old(self)@.connected_as(outcome),
            match outcome {
                ConnectOutcome::Unconfigurable(reason) => r == Err::<(), ProxyError>(
                    ProxyError::Config(reason),
                ),
                _ => r is Ok,
            },
    {
        match outcome {
            ConnectOutcome::Connected => {
                self.socket_opt = Some(Socket::new());
                self.set_connected(true);
                if !self.cfg.keep_msg_while_disconnected {
                    self.inbound.clear();
                }
                Ok(())
            },
            ConnectOutcome::Unconfigurable(text) => Err(ProxyError::Config(text)),
            ConnectOutcome::Refused => {
                self.set_connected(false);
                Ok(())
            },
        }
    }

    /// Drops the link, where there is one: the socket queues the exit
    /// message, what it had queued becomes the parting bytes, and the caller
    /// is told that the connection was reset.
    pub fn reset_connection(&mut self)
        ensures
            final(self)@ == old(self)@.reset(),
    {
        self.set_connected(false);
        let mut socket_opt = None;
        core::mem::swap(&mut socket_opt, &mut self.socket_opt);
        if let Some(mut socket) = socket_opt {
            let _ = socket.send_packet(self.exit.duplicate());
            self.parting = socket.take_outgoing();
            self.mailbox.push(ProxyMessage::ConnectionResetError);
        }
    }

    /// Applies the error policy to `error`.
    ///
    /// A failure of the configuration or of the caller's channel stops the
    /// proxy. A failure of the link resets the connection where the proxy
    /// reconnects by itself, and stops the proxy where it does not. Being
    /// disconnected is expected while reconnecting and changes nothing.
    pub fn handle_error(&mut self, error: ProxyError)
        ensures
            final(self)@ == old(self)@.failed(error.fault()),
    {
        match error {
            ProxyError::Config(_) => {
                self.set_running(false);
            },
            ProxyError::ChannelSend(_) => {
                self.set_running(false);
            },
            ProxyError::ChannelRecv(_) => {
                self.set_running(false);
            },
            ProxyError::SocketSend(_) => {
                if self.cfg.auto_reconnect {
                    self.reset_connection();
                } else {
                    self.set_running(false);
                }
            },
            ProxyError::SocketRecv(_) => {
                if self.cfg.auto_reconnect {
                    self.reset_connection();
                } else {
                    self.set_running(false);
                }
            },
            ProxyError::Disconnected => {},
        }
    }
}

impl<SRCW: Message, SWCR: Message> Proxy<SRCW, SWCR> {
    /// Brings the statistics up to `now`, which sends the canonical ping
    /// where one is due. A ping that the socket refuses is handled as a
    /// failure to send. Without a link nothing happens.
    pub fn refresh(&mut self, now: Nanos)
        requires
            old(self).wf(),
        ensures
            final(self).wf(),
            final(self)@ == old(self)@.refreshed(now),
    {
        let mut socket_opt = None;
        core::mem::swap(&mut socket_opt, &mut self.socket_opt);
        if let Some(mut socket) = socket_opt {
            let r = self.stats.update_with(&self.ping, &mut socket, now);
            self.socket_opt = Some(socket);
            if let Err(e) = r {
                self.handle_error(ProxyError::SocketSend(e.describe()));
            }
        }
    }

    /// Forwards the oldest of the caller's messages to the remote side.
    ///
    /// Fails with `Disconnected` without a link, with `SocketSend` where the
    /// socket refuses the message, and with `ChannelRecv` where no message
    /// waits and the caller has gone. That no message waits is no failure.
    pub fn handle_local(&mut self, now: Nanos) -> (r: Result<(), ProxyError>)
        requires
            old(self).wf(),
        ensures
            final(self).wf(),
            final(self)@ == old(self)@.local_done(now),
            match r {
                Ok(_) => old(self)@.local_fault() is None,
                Err(e) => old(self)@.local_fault() == Some(e.fault()),
            },
    {
        let mut socket_opt = None;
        core::mem::swap(&mut socket_opt, &mut self.socket_opt);
        let mut socket = match socket_opt {
            Some(socket) => socket,
            None => {
                return Err(ProxyError::Disconnected);
            },
        };
        if self.inbound.len() > 0 {
            let packet = self.inbound.remove(0);
            assert(self.inbound@ =~= old(self).inbound@.subrange(
                1,
                old(self).inbound@.len() as int,
            ));
            let r = self.stats.send_noted(packet, &mut socket, now);
            self.socket_opt = Some(socket);
            match r {
                Ok(_) => Ok(()),
                Err(e) => Err(ProxyError::SocketSend(e.describe())),
            }
        } else {
            self.socket_opt = Some(socket);
            if self.inbound_closed {
                Err(ProxyError::ChannelRecv(String::from_str("receiving on a closed channel")))
            } else {
                Ok(())
            }
        }
    }

    /// Lets the socket make one receive attempt.
    pub fn fetch(&mut self) -> (r: Fetched)
        ensures
            final(self)@ == old(self)@.fetched(),
            match r {
                Fetched::NoLink => old(self)@.socket is None,
                Fetched::Idle => old(self)@.socket matches Some(socket) && socket.payload() is None
                    && !old(self)@.link_broken(),
                Fetched::Broken(e) => {
                    &&& old(self)@.link_broken()
                    &&& e matches SocketError::StreamRead(io) && Some(io) == old(
                        self,
                    )@.socket.unwrap().read_fault
                },
                Fetched::Payload(header, bytes) => old(self)@.socket matches Some(socket)
                    && socket.payload() == Some(bytes@) && socket.header() == Some(header),
            },
    {
        let mut socket_opt = None;
        core::mem::swap(&mut socket_opt, &mut self.socket_opt);
        let mut socket = match socket_opt {
            Some(socket) => socket,
            None => {
                return Fetched::NoLink;
            },
        };
        let r = socket.try_recv_payload();
        self.socket_opt = Some(socket);
        match r {
            Ok((header, bytes)) => Fetched::Payload(header, bytes),
            Err(e) => {
                if e.is_would_block() {
                    Fetched::Idle
                } else {
                    Fetched::Broken(e)
                }
            },
        }
    }

    /// Handles a payload that arrived under `header` at `now` and was parsed
    /// to `parsed`.
    ///
    /// A message is answered where it is a ping, measured where it is a pong,
    /// counted, and queued for the caller. A payload that is no message drops
    /// the link and fails with `SocketRecv`. An exit message fails with
    /// `Disconnected`, as does any payload without a link.
    pub fn handle_arrival(
        &mut self,
        header: Header,
        parsed: Result<Arrival<SRCW>, String>,
        now: Nanos,
    ) -> (r: Result<(), ProxyError>)
        requires
            old(self).wf(),
        ensures
            final(self).wf(),
            final(self)@ == old(self)@.arrived(header, parsed, now),
            match r {
                Ok(_) => old(self)@.arrival_fault(parsed) is None,
                Err(e) => old(self)@.arrival_fault(parsed) == Some(e.fault()),
            },
    {
        if self.socket_opt.is_none() {
            return Err(ProxyError::Disconnected);
        }
        let arrival = match parsed {
            Ok(arrival) => arrival,
            Err(text) => {
                self.reset_connection();
                return Err(ProxyError::SocketRecv(text));
            },
        };
        if arrival.is_exit {
            return Err(ProxyError::Disconnected);
        }
        let mut socket_opt = None;
        core::mem::swap(&mut socket_opt, &mut self.socket_opt);
        if let Some(mut socket) = socket_opt {
            self.stats.on_arrival(arrival.is_ping, arrival.is_pong, &self.pong, &mut socket, now);
            self.stats.on_bytes_recv(&header);
            self.socket_opt = Some(socket);
        }
        self.mailbox.push(ProxyMessage::Forward(arrival.message));
        Ok(())
    }

    /// Receives from the remote side: one receive attempt of the socket,
    /// and, where a payload arrived, its parsing and handling.
    ///
    /// Fails with `Disconnected` without a link and for an exit message, and
    /// with `SocketRecv`, after dropping the link, where the transport has
    /// failed or the payload is no message. Missing data is no failure.
    pub fn handle_distant(&mut self, now: Nanos) -> (r: Result<(), ProxyError>)
        requires
            old(self).wf(),
        ensures
            final(self).wf(),
            exists|parsed: Result<Arrival<SRCW>, String>| #[trigger]
                old(self)@.distant_post(parsed, now, final(self)@, r),
    {
        match self.fetch() {
            Fetched::NoLink => {
                let r = Err(ProxyError::Disconnected);
                proof {
                    let parsed: Result<Arrival<SRCW>, String> = arbitrary();
                    assert(old(self)@.distant_post(parsed, now, self@, r));
                }
                r
            },
            Fetched::Idle => {
                let r = Ok(());
                proof {
                    let parsed: Result<Arrival<SRCW>, String> = arbitrary();
                    assert(old(self)@.distant_post(parsed, now, self@, r));
                }
                r
            },
            Fetched::Broken(e) => {
                self.reset_connection();
                let r = Err(ProxyError::SocketRecv(e.describe()));
                proof {
                    let parsed: Result<Arrival<SRCW>, String> = arbitrary();
                    assert(old(self)@.distant_post(parsed, now, self@, r));
                }
                r
            },
            Fetched::Payload(header, bytes) => {
                let parsed = Arrival::parse(bytes.as_slice());
                let r = self.handle_arrival(header, parsed, now);
                assert(old(self)@.distant_post(parsed, now, self@, r));
                r
            },
        }
    }

    /// Runs one round of the proxy at `now` and says what the owner of the
    /// transport does next.
    ///
    /// A proxy that has stopped, or has no link, is left as it is. Otherwise
    /// the statistics are brought up to date, then one of the caller's
    /// messages is forwarded, then one of the peer's; a failure is handled by
    /// the error policy and ends the round.
    pub fn tick(&mut self, now: Nanos) -> (step: Step)
        requires
            old(self).wf(),
        ensures
            final(self).wf(),
            step == old(self)@.step(),
            exists|parsed: Result<Arrival<SRCW>, String>| #[trigger]
                old(self)@.tick_post(parsed, now, final(self)@),
    {
        let step = self.next_step();
        if step != Step::Continue {
            proof {
                let parsed: Result<Arrival<SRCW>, String> = arbitrary();
                assert(old(self)@.tick_post(parsed, now, self@));
            }
            return step;
        }
        self.refresh(now);
        let ghost refreshed = self@;
        match self.handle_local(now) {
            Ok(_) => {},
            Err(e) => {
                self.handle_error(e);
                proof {
                    let parsed: Result<Arrival<SRCW>, String> = arbitrary();
                    assert(old(self)@.tick_post(parsed, now, self@));
                }
                return step;
            },
        }
        let ghost forwarded = self@;
        let r = self.handle_distant(now);
        let ghost parsed = choose|parsed: Result<Arrival<SRCW>, String>|
            forwarded.distant_post(parsed, now, self@, r);
        match r {
            Ok(_) => {},
            Err(e) => {
                self.handle_error(e);
            },
        }
        assert(old(self)@.before_distant(now) == Some(forwarded));
        assert(old(self)@.tick_post(parsed, now, self@));
        step
    }

    /// Shuts the proxy down: the caller is told that the proxy has stopped,
    /// the flags are cleared, and the link, where there is one, is dropped
    /// with the exit message among its parting bytes.
    pub fn shutdown(&mut self)
        ensures
            final(self)@ == old(self)@.shut_down(),
    {
        self.mailbox.push(ProxyMessage::Exit);
        self.set_running(false);
        self.set_connected(false);
        let mut socket_opt = None;
        core::mem::swap(&mut socket_opt, &mut self.socket_opt);
        if let Some(mut socket) = socket_opt {
            let _ = socket.send_packet(self.exit.duplicate());
            self.parting = socket.take_outgoing();
        }
    }
}

impl<SRCW: Message, SWCR: Message> Proxy<SRCW, SWCR> {
    /// Takes note of what a look into the caller's channel found, and says
    /// whether it found a message: a message joins the queue for the remote
    /// side, a caller that has gone is recorded, and an empty channel changes
    /// nothing.
    pub fn accept_event(&mut self, event: Received<SWCR>) -> (found: bool)
        ensures
            found == (event is Message),
            old(self)@.accepted(event, final(self)@),
    {
        match event {
            Received::Message(message) => {
                self.accept_local(message);
                true
            },
            Received::Nothing(Lull::Empty) => false,
            Received::Nothing(Lull::Disconnected) => {
                self.close_local();
                false
            },
        }
    }

    /// Looks into the caller's channel and takes note of what it finds: a
    /// message, where one waits, moves into the queue for the remote side,
    /// and a caller that has gone is recorded. Says whether a message moved.
    ///
    /// What the look finds is the channel's to say; what is made of it is
    /// what `accept_event` makes of it.
    pub fn receive_local(&mut self, channel: &Channel<SWCR, ProxyMessage<SRCW>>) -> (moved: bool)
        ensures
            exists|event: Received<SWCR>| #[trigger]
                channel.looks(event) && moved == (event is Message) && old(self)@.accepted(
                    event,
                    final(self)@,
                ),
    {
        let event = channel.look();
        let ghost found = event;
        let moved = self.accept_event(event);
        assert(channel.looks(found) && moved == (found is Message) && old(self)@.accepted(
            found,
            self@,
        ));
        moved
    }

    /// Whether the proxy has a link at the moment.
    pub fn has_link(&self) -> (linked: bool)
        ensures
            linked == self@.socket is Some,
    {
        self.socket_opt.is_some()
    }

    /// Takes note of how the transport fared with the bytes it was handed:
    /// a failure is recorded with the socket, so that it takes no more
    /// messages, and is handled as a failure to send.
    pub fn note_written(&mut self, outcome: Result<(), IoError>)
        ensures
            final(self)@ == old(self)@.written(outcome),
    {
        if let Err(e) = outcome {
            self.fail_writes(e);
            self.handle_error(
                ProxyError::SocketSend(SocketError::StreamWrite(e).describe()),
            );
        }
    }

    /// Takes note of how handing a message to the caller ended: a caller
    /// that no longer listens is a failure of the channel, which stops the
    /// proxy.
    pub fn note_handed(&mut self, handed: Result<(), String>)
        ensures
            final(self)@ == match handed {
                Ok(_) => old(self)@,
                Err(_) => old(self)@.failed(Fault::ChannelSend),
            },
    {
        if let Err(text) = handed {
            self.handle_error(ProxyError::ChannelSend(text));
        }
    }

    /// Whether `after` is `before` once every message that waited for the
    /// caller was handed to `channel`, oldest first, with `answers` as what
    /// the channel answered for each: nothing waits any more, and the proxy
    /// keeps running exactly where it ran and every message was taken.
    pub open spec fn handed_over(
        before: ProxyView<SRCW>,
        channel: &Channel<SWCR, ProxyMessage<SRCW>>,
        answers: Seq<Result<(), String>>,
        after: ProxyView<SRCW>,
    ) -> bool {
        &&& answers.len() == before.mailbox.len()
        &&& forall|i: int|
            0 <= i < answers.len() ==> #[trigger] channel.hands(before.mailbox[i], answers[i])
        &&& after == (ProxyView {
            mailbox: Seq::empty(),
            running: before.running && all_taken(answers),
            ..before
        })
    }

    /// Hands the messages that wait for the caller to its channel, oldest
    /// first. A caller that no longer listens stops the proxy.
    pub fn hand_over(&mut self, channel: &Channel<SWCR, ProxyMessage<SRCW>>)
        ensures
            exists|answers: Seq<Result<(), String>>| #[trigger]
                Self::handed_over(old(self)@, channel, answers, final(self)@),
    {
        let mut waiting = self.take_mailbox();
        let ghost before = old(self)@;
        let ghost mut answers: Seq<Result<(), String>> = Seq::empty();
        while waiting.len() > 0
            invariant
                answers.len() + waiting@.len() == before.mailbox.len(),
                waiting@ == before.mailbox.subrange(
                    answers.len() as int,
                    before.mailbox.len() as int,
                ),
                forall|i: int|
                    0 <= i < answers.len() ==> #[trigger] channel.hands(
                        before.mailbox[i],
                        answers[i],
                    ),
                self@ == (ProxyView {
                    mailbox: Seq::empty(),
                    running: before.running && all_taken(answers),
                    ..before
                }),
            decreases waiting@.len(),
        {
            let ghost earlier = answers;
            let ghost left = waiting@;
            let message = waiting.remove(0);
            let handed = channel.send_or_describe(message);
            proof {
                answers = earlier.push(handed);
                assert(message == before.mailbox[earlier.len() as int]);
                assert(waiting@ =~= before.mailbox.subrange(
                    answers.len() as int,
                    before.mailbox.len() as int,
                ));
                assert(all_taken(answers) == (all_taken(earlier) && handed is Ok)) by {
                    if all_taken(earlier) && handed is Ok {
                        assert forall|i: int| 0 <= i < answers.len() implies (
                        #[trigger] answers[i]) is Ok by {
                            if i < earlier.len() {
                                assert(answers[i] == earlier[i]);
                            }
                        }
                    }
                    if all_taken(answers) {
                        assert(answers[earlier.len() as int] is Ok);
                        assert forall|i: int| 0 <= i < earlier.len() implies (
                        #[trigger] earlier[i]) is Ok by {
                            assert(answers[i] == earlier[i]);
                        }
                    }
                }
            }
            self.note_handed(handed);
        }
        assert(Self::handed_over(before, channel, answers, self@));
    }
}

/// Whether every message was taken: no answer is a failure.
pub open spec fn all_taken(answers: Seq<Result<(), String>>) -> bool {
    forall|i: int| 0 <= i < answers.len() ==> (#[trigger] answers[i]) is Ok
}

/// Reconnect policy: for a proxy that has a link, a failure to send or to
/// receive is handled according to `auto_reconnect`.
///
/// Where the proxy reconnects by itself, the caller is told exactly once that
/// the connection was reset, the link is dropped, and the proxy keeps
/// running; handling the same failure again tells the caller nothing more.
/// Where it does not, the proxy stops, and its shutdown tells the caller
/// exactly once that it has exited.
pub proof fn lemma_reconnect_policy<SRCW: Message>(proxy: ProxyView<SRCW>, fault: Fault)
    requires
        fault.is_connection_scoped(),
        proxy.socket is Some,
        proxy.running,
    ensures
        proxy.cfg.auto_reconnect ==> {
            &&& proxy.failed(fault).mailbox == proxy.mailbox.push(
                ProxyMessage::ConnectionResetError,
            )
            &&& proxy.failed(fault).running
            &&& !proxy.failed(fault).connected
            &&& proxy.failed(fault).socket is None
            &&& proxy.failed(fault).step() == Step::Connect
            &&& proxy.failed(fault).failed(fault) == proxy.failed(fault)
        },
        !proxy.cfg.auto_reconnect ==> {
            &&& proxy.failed(fault).mailbox == proxy.mailbox
            &&& !proxy.failed(fault).running
            &&& proxy.failed(fault).step() == Step::Stop
            &&& proxy.failed(fault).shut_down().mailbox == proxy.mailbox.push(ProxyMessage::Exit)
        },
{
}

/// A transport that fails while the proxy receives costs the link exactly
/// once: whether the proxy reconnects by itself or not, the round tells the
/// caller once that the connection was reset, and a proxy that does not
/// reconnect stops.
pub proof fn lemma_broken_link_is_reported_once<SRCW: Message>(
    proxy: ProxyView<SRCW>,
    parsed: Result<Arrival<SRCW>, String>,
    now: Nanos,
)
    requires
        proxy.link_broken(),
    ensures
        proxy.distant_fault(parsed) == Some(Fault::SocketRecv),
        proxy.distant_done(parsed, now).failed(Fault::SocketRecv).mailbox == proxy.mailbox.push(
            ProxyMessage::ConnectionResetError,
        ),
        proxy.distant_done(parsed, now).failed(Fault::SocketRecv).socket is None,
        proxy.distant_done(parsed, now).failed(Fault::SocketRecv).running == (proxy.running
            && proxy.cfg.auto_reconnect),
{
}

/// Errors that do not concern the link: a failure of the configuration or of
/// the caller's channel stops the proxy and tells the caller nothing, and
/// being disconnected changes nothing.
pub proof fn lemma_fatal_and_transient_faults<SRCW: Message>(proxy: ProxyView<SRCW>, fault: Fault)
    requires
        !fault.is_connection_scoped(),
    ensures
        fault == Fault::Disconnected ==> proxy.failed(fault) == proxy,
        fault != Fault::Disconnected ==> proxy.failed(fault) == (ProxyView {
            running: false,
            ..proxy
        }),
{
}

/// Local-to-remote order: two of the caller's messages that the socket takes
/// leave in the order in which they were queued, one per round.
pub proof fn lemma_local_order_is_kept<SRCW: Message>(
    proxy: ProxyView<SRCW>,
    first: Nanos,
    second: Nanos,
)
    requires
        proxy.socket is Some,
        proxy.socket.unwrap().write_fault is None,
        proxy.inbound.len() >= 2,
        proxy.inbound[0].wire() is Some,
        proxy.inbound[1].wire() is Some,
    ensures
        proxy.local_fault() is None,
        proxy.local_done(first).local_fault() is None,
        proxy.local_done(first).local_done(second).socket.unwrap().outgoing
            == proxy.socket.unwrap().outgoing + crate::socket::frame_of(
            proxy.inbound[0].wire().unwrap(),
        ) + crate::socket::frame_of(proxy.inbound[1].wire().unwrap()),
        proxy.local_done(first).local_done(second).inbound == proxy.inbound.subrange(
            2,
            proxy.inbound.len() as int,
        ),
{
    let once = proxy.local_done(first);
    assert(once.inbound[0] == proxy.inbound[1]);
    assert(once.local_done(second).inbound =~= proxy.inbound.subrange(
        2,
        proxy.inbound.len() as int,
    ));
}

/// Remote-to-local order: a message that arrives joins the caller's queue
/// behind everything that waits there.
pub proof fn lemma_distant_order_is_kept<SRCW: Message>(
    proxy: ProxyView<SRCW>,
    header: Header,
    arrival: Arrival<SRCW>,
    now: Nanos,
)
    requires
        proxy.socket is Some,
        !arrival.is_exit,
    ensures
        proxy.arrival_fault(Ok(arrival)) is None,
        proxy.arrived(header, Ok(arrival), now).mailbox == proxy.mailbox.push(
            ProxyMessage::Forward(arrival.message),
        ),
        proxy.arrived(header, Ok(arrival), now).inbound == proxy.inbound,
        proxy.arrived(header, Ok(arrival), now).running == proxy.running,
{
}

/// What every round keeps, whatever arrives and whatever fails: the settings
/// and the canonical messages stay as they are, a proxy that has stopped
/// stays stopped and is left untouched, at most one of the caller's messages
/// leaves its queue, and the caller is told at most one thing, behind
/// everything that it was told before.
pub proof fn lemma_round_invariants<SRCW: Message>(
    proxy: ProxyView<SRCW>,
    parsed: Result<Arrival<SRCW>, String>,
    now: Nanos,
)
    ensures
        proxy.ticked(parsed, now).cfg == proxy.cfg,
        proxy.ticked(parsed, now).ping == proxy.ping,
        proxy.ticked(parsed, now).pong == proxy.pong,
        proxy.ticked(parsed, now).exit == proxy.exit,
        proxy.ticked(parsed, now).inbound_closed == proxy.inbound_closed,
        proxy.ticked(parsed, now).running ==> proxy.running,
        !proxy.running ==> proxy.ticked(parsed, now) == proxy,
        proxy.ticked(parsed, now).connected ==> proxy.connected,
        proxy.ticked(parsed, now).inbound == proxy.inbound || (proxy.inbound.len() > 0
            && proxy.ticked(parsed, now).inbound == proxy.inbound.subrange(
            1,
            proxy.inbound.len() as int,
        )),
        proxy.ticked(parsed, now).mailbox == proxy.mailbox || exists|told: ProxyMessage<SRCW>|
            #[trigger] proxy.mailbox.push(told) == proxy.ticked(parsed, now).mailbox,
{
    if proxy.step() == Step::Continue {
        let refreshed = proxy.refreshed(now);
        if refreshed.mailbox != proxy.mailbox {
            assert(proxy.mailbox.push(ProxyMessage::ConnectionResetError) == refreshed.mailbox);
            assert(refreshed.local_fault() == Some(Fault::Disconnected));
        } else {
            let forwarded = refreshed.local_done(now);
            match refreshed.local_fault() {
                Some(fault) => {
                    let ended = forwarded.failed(fault);
                    if ended.mailbox != proxy.mailbox {
                        assert(proxy.mailbox.push(ProxyMessage::ConnectionResetError)
                            == ended.mailbox);
                    }
                },
                None => {
                    let received = forwarded.distant_done(parsed, now);
                    let ended = match forwarded.distant_fault(parsed) {
                        Some(fault) => received.failed(fault),
                        None => received,
                    };
                    if ended.mailbox != proxy.mailbox {
                        if received.mailbox != forwarded.mailbox {
                            if forwarded.distant_fault(parsed) is None {
                                assert(proxy.mailbox.push(
                                    ProxyMessage::Forward(parsed->Ok_0.message),
                                ) == ended.mailbox);
                            } else {
                                assert(proxy.mailbox.push(ProxyMessage::ConnectionResetError)
                                    == ended.mailbox);
                            }
                        } else {
                            assert(proxy.mailbox.push(ProxyMessage::ConnectionResetError)
                                == ended.mailbox);
                        }
                    }
                },
            }
        }
    }
}

} // verus!
