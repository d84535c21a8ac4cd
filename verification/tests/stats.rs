use netproxy::message::{Message, Packet};
use netproxy::socket::{Header, IoError, IoKind, Socket, HEADER_SIZE};
use netproxy::stats::bps::Bps;
use netproxy::stats::config::{BpsConfig, RttConfig, StatConfig};
use netproxy::stats::rtt::Rtt;
use netproxy::stats::NetworkStats;
use netproxy::time::Stopwatch;

const SECOND: u64 = 1_000_000_000;

#[derive(Debug, PartialEq, Clone)]
pub enum ClientMessage {
    Text(String),
    Ping,
    Pong,
}

#[derive(Debug, PartialEq, Clone)]
pub enum ServerMessage {
    Text(String),
    Ping,
    Pong,
}

fn encode(tag: u8, text: &str) -> Result<Vec<u8>, String> {
    let mut bytes = vec![tag];
    bytes.extend_from_slice(text.as_bytes());
    Ok(bytes)
}

impl Message for ClientMessage {
    fn is_ping(&self) -> bool {
        matches!(self, Self::Ping)
    }

    fn is_pong(&self) -> bool {
        matches!(self, Self::Pong)
    }

    fn default_exit() -> Self {
        Self::Text("exit".to_string())
    }

    fn default_ping() -> Self {
        Self::Ping
    }

    fn default_pong() -> Self {
        Self::Pong
    }

    fn to_bytes(&self) -> Result<Vec<u8>, String> {
        match self {
            Self::Text(text) => encode(0, text),
            Self::Ping => encode(1, ""),
            Self::Pong => encode(2, ""),
        }
    }

    fn from_bytes(bytes: &[u8]) -> Result<Self, String> {
        match bytes.split_first() {
            Some((0, rest)) => Ok(Self::Text(String::from_utf8_lossy(rest).into_owned())),
            Some((1, _)) => Ok(Self::Ping),
            Some((2, _)) => Ok(Self::Pong),
            _ => Err("unknown tag".to_string()),
        }
    }
}

impl Message for ServerMessage {
    fn is_ping(&self) -> bool {
        matches!(self, Self::Ping)
    }

    fn is_pong(&self) -> bool {
        matches!(self, Self::Pong)
    }

    fn default_exit() -> Self {
        Self::Text("exit".to_string())
    }

    fn default_ping() -> Self {
        Self::Ping
    }

    fn default_pong() -> Self {
        Self::Pong
    }

    fn to_bytes(&self) -> Result<Vec<u8>, String> {
        match self {
            Self::Text(text) => encode(0, text),
            Self::Ping => encode(1, ""),
            Self::Pong => encode(2, ""),
        }
    }

    fn from_bytes(bytes: &[u8]) -> Result<Self, String> {
        match bytes.split_first() {
            Some((0, rest)) => Ok(Self::Text(String::from_utf8_lossy(rest).into_owned())),
            Some((1, _)) => Ok(Self::Ping),
            Some((2, _)) => Ok(Self::Pong),
            _ => Err("unknown tag".to_string()),
        }
    }
}

pub struct Testing<R: Message, W: Message> {
    s: NetworkStats<R, W>,
}

impl<R: Message, W: Message> Testing<R, W> {
    fn new() -> Self {
        Self {
            s: NetworkStats::<R, W>::new(StatConfig::default(), 0),
        }
    }
}

type Stats = NetworkStats<ServerMessage, ClientMessage>;
type Link = Socket<ServerMessage, ClientMessage>;

fn all_enabled(delay: u64) -> StatConfig {
    StatConfig {
        bps: BpsConfig { enabled: true },
        rtt: RttConfig {
            enabled: true,
            ping_request_delay: delay,
        },
    }
}

#[test]
fn testing() {
    let _t = Testing::<ServerMessage, ClientMessage>::new();
}

#[test]
fn default_configuration_tracks_nothing() {
    assert_eq!(BpsConfig::default(), BpsConfig { enabled: false });
    assert_eq!(
        RttConfig::default(),
        RttConfig {
            enabled: false,
            ping_request_delay: SECOND
        }
    );
    let t = Testing::<ServerMessage, ClientMessage>::new();
    let mut stats = t.s;
    stats.on_bytes_send(&Header::new(100));
    stats.on_bytes_recv(&Header::new(100));
    stats.set_rtt(5);
    assert_eq!(stats.total_sent(), 0);
    assert_eq!(stats.total_received(), 0);
    assert_eq!(stats.sent_last_10_sec(), 0);
    assert_eq!(stats.received_last_10_sec(), 0);
    assert_eq!(stats.bps_sent_last_10_sec(), 0);
    assert_eq!(stats.bps_received_last_10_sec(), 0);
    assert_eq!(stats.get_rtt(), 0);
    let mut untracked = Stats::default();
    untracked.on_bytes_send(&Header::new(1));
    assert_eq!(untracked.total_sent(), 0);
}

#[test]
fn sent_bytes_count_the_header_and_received_bytes_do_not() {
    let mut bps = Bps::new(BpsConfig { enabled: true }, 0);
    assert!(bps.enabled());
    bps.on_bytes_send(&Header::new(100));
    bps.on_bytes_recv(&Header::new(100));
    assert_eq!(bps.total_sent(), 100 + HEADER_SIZE);
    assert_eq!(bps.total_received(), 100);
    assert_eq!(bps.sent_last_10_sec(), 108);
    assert_eq!(bps.received_last_10_sec(), 100);
    assert_eq!(bps.bps_sent_last_10_sec(), 10);
    assert_eq!(bps.bps_received_last_10_sec(), 10);
}

#[test]
fn the_window_sums_the_ticks_of_the_last_ten_seconds() {
    let mut bps = Bps::new(BpsConfig { enabled: true }, 0);
    bps.on_bytes_recv(&Header::new(1_000));
    bps.update(4 * SECOND);
    bps.on_bytes_recv(&Header::new(500));
    bps.update(8 * SECOND);
    assert_eq!(bps.received_last_10_sec(), 1_500);
    assert_eq!(bps.bps_received_last_10_sec(), 150);
    bps.update(10 * SECOND);
    assert_eq!(bps.received_last_10_sec(), 1_500);
    bps.update(10 * SECOND + 1);
    assert_eq!(bps.received_last_10_sec(), 500);
    bps.update(14 * SECOND + 1);
    assert_eq!(bps.received_last_10_sec(), 0);
    assert_eq!(bps.total_received(), 1_500);
}

#[test]
fn traffic_older_than_ten_seconds_leaves_the_window() {
    let mut bps = Bps::new(BpsConfig { enabled: true }, 0);
    bps.on_bytes_send(&Header::new(4_000));
    bps.on_bytes_recv(&Header::new(2_000));
    assert_eq!(bps.sent_last_10_sec(), 4_008);
    bps.update(11 * SECOND);
    bps.on_bytes_send(&Header::new(92));
    assert_eq!(bps.sent_last_10_sec(), 100);
    assert_eq!(bps.bps_sent_last_10_sec(), 10);
    assert_eq!(bps.received_last_10_sec(), 0);
    assert_eq!(bps.bps_received_last_10_sec(), 0);
    assert_eq!(bps.total_sent(), 4_108);
    assert_eq!(bps.total_received(), 2_000);
}

#[test]
fn byte_counts_stop_at_the_largest_value() {
    let mut bps = Bps::new(BpsConfig { enabled: true }, 0);
    bps.on_bytes_recv(&Header::new(u64::MAX - 1));
    bps.on_bytes_recv(&Header::new(5));
    assert_eq!(bps.total_received(), u64::MAX);
    bps.update(1);
    bps.on_bytes_recv(&Header::new(7));
    assert_eq!(bps.received_last_10_sec(), u64::MAX);
    bps.on_bytes_send(&Header::new(u64::MAX));
    assert_eq!(bps.total_sent(), u64::MAX);
    let copy = bps.clone();
    assert_eq!(copy.total_sent(), u64::MAX);
    assert_eq!(copy.received_last_10_sec(), u64::MAX);
}

#[test]
fn a_ping_is_due_only_after_the_delay_and_with_none_under_way() {
    let cfg = RttConfig {
        enabled: true,
        ping_request_delay: SECOND,
    };
    let mut rtt = Rtt::new(cfg, 100);
    assert_eq!(rtt.get(), 0);
    assert!(!rtt.needs_ping(100));
    assert!(!rtt.needs_ping(100 + SECOND));
    assert!(rtt.needs_ping(101 + SECOND));
    assert!(!rtt.needs_ping(50));
    rtt.ping_request_stopwatch = Some(Stopwatch::start_new(101 + SECOND));
    assert!(!rtt.needs_ping(5 * SECOND));
    rtt.set(42);
    assert_eq!(rtt.get(), 42);

    let disabled = Rtt::new(
        RttConfig {
            enabled: false,
            ping_request_delay: 0,
        },
        0,
    );
    assert!(!disabled.needs_ping(10 * SECOND));
}

#[test]
fn an_unanswered_ping_leaves_the_round_trip_time_unchanged() {
    let mut stats = Stats::new(all_enabled(SECOND), 0);
    stats.set_rtt(77);
    stats.on_msg_send(&ClientMessage::Ping, 2 * SECOND);
    assert_eq!(stats.get_rtt(), 77);
    stats.on_msg_send(&ClientMessage::Text("x".to_string()), 3 * SECOND);
    assert_eq!(stats.get_rtt(), 77);
}

#[test]
fn a_pong_after_a_ping_measures_the_round_trip() {
    let mut stats = Stats::new(all_enabled(SECOND), 0);
    let mut socket = Link::new();
    stats.on_msg_send(&ClientMessage::Ping, 2 * SECOND);
    stats.on_msg_recv(&ServerMessage::Pong, &mut socket, 2 * SECOND + 1_500);
    assert_eq!(stats.get_rtt(), 1_500);
    assert!(socket.take_outgoing().is_empty());

    // The pending ping is cleared: a second pong changes nothing, and a new
    // ping becomes due once the delay has passed since the pong.
    stats.on_msg_recv(&ServerMessage::Pong, &mut socket, 9 * SECOND);
    assert_eq!(stats.get_rtt(), 1_500);
    stats.update(&mut socket, 3 * SECOND).unwrap();
    assert!(socket.take_outgoing().is_empty());
    stats.update(&mut socket, 3 * SECOND + 1_501).unwrap();
    assert_eq!(socket.take_outgoing(), vec![1, 0, 0, 0, 0, 0, 0, 0, 1]);
    stats.on_msg_recv(&ServerMessage::Pong, &mut socket, 3 * SECOND + 2_000);
    assert_eq!(stats.get_rtt(), 499);
}

#[test]
fn a_pong_without_a_ping_is_ignored() {
    let mut stats = Stats::new(all_enabled(SECOND), 0);
    let mut socket = Link::new();
    stats.on_msg_recv(&ServerMessage::Pong, &mut socket, 5 * SECOND);
    assert_eq!(stats.get_rtt(), 0);
    stats.on_msg_recv(&ServerMessage::Text("hi".to_string()), &mut socket, 5 * SECOND);
    assert_eq!(stats.get_rtt(), 0);
    assert!(socket.take_outgoing().is_empty());
}

#[test]
fn a_ping_from_the_peer_is_answered_with_a_pong() {
    let mut stats = Stats::new(all_enabled(SECOND), 0);
    let mut socket = Link::new();
    stats.on_msg_recv(&ServerMessage::Ping, &mut socket, 10);
    assert_eq!(socket.take_outgoing(), vec![1, 0, 0, 0, 0, 0, 0, 0, 2]);
    assert_eq!(stats.total_sent(), 9);

    // A socket that refuses the pong is no error, and nothing is counted.
    socket.fail_writes(IoError::new(IoKind::ConnectionReset));
    stats.on_msg_recv(&ServerMessage::Ping, &mut socket, 20);
    assert!(socket.take_outgoing().is_empty());
    assert_eq!(stats.total_sent(), 9);
}

#[test]
fn update_sends_a_ping_when_one_is_due() {
    let mut stats = Stats::new(all_enabled(SECOND), 0);
    let mut socket = Link::new();
    stats.update(&mut socket, SECOND).unwrap();
    assert!(socket.take_outgoing().is_empty());
    stats.update(&mut socket, SECOND + 1).unwrap();
    assert_eq!(socket.take_outgoing(), vec![1, 0, 0, 0, 0, 0, 0, 0, 1]);
    assert_eq!(stats.total_sent(), 9);
    // The ping is under way: no second one.
    stats.update(&mut socket, 5 * SECOND).unwrap();
    assert!(socket.take_outgoing().is_empty());
    // What was counted in the tick of the ping is still in the window.
    assert_eq!(stats.sent_last_10_sec(), 9);
    stats.update(&mut socket, 12 * SECOND).unwrap();
    assert_eq!(stats.sent_last_10_sec(), 0);
}

#[test]
fn update_fails_when_the_socket_refuses_the_ping() {
    let mut stats = Stats::new(all_enabled(SECOND), 0);
    let mut socket = Link::new();
    socket.fail_writes(IoError::new(IoKind::Other));
    assert!(stats.update(&mut socket, 2 * SECOND).is_err());
    assert_eq!(stats.total_sent(), 0);
    // The stopwatch of the refused ping runs: no new ping is due.
    assert!(stats.update_rtt(&mut socket, 20 * SECOND).is_ok());
}

#[test]
fn plain_value_calls_do_what_the_message_level_ones_do() {
    let mut stats = Stats::new(all_enabled(SECOND), 0);
    let mut socket = Link::new();
    let probe = Packet::of(&ClientMessage::Ping);
    let answer = Packet::of(&ClientMessage::Pong);
    stats.update_rtt_with(&probe, &mut socket, 2 * SECOND).unwrap();
    assert_eq!(socket.take_outgoing().len(), 9);
    stats.on_arrival(false, true, &answer, &mut socket, 2 * SECOND + 30);
    assert_eq!(stats.get_rtt(), 30);
    stats.on_arrival(true, false, &answer, &mut socket, 2 * SECOND + 40);
    assert_eq!(socket.take_outgoing(), vec![1, 0, 0, 0, 0, 0, 0, 0, 2]);
    let header = stats
        .send_noted(Packet::of(&ClientMessage::Text("abc".to_string())), &mut socket, 50)
        .unwrap();
    assert_eq!(header, Header::new(4));
    assert_eq!(stats.total_sent(), 9 + 9 + 12);
    stats.note_sent(true, 3 * SECOND);
    stats.update_with(&probe, &mut socket, 30 * SECOND).unwrap();
    assert!(socket.take_outgoing().len() == 12);
    let copy = stats.clone();
    assert_eq!(copy.total_sent(), 30);
    assert_eq!(copy.get_rtt(), 30);
}
