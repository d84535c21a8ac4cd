use netproxy::message::{Arrival, Message, Packet};
use netproxy::proxy::config::ProxyConfig;
use netproxy::proxy::error::{Fault, ProxyError};
use netproxy::proxy::message::ProxyMessage;
use netproxy::proxy::{ConnectOutcome, Fetched, Proxy, Step};
use netproxy::socket::{Header, IoError, IoKind, Socket};
use netproxy::stats::config::{BpsConfig, RttConfig, StatConfig};

const SECOND: u64 = 1_000_000_000;

#[derive(Debug, Clone, PartialEq)]
enum Note {
    Text(String),
    Ping,
    Pong,
    Exit,
    Unspeakable,
}

impl Message for Note {
    fn is_exit(&self) -> bool {
        matches!(self, Note::Exit)
    }

    fn is_ping(&self) -> bool {
        matches!(self, Note::Ping)
    }

    fn is_pong(&self) -> bool {
        matches!(self, Note::Pong)
    }

    fn default_exit() -> Self {
        Note::Exit
    }

    fn default_ping() -> Self {
        Note::Ping
    }

    fn default_pong() -> Self {
        Note::Pong
    }

    fn to_bytes(&self) -> Result<Vec<u8>, String> {
        match self {
            Note::Text(text) => {
                let mut bytes = vec![0u8];
                bytes.extend_from_slice(text.as_bytes());
                Ok(bytes)
            }
            Note::Ping => Ok(vec![1u8]),
            Note::Pong => Ok(vec![2u8]),
            Note::Exit => Ok(vec![3u8]),
            Note::Unspeakable => Err("no wire form".to_string()),
        }
    }

    fn from_bytes(bytes: &[u8]) -> Result<Self, String> {
        match bytes.split_first() {
            Some((0, rest)) => String::from_utf8(rest.to_vec())
                .map(Note::Text)
                .map_err(|e| format!("{e}")),
            Some((1, [])) => Ok(Note::Ping),
            Some((2, [])) => Ok(Note::Pong),
            Some((3, [])) => Ok(Note::Exit),
            _ => Err("unknown tag".to_string()),
        }
    }
}

type Core = Proxy<Note, Note>;

fn text(content: &str) -> Note {
    Note::Text(content.to_string())
}

fn frame(message: &Note) -> Vec<u8> {
    let mut socket = Socket::<Note, Note>::new();
    socket.send(message.clone()).unwrap();
    socket.take_outgoing()
}

fn config(auto_reconnect: bool, keep: bool) -> ProxyConfig {
    ProxyConfig {
        run_tps: 10,
        stat_cfg: StatConfig::default(),
        keep_msg_while_disconnected: keep,
        auto_reconnect,
    }
}

fn with_stats(auto_reconnect: bool) -> ProxyConfig {
    ProxyConfig {
        run_tps: 10,
        stat_cfg: StatConfig {
            bps: BpsConfig { enabled: true },
            rtt: RttConfig {
                enabled: true,
                ping_request_delay: SECOND,
            },
        },
        keep_msg_while_disconnected: false,
        auto_reconnect,
    }
}

#[test]
fn a_new_proxy_runs_and_is_connected_where_a_connection_was_brought() {
    let proxy = Core::start_new(config(false, false), true, 0);
    assert!(proxy.is_running());
    assert!(proxy.is_connected());
    assert_eq!(proxy.next_step(), Step::Continue);
    assert_eq!(proxy.config().run_tps, 10);

    let proxy = Core::start_new(config(false, false), false, 0);
    assert!(proxy.is_running());
    assert!(!proxy.is_connected());
    assert_eq!(proxy.next_step(), Step::Stop);

    let proxy = Core::start_new(config(true, false), false, 0);
    assert_eq!(proxy.next_step(), Step::Connect);
}

#[test]
fn a_round_forwards_one_message_in_each_direction() {
    let mut proxy = Core::start_new(config(false, false), true, 0);
    proxy.accept_local(text("up 1"));
    proxy.accept_local(text("up 2"));
    let mut arriving = frame(&text("down 1"));
    arriving.extend(frame(&text("down 2")));
    proxy.feed(&arriving);

    assert_eq!(proxy.tick(1), Step::Continue);
    assert_eq!(proxy.take_outgoing(), frame(&text("up 1")));
    assert_eq!(
        proxy.take_mailbox(),
        vec![ProxyMessage::Forward(text("down 1"))]
    );

    assert_eq!(proxy.tick(2), Step::Continue);
    assert_eq!(proxy.take_outgoing(), frame(&text("up 2")));
    assert_eq!(
        proxy.take_mailbox(),
        vec![ProxyMessage::Forward(text("down 2"))]
    );

    assert_eq!(proxy.tick(3), Step::Continue);
    assert!(proxy.take_outgoing().is_empty());
    assert!(proxy.take_mailbox().is_empty());
    assert!(proxy.is_running() && proxy.is_connected());
}

#[test]
fn with_auto_reconnect_a_send_failure_resets_the_connection_once() {
    let mut proxy = Core::start_new(config(true, false), true, 0);
    proxy.fail_writes(IoError::new(IoKind::ConnectionReset));
    proxy.accept_local(text("lost"));
    assert_eq!(proxy.tick(1), Step::Continue);
    assert_eq!(
        proxy.take_mailbox(),
        vec![ProxyMessage::ConnectionResetError]
    );
    assert!(proxy.is_running());
    assert!(!proxy.is_connected());
    assert_eq!(proxy.tick(2), Step::Connect);
    assert!(proxy.take_mailbox().is_empty());
}

#[test]
fn with_auto_reconnect_a_receive_failure_resets_the_connection_once() {
    let mut proxy = Core::start_new(config(true, false), true, 0);
    proxy.fail_reads(IoError::new(IoKind::ConnectionReset));
    assert_eq!(proxy.tick(1), Step::Continue);
    assert_eq!(
        proxy.take_mailbox(),
        vec![ProxyMessage::ConnectionResetError]
    );
    assert!(proxy.is_running());
    assert!(!proxy.is_connected());
    assert_eq!(proxy.next_step(), Step::Connect);
    // The exit message is what the dropped link should still carry.
    assert_eq!(proxy.take_parting(), frame(&Note::Exit));
}

#[test]
fn without_auto_reconnect_a_send_failure_stops_the_proxy_with_one_exit() {
    let mut proxy = Core::start_new(config(false, false), true, 0);
    proxy.fail_writes(IoError::new(IoKind::Other));
    proxy.accept_local(text("lost"));
    assert_eq!(proxy.tick(1), Step::Continue);
    assert!(!proxy.is_running());
    assert!(proxy.take_mailbox().is_empty());
    assert_eq!(proxy.tick(2), Step::Stop);
    proxy.shutdown();
    assert_eq!(proxy.take_mailbox(), vec![ProxyMessage::Exit]);
    assert!(!proxy.is_running());
    assert!(!proxy.is_connected());
}

#[test]
fn without_auto_reconnect_a_receive_failure_stops_the_proxy_with_one_exit() {
    let mut proxy = Core::start_new(config(false, false), true, 0);
    proxy.fail_reads(IoError::new(IoKind::ConnectionReset));
    assert_eq!(proxy.tick(1), Step::Continue);
    assert!(!proxy.is_running());
    assert_eq!(proxy.tick(2), Step::Stop);
    proxy.shutdown();
    let told = proxy.take_mailbox();
    assert_eq!(
        told.iter().filter(|m| **m == ProxyMessage::Exit).count(),
        1
    );
    assert_eq!(told.last(), Some(&ProxyMessage::Exit));
}

#[test]
fn the_error_policy_tells_the_kinds_of_failure_apart() {
    for error in [
        ProxyError::Config("c".to_string()),
        ProxyError::ChannelSend("s".to_string()),
        ProxyError::ChannelRecv("r".to_string()),
    ] {
        let mut proxy = Core::start_new(config(true, false), true, 0);
        proxy.handle_error(error);
        assert!(!proxy.is_running());
        assert!(proxy.is_connected());
        assert!(proxy.take_mailbox().is_empty());
    }

    let mut proxy = Core::start_new(config(true, false), true, 0);
    proxy.handle_error(ProxyError::Disconnected);
    assert!(proxy.is_running() && proxy.is_connected());

    let mut proxy = Core::start_new(config(true, false), true, 0);
    proxy.handle_error(ProxyError::SocketRecv("x".to_string()));
    proxy.handle_error(ProxyError::SocketSend("x".to_string()));
    assert!(proxy.is_running());
    assert!(!proxy.is_connected());
    assert_eq!(
        proxy.take_mailbox(),
        vec![ProxyMessage::ConnectionResetError]
    );

    let mut proxy = Core::start_new(config(false, false), true, 0);
    proxy.handle_error(ProxyError::SocketRecv("x".to_string()));
    assert!(!proxy.is_running());
    assert!(proxy.take_mailbox().is_empty());

    assert_eq!(ProxyError::Config("c".to_string()).fault(), Fault::Config);
    assert_eq!(ProxyError::Disconnected.fault(), Fault::Disconnected);
    assert!(Fault::SocketSend.is_connection_scoped());
    assert!(Fault::SocketRecv.is_connection_scoped());
    assert!(!Fault::ChannelRecv.is_connection_scoped());
    assert_eq!(
        ProxyError::Config("bad".to_string()).describe(),
        "Config error: bad"
    );
    assert_eq!(ProxyError::Disconnected.describe(), "Proxy is disconnected");
    assert_eq!(ProxyError::SocketSend("why".to_string()).describe(), "why");
}

#[test]
fn reconnecting_discards_the_backlog_unless_it_is_kept() {
    let mut proxy = Core::start_new(config(true, false), false, 0);
    proxy.accept_local(text("stale"));
    assert_eq!(proxy.tick(1), Step::Connect);
    proxy.try_connect(ConnectOutcome::Refused).unwrap();
    assert!(!proxy.is_connected());
    assert_eq!(proxy.tick(2), Step::Connect);
    proxy.try_connect(ConnectOutcome::Connected).unwrap();
    assert!(proxy.is_connected());
    assert_eq!(proxy.tick(3), Step::Continue);
    assert!(proxy.take_outgoing().is_empty());

    let mut proxy = Core::start_new(config(true, true), false, 0);
    proxy.accept_local(text("kept"));
    proxy.try_connect(ConnectOutcome::Connected).unwrap();
    assert_eq!(proxy.tick(1), Step::Continue);
    assert_eq!(proxy.take_outgoing(), frame(&text("kept")));
}

#[test]
fn a_connection_that_cannot_be_set_up_is_a_configuration_error() {
    let mut proxy = Core::start_new(config(true, false), false, 0);
    let error = proxy
        .try_connect(ConnectOutcome::Unconfigurable("no non-blocking mode".to_string()))
        .unwrap_err();
    assert_eq!(error, ProxyError::Config("no non-blocking mode".to_string()));
    assert!(!proxy.is_connected());
    proxy.handle_error(error);
    assert!(!proxy.is_running());
    assert_eq!(proxy.next_step(), Step::Stop);
}

#[test]
fn a_caller_that_has_gone_stops_the_proxy_after_its_backlog() {
    let mut proxy = Core::start_new(config(true, false), true, 0);
    proxy.accept_local(text("last words"));
    proxy.close_local();
    assert_eq!(proxy.tick(1), Step::Continue);
    assert!(proxy.is_running());
    assert_eq!(proxy.take_outgoing(), frame(&text("last words")));
    assert_eq!(proxy.tick(2), Step::Continue);
    assert!(!proxy.is_running());
    assert_eq!(proxy.tick(3), Step::Stop);
}

#[test]
fn an_exit_message_from_the_peer_is_not_forwarded() {
    let mut proxy = Core::start_new(config(true, false), true, 0);
    proxy.feed(&frame(&Note::Exit));
    assert_eq!(
        proxy.handle_distant(1),
        Err(ProxyError::Disconnected)
    );
    assert!(proxy.take_mailbox().is_empty());
    assert!(proxy.is_running() && proxy.is_connected());
}

#[test]
fn a_payload_that_is_no_message_drops_the_link() {
    let mut proxy = Core::start_new(config(true, false), true, 0);
    proxy.feed(&[1, 0, 0, 0, 0, 0, 0, 0, 77]);
    assert!(matches!(
        proxy.handle_distant(1),
        Err(ProxyError::SocketRecv(_))
    ));
    assert_eq!(
        proxy.take_mailbox(),
        vec![ProxyMessage::ConnectionResetError]
    );
    assert!(!proxy.is_connected());
    assert_eq!(proxy.handle_distant(2), Err(ProxyError::Disconnected));
    assert_eq!(proxy.handle_local(2), Err(ProxyError::Disconnected));
}

#[test]
fn local_forwarding_reports_what_went_wrong() {
    let mut proxy = Core::start_new(config(true, false), true, 0);
    assert_eq!(proxy.handle_local(1), Ok(()));
    proxy.accept_local(Note::Unspeakable);
    assert!(matches!(
        proxy.handle_local(2),
        Err(ProxyError::SocketSend(_))
    ));
    proxy.accept_packet(Packet::of(&text("fine")));
    assert_eq!(proxy.handle_local(3), Ok(()));
    assert_eq!(proxy.take_outgoing(), frame(&text("fine")));
    proxy.close_local();
    assert!(matches!(
        proxy.handle_local(4),
        Err(ProxyError::ChannelRecv(_))
    ));
}

#[test]
fn the_steps_of_receiving_can_be_taken_one_by_one() {
    let mut proxy = Core::start_new(config(true, false), true, 0);
    assert!(matches!(proxy.fetch(), Fetched::Idle));
    proxy.feed(&frame(&text("piece")));
    let (header, payload) = match proxy.fetch() {
        Fetched::Payload(header, payload) => (header, payload),
        _ => panic!("a payload was expected"),
    };
    assert_eq!(header, Header::new(6));
    let parsed = Note::from_bytes(&payload).map(Arrival::of);
    assert_eq!(proxy.handle_arrival(header, parsed, 5), Ok(()));
    assert_eq!(
        proxy.take_mailbox(),
        vec![ProxyMessage::Forward(text("piece"))]
    );
    proxy.fail_reads(IoError::new(IoKind::Other));
    assert!(matches!(proxy.fetch(), Fetched::Broken(_)));
    proxy.reset_connection();
    assert!(matches!(proxy.fetch(), Fetched::NoLink));
    assert_eq!(
        proxy.handle_arrival(header, Err("late".to_string()), 6),
        Err(ProxyError::Disconnected)
    );
}

#[test]
fn the_proxy_pings_answers_pings_and_measures_the_round_trip() {
    let mut proxy = Core::start_new(with_stats(true), true, 0);
    assert_eq!(proxy.tick(SECOND + 1), Step::Continue);
    assert_eq!(proxy.take_outgoing(), frame(&Note::Ping));
    assert_eq!(proxy.stats().total_sent(), 9);

    proxy.feed(&frame(&Note::Pong));
    assert_eq!(proxy.tick(SECOND + 251), Step::Continue);
    assert_eq!(proxy.stats().get_rtt(), 250);
    assert_eq!(proxy.stats().total_received(), 1);
    assert_eq!(
        proxy.take_mailbox(),
        vec![ProxyMessage::Forward(Note::Pong)]
    );

    proxy.feed(&frame(&Note::Ping));
    assert_eq!(proxy.tick(SECOND + 300), Step::Continue);
    assert_eq!(proxy.take_outgoing(), frame(&Note::Pong));
    assert_eq!(
        proxy.take_mailbox(),
        vec![ProxyMessage::Forward(Note::Ping)]
    );
    assert_eq!(proxy.stats().total_sent(), 18);
    assert_eq!(proxy.stats().sent_last_10_sec(), 18);
}

#[test]
fn a_refused_ping_is_a_failure_to_send() {
    let mut proxy = Core::start_new(with_stats(true), true, 0);
    proxy.fail_writes(IoError::new(IoKind::ConnectionReset));
    proxy.refresh(2 * SECOND);
    assert!(!proxy.is_connected());
    assert_eq!(
        proxy.take_mailbox(),
        vec![ProxyMessage::ConnectionResetError]
    );
}

#[test]
fn shutdown_tells_the_caller_and_drops_the_link() {
    let mut proxy = Core::start_new(config(true, false), true, 0);
    proxy.accept_local(text("unsent"));
    proxy.handle_local(1).unwrap();
    proxy.shutdown();
    assert!(!proxy.is_running());
    assert!(!proxy.is_connected());
    assert_eq!(proxy.take_mailbox(), vec![ProxyMessage::Exit]);
    let mut expected = frame(&text("unsent"));
    expected.extend(frame(&Note::Exit));
    assert_eq!(proxy.take_parting(), expected);
    assert!(proxy.take_parting().is_empty());
    assert_eq!(proxy.tick(2), Step::Stop);
}

#[test]
fn the_caller_talks_to_the_proxy_through_its_channel() {
    let (proxy_end, caller_end) = netproxy::channel::Channel::<ProxyMessage<Note>, Note>::new_pair();
    let mut proxy = Core::start_new(config(true, false), true, 0);

    caller_end.send(text("Hi")).unwrap();
    caller_end.send(text("again")).unwrap();
    assert!(proxy.receive_local(&proxy_end));
    assert!(proxy.receive_local(&proxy_end));
    assert!(!proxy.receive_local(&proxy_end));
    proxy.feed(&frame(&text("welcome")));
    assert_eq!(proxy.tick(1), Step::Continue);
    proxy.hand_over(&proxy_end);
    assert_eq!(proxy.take_outgoing(), frame(&text("Hi")));
    assert_eq!(
        caller_end.try_recv(),
        Ok(ProxyMessage::Forward(text("welcome")))
    );
    assert!(caller_end.try_recv().is_err());

    // A failure of the link is announced to the caller exactly once.
    proxy.fail_reads(IoError::new(IoKind::ConnectionReset));
    assert_eq!(proxy.tick(2), Step::Continue);
    proxy.hand_over(&proxy_end);
    assert_eq!(
        caller_end.try_recv(),
        Ok(ProxyMessage::ConnectionResetError)
    );
    assert!(caller_end.try_recv().is_err());
    assert!(proxy.is_running());

    // A caller that has gone stops the proxy.
    drop(caller_end);
    assert!(!proxy.receive_local(&proxy_end));
    proxy.shutdown();
    proxy.hand_over(&proxy_end);
    assert!(!proxy.is_running());
    assert!(proxy.take_mailbox().is_empty());
}

#[test]
fn a_caller_that_no_longer_listens_stops_the_proxy() {
    let (proxy_end, caller_end) = netproxy::channel::Channel::<ProxyMessage<Note>, Note>::new_pair();
    let mut proxy = Core::start_new(config(true, false), true, 0);
    proxy.feed(&frame(&text("unheard")));
    assert_eq!(proxy.tick(1), Step::Continue);
    drop(caller_end);
    assert!(proxy.is_running());
    proxy.hand_over(&proxy_end);
    assert!(!proxy.is_running());
    assert!(proxy.take_mailbox().is_empty());

    let mut proxy = Core::start_new(config(true, false), true, 0);
    proxy.note_handed(Ok(()));
    assert!(proxy.is_running());
    proxy.note_handed(Err("sending on a closed channel".to_string()));
    assert!(!proxy.is_running());
}

#[test]
fn events_of_the_channel_are_taken_note_of() {
    let mut proxy = Core::start_new(config(true, false), true, 0);
    assert!(!proxy.accept_event(netproxy::channel::Received::Nothing(
        netproxy::channel::Lull::Empty
    )));
    assert_eq!(proxy.handle_local(1), Ok(()));
    assert!(proxy.accept_event(netproxy::channel::Received::Message(text("queued"))));
    assert!(!proxy.accept_event(netproxy::channel::Received::Nothing(
        netproxy::channel::Lull::Disconnected,
    )));
    assert_eq!(proxy.handle_local(2), Ok(()));
    assert_eq!(proxy.take_outgoing(), frame(&text("queued")));
    assert!(matches!(
        proxy.handle_local(3),
        Err(ProxyError::ChannelRecv(_))
    ));
}

#[test]
fn a_failed_write_is_a_failure_to_send() {
    let mut proxy = Core::start_new(config(true, false), true, 0);
    assert!(proxy.has_link());
    proxy.note_written(Ok(()));
    assert!(proxy.has_link() && proxy.is_running());
    proxy.note_written(Err(IoError::new(IoKind::ConnectionReset)));
    assert!(!proxy.has_link());
    assert!(proxy.is_running());
    assert_eq!(
        proxy.take_mailbox(),
        vec![ProxyMessage::ConnectionResetError]
    );
    // The link is gone: nothing is left to carry parting bytes.
    assert!(proxy.take_parting().is_empty());

    let mut proxy = Core::start_new(config(false, false), true, 0);
    proxy.note_written(Err(IoError::new(IoKind::Other)));
    assert!(!proxy.is_running());
    assert!(proxy.has_link());
    assert!(proxy.take_mailbox().is_empty());
}

#[test]
fn handing_over_sends_every_message_in_order() {
    let (proxy_end, caller_end) = netproxy::channel::Channel::<ProxyMessage<Note>, Note>::new_pair();
    let mut proxy = Core::start_new(config(true, false), true, 0);
    let mut arriving = frame(&text("first"));
    arriving.extend(frame(&text("second")));
    proxy.feed(&arriving);
    assert_eq!(proxy.handle_distant(1), Ok(()));
    assert_eq!(proxy.handle_distant(2), Ok(()));
    proxy.fail_reads(IoError::new(IoKind::ConnectionReset));
    assert!(matches!(
        proxy.handle_distant(3),
        Err(ProxyError::SocketRecv(_))
    ));
    proxy.hand_over(&proxy_end);
    assert!(proxy.is_running());
    assert_eq!(
        caller_end.try_recv(),
        Ok(ProxyMessage::Forward(text("first")))
    );
    assert_eq!(
        caller_end.try_recv(),
        Ok(ProxyMessage::Forward(text("second")))
    );
    assert_eq!(
        caller_end.try_recv(),
        Ok(ProxyMessage::ConnectionResetError)
    );
    assert!(caller_end.try_recv().is_err());

    // With nothing to hand over, a caller that has gone goes unnoticed.
    drop(caller_end);
    proxy.hand_over(&proxy_end);
    assert!(proxy.is_running());
}

#[test]
fn a_broken_link_is_fetched_with_the_transport_s_failure() {
    let mut proxy = Core::start_new(config(true, false), true, 0);
    proxy.fail_reads(IoError::new(IoKind::ConnectionReset));
    match proxy.fetch() {
        Fetched::Broken(netproxy::socket::SocketError::StreamRead(e)) => {
            assert_eq!(e, IoError::new(IoKind::ConnectionReset))
        }
        _ => panic!("a broken link was expected"),
    }
}

#[test]
fn a_new_proxy_uses_the_canonical_messages_of_its_type() {
    let mut proxy = Core::start_new(with_stats(true), true, 0);
    proxy.refresh(SECOND + 1);
    assert_eq!(proxy.take_outgoing(), frame(&Note::Ping));
    proxy.feed(&frame(&Note::Ping));
    assert_eq!(proxy.handle_distant(SECOND + 2), Ok(()));
    assert_eq!(proxy.take_outgoing(), frame(&Note::Pong));
    proxy.reset_connection();
    assert_eq!(proxy.take_parting(), frame(&Note::Exit));
}
