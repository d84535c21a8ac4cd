use netproxy::channel::Channel;
use std::sync::mpsc::{RecvTimeoutError, TryRecvError};
use std::time::Duration;

#[test]
fn what_one_end_sends_the_other_receives() {
    let (first, second) = Channel::<u32, String>::new_pair();
    first.send(7).unwrap();
    first.send(8).unwrap();
    second.send("reply".to_string()).unwrap();
    assert_eq!(second.recv(), Ok(7));
    assert_eq!(second.try_recv(), Ok(8));
    assert_eq!(second.try_recv(), Err(TryRecvError::Empty));
    assert_eq!(first.recv(), Ok("reply".to_string()));
    assert_eq!(
        first.recv_timeout(Duration::from_millis(5)),
        Err(RecvTimeoutError::Timeout)
    );
}

#[test]
fn an_end_notices_that_the_other_has_gone() {
    let (first, second) = Channel::<u32, String>::new_pair();
    first.send(1).unwrap();
    drop(first);
    assert_eq!(second.try_recv(), Ok(1));
    assert_eq!(second.try_recv(), Err(TryRecvError::Disconnected));
    assert!(second.recv().is_err());
    assert!(second.send("nobody listens".to_string()).is_err());
    assert_eq!(
        second.recv_timeout(Duration::from_millis(5)),
        Err(RecvTimeoutError::Disconnected)
    );
}

#[test]
fn a_look_says_what_waits_and_why_nothing_does() {
    let (first, second) = Channel::<u32, String>::new_pair();
    assert!(matches!(
        second.look(),
        netproxy::channel::Received::Nothing(netproxy::channel::Lull::Empty)
    ));
    first.send(3).unwrap();
    assert!(matches!(
        second.look(),
        netproxy::channel::Received::Message(3)
    ));
    assert_eq!(second.send_or_describe("heard".to_string()), Ok(()));
    drop(first);
    assert!(matches!(
        second.look(),
        netproxy::channel::Received::Nothing(netproxy::channel::Lull::Disconnected)
    ));
    assert_eq!(
        second.send_or_describe("unheard".to_string()),
        Err("sending on a closed channel".to_string())
    );
}
