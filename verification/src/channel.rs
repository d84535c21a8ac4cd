use core::time::Duration;
use std::sync::mpsc::Receiver;
use std::sync::mpsc::RecvError;
use std::sync::mpsc::RecvTimeoutError;
use std::sync::mpsc::SendError;
use std::sync::mpsc::Sender;
use std::sync::mpsc::TryRecvError;
use vstd::prelude::*;

verus! {

/// The sending half of a standard channel.
#[verifier::external_type_specification]
#[verifier::external_body]
#[verifier::reject_recursive_types(T)]
pub struct ExSender<T>(Sender<T>);

/// The receiving half of a standard channel.
#[verifier::external_type_specification]
#[verifier::external_body]
#[verifier::reject_recursive_types(T)]
pub struct ExReceiver<T>(Receiver<T>);

/// The error of a send whose receiver has gone; it holds the message.
#[verifier::external_type_specification]
#[verifier::external_body]
#[verifier::reject_recursive_types(T)]
pub struct ExSendError<T>(SendError<T>);

/// The error of a receive whose sender has gone.
#[verifier::external_type_specification]
#[verifier::external_body]
pub struct ExRecvError(RecvError);

/// The error of a receive that does not wait: nothing there, or sender gone.
#[verifier::external_type_specification]
#[verifier::external_body]
pub struct ExTryRecvError(TryRecvError);

/// The error of a receive with a time limit: time is up, or sender gone.
#[verifier::external_type_specification]
#[verifier::external_body]
pub struct ExRecvTimeoutError(RecvTimeoutError);

/// Calls `std::sync::mpsc::channel`. Nothing is claimed of the two ends.
#[verifier::external_body]
fn open_pipe<T>() -> (Sender<T>, Receiver<T>) {
    std::sync::mpsc::channel()
}

/// Calls `Sender::send`. Whether the message is taken depends on the other
/// end, so nothing is claimed of the result.
#[verifier::external_body]
fn pipe_send<T>(sender: &Sender<T>, message: T) -> Result<(), SendError<T>> {
    sender.send(message)
}

/// Calls `Receiver::recv`. What arrives depends on the other end, so nothing
/// is claimed of the result.
#[verifier::external_body]
fn pipe_recv<T>(receiver: &Receiver<T>) -> Result<T, RecvError> {
    receiver.recv()
}

/// Calls `Receiver::try_recv`. What arrives depends on the other end, so
/// nothing is claimed of the result.
#[verifier::external_body]
fn pipe_try_recv<T>(receiver: &Receiver<T>) -> Result<T, TryRecvError> {
    receiver.try_recv()
}

/// Calls `Receiver::recv_timeout`. What arrives depends on the other end and
/// on the clock, so nothing is claimed of the result.
#[verifier::external_body]
fn pipe_recv_timeout<T>(receiver: &Receiver<T>, timeout: Duration) -> Result<T, RecvTimeoutError> {
    receiver.recv_timeout(timeout)
}

/// Tells the two reasons apart for which `Receiver::try_recv` yields no
/// message.
#[verifier::external_body]
fn lull_of(error: TryRecvError) -> Lull {
    match error {
        TryRecvError::Empty => Lull::Empty,
        TryRecvError::Disconnected => Lull::Disconnected,
    }
}

/// Renders the error of `Sender::send` through its `Display` impl.
#[verifier::external_body]
fn send_error_text<T>(error: &SendError<T>) -> String {
    format!("{}", error)
}

/// Why no message was there to take.
#[derive(Clone, Copy, Debug, PartialEq, Eq, Structural)]
pub enum Lull {
    /// Nothing waits right now.
    Empty,
    /// The other end has gone, and nothing will come any more.
    Disconnected,
}

/// What a look into the pipe finds.
pub enum Received<R> {
    /// The next message from the other end.
    Message(R),
    /// No message, and the reason why.
    Nothing(Lull),
}

/// One end of a bidirectional typed pipe: it receives values of type `R` and
/// sends values of type `W`.
///
/// What a call returns depends on what the other end does. The contracts of
/// this type therefore say which call of the standard channel a result comes
/// from, and what is made of it; they promise nothing about what that call
/// answers.
#[verifier::reject_recursive_types(R)]
#[verifier::reject_recursive_types(W)]
pub struct Channel<R, W> {
    receiver: Receiver<R>,
    sender: Sender<W>,
}

impl<R, W> Channel<R, W> {
    /// Whether the two ends are the ends of one pipe: the sender of each and
    /// the receiver of the other were made together, by one call of
    /// `std::sync::mpsc::channel`, so that what either end sends, the other
    /// receives.
    pub closed spec fn crossed(first: Channel<W, R>, second: Channel<R, W>) -> bool {
        &&& call_ensures(open_pipe::<R>, (), (first.sender, second.receiver))
        &&& call_ensures(open_pipe::<W>, (), (second.sender, first.receiver))
    }

    /// Whether `sent` is an answer of `Sender::send` for this end's sender
    /// and the message `t`.
    pub closed spec fn sends(&self, t: W, sent: Result<(), SendError<W>>) -> bool {
        call_ensures(pipe_send::<W>, (&self.sender, t), sent)
    }

    /// Whether `received` is an answer of `Receiver::recv` for this end's
    /// receiver.
    pub closed spec fn receives(&self, received: Result<R, RecvError>) -> bool {
        call_ensures(pipe_recv::<R>, (&self.receiver,), received)
    }

    /// Whether `found` is an answer of `Receiver::try_recv` for this end's
    /// receiver.
    pub closed spec fn tries(&self, found: Result<R, TryRecvError>) -> bool {
        call_ensures(pipe_try_recv::<R>, (&self.receiver,), found)
    }

    /// Whether `received` is an answer of `Receiver::recv_timeout` for this
    /// end's receiver and `timeout`.
    pub closed spec fn awaits(&self, timeout: Duration, received: Result<R, RecvTimeoutError>)
        -> bool {
        call_ensures(pipe_recv_timeout::<R>, (&self.receiver, timeout), received)
    }

    /// Whether `lull` is the reason that `error` gives.
    pub closed spec fn tells(error: TryRecvError, lull: Lull) -> bool {
        call_ensures(lull_of, (error,), lull)
    }

    /// Whether `text` is how `error` describes itself.
    pub closed spec fn words(error: SendError<W>, text: String) -> bool {
        call_ensures(send_error_text::<W>, (&error,), text)
    }

    /// Whether `seen` is what a look makes of what `try_recv` found: the
    /// message where there was one, and else the reason why there was none.
    pub open spec fn seen_as(found: Result<R, TryRecvError>, seen: Received<R>) -> bool {
        match found {
            Ok(message) => seen == Received::Message(message),
            Err(error) => seen matches Received::Nothing(lull) && Self::tells(error, lull),
        }
    }

    /// Whether `seen` is what a look into this end finds.
    pub open spec fn looks(&self, seen: Received<R>) -> bool {
        exists|found: Result<R, TryRecvError>| #[trigger]
            self.tries(found) && Self::seen_as(found, seen)
    }

    /// Whether `described` is what becomes of the answer `sent` of a send:
    /// success stays success, and a failure is put in words.
    pub open spec fn described_as(sent: Result<(), SendError<W>>, described: Result<(), String>)
        -> bool {
        match sent {
            Ok(_) => described is Ok,
            Err(error) => described matches Err(text) && Self::words(error, text),
        }
    }

    /// Whether `described` is what handing `t` to this end gives: what
    /// becomes of an answer of `Sender::send` for this end's sender and `t`.
    pub open spec fn hands(&self, t: W, described: Result<(), String>) -> bool {
        exists|sent: Result<(), SendError<W>>| #[trigger]
            self.sends(t, sent) && Self::described_as(sent, described)
    }

    /// Creates the two ends of one pipe: what either end sends, the other
    /// receives.
    pub fn new_pair() -> (pair: (Channel<W, R>, Channel<R, W>))
        ensures
            Self::crossed(pair.0, pair.1),
    {
        let (sender1, receiver1) = open_pipe::<R>();
        let (sender2, receiver2) = open_pipe::<W>();
        let c1 = Channel { sender: sender1, receiver: receiver2 };
        let c2 = Channel { sender: sender2, receiver: receiver1 };
        (c1, c2)
    }

    /// Sends `t` to the other end; fails where the other end has gone.
    pub fn send(&self, t: W) -> (sent: Result<(), SendError<W>>)
        ensures
            self.sends(t, sent),
    {
        pipe_send(&self.sender, t)
    }

    /// Waits for the next value from the other end; fails where the other
    /// end has gone.
    pub fn recv(&self) -> (received: Result<R, RecvError>)
        ensures
            self.receives(received),
    {
        pipe_recv(&self.receiver)
    }

    /// Takes the next value from the other end where one waits.
    pub fn try_recv(&self) -> (found: Result<R, TryRecvError>)
        ensures
            self.tries(found),
    {
        pipe_try_recv(&self.receiver)
    }

    /// Takes the next value from the other end where one waits, and says
    /// why where none does.
    pub fn look(&self) -> (seen: Received<R>)
        ensures
            self.looks(seen),
    {
        let found = pipe_try_recv(&self.receiver);
        let ghost answer = found;
        let seen = match found {
            Ok(message) => Received::Message(message),
            Err(e) => Received::Nothing(lull_of(e)),
        };
        assert(self.tries(answer) && Self::seen_as(answer, seen));
        seen
    }

    /// Sends `t` to the other end; where the other end has gone, the error
    /// says so in words.
    pub fn send_or_describe(&self, t: W) -> (described: Result<(), String>)
        ensures
            self.hands(t, described),
    {
        let sent = pipe_send(&self.sender, t);
        let ghost answer = sent;
        let described = match sent {
            Ok(_) => Ok(()),
            Err(e) => Err(send_error_text(&e)),
        };
        assert(self.sends(t, answer) && Self::described_as(answer, described));
        described
    }

    /// Waits for the next value from the other end, for `timeout` at most.
    pub fn recv_timeout(&self, timeout: Duration) -> (received: Result<R, RecvTimeoutError>)
        ensures
            self.awaits(timeout, received),
    {
        pipe_recv_timeout(&self.receiver, timeout)
    }
}

} // verus!
