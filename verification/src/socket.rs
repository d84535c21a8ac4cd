use crate::message::Arrival;
use crate::message::Message;
use crate::message::Packet;
use core::marker::PhantomData;
use vstd::bytes::spec_u64_from_le_bytes;
use vstd::bytes::spec_u64_to_le_bytes;
use vstd::prelude::*;

verus! {

/// The number of bytes that every serialized [`Header`] occupies on the wire.
pub const HEADER_SIZE: u64 = 8;

/// The fixed-size record that precedes every payload on the wire.
#[derive(Clone, Copy, Debug, PartialEq, Eq, Structural)]
pub struct Header {
    /// The exact byte length of the serialized payload that follows.
    pub size: u64,
}

impl Header {
    pub fn new(size: u64) -> (header: Self)
        ensures
            header.size == size,
    {
        Self { size }
    }
}

/// What went wrong on the transport, as far as the socket needs to know.
#[derive(Clone, Copy, Debug, PartialEq, Eq, Structural)]
pub enum IoKind {
    /// Nothing is wrong; the data has simply not arrived yet.
    WouldBlock,
    /// The peer dropped the link.
    ConnectionReset,
    /// Any other transport failure.
    Other,
}

/// A transport failure.
#[derive(Clone, Copy, Debug, PartialEq, Eq, Structural)]
pub struct IoError {
    pub kind: IoKind,
}

impl IoError {
    pub fn new(kind: IoKind) -> (error: Self)
        ensures
            error.kind == kind,
    {
        Self { kind }
    }

    /// The transient "no data yet" condition.
    pub fn would_block() -> (error: Self)
        ensures
            error.kind == IoKind::WouldBlock,
    {
        Self { kind: IoKind::WouldBlock }
    }
}

#[derive(Debug)]
pub enum SocketError {
    /// Reserved for exercising error paths.
    TestError,
    /// The payload or its header could not be serialized.
    Serialization(String),
    /// The received bytes do not form a header or a payload.
    Deserialization(String),
    /// The transport refused the bytes.
    StreamWrite(IoError),
    /// The transport has no complete data to offer, or failed.
    StreamRead(IoError),
    /// The other side has closed the communication.
    Exited,
}

impl IoKind {
    /// What this kind of failure is called.
    pub open spec fn spec_describe(&self) -> Seq<char> {
        match self {
            IoKind::WouldBlock => "operation would block"@,
            IoKind::ConnectionReset => "connection reset"@,
            IoKind::Other => "other error"@,
        }
    }

    /// What this kind of failure is called.
    pub fn describe(&self) -> (text: &'static str)
        ensures
            text@ == self.spec_describe(),
    {
        match self {
            IoKind::WouldBlock => "operation would block",
            IoKind::ConnectionReset => "connection reset",
            IoKind::Other => "other error",
        }
    }
}

impl SocketError {
    /// The text that describes this error to a reader.
    pub open spec fn spec_describe(&self) -> Seq<char> {
        match self {
            SocketError::TestError => "This should not be used outside tests"@,
            SocketError::Serialization(text) => "Error when serializing: "@ + text@,
            SocketError::Deserialization(text) => "Error when deserializing: "@ + text@,
            SocketError::StreamWrite(e) => "Error when writing to stream: "@
                + e.kind.spec_describe(),
            SocketError::StreamRead(e) => "Error when reading the stream: "@
                + e.kind.spec_describe(),
            SocketError::Exited => "The other side has closed the communication"@,
        }
    }

    /// The text that describes this error to a reader.
    pub fn describe(&self) -> (text: String)
        ensures
            text@ == self.spec_describe(),
    {
        match self {
            SocketError::TestError => String::from_str("This should not be used outside tests"),
            SocketError::Serialization(text) => String::from_str(
                "Error when serializing: ",
            ).concat(text.as_str()),
            SocketError::Deserialization(text) => String::from_str(
                "Error when deserializing: ",
            ).concat(text.as_str()),
            SocketError::StreamWrite(e) => String::from_str(
                "Error when writing to stream: ",
            ).concat(e.kind.describe()),
            SocketError::StreamRead(e) => String::from_str(
                "Error when reading the stream: ",
            ).concat(e.kind.describe()),
            SocketError::Exited => String::from_str("The other side has closed the communication"),
        }
    }

    /// Whether this error is the transient "no data yet" condition, which a
    /// blocking receive answers by polling again.
    pub fn is_would_block(&self) -> (b: bool)
        ensures
            b == (*self matches SocketError::StreamRead(e) && e.kind == IoKind::WouldBlock),
    {
        match self {
            SocketError::StreamRead(e) => e.kind == IoKind::WouldBlock,
            _ => false,
        }
    }
}

/// The error type of the outside codec.
#[verifier::external_type_specification]
#[verifier::external_body]
pub struct ExCodecErrorKind(bincode::ErrorKind);

/// Calls `bincode::serialize` on a `u64`.
///
/// With the codec's default configuration an integer is written at its fixed
/// width in little-endian order and no size limit applies, so the call
/// succeeds and yields the eight little-endian bytes of `value`.
#[verifier::external_body]
fn encode_u64(value: u64) -> (r: Result<Vec<u8>, Box<bincode::ErrorKind>>)
    ensures
        r is Ok,
        r.unwrap()@ == spec_u64_to_le_bytes(value),
{
    bincode::serialize(&value)
}

/// Calls `bincode::deserialize` for a `u64`.
///
/// The codec reads the first eight bytes as a little-endian integer and
/// tolerates trailing bytes; with fewer than eight bytes it reports an error.
#[verifier::external_body]
fn decode_u64(bytes: &[u8]) -> (r: Result<u64, Box<bincode::ErrorKind>>)
    ensures
        bytes@.len() >= 8 ==> r is Ok && r.unwrap() == spec_u64_from_le_bytes(
            bytes@.subrange(0, 8),
        ),
        bytes@.len() < 8 ==> r is Err,
{
    bincode::deserialize::<u64>(bytes)
}

/// Renders a codec error through its `Display` impl.
#[verifier::external_body]
fn codec_error_text(error: &bincode::ErrorKind) -> String {
    format!("{}", error)
}

/// The wire bytes of a header.
pub open spec fn header_bytes(header: Header) -> Seq<u8> {
    spec_u64_to_le_bytes(header.size)
}

/// One whole message on the wire: the header, then the payload.
pub open spec fn frame_of(payload: Seq<u8>) -> Seq<u8>
    recommends
        payload.len() <= u64::MAX,
{
    header_bytes(Header { size: payload.len() as u64 }) + payload
}

impl Header {
    /// Serializes the header into its `HEADER_SIZE` wire bytes.
    pub fn to_bytes(&self) -> (r: Result<Vec<u8>, SocketError>)
        ensures
            r matches Ok(bytes) && bytes@ == header_bytes(*self) && bytes@.len() == HEADER_SIZE,
    {
        proof {
            vstd::bytes::lemma_auto_spec_u64_to_from_le_bytes();
        }
        match encode_u64(self.size) {
            Ok(bytes) => {
                if bytes.len() != 8 {
                    Err(
                        SocketError::Serialization(
                            "The length of the serialized header is not equal to the HEADER_SIZE constant".to_string(),
                        ),
                    )
                } else {
                    Ok(bytes)
                }
            },
            Err(e) => Err(SocketError::Serialization(codec_error_text(&*e))),
        }
    }

    /// Reads a header back from exactly `HEADER_SIZE` wire bytes.
    pub fn from_bytes(bytes: &[u8]) -> (r: Result<Header, SocketError>)
        ensures
            bytes@.len() == HEADER_SIZE ==> r is Ok && r->Ok_0.size == spec_u64_from_le_bytes(
                bytes@,
            ),
            bytes@.len() != HEADER_SIZE ==> r matches Err(SocketError::Deserialization(_)),
    {
        if bytes.len() != 8 {
            return Err(
                SocketError::Deserialization(
                    "A header takes exactly HEADER_SIZE bytes".to_string(),
                ),
            );
        }
        assert(bytes@.subrange(0, 8) =~= bytes@);
        match decode_u64(bytes) {
            Ok(size) => Ok(Header { size }),
            Err(e) => Err(SocketError::Deserialization(codec_error_text(&*e))),
        }
    }
}

/// Every header survives the trip over the wire, and every header takes the
/// same `HEADER_SIZE` bytes whatever payload length it announces.
pub proof fn lemma_header_round_trip(header: Header)
    ensures
        header_bytes(header).len() == HEADER_SIZE,
        spec_u64_from_le_bytes(header_bytes(header)) == header.size,
{
    vstd::bytes::lemma_auto_spec_u64_to_from_le_bytes();
}

/// What one receive attempt does to the bytes that have arrived.
pub struct Intake {
    /// The header in effect for this attempt, where one is known.
    pub header: Option<Header>,
    /// The header that stays cached for the next attempt.
    pub cached: Option<Header>,
    /// The bytes that stay unread.
    pub pending: Seq<u8>,
    /// The payload that the attempt extracted, where it was complete.
    pub payload: Option<Seq<u8>>,
}

/// The effect of one receive attempt on a socket with the given cached header
/// and unread bytes.
///
/// A header is consumed only when all of its bytes are there, and is then kept
/// until its whole payload is there too.
pub open spec fn intake(cached: Option<Header>, pending: Seq<u8>) -> Intake {
    if cached is None && pending.len() < HEADER_SIZE {
        Intake { header: None, cached: None, pending, payload: None }
    } else {
        let header = match cached {
            Some(h) => h,
            None => Header { size: spec_u64_from_le_bytes(pending.subrange(0, 8)) },
        };
        let rest = if cached is Some {
            pending
        } else {
            pending.subrange(8, pending.len() as int)
        };
        if rest.len() < header.size {
            Intake { header: Some(header), cached: Some(header), pending: rest, payload: None }
        } else {
            Intake {
                header: Some(header),
                cached: None,
                pending: rest.subrange(header.size as int, rest.len() as int),
                payload: Some(rest.subrange(0, header.size as int)),
            }
        }
    }
}

/// The error that a receive attempt reports when the data is incomplete: the
/// transport's failure where it has failed, the would-block condition otherwise.
pub open spec fn starved(fault: Option<IoError>) -> IoError {
    match fault {
        Some(e) => e,
        None => IoError { kind: IoKind::WouldBlock },
    }
}

/// The state of a socket, as its contracts speak of it.
pub struct SocketView {
    /// The bytes that arrived and were not consumed yet.
    pub pending: Seq<u8>,
    /// The bytes that were framed and not yet taken by the transport.
    pub outgoing: Seq<u8>,
    /// The header that was consumed while its payload is still incomplete.
    pub cached: Option<Header>,
    /// The failure that the transport reported on its reading side.
    pub read_fault: Option<IoError>,
    /// The failure that the transport reported on its writing side.
    pub write_fault: Option<IoError>,
}

impl SocketView {
    /// A socket that has seen no traffic and no failure.
    pub open spec fn fresh() -> SocketView {
        SocketView {
            pending: Seq::empty(),
            outgoing: Seq::empty(),
            cached: None,
            read_fault: None,
            write_fault: None,
        }
    }

    /// Whether the socket takes a message with this wire form for sending:
    /// there is a wire form, and the transport has not failed on its writing
    /// side.
    pub open spec fn accepts(self, wire: Option<Seq<u8>>) -> bool {
        wire is Some && self.write_fault is None
    }

    /// What `send` answers: the header of the message, where the socket
    /// accepts it.
    pub open spec fn receipt(self, wire: Option<Seq<u8>>) -> Option<Header> {
        if self.accepts(wire) {
            Some(Header { size: wire.unwrap().len() as u64 })
        } else {
            None
        }
    }

    /// Whether `error` is what `send` answers for a message that the socket
    /// does not accept: `Serialization` for a message without a wire form,
    /// else `StreamWrite` with the transport's failure.
    pub open spec fn refusal(self, wire: Option<Seq<u8>>, error: SocketError) -> bool {
        if wire is None {
            error is Serialization
        } else {
            error matches SocketError::StreamWrite(e) && self.write_fault == Some(e)
        }
    }

    /// The socket after an attempt to send: the frame is queued where the
    /// socket accepted the message, and nothing else has changed.
    pub open spec fn sent(self, wire: Option<Seq<u8>>) -> SocketView {
        if self.accepts(wire) {
            SocketView {
                pending: self.pending,
                outgoing: self.outgoing + frame_of(wire.unwrap()),
                cached: self.cached,
                read_fault: self.read_fault,
                write_fault: self.write_fault,
            }
        } else {
            self
        }
    }

    /// Whether `after` and `result` are what sending the message behind
    /// `packet` makes of this socket and answers. A message without wire
    /// bytes fails with the reason that it gave.
    pub open spec fn send_post(
        self,
        packet: Packet,
        after: SocketView,
        result: Result<Header, SocketError>,
    ) -> bool {
        &&& after == self.sent(packet.wire())
        &&& match result {
            Ok(header) => Some(header) == self.receipt(packet.wire()) && header.size
                == packet.wire().unwrap().len(),
            Err(e) => !self.accepts(packet.wire()) && self.refusal(packet.wire(), e),
        }
        &&& match packet.encoded {
            Ok(_) => true,
            Err(reason) => result == Err::<Header, SocketError>(
                SocketError::Serialization(reason),
            ),
        }
    }

    /// The socket after a receive attempt.
    pub open spec fn received(self) -> SocketView {
        SocketView {
            pending: intake(self.cached, self.pending).pending,
            outgoing: self.outgoing,
            cached: intake(self.cached, self.pending).cached,
            read_fault: self.read_fault,
            write_fault: self.write_fault,
        }
    }

    /// The payload that a receive attempt extracts, where it is complete.
    pub open spec fn payload(self) -> Option<Seq<u8>> {
        intake(self.cached, self.pending).payload
    }

    /// The header in effect for a receive attempt, where one is known.
    pub open spec fn header(self) -> Option<Header> {
        intake(self.cached, self.pending).header
    }

    /// The socket after `bytes` arrived from the transport.
    pub open spec fn fed(self, bytes: Seq<u8>) -> SocketView {
        SocketView {
            pending: self.pending + bytes,
            outgoing: self.outgoing,
            cached: self.cached,
            read_fault: self.read_fault,
            write_fault: self.write_fault,
        }
    }
}

/// A length-prefixed message codec over the two byte streams of a connection.
///
/// The socket owns the bytes that arrived and were not read yet, and the bytes
/// that were framed and not yet handed to the transport. Whoever owns the
/// transport moves bytes between it and the socket and reports its failures.
pub struct Socket<R: Message, W: Message> {
    inbox: Vec<u8>,
    outbox: Vec<u8>,
    last_header: Option<Header>,
    read_fault: Option<IoError>,
    write_fault: Option<IoError>,
    read_type: PhantomData<R>,
    write_type: PhantomData<W>,
}

impl<R: Message, W: Message> View for Socket<R, W> {
    type V = SocketView;

    closed spec fn view(&self) -> SocketView {
        SocketView {
            pending: self.inbox@,
            outgoing: self.outbox@,
            cached: self.last_header,
            read_fault: self.read_fault,
            write_fault: self.write_fault,
        }
    }
}

impl<R: Message, W: Message> Socket<R, W> {
    pub fn new() -> (socket: Self)
        ensures
            socket@ == SocketView::fresh(),
    {
        Self {
            inbox: Vec::new(),
            outbox: Vec::new(),
            last_header: None,
            read_fault: None,
            write_fault: None,
            read_type: PhantomData,
            write_type: PhantomData,
        }
    }

    /// Hands the socket bytes that the transport delivered.
    pub fn feed(&mut self, bytes: &[u8])
        ensures
            final(self)@ == old(self)@.fed(bytes@),
    {
        self.inbox.extend_from_slice(bytes);
        assert(self.inbox@ =~= old(self).inbox@ + bytes@);
    }

    /// Takes the framed bytes that wait for the transport.
    pub fn take_outgoing(&mut self) -> (bytes: Vec<u8>)
        ensures
            bytes@ == old(self)@.outgoing,
            final(self)@ == (SocketView {
                pending: old(self)@.pending,
                outgoing: Seq::empty(),
                cached: old(self)@.cached,
                read_fault: old(self)@.read_fault,
                write_fault: old(self)@.write_fault,
            }),
    {
        let rest = self.outbox.split_off(0);
        assert(rest@ =~= old(self).outbox@);
        assert(self.outbox@ =~= Seq::<u8>::empty());
        rest
    }

    /// Records that the transport can deliver no more bytes.
    pub fn fail_reads(&mut self, error: IoError)
        ensures
            final(self)@ == (SocketView {
                pending: old(self)@.pending,
                outgoing: old(self)@.outgoing,
                cached: old(self)@.cached,
                read_fault: Some(error),
                write_fault: old(self)@.write_fault,
            }),
    {
        self.read_fault = Some(error);
    }

    /// Records that the transport accepts no more bytes.
    pub fn fail_writes(&mut self, error: IoError)
        ensures
            final(self)@ == (SocketView {
                pending: old(self)@.pending,
                outgoing: old(self)@.outgoing,
                cached: old(self)@.cached,
                read_fault: old(self)@.read_fault,
                write_fault: Some(error),
            }),
    {
        self.write_fault = Some(error);
    }

    /// Frames the message behind `packet` and queues it for the transport:
    /// the header first, then the payload.
    ///
    /// Fails with `Serialization` where the message has no wire form, and with
    /// `StreamWrite` where the transport has reported a failure on its writing
    /// side; nothing is queued then.
    pub fn send_packet(&mut self, packet: Packet) -> (r: Result<Header, SocketError>)
        ensures
            old(self)@.send_post(packet, final(self)@, r),
    {
        let payload = match packet.encoded {
            Ok(bytes) => bytes,
            Err(text) => {
                return Err(SocketError::Serialization(text));
            },
        };
        let header = Header::new(payload.len() as u64);
        let header_bytes = match header.to_bytes() {
            Ok(bytes) => bytes,
            Err(e) => {
                return Err(e);
            },
        };
        if let Some(e) = self.write_fault {
            return Err(SocketError::StreamWrite(e));
        }
        self.outbox.extend_from_slice(header_bytes.as_slice());
        self.outbox.extend_from_slice(payload.as_slice());
        assert(self.outbox@ =~= old(self).outbox@ + frame_of(payload@));
        Ok(header)
    }

    /// Serializes `message`, frames it and queues it for the transport.
    ///
    /// The message is asked for its packet, and the outcome is that of
    /// `send_packet` for it: with wire bytes and a working transport the
    /// frame is queued and its header returned; else nothing is queued, and
    /// the failure is `Serialization` where the message gave no wire bytes
    /// and `StreamWrite` where the transport has failed on its writing side.
    pub fn send(&mut self, message: W) -> (r: Result<Header, SocketError>)
        ensures
            exists|packet: Packet| #[trigger]
                packet.taken_from(&message) && old(self)@.send_post(packet, final(self)@, r),
    {
        let packet = Packet::of(&message);
        let ghost asked = packet;
        let r = self.send_packet(packet);
        assert(asked.taken_from(&message) && old(self)@.send_post(asked, self@, r));
        r
    }

    /// Consumes exactly `target_size` unread bytes, or none at all.
    ///
    /// With fewer bytes at hand the unread bytes stay as they are and the
    /// attempt fails with `StreamRead`.
    fn try_get(&mut self, target_size: u64) -> (r: Result<Vec<u8>, SocketError>)
        ensures
            final(self)@.outgoing == old(self)@.outgoing,
            final(self)@.cached == old(self)@.cached,
            final(self)@.read_fault == old(self)@.read_fault,
            final(self)@.write_fault == old(self)@.write_fault,
            match r {
                Ok(bytes) => {
                    &&& target_size <= old(self)@.pending.len()
                    &&& bytes@ == old(self)@.pending.subrange(0, target_size as int)
                    &&& final(self)@.pending == old(self)@.pending.subrange(
                        target_size as int,
                        old(self)@.pending.len() as int,
                    )
                },
                Err(SocketError::StreamRead(e)) => {
                    &&& target_size > old(self)@.pending.len()
                    &&& e == starved(old(self)@.read_fault)
                    &&& final(self)@.pending == old(self)@.pending
                },
                Err(_) => false,
            },
    {
        let available = self.inbox.len() as u64;
        if available < target_size {
            let error = match self.read_fault {
                Some(e) => e,
                None => IoError::would_block(),
            };
            return Err(SocketError::StreamRead(error));
        }
        let rest = self.inbox.split_off(target_size as usize);
        let mut taken = rest;
        core::mem::swap(&mut self.inbox, &mut taken);
        Ok(taken)
    }

    /// Tries to take the payload of one whole message out of the bytes that
    /// have arrived, without waiting.
    ///
    /// The header is consumed as soon as it is complete and is then kept until
    /// its payload is complete too. While data is missing the attempt fails
    /// with `StreamRead`: with the transport's failure where it has reported
    /// one, with the would-block condition otherwise.
    pub fn try_recv_payload(&mut self) -> (r: Result<(Header, Vec<u8>), SocketError>)
        ensures
            final(self)@ == old(self)@.received(),
            match old(self)@.payload() {
                Some(payload) => r matches Ok(pair) && Some(pair.0) == old(self)@.header()
                    && pair.1@ == payload,
                None => r matches Err(SocketError::StreamRead(e)) && e == starved(
                    old(self)@.read_fault,
                ),
            },
    {
        let header = match self.last_header {
            Some(header) => header,
            None => {
                let bytes = match self.try_get(HEADER_SIZE) {
                    Ok(bytes) => bytes,
                    Err(e) => {
                        return Err(e);
                    },
                };
                let header = match Header::from_bytes(bytes.as_slice()) {
                    Ok(header) => header,
                    Err(e) => {
                        return Err(e);
                    },
                };
                self.last_header = Some(header);
                header
            },
        };
        let payload = match self.try_get(header.size) {
            Ok(bytes) => bytes,
            Err(e) => {
                return Err(e);
            },
        };
        self.last_header = None;
        Ok((header, payload))
    }

    /// Whether `result` is what the receiver gets for a payload that arrived
    /// under `header` and was parsed to `parsed`: the message with its
    /// answers, `Deserialization` with the parser's words where the payload
    /// was no message, or `Exited` where the message announces the peer's
    /// shutdown.
    pub open spec fn delivered(
        header: Header,
        parsed: Result<Arrival<R>, String>,
        result: Result<(Header, Arrival<R>), SocketError>,
    ) -> bool {
        match parsed {
            Err(text) => result matches Err(SocketError::Deserialization(said)) && said == text,
            Ok(arrival) => if arrival.is_exit {
                result matches Err(SocketError::Exited)
            } else {
                result matches Ok(pair) && pair.0 == header && pair.1 == arrival
            },
        }
    }

    /// Whether `result` is what the receiver gets, as `delivered` says, once
    /// the message is taken out of its arrival.
    pub open spec fn handed(
        header: Header,
        parsed: Result<Arrival<R>, String>,
        result: Result<(Header, R), SocketError>,
    ) -> bool {
        match parsed {
            Err(text) => result matches Err(SocketError::Deserialization(said)) && said == text,
            Ok(arrival) => if arrival.is_exit {
                result matches Err(SocketError::Exited)
            } else {
                result matches Ok(pair) && pair.0 == header && pair.1 == arrival.message
            },
        }
    }

    /// Decides what the receiver gets for a payload that arrived under
    /// `header`: the message, `Deserialization` where the payload was no
    /// message, or `Exited` where the message announces the peer's shutdown.
    pub fn deliver(header: Header, parsed: Result<Arrival<R>, String>) -> (r: Result<
        (Header, Arrival<R>),
        SocketError,
    >)
        ensures
            Self::delivered(header, parsed, r),
    {
        match parsed {
            Err(text) => Err(SocketError::Deserialization(text)),
            Ok(arrival) => {
                if arrival.is_exit {
                    Err(SocketError::Exited)
                } else {
                    Ok((header, arrival))
                }
            },
        }
    }

    /// Tries to take one whole message out of the bytes that have arrived,
    /// without waiting, and asks it the classification questions.
    ///
    /// The bytes are consumed as `try_recv_payload` consumes them. While data
    /// is missing the attempt fails with `StreamRead`. A complete payload is
    /// parsed by the message type, and the result is what `deliver` makes of
    /// what the parsing gave.
    pub fn try_recv_arrival(&mut self) -> (r: Result<(Header, Arrival<R>), SocketError>)
        ensures
            final(self)@ == old(self)@.received(),
            match old(self)@.payload() {
                Some(payload) => exists|parsed: Result<Arrival<R>, String>| #[trigger]
                    Arrival::<R>::parsed_from(payload, parsed) && Self::delivered(
                        old(self)@.header().unwrap(),
                        parsed,
                        r,
                    ),
                None => r matches Err(SocketError::StreamRead(e)) && e == starved(
                    old(self)@.read_fault,
                ),
            },
    {
        let (header, payload) = match self.try_recv_payload() {
            Ok(pair) => pair,
            Err(e) => {
                return Err(e);
            },
        };
        let parsed = Arrival::parse(payload.as_slice());
        let ghost given = parsed;
        let r = Self::deliver(header, parsed);
        assert(Arrival::<R>::parsed_from(payload@, given) && Self::delivered(header, given, r));
        r
    }

    /// Tries to take one whole message out of the bytes that have arrived,
    /// without waiting.
    ///
    /// The header is consumed as soon as it is complete and is then kept until
    /// its payload is complete too. While data is missing the attempt fails
    /// with `StreamRead`. A complete payload is parsed by the message type,
    /// and gives the message under its header, `Deserialization` where it is
    /// no message, or `Exited` where the message announces the peer's
    /// shutdown.
    pub fn try_recv(&mut self) -> (r: Result<(Header, R), SocketError>)
        ensures
            final(self)@ == old(self)@.received(),
            match old(self)@.payload() {
                Some(payload) => exists|parsed: Result<Arrival<R>, String>| #[trigger]
                    Arrival::<R>::parsed_from(payload, parsed) && Self::handed(
                        old(self)@.header().unwrap(),
                        parsed,
                        r,
                    ),
                None => r matches Err(SocketError::StreamRead(e)) && e == starved(
                    old(self)@.read_fault,
                ),
            },
    {
        let delivered = self.try_recv_arrival();
        proof {
            if old(self)@.payload() is Some {
                let parsed = choose|parsed: Result<Arrival<R>, String>| #[trigger]
                    Arrival::<R>::parsed_from(old(self)@.payload().unwrap(), parsed)
                        && Self::delivered(old(self)@.header().unwrap(), parsed, delivered);
                assert(Arrival::<R>::parsed_from(old(self)@.payload().unwrap(), parsed));
            }
        }
        match delivered {
            Ok((header, arrival)) => Ok((header, arrival.message)),
            Err(e) => Err(e),
        }
    }

    /// One round of a blocking receive: `None` says that the data is not
    /// complete yet and that the caller should try again after its poll
    /// interval; anything else ends the wait, as `try_recv` would.
    pub fn poll(&mut self) -> (r: Option<Result<(Header, R), SocketError>>)
        ensures
            final(self)@ == old(self)@.received(),
            match old(self)@.payload() {
                Some(payload) => r matches Some(result) && exists|
                    parsed: Result<Arrival<R>, String>,
                | #[trigger]
                    Arrival::<R>::parsed_from(payload, parsed) && Self::handed(
                        old(self)@.header().unwrap(),
                        parsed,
                        result,
                    ),
                None => if starved(old(self)@.read_fault).kind == IoKind::WouldBlock {
                    r is None
                } else {
                    r matches Some(Err(SocketError::StreamRead(e))) && e == starved(
                        old(self)@.read_fault,
                    )
                },
            },
    {
        let received = self.try_recv();
        proof {
            if old(self)@.payload() is Some {
                let parsed = choose|parsed: Result<Arrival<R>, String>| #[trigger]
                    Arrival::<R>::parsed_from(old(self)@.payload().unwrap(), parsed)
                        && Self::handed(old(self)@.header().unwrap(), parsed, received);
                assert(Arrival::<R>::parsed_from(old(self)@.payload().unwrap(), parsed));
            }
        }
        match received {
            Ok(pair) => Some(Ok(pair)),
            Err(e) => {
                if e.is_would_block() {
                    None
                } else {
                    Some(Err(e))
                }
            },
        }
    }

    /// Queues the canonical exit message so that the peer notices the shutdown
    /// at once. A failure to do so is ignored: the link is most likely gone.
    ///
    /// The message is what `W::default_exit()` answers, and what is queued
    /// for it is what `send_packet` queues for its packet.
    pub fn close(&mut self)
        ensures
            exists|farewell: W, packet: Packet|
                #![trigger packet.taken_from(&farewell)]
                {
                    &&& call_ensures(W::default_exit, (), farewell)
                    &&& packet.taken_from(&farewell)
                    &&& final(self)@ == old(self)@.sent(packet.wire())
                },
    {
        let farewell = W::default_exit();
        let packet = Packet::of(&farewell);
        let ghost queued = packet;
        let _ = self.send_packet(packet);
        assert(call_ensures(W::default_exit, (), farewell) && queued.taken_from(&farewell)
            && self@ == old(self)@.sent(queued.wire()));
    }
}

/// A frame is the header's `HEADER_SIZE` bytes followed by the payload, so
/// the header's size on the wire does not depend on the payload's length.
pub proof fn lemma_frame_layout(payload: Seq<u8>)
    requires
        payload.len() <= u64::MAX,
    ensures
        frame_of(payload).len() == HEADER_SIZE + payload.len(),
        frame_of(payload).subrange(0, 8) == header_bytes(Header { size: payload.len() as u64 }),
        frame_of(payload).subrange(8, frame_of(payload).len() as int) == payload,
{
    let header = Header { size: payload.len() as u64 };
    lemma_header_round_trip(header);
    assert(frame_of(payload).subrange(0, 8) =~= header_bytes(header));
    assert(frame_of(payload).subrange(8, frame_of(payload).len() as int) =~= payload);
}

/// Round trip of the bytes: a socket with no cached header that holds one
/// frame, followed by anything, extracts exactly the framed payload under a
/// header that announces its length, and leaves what followed untouched.
pub proof fn lemma_frame_round_trip(payload: Seq<u8>, tail: Seq<u8>)
    requires
        payload.len() <= u64::MAX,
    ensures
        intake(None, frame_of(payload) + tail) == (Intake {
            header: Some(Header { size: payload.len() as u64 }),
            cached: None,
            pending: tail,
            payload: Some(payload),
        }),
{
    let header = Header { size: payload.len() as u64 };
    let pending = frame_of(payload) + tail;
    lemma_frame_layout(payload);
    lemma_header_round_trip(header);
    assert(pending.subrange(0, 8) =~= header_bytes(header));
    let rest = pending.subrange(8, pending.len() as int);
    assert(rest =~= payload + tail);
    assert(rest.subrange(0, header.size as int) =~= payload);
    assert(rest.subrange(header.size as int, rest.len() as int) =~= tail);
}

/// Round trip: what a socket queues for a payload, once it has arrived at a
/// socket that holds no other unread data, is extracted by one receive
/// attempt as exactly that payload, under a header that announces its length,
/// and nothing stays unread.
pub proof fn lemma_send_recv_round_trip(
    sender: SocketView,
    receiver: SocketView,
    payload: Seq<u8>,
)
    requires
        sender.write_fault is None,
        payload.len() <= u64::MAX,
        receiver.cached is None,
        receiver.pending == Seq::<u8>::empty(),
    ensures
        sender.sent(Some(payload)).outgoing == sender.outgoing + frame_of(payload),
        sender.receipt(Some(payload)) == Some(Header { size: payload.len() as u64 }),
        receiver.fed(frame_of(payload)).payload() == Some(payload),
        receiver.fed(frame_of(payload)).header() == Some(Header { size: payload.len() as u64 }),
        receiver.fed(frame_of(payload)).received().pending == Seq::<u8>::empty(),
        receiver.fed(frame_of(payload)).received().cached is None,
{
    lemma_frame_round_trip(payload, Seq::empty());
    assert(receiver.pending + frame_of(payload) =~= frame_of(payload) + Seq::<u8>::empty());
}

/// Partial-read safety: when a whole header has arrived with only a part of
/// its payload, the attempt keeps the header and the partial payload, and a
/// later attempt, made once `more` bytes have arrived, ends exactly as one
/// attempt on all the bytes would have ended. The header is never needed
/// again on the wire.
pub proof fn lemma_partial_read(header: Header, part: Seq<u8>, more: Seq<u8>)
    requires
        part.len() < header.size,
    ensures
        intake(None, header_bytes(header) + part) == (Intake {
            header: Some(header),
            cached: Some(header),
            pending: part,
            payload: None,
        }),
        intake(Some(header), part + more) == intake(None, header_bytes(header) + part + more),
{
    lemma_header_round_trip(header);
    let first = header_bytes(header) + part;
    assert(first.subrange(0, 8) =~= header_bytes(header));
    assert(first.subrange(8, first.len() as int) =~= part);
    let all = header_bytes(header) + part + more;
    assert(all.subrange(0, 8) =~= header_bytes(header));
    assert(all.subrange(8, all.len() as int) =~= part + more);
}

} // verus!
