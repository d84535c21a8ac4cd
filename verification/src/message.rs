use vstd::prelude::*;

verus! {

/// The capability contract of every payload type that travels through a
/// socket or a proxy.
///
/// A message answers three classification questions (exit, ping, pong),
/// offers one canonical value for each class, and converts to and from its
/// wire bytes. A type that does not care about latency probes or fast
/// shutdown detection leaves the questions at their default answer, `false`,
/// and is then never taken for a probe or an announcement.
///
/// Nothing is assumed of an implementation: whatever its methods answer, the
/// library's own state stays within its contracts.
pub trait Message: Sized {
    /// Whether this value announces that the peer is shutting down. Unless
    /// a type says otherwise, none of its values does.
    fn is_exit(&self) -> (answer: bool)
        default_ensures
            !answer,
    {
        false
    }

    /// Whether this value is a latency probe. Unless a type says otherwise,
    /// none of its values is.
    fn is_ping(&self) -> (answer: bool)
        default_ensures
            !answer,
    {
        false
    }

    /// Whether this value answers a latency probe. Unless a type says
    /// otherwise, none of its values does.
    fn is_pong(&self) -> (answer: bool)
        default_ensures
            !answer,
    {
        false
    }

    /// The canonical shutdown announcement.
    fn default_exit() -> Self;

    /// The canonical latency probe.
    fn default_ping() -> Self;

    /// The canonical answer to a latency probe.
    fn default_pong() -> Self;

    /// Serializes the value; the error carries a description of the failure.
    fn to_bytes(&self) -> Result<Vec<u8>, String>;

    /// Deserializes a value; the error carries a description of the failure.
    fn from_bytes(bytes: &[u8]) -> Result<Self, String>;
}

/// What the library reads from a message that is to be sent: whether it is a
/// ping, and its wire bytes or the reason why it has none.
pub struct Packet {
    pub is_ping: bool,
    pub encoded: Result<Vec<u8>, String>,
}

impl Packet {
    /// The wire bytes, where the message has any.
    pub open spec fn wire(&self) -> Option<Seq<u8>> {
        match self.encoded {
            Ok(bytes) => Some(bytes@),
            Err(_) => None,
        }
    }

    /// Whether this packet holds what `message` answers: its classification
    /// is an answer of `message.is_ping()`, and its wire bytes, or the reason
    /// why it has none, are an answer of `message.to_bytes()`.
    pub open spec fn taken_from<M: Message>(&self, message: &M) -> bool {
        &&& call_ensures(M::is_ping, (message,), self.is_ping)
        &&& call_ensures(M::to_bytes, (message,), self.encoded)
    }

    /// Whether this packet holds what the canonical ping of `M` answers.
    pub open spec fn is_canonical_ping<M: Message>(&self) -> bool {
        exists|ping: M| #[trigger] self.taken_from(&ping) && call_ensures(M::default_ping, (), ping)
    }

    /// Whether this packet holds what the canonical pong of `M` answers.
    pub open spec fn is_canonical_pong<M: Message>(&self) -> bool {
        exists|pong: M| #[trigger] self.taken_from(&pong) && call_ensures(M::default_pong, (), pong)
    }

    /// Whether this packet holds what the canonical exit message of `M`
    /// answers.
    pub open spec fn is_canonical_exit<M: Message>(&self) -> bool {
        exists|exit: M| #[trigger] self.taken_from(&exit) && call_ensures(M::default_exit, (), exit)
    }

    /// Asks the canonical ping of `M` for what the library reads from it.
    pub fn canonical_ping<M: Message>() -> (packet: Packet)
        ensures
            packet.is_canonical_ping::<M>(),
    {
        let ping = M::default_ping();
        let packet = Packet::of(&ping);
        assert(packet.taken_from(&ping) && call_ensures(M::default_ping, (), ping));
        packet
    }

    /// Asks the canonical pong of `M` for what the library reads from it.
    pub fn canonical_pong<M: Message>() -> (packet: Packet)
        ensures
            packet.is_canonical_pong::<M>(),
    {
        let pong = M::default_pong();
        let packet = Packet::of(&pong);
        assert(packet.taken_from(&pong) && call_ensures(M::default_pong, (), pong));
        packet
    }

    /// Asks the canonical exit message of `M` for what the library reads
    /// from it.
    pub fn canonical_exit<M: Message>() -> (packet: Packet)
        ensures
            packet.is_canonical_exit::<M>(),
    {
        let exit = M::default_exit();
        let packet = Packet::of(&exit);
        assert(packet.taken_from(&exit) && call_ensures(M::default_exit, (), exit));
        packet
    }

    /// Asks `message` for what the library reads from it.
    pub fn of<M: Message>(message: &M) -> (packet: Packet)
        ensures
            packet.taken_from(message),
    {
        Packet { is_ping: message.is_ping(), encoded: message.to_bytes() }
    }

    /// A packet with the same classification and the same wire bytes.
    pub fn duplicate(&self) -> (copy: Packet)
        ensures
            copy.is_ping == self.is_ping,
            copy.wire() == self.wire(),
    {
        match &self.encoded {
            Ok(bytes) => {
                let mut copy: Vec<u8> = Vec::new();
                copy.extend_from_slice(bytes.as_slice());
                assert(copy@ =~= bytes@);
                Packet { is_ping: self.is_ping, encoded: Ok(copy) }
            },
            Err(text) => Packet { is_ping: self.is_ping, encoded: Err(text.clone()) },
        }
    }
}

/// What the library reads from a message that has arrived: the message and
/// its answers to the three classification questions.
pub struct Arrival<M> {
    pub message: M,
    pub is_exit: bool,
    pub is_ping: bool,
    pub is_pong: bool,
}

impl<M: Message> Arrival<M> {
    /// Whether the three answers are the message's own: each is an answer of
    /// the message to the question of that name.
    pub open spec fn answered(&self) -> bool {
        &&& call_ensures(M::is_exit, (&self.message,), self.is_exit)
        &&& call_ensures(M::is_ping, (&self.message,), self.is_ping)
        &&& call_ensures(M::is_pong, (&self.message,), self.is_pong)
    }

    /// Whether `parsed` is what becomes of the answer `decoded` of
    /// `M::from_bytes`: a message comes with its own three answers, and a
    /// failure keeps its description.
    pub open spec fn made_of(decoded: Result<M, String>, parsed: Result<Arrival<M>, String>)
        -> bool {
        match decoded {
            Ok(message) => parsed matches Ok(arrival) && arrival.message == message
                && arrival.answered(),
            Err(text) => parsed == Err::<Arrival<M>, String>(text),
        }
    }

    /// Whether `parsed` is what parsing `payload` gives: what becomes of an
    /// answer of `M::from_bytes` for these bytes.
    pub open spec fn parsed_from(payload: Seq<u8>, parsed: Result<Arrival<M>, String>) -> bool {
        exists|bytes: &[u8], decoded: Result<M, String>|
            #![trigger call_ensures(M::from_bytes, (bytes,), decoded)]
            {
                &&& bytes@ == payload
                &&& call_ensures(M::from_bytes, (bytes,), decoded)
                &&& Self::made_of(decoded, parsed)
            }
    }

    /// Asks `message` the three classification questions.
    pub fn of(message: M) -> (arrival: Self)
        ensures
            arrival.message == message,
            arrival.answered(),
    {
        let is_exit = message.is_exit();
        let is_ping = message.is_ping();
        let is_pong = message.is_pong();
        Arrival { message, is_exit, is_ping, is_pong }
    }

    /// Parses `bytes` as a message and asks it the three classification
    /// questions.
    pub fn parse(bytes: &[u8]) -> (parsed: Result<Self, String>)
        ensures
            Self::parsed_from(bytes@, parsed),
    {
        let decoded = M::from_bytes(bytes);
        let ghost answer = decoded;
        let parsed = match decoded {
            Ok(message) => Ok(Arrival::of(message)),
            Err(text) => Err(text),
        };
        assert(call_ensures(M::from_bytes, (bytes,), answer) && Self::made_of(answer, parsed));
        parsed
    }
}

} // verus!
