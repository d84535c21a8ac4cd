use vstd::prelude::*;

verus! {

/// The kinds of failure that the proxy tells apart.
#[derive(Clone, Copy, Debug, PartialEq, Eq, Structural)]
pub enum Fault {
    Config,
    ChannelSend,
    ChannelRecv,
    SocketSend,
    SocketRecv,
    Disconnected,
}

#[derive(Debug, PartialEq)]
pub enum ProxyError {
    /// The connection could not be set up as the proxy needs it.
    Config(String),
    /// The caller no longer listens.
    ChannelSend(String),
    /// The caller no longer talks.
    ChannelRecv(String),
    /// The link refused a message.
    SocketSend(String),
    /// The link delivered no usable message.
    SocketRecv(String),
    /// There is no link at the moment.
    Disconnected,
}

impl ProxyError {
    /// The kind of this failure.
    pub open spec fn spec_fault(&self) -> Fault {
        match self {
            ProxyError::Config(_) => Fault::Config,
            ProxyError::ChannelSend(_) => Fault::ChannelSend,
            ProxyError::ChannelRecv(_) => Fault::ChannelRecv,
            ProxyError::SocketSend(_) => Fault::SocketSend,
            ProxyError::SocketRecv(_) => Fault::SocketRecv,
            ProxyError::Disconnected => Fault::Disconnected,
        }
    }

    /// The kind of this failure.
    #[verifier::when_used_as_spec(spec_fault)]
    pub fn fault(&self) -> (fault: Fault)
        ensures
            fault == self.spec_fault(),
    {
        match self {
            ProxyError::Config(_) => Fault::Config,
            ProxyError::ChannelSend(_) => Fault::ChannelSend,
            ProxyError::ChannelRecv(_) => Fault::ChannelRecv,
            ProxyError::SocketSend(_) => Fault::SocketSend,
            ProxyError::SocketRecv(_) => Fault::SocketRecv,
            ProxyError::Disconnected => Fault::Disconnected,
        }
    }
}

impl ProxyError {
    /// The text that describes this error to a reader.
    pub open spec fn spec_describe(&self) -> Seq<char> {
        match self {
            ProxyError::Config(text) => "Config error: "@ + text@,
            ProxyError::ChannelSend(text) => text@,
            ProxyError::ChannelRecv(text) => text@,
            ProxyError::SocketSend(text) => text@,
            ProxyError::SocketRecv(text) => text@,
            ProxyError::Disconnected => "Proxy is disconnected"@,
        }
    }

    /// The text that describes this error to a reader.
    pub fn describe(&self) -> (text: String)
        ensures
            text@ == self.spec_describe(),
    {
        match self {
            ProxyError::Config(text) => String::from_str("Config error: ").concat(text.as_str()),
            ProxyError::ChannelSend(text) => text.clone(),
            ProxyError::ChannelRecv(text) => text.clone(),
            ProxyError::SocketSend(text) => text.clone(),
            ProxyError::SocketRecv(text) => text.clone(),
            ProxyError::Disconnected => String::from_str("Proxy is disconnected"),
        }
    }
}

impl Fault {
    /// Whether a failure of this kind concerns the link alone, so that a new
    /// connection can make up for it.
    pub open spec fn spec_is_connection_scoped(&self) -> bool {
        *self == Fault::SocketSend || *self == Fault::SocketRecv
    }

    /// Whether a failure of this kind concerns the link alone, so that a new
    /// connection can make up for it.
    #[verifier::when_used_as_spec(spec_is_connection_scoped)]
    pub fn is_connection_scoped(&self) -> (scoped: bool)
        ensures
            scoped == self.spec_is_connection_scoped(),
    {
        match self {
            Fault::SocketSend => true,
            Fault::SocketRecv => true,
            _ => false,
        }
    }
}

} // verus!
