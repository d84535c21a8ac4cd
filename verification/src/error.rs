use crate::proxy::error::ProxyError;
use crate::socket::SocketError;
use vstd::prelude::*;
use vstd::std_specs::convert::FromSpecImpl;

verus! {

/// Any failure of the networking layer: of a socket, or of a proxy.
#[derive(Debug)]
pub enum NetworkError {
    Socket(SocketError),
    Proxy(ProxyError),
}

impl NetworkError {
    /// The text that describes this error to a reader: that of the error
    /// inside.
    pub open spec fn spec_describe(&self) -> Seq<char> {
        match self {
            NetworkError::Socket(e) => e.spec_describe(),
            NetworkError::Proxy(e) => e.spec_describe(),
        }
    }

    /// The text that describes this error to a reader.
    pub fn describe(&self) -> (text: String)
        ensures
            text@ == self.spec_describe(),
    {
        match self {
            NetworkError::Socket(e) => e.describe(),
            NetworkError::Proxy(e) => e.describe(),
        }
    }
}

impl From<SocketError> for NetworkError {
    fn from(error: SocketError) -> (wrapped: Self) {
        NetworkError::Socket(error)
    }
}

impl FromSpecImpl<SocketError> for NetworkError {
    open spec fn obeys_from_spec() -> bool {
        true
    }

    open spec fn from_spec(error: SocketError) -> Self {
        NetworkError::Socket(error)
    }
}

impl From<ProxyError> for NetworkError {
    fn from(error: ProxyError) -> (wrapped: Self) {
        NetworkError::Proxy(error)
    }
}

impl FromSpecImpl<ProxyError> for NetworkError {
    open spec fn obeys_from_spec() -> bool {
        true
    }

    open spec fn from_spec(error: ProxyError) -> Self {
        NetworkError::Proxy(error)
    }
}

} // verus!
