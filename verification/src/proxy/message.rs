use crate::message::Message;
use vstd::prelude::*;

verus! {

/// What the proxy tells its caller.
#[derive(Debug, PartialEq)]
pub enum ProxyMessage<T: Message> {
    /// A message that the remote side sent.
    Forward(T),
    /// The link dropped; the proxy may open a new one.
    ConnectionResetError,
    /// The proxy has stopped.
    Exit,
}

} // verus!
