//! The decisions of the SOME/IP client runtime.
use vstd::prelude::*;

pub mod discovery_info;
pub mod inner;

pub use inner::{ClientAction, ClientState, ControlMessage};

use crate::error::Error;
use crate::protocol::message::{MessageView, PayloadView};
use crate::protocol::{sd, Message, Payload};

verus! {

/// A receiver of the messages a client gets, implemented by applications.
pub trait SomeIpMessageHandler {
    fn handle_message(&self, message: &Message);
}

/// What the client runtime reports to its user.
#[derive(Debug)]
pub enum ClientUpdate {
    /// An SD message arrived on the discovery socket.
    DiscoveryUpdated(sd::Header),
    /// A unicast message arrived that answers no request.
    Unicast(Message),
    /// The runtime met an error.
    Error(Error),
}

/// The SD header of a datagram received on the discovery socket; one whose
/// entries reference options it does not hold is invalid.
pub fn decode_discovery(datagram: &[u8]) -> (r: Result<sd::Header, Error>)
    ensures
        match MessageView::spec_decode(datagram@) {
            Ok(m) => match m.payload {
                PayloadView::Discovery(h) => if h.spec_option_runs_valid() {
                    r is Ok && r->Ok_0@ == h
                } else {
                    r matches Err(Error::InvalidSDHeader(x)) && x@ == h
                },
                PayloadView::Raw(_) => r == Err::<sd::Header, Error>(
                    Error::UnexpectedDiscoveryMessage(m.header),
                ),
            },
            Err(e) => r == Err::<sd::Header, Error>(Error::ProtocolError(e)),
        },
{
    match Message::decode(datagram) {
        Ok(m) => match m.payload {
            Payload::Discovery(h) => if h.option_runs_valid() {
                Ok(h)
            } else {
                Err(Error::InvalidSDHeader(h))
            },
            Payload::Raw(_) => Err(Error::UnexpectedDiscoveryMessage(m.header)),
        },
        Err(e) => Err(Error::ProtocolError(e)),
    }
}

/// The message of a datagram received on a unicast socket.
pub fn decode_unicast(datagram: &[u8]) -> (r: Result<Message, Error>)
    ensures
        match MessageView::spec_decode(datagram@) {
            Ok(m) => r is Ok && r->Ok_0@ == m,
            Err(e) => r == Err::<Message, Error>(Error::ProtocolError(e)),
        },
{
    match Message::decode(datagram) {
        Ok(m) => Ok(m),
        Err(e) => Err(Error::ProtocolError(e)),
    }
}

} // verus!
