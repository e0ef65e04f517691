//! Errors of the client and server runtimes.
use vstd::prelude::*;

use crate::protocol;

verus! {

/// Errors of the runtimes, apart from the I/O errors of their sockets.
#[derive(Debug, Clone, PartialEq, Eq)]
pub enum Error {
    /// A wire-format violation.
    ProtocolError(protocol::Error),
    /// A message on the discovery socket whose header is not that of SD.
    UnexpectedDiscoveryMessage(protocol::Header),
    /// An SD header whose content is inconsistent (an option index out of range).
    InvalidSDHeader(protocol::sd::Header),
    SocketClosedUnexpectedly,
    MulticastSocketNotConnected,
    UnicastSocketNotConnected,
    UnicastSocketNotBound,
    Timeout,
}

} // verus!
