//! SOME/IP (Scalable service-Oriented MiddlewarE over IP) for automotive Ethernet.
//!
//! The library holds the wire codec for SOME/IP and its Service Discovery
//! sub-protocol, AUTOSAR E2E Profile 4 and Profile 5 protection, the
//! subscription table of a service provider, and the decisions of the client
//! and server runtimes. Each of them is stated in contracts and proved.
use vstd::prelude::*;

pub mod bytes;
pub mod client;
pub mod e2e;
pub mod error;
pub mod protocol;
pub mod server;
pub mod session;
pub mod traits;

verus! {

/// SD multicast group 239.255.0.255, as a big-endian address value.
pub const SD_MULTICAST_IP: u32 = 0xEFFF_00FF;

/// UDP port of Service Discovery.
pub const SD_MULTICAST_PORT: u16 = 30490;

/// Message ID of Service Discovery messages.
pub const SD_MESSAGE_ID_VALUE: u32 = 0xFFFF_8100;

/// Largest datagram handled by a socket.
pub const MAX_DATAGRAM_SIZE: usize = 1400;

} // verus!
