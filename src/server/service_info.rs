//! Services, event groups and subscribers.
use vstd::prelude::*;

verus! {

/// An IPv4 socket address: the address as a big-endian value, and a port.
#[derive(Clone, Copy, Debug, PartialEq, Eq, Structural)]
pub struct SocketAddress {
    pub ip: u32,
    pub port: u16,
}

impl SocketAddress {
    pub fn new(ip: u32, port: u16) -> (r: Self)
        ensures
            r == (SocketAddress { ip, port }),
    {
        SocketAddress { ip, port }
    }
}

/// A SOME/IP service being provided.
#[derive(Debug, Clone)]
pub struct ServiceInfo {
    pub service_id: u16,
    pub instance_id: u16,
    pub major_version: u8,
    pub minor_version: u32,
    /// Event groups the service provides.
    pub event_groups: Vec<EventGroupInfo>,
}

/// An event group and the events in it.
#[derive(Debug, Clone)]
pub struct EventGroupInfo {
    pub event_group_id: u16,
    pub event_ids: Vec<u16>,
}

impl EventGroupInfo {
    pub fn new(event_group_id: u16, event_ids: Vec<u16>) -> (r: Self)
        ensures
            r.event_group_id == event_group_id,
            r.event_ids == event_ids,
    {
        EventGroupInfo { event_group_id, event_ids }
    }
}

/// A subscriber to an event group.
#[derive(Debug, Clone, Copy, PartialEq, Eq, Structural)]
pub struct Subscriber {
    /// Where the subscriber receives events.
    pub address: SocketAddress,
    pub event_group_id: u16,
    pub service_id: u16,
    pub instance_id: u16,
}

impl Subscriber {
    pub fn new(address: SocketAddress, service_id: u16, instance_id: u16, event_group_id: u16) -> (r:
        Self)
        ensures
            r == (Subscriber { address, event_group_id, service_id, instance_id }),
    {
        Subscriber { address, event_group_id, service_id, instance_id }
    }
}

} // verus!
