use vstd::prelude::*;

use crate::SD_MESSAGE_ID_VALUE;

verus! {

/// A 32-bit Message ID: the service ID in the upper 16 bits, the method or
/// event ID in the lower 16 bits.
#[derive(Clone, Copy, Debug, PartialEq, Eq, Structural)]
pub struct MessageId(pub u32);

impl MessageId {
    /// Message ID of Service Discovery.
    pub fn sd() -> (r: Self)
        ensures
            r.0 == SD_MESSAGE_ID_VALUE,
    {
        MessageId(SD_MESSAGE_ID_VALUE)
    }

    pub open spec fn spec_service_id(self) -> u16 {
        (self.0 / 65536) as u16
    }

    pub open spec fn spec_method_id(self) -> u16 {
        (self.0 % 65536) as u16
    }

    pub fn new(message_id: u32) -> (r: Self)
        ensures
            r.0 == message_id,
    {
        MessageId(message_id)
    }

    pub fn new_from_service_and_method(service_id: u16, method_id: u16) -> (r: Self)
        ensures
            r.0 == service_id as int * 65536 + method_id as int,
            r.spec_service_id() == service_id,
            r.spec_method_id() == method_id,
    {
        MessageId((service_id as u32) * 65536 + (method_id as u32))
    }

    pub fn message_id(&self) -> (r: u32)
        ensures
            r == self.0,
    {
        self.0
    }

    pub fn set_message_id(&mut self, message_id: u32)
        ensures
            final(self).0 == message_id,
    {
        self.0 = message_id;
    }

    pub fn service_id(&self) -> (r: u16)
        ensures
            r == self.spec_service_id(),
    {
        (self.0 / 65536) as u16
    }

    /// Replaces the service ID and keeps the method ID.
    pub fn set_service_id(&mut self, service_id: u16)
        ensures
            final(self).spec_service_id() == service_id,
            final(self).spec_method_id() == old(self).spec_method_id(),
    {
        self.0 = (service_id as u32) * 65536 + self.0 % 65536;
    }

    pub fn method_id(&self) -> (r: u16)
        ensures
            r == self.spec_method_id(),
    {
        (self.0 % 65536) as u16
    }

    /// Replaces the method ID and keeps the service ID.
    pub fn set_method_id(&mut self, method_id: u16)
        ensures
            final(self).spec_service_id() == old(self).spec_service_id(),
            final(self).spec_method_id() == method_id,
    {
        self.0 = (self.0 / 65536) * 65536 + (method_id as u32);
    }

    /// True for events and notifications: the high bit of the method ID.
    pub fn is_event(&self) -> (r: bool)
        ensures
            r == (self.spec_method_id() >= 0x8000),
    {
        self.method_id() >= 0x8000
    }

    pub fn is_sd(&self) -> (r: bool)
        ensures
            r == (self.0 == SD_MESSAGE_ID_VALUE),
    {
        self.0 == SD_MESSAGE_ID_VALUE
    }
}

impl From<u32> for MessageId {
    fn from(message_id: u32) -> (r: Self) {
        MessageId(message_id)
    }
}

impl vstd::std_specs::convert::FromSpecImpl<u32> for MessageId {
    open spec fn obeys_from_spec() -> bool {
        true
    }

    open spec fn from_spec(v: u32) -> MessageId {
        MessageId(v)
    }
}

} // verus!
