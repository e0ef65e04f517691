use vstd::prelude::*;

use super::error::Error;

verus! {

/// Bit of the message type field that marks a SOME/IP-TP segment.
pub const MESSAGE_TYPE_TP_FLAG: u8 = 0x20;

/// Message types of a SOME/IP message.
#[derive(Clone, Copy, Debug, PartialEq, Eq, Structural)]
pub enum MessageType {
    Request,
    RequestNoReturn,
    Notification,
    Response,
    Error,
}

impl MessageType {
    pub open spec fn spec_byte(self) -> u8 {
        match self {
            MessageType::Request => 0x00,
            MessageType::RequestNoReturn => 0x01,
            MessageType::Notification => 0x02,
            MessageType::Response => 0x80,
            MessageType::Error => 0x81,
        }
    }

    /// The message type of a field byte with the TP flag cleared, if any.
    pub open spec fn spec_from_byte(b: u8) -> Option<MessageType> {
        let v = if b & 0x20 != 0 {
            b - 0x20
        } else {
            b as int
        };
        if v == 0x00 {
            Some(MessageType::Request)
        } else if v == 0x01 {
            Some(MessageType::RequestNoReturn)
        } else if v == 0x02 {
            Some(MessageType::Notification)
        } else if v == 0x80 {
            Some(MessageType::Response)
        } else if v == 0x81 {
            Some(MessageType::Error)
        } else {
            None
        }
    }

    pub fn to_byte(self) -> (r: u8)
        ensures
            r == self.spec_byte(),
    {
        match self {
            MessageType::Request => 0x00,
            MessageType::RequestNoReturn => 0x01,
            MessageType::Notification => 0x02,
            MessageType::Response => 0x80,
            MessageType::Error => 0x81,
        }
    }

    /// Decodes a message type field byte, ignoring its TP flag.
    pub fn from_byte(value: u8) -> (r: Result<MessageType, Error>)
        ensures
            r is Ok <==> Self::spec_from_byte(value) is Some,
            r is Ok ==> Some(r->Ok_0) == Self::spec_from_byte(value),
            r is Err ==> r->Err_0 == Error::InvalidMessageTypeField(value),
    {
        assert((value & 0x20 != 0) ==> value >= 0x20) by (bit_vector);
        let v = if value & MESSAGE_TYPE_TP_FLAG != 0 {
            value - MESSAGE_TYPE_TP_FLAG
        } else {
            value
        };
        if v == 0x00 {
            Ok(MessageType::Request)
        } else if v == 0x01 {
            Ok(MessageType::RequestNoReturn)
        } else if v == 0x02 {
            Ok(MessageType::Notification)
        } else if v == 0x80 {
            Ok(MessageType::Response)
        } else if v == 0x81 {
            Ok(MessageType::Error)
        } else {
            Err(Error::InvalidMessageTypeField(value))
        }
    }
}

/// The message type field: a message type and the TP flag.
#[derive(Clone, Copy, Debug, PartialEq, Eq, Structural)]
pub struct MessageTypeField(pub u8);

impl MessageTypeField {
    /// The field byte.
    pub open spec fn spec_byte(self) -> u8 {
        self.0
    }

    pub open spec fn wf(self) -> bool {
        MessageType::spec_from_byte(self.spec_byte()) is Some
    }

    pub open spec fn spec_message_type(self) -> MessageType {
        MessageType::spec_from_byte(self.spec_byte())->0
    }

    pub open spec fn spec_is_tp(self) -> bool {
        self.spec_byte() & 0x20 != 0
    }

    pub open spec fn spec_new(msg_type: MessageType, tp: bool) -> u8 {
        if tp {
            (msg_type.spec_byte() + 0x20) as u8
        } else {
            msg_type.spec_byte()
        }
    }

    pub fn new(msg_type: MessageType, tp: bool) -> (r: Self)
        ensures
            r.wf(),
            r.spec_byte() == Self::spec_new(msg_type, tp),
            r.spec_message_type() == msg_type,
            r.spec_is_tp() == tp,
    {
        let b = msg_type.to_byte();
        assert((b == 0 || b == 1 || b == 2 || b == 0x80 || b == 0x81) ==> (b & 0x20 == 0 && ((
        b + 0x20) as u8) & 0x20 != 0)) by (bit_vector);
        if tp {
            MessageTypeField(b + MESSAGE_TYPE_TP_FLAG)
        } else {
            MessageTypeField(b)
        }
    }

    /// The field of a Service Discovery message: a notification without TP flag.
    pub fn new_sd() -> (r: Self)
        ensures
            r.wf(),
            r.spec_byte() == 0x02,
            r.spec_message_type() == MessageType::Notification,
            !r.spec_is_tp(),
    {
        Self::new(MessageType::Notification, false)
    }

    /// Accepts a byte whose low bits name a message type.
    pub fn from_byte(value: u8) -> (r: Result<Self, Error>)
        ensures
            r is Ok <==> MessageType::spec_from_byte(value) is Some,
            r is Ok ==> r->Ok_0.spec_byte() == value && r->Ok_0.wf(),
            r is Err ==> r->Err_0 == Error::InvalidMessageTypeField(value),
    {
        match MessageType::from_byte(value) {
            Ok(_) => Ok(MessageTypeField(value)),
            Err(e) => Err(e),
        }
    }

    pub fn to_byte(&self) -> (r: u8)
        ensures
            r == self.spec_byte(),
    {
        self.0
    }

    pub fn is_valid(&self) -> (r: bool)
        ensures
            r == self.wf(),
    {
        MessageType::from_byte(self.0).is_ok()
    }

    pub fn message_type(&self) -> (r: MessageType)
        requires
            self.wf(),
        ensures
            r == self.spec_message_type(),
    {
        match MessageType::from_byte(self.0) {
            Ok(t) => t,
            Err(_) => MessageType::Request,
        }
    }

    pub fn is_tp(&self) -> (r: bool)
        ensures
            r == self.spec_is_tp(),
    {
        self.0 & MESSAGE_TYPE_TP_FLAG != 0
    }
}

impl TryFrom<u8> for MessageTypeField {
    type Error = Error;

    fn try_from(value: u8) -> (r: Result<Self, Error>) {
        let r = Self::from_byte(value);
        assert(r == Self::spec_try_from(value));
        r
    }
}

impl vstd::std_specs::convert::TryFromSpecImpl<u8> for MessageTypeField {
    open spec fn obeys_try_from_spec() -> bool {
        true
    }

    open spec fn try_from_spec(v: u8) -> Result<Self, Error> {
        Self::spec_try_from(v)
    }
}

impl MessageTypeField {
    pub open spec fn spec_try_from(v: u8) -> Result<Self, Error> {
        if MessageType::spec_from_byte(v) is Some {
            Ok(MessageTypeField(v))
        } else {
            Err(Error::InvalidMessageTypeField(v))
        }
    }
}

} // verus!
