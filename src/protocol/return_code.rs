use vstd::prelude::*;

use super::error::Error;

verus! {

/// Return code of a SOME/IP header.
#[derive(Copy, Clone, Debug, PartialEq, Eq, Structural)]
pub enum ReturnCode {
    /// No error (code 0x00).
    Okay,
    NotOk,
    UnknownService,
    UnknownMethod,
    NotReady,
    NotReachable,
    Timeout,
    WrongProtocolVersion,
    WrongInterfaceVersion,
    MalformedMessage,
    WrongMessageType,
    E2ERepeated,
    E2EWrongSequence,
    E2E,
    E2ENotAvailable,
    E2ENoNewData,
    /// A code in 0x10..=0x1F.
    GenericError(u8),
    /// A code in 0x20..=0x5E.
    InterfaceError(u8),
}

impl ReturnCode {
    /// Codes carried by the ranged variants lie in their range.
    pub open spec fn wf(self) -> bool {
        match self {
            ReturnCode::GenericError(v) => 0x10 <= v <= 0x1F,
            ReturnCode::InterfaceError(v) => 0x20 <= v <= 0x5E,
            _ => true,
        }
    }

    pub open spec fn spec_byte(self) -> u8 {
        match self {
            ReturnCode::Okay => 0x00,
            ReturnCode::NotOk => 0x01,
            ReturnCode::UnknownService => 0x02,
            ReturnCode::UnknownMethod => 0x03,
            ReturnCode::NotReady => 0x04,
            ReturnCode::NotReachable => 0x05,
            ReturnCode::Timeout => 0x06,
            ReturnCode::WrongProtocolVersion => 0x07,
            ReturnCode::WrongInterfaceVersion => 0x08,
            ReturnCode::MalformedMessage => 0x09,
            ReturnCode::WrongMessageType => 0x0a,
            ReturnCode::E2ERepeated => 0x0b,
            ReturnCode::E2EWrongSequence => 0x0c,
            ReturnCode::E2E => 0x0d,
            ReturnCode::E2ENotAvailable => 0x0e,
            ReturnCode::E2ENoNewData => 0x0f,
            ReturnCode::GenericError(v) => v,
            ReturnCode::InterfaceError(v) => v,
        }
    }

    pub open spec fn spec_from_byte(b: u8) -> Option<ReturnCode> {
        if b == 0x00 {
            Some(ReturnCode::Okay)
        } else if b == 0x01 {
            Some(ReturnCode::NotOk)
        } else if b == 0x02 {
            Some(ReturnCode::UnknownService)
        } else if b == 0x03 {
            Some(ReturnCode::UnknownMethod)
        } else if b == 0x04 {
            Some(ReturnCode::NotReady)
        } else if b == 0x05 {
            Some(ReturnCode::NotReachable)
        } else if b == 0x06 {
            Some(ReturnCode::Timeout)
        } else if b == 0x07 {
            Some(ReturnCode::WrongProtocolVersion)
        } else if b == 0x08 {
            Some(ReturnCode::WrongInterfaceVersion)
        } else if b == 0x09 {
            Some(ReturnCode::MalformedMessage)
        } else if b == 0x0a {
            Some(ReturnCode::WrongMessageType)
        } else if b == 0x0b {
            Some(ReturnCode::E2ERepeated)
        } else if b == 0x0c {
            Some(ReturnCode::E2EWrongSequence)
        } else if b == 0x0d {
            Some(ReturnCode::E2E)
        } else if b == 0x0e {
            Some(ReturnCode::E2ENotAvailable)
        } else if b == 0x0f {
            Some(ReturnCode::E2ENoNewData)
        } else if b <= 0x1f {
            Some(ReturnCode::GenericError(b))
        } else if b <= 0x5e {
            Some(ReturnCode::InterfaceError(b))
        } else {
            None
        }
    }

    /// Decodes a return code byte.
    pub fn from_byte(value: u8) -> (r: Result<ReturnCode, Error>)
        ensures
            r is Ok <==> Self::spec_from_byte(value) is Some,
            r is Ok ==> Some(r->Ok_0) == Self::spec_from_byte(value),
            r is Err ==> r->Err_0 == Error::InvalidReturnCode(value),
    {
        match value {
            0x00 => Ok(ReturnCode::Okay),
            0x01 => Ok(ReturnCode::NotOk),
            0x02 => Ok(ReturnCode::UnknownService),
            0x03 => Ok(ReturnCode::UnknownMethod),
            0x04 => Ok(ReturnCode::NotReady),
            0x05 => Ok(ReturnCode::NotReachable),
            0x06 => Ok(ReturnCode::Timeout),
            0x07 => Ok(ReturnCode::WrongProtocolVersion),
            0x08 => Ok(ReturnCode::WrongInterfaceVersion),
            0x09 => Ok(ReturnCode::MalformedMessage),
            0x0a => Ok(ReturnCode::WrongMessageType),
            0x0b => Ok(ReturnCode::E2ERepeated),
            0x0c => Ok(ReturnCode::E2EWrongSequence),
            0x0d => Ok(ReturnCode::E2E),
            0x0e => Ok(ReturnCode::E2ENotAvailable),
            0x0f => Ok(ReturnCode::E2ENoNewData),
            0x10..=0x1f => Ok(ReturnCode::GenericError(value)),
            0x20..=0x5e => Ok(ReturnCode::InterfaceError(value)),
            _ => Err(Error::InvalidReturnCode(value)),
        }
    }

    pub fn is_valid(&self) -> (r: bool)
        ensures
            r == self.wf(),
    {
        match self {
            ReturnCode::GenericError(v) => 0x10 <= *v && *v <= 0x1F,
            ReturnCode::InterfaceError(v) => 0x20 <= *v && *v <= 0x5E,
            _ => true,
        }
    }

    pub fn to_byte(self) -> (r: u8)
        ensures
            r == self.spec_byte(),
    {
        match self {
            ReturnCode::Okay => 0x00,
            ReturnCode::NotOk => 0x01,
            ReturnCode::UnknownService => 0x02,
            ReturnCode::UnknownMethod => 0x03,
            ReturnCode::NotReady => 0x04,
            ReturnCode::NotReachable => 0x05,
            ReturnCode::Timeout => 0x06,
            ReturnCode::WrongProtocolVersion => 0x07,
            ReturnCode::WrongInterfaceVersion => 0x08,
            ReturnCode::MalformedMessage => 0x09,
            ReturnCode::WrongMessageType => 0x0a,
            ReturnCode::E2ERepeated => 0x0b,
            ReturnCode::E2EWrongSequence => 0x0c,
            ReturnCode::E2E => 0x0d,
            ReturnCode::E2ENotAvailable => 0x0e,
            ReturnCode::E2ENoNewData => 0x0f,
            ReturnCode::GenericError(value) => value,
            ReturnCode::InterfaceError(value) => value,
        }
    }

    /// A well-formed code decodes from its own byte.
    pub proof fn lemma_byte_round_trip(self)
        requires
            self.wf(),
        ensures
            Self::spec_from_byte(self.spec_byte()) == Some(self),
    {
    }
}

} // verus!
