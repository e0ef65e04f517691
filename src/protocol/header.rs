use vstd::prelude::*;

use super::{Error, MessageId, MessageType, MessageTypeField, ReturnCode};
use crate::bytes::{be_u32, lemma_u32_be, push_u32_be, read_u32_be, u32_be};
use crate::SD_MESSAGE_ID_VALUE;

verus! {

/// Size of the SOME/IP header.
pub const HEADER_SIZE: usize = 16;

/// The one protocol version of SOME/IP.
pub const PROTOCOL_VERSION: u8 = 1;

/// The SOME/IP header.
#[derive(Clone, Copy, Debug, PartialEq, Eq, Structural)]
pub struct Header {
    /// Service ID and method ID.
    pub message_id: MessageId,
    /// Bytes from the session ID to the end of the payload: the message is
    /// `length + 8` bytes long.
    pub length: u32,
    /// Client ID in the upper 16 bits, session counter in the lower 16 bits.
    pub session_id: u32,
    pub protocol_version: u8,
    pub interface_version: u8,
    pub message_type: MessageTypeField,
    pub return_code: ReturnCode,
}

impl Header {
    pub open spec fn wf(self) -> bool {
        self.protocol_version == PROTOCOL_VERSION && self.message_type.wf() && self.return_code.wf()
    }

    /// The 16 bytes of the header.
    pub open spec fn spec_encode(self) -> Seq<u8> {
        u32_be(self.message_id.0) + u32_be(self.length) + u32_be(self.session_id) + seq![
            self.protocol_version,
            self.interface_version,
            self.message_type.spec_byte(),
            self.return_code.spec_byte(),
        ]
    }

    /// The header at the start of `s`.
    pub open spec fn spec_decode(s: Seq<u8>) -> Result<Header, Error> {
        if s.len() < 16 {
            Err(Error::UnexpectedEof)
        } else if s[12] != PROTOCOL_VERSION {
            Err(Error::InvalidProtocolVersion(s[12]))
        } else if MessageType::spec_from_byte(s[14]) is None {
            Err(Error::InvalidMessageTypeField(s[14]))
        } else if ReturnCode::spec_from_byte(s[15]) is None {
            Err(Error::InvalidReturnCode(s[15]))
        } else {
            Ok(
                Header {
                    message_id: MessageId(be_u32(s, 0)),
                    length: be_u32(s, 4),
                    session_id: be_u32(s, 8),
                    protocol_version: s[12],
                    interface_version: s[13],
                    message_type: MessageTypeField(s[14]),
                    return_code: ReturnCode::spec_from_byte(s[15])->0,
                },
            )
        }
    }

    /// The header of a Service Discovery message whose SD payload is
    /// `sd_size` bytes long.
    pub open spec fn spec_sd(session_id: u32, sd_size: nat) -> Header {
        Header {
            message_id: MessageId(SD_MESSAGE_ID_VALUE),
            length: (sd_size + 8) as u32,
            session_id,
            protocol_version: 1,
            interface_version: 1,
            message_type: MessageTypeField(0x02),
            return_code: ReturnCode::Okay,
        }
    }

    pub fn new_sd(session_id: u32, sd_size: usize) -> (r: Self)
        requires
            sd_size + 8 <= u32::MAX,
        ensures
            r == Self::spec_sd(session_id, sd_size as nat),
            r.wf(),
    {
        Header {
            message_id: MessageId::sd(),
            length: (sd_size + 8) as u32,
            session_id,
            protocol_version: 1,
            interface_version: 1,
            message_type: MessageTypeField::new_sd(),
            return_code: ReturnCode::Okay,
        }
    }

    pub fn is_sd(&self) -> (r: bool)
        ensures
            r == (self.message_id.0 == SD_MESSAGE_ID_VALUE),
    {
        self.message_id.is_sd()
    }

    pub fn set_session_id(&mut self, session_id: u32)
        ensures
            *final(self) == (Header { session_id, ..*old(self) }),
    {
        self.session_id = session_id;
    }

    /// Bytes of payload that follow the header.
    pub fn payload_size(&self) -> (r: usize)
        requires
            self.length >= 8,
        ensures
            r == self.length - 8,
    {
        (self.length - 8) as usize
    }

    pub fn required_size(&self) -> (r: usize)
        ensures
            r == self.spec_encode().len(),
    {
        HEADER_SIZE
    }

    /// Appends the 16 header bytes and returns their count.
    pub fn write(&self, out: &mut Vec<u8>) -> (r: usize)
        ensures
            final(out)@ == old(out)@ + self.spec_encode(),
            r == 16,
    {
        push_u32_be(out, self.message_id.0);
        push_u32_be(out, self.length);
        push_u32_be(out, self.session_id);
        out.push(self.protocol_version);
        out.push(self.interface_version);
        out.push(self.message_type.to_byte());
        out.push(self.return_code.to_byte());
        assert(final(out)@ =~= old(out)@ + self.spec_encode());
        16
    }

    /// Decodes the header at the start of `bytes`.
    pub fn read(bytes: &[u8]) -> (r: Result<Header, Error>)
        ensures
            r == Self::spec_decode(bytes@),
            r is Ok ==> r->Ok_0.wf(),
    {
        if bytes.len() < HEADER_SIZE {
            return Err(Error::UnexpectedEof);
        }
        let message_id = read_u32_be(bytes, 0);
        let length = read_u32_be(bytes, 4);
        let session_id = read_u32_be(bytes, 8);
        if bytes[12] != PROTOCOL_VERSION {
            return Err(Error::InvalidProtocolVersion(bytes[12]));
        }
        let message_type = match MessageTypeField::from_byte(bytes[14]) {
            Ok(t) => t,
            Err(e) => return Err(e),
        };
        let return_code = match ReturnCode::from_byte(bytes[15]) {
            Ok(c) => c,
            Err(e) => return Err(e),
        };
        Ok(
            Header {
                message_id: MessageId(message_id),
                length,
                session_id,
                protocol_version: bytes[12],
                interface_version: bytes[13],
                message_type,
                return_code,
            },
        )
    }

    /// A well-formed header decodes from its encoding, whatever follows it.
    pub proof fn lemma_round_trip(self, rest: Seq<u8>)
        requires
            self.wf(),
        ensures
            Self::spec_decode(self.spec_encode() + rest) == Ok::<Header, Error>(self),
    {
        let s = self.spec_encode() + rest;
        assert(s.subrange(0, 4) =~= u32_be(self.message_id.0));
        assert(s.subrange(4, 8) =~= u32_be(self.length));
        assert(s.subrange(8, 12) =~= u32_be(self.session_id));
        lemma_u32_be(self.message_id.0, s, 0);
        lemma_u32_be(self.length, s, 4);
        lemma_u32_be(self.session_id, s, 8);
        self.return_code.lemma_byte_round_trip();
        assert(s[14] == self.message_type.spec_byte());
        assert(s[15] == self.return_code.spec_byte());
    }
}

} // verus!
