use vstd::prelude::*;

use super::header::HEADER_SIZE;
use super::{sd, Error, Header, ReturnCode};
use crate::bytes::push_all;
use crate::SD_MESSAGE_ID_VALUE;

verus! {

/// Payload of a message: a Service Discovery header, or the bytes of any
/// other message, left to the application.
#[derive(Clone, Debug, PartialEq, Eq)]
pub enum Payload {
    Discovery(sd::Header),
    Raw(Vec<u8>),
}

/// The value a payload holds.
pub enum PayloadView {
    Discovery(sd::HeaderView),
    Raw(Seq<u8>),
}

impl View for Payload {
    type V = PayloadView;

    open spec fn view(&self) -> PayloadView {
        match self {
            Payload::Discovery(h) => PayloadView::Discovery(h@),
            Payload::Raw(b) => PayloadView::Raw(b@),
        }
    }
}

impl PayloadView {
    pub open spec fn spec_size(self) -> nat {
        match self {
            PayloadView::Discovery(h) => h.spec_size(),
            PayloadView::Raw(b) => b.len(),
        }
    }

    pub open spec fn spec_encode(self) -> Seq<u8> {
        match self {
            PayloadView::Discovery(h) => h.spec_encode(),
            PayloadView::Raw(b) => b,
        }
    }
}

/// A SOME/IP message: header and payload.
#[derive(Clone, Debug, PartialEq, Eq)]
pub struct Message {
    pub header: Header,
    pub payload: Payload,
}

/// The value a message holds.
pub struct MessageView {
    pub header: Header,
    pub payload: PayloadView,
}

impl View for Message {
    type V = MessageView;

    open spec fn view(&self) -> MessageView {
        MessageView { header: self.header, payload: self.payload@ }
    }
}

/// The header fields every Service Discovery message carries: protocol and
/// interface version 1, a notification without TP flag, return code `Okay`.
pub open spec fn sd_header_fields_valid(h: Header) -> bool {
    &&& h.protocol_version == 1
    &&& h.interface_version == 1
    &&& h.message_type.spec_byte() == 0x02
    &&& h.return_code == ReturnCode::Okay
}

impl MessageView {
    /// The header is well formed, its length covers the payload exactly, and
    /// the payload is an SD header exactly when the message ID is that of SD.
    pub open spec fn wf(self) -> bool {
        &&& self.header.wf()
        &&& self.header.length == 8 + self.payload.spec_size()
        &&& self.header.length + 8 <= u32::MAX
        &&& match self.payload {
            PayloadView::Discovery(h) => {
                &&& self.header.message_id.0 == SD_MESSAGE_ID_VALUE
                &&& sd_header_fields_valid(self.header)
                &&& h.wf()
            },
            PayloadView::Raw(_) => self.header.message_id.0 != SD_MESSAGE_ID_VALUE,
        }
    }

    pub open spec fn spec_encode(self) -> Seq<u8> {
        self.header.spec_encode() + self.payload.spec_encode()
    }

    /// The message at the start of `s`.
    pub open spec fn spec_decode(s: Seq<u8>) -> Result<MessageView, Error> {
        match Header::spec_decode(s) {
            Err(e) => Err(e),
            Ok(h) => if h.length < 8 {
                Err(Error::InvalidLength(h.length))
            } else if s.len() < 8 + h.length {
                Err(Error::UnexpectedEof)
            } else {
                let region = s.subrange(16, 8 + h.length);
                if h.message_id.0 == SD_MESSAGE_ID_VALUE {
                    if h.interface_version != 1 {
                        Err(Error::InvalidInterfaceVersion(h.interface_version))
                    } else if h.message_type.spec_byte() != 0x02 {
                        Err(Error::InvalidMessageTypeField(h.message_type.spec_byte()))
                    } else if h.return_code != ReturnCode::Okay {
                        Err(Error::InvalidReturnCode(h.return_code.spec_byte()))
                    } else {
                        match sd::HeaderView::spec_decode(region) {
                            Err(e) => Err(e),
                            Ok(v) => Ok(
                                MessageView { header: h, payload: PayloadView::Discovery(v) },
                            ),
                        }
                    }
                } else {
                    Ok(MessageView { header: h, payload: PayloadView::Raw(region) })
                }
            },
        }
    }

    /// A well-formed message decodes from its encoding, whatever follows it,
    /// and its encoding is `8 + length` bytes long.
    pub proof fn lemma_round_trip(self, rest: Seq<u8>)
        requires
            self.wf(),
        ensures
            self.spec_encode().len() == 8 + self.header.length,
            MessageView::spec_decode(self.spec_encode() + rest) == Ok::<MessageView, Error>(self),
    {
        let s = self.spec_encode() + rest;
        let p = self.payload.spec_encode();
        if let PayloadView::Discovery(h) = self.payload {
            h.lemma_encode_len();
        }
        assert(s =~= self.header.spec_encode() + (p + rest));
        self.header.lemma_round_trip(p + rest);
        assert(s.subrange(16, 8 + self.header.length) =~= p);
        match self.payload {
            PayloadView::Discovery(h) => {
                h.lemma_round_trip(Seq::empty());
                assert(p + Seq::<u8>::empty() =~= p);
            },
            PayloadView::Raw(b) => {},
        }
    }
}

/// A byte sequence shorter than its length prefix says does not decode.
pub proof fn lemma_truncated_message_is_error(s: Seq<u8>)
    requires
        s.len() < 16 || (Header::spec_decode(s) is Ok && s.len() < 8
            + Header::spec_decode(s)->Ok_0.length),
    ensures
        MessageView::spec_decode(s) is Err,
{
}

/// The view of a decoding result.
pub open spec fn message_result_view(r: Result<Message, Error>) -> Result<MessageView, Error> {
    match r {
        Ok(m) => Ok(m@),
        Err(e) => Err(e),
    }
}

/// A copy of the SD header, entry by entry and option by option.
pub fn copy_sd_header(h: &sd::Header) -> (r: sd::Header)
    ensures
        r@ == h@,
{
    let mut entries: Vec<sd::Entry> = Vec::new();
    let mut i: usize = 0;
    while i < h.entries.len()
        invariant
            i <= h.entries@.len(),
            entries@ == h.entries@.take(i as int),
        decreases h.entries@.len() - i,
    {
        entries.push(h.entries[i]);
        i = i + 1;
        assert(entries@ =~= h.entries@.take(i as int));
    }
    let mut options: Vec<sd::Options> = Vec::new();
    let mut j: usize = 0;
    while j < h.options.len()
        invariant
            j <= h.options@.len(),
            options@ == h.options@.take(j as int),
        decreases h.options@.len() - j,
    {
        options.push(h.options[j]);
        j = j + 1;
        assert(options@ =~= h.options@.take(j as int));
    }
    assert(entries@ =~= h.entries@);
    assert(options@ =~= h.options@);
    sd::Header { flags: h.flags, entries, options }
}

impl Message {
    pub fn new(header: Header, payload: Payload) -> (r: Self)
        ensures
            r.header == header,
            r.payload == payload,
    {
        Message { header, payload }
    }

    /// A Service Discovery message carrying `sd_header`.
    pub fn new_sd(session_id: u32, sd_header: &sd::Header) -> (r: Self)
        requires
            sd_header@.wf(),
        ensures
            r@.wf(),
            r.header == Header::spec_sd(session_id, sd_header@.spec_size()),
            r@.payload == PayloadView::Discovery(sd_header@),
    {
        let sd_header_size = sd_header.required_size();
        Message {
            header: Header::new_sd(session_id, sd_header_size),
            payload: Payload::Discovery(copy_sd_header(sd_header)),
        }
    }

    pub fn header(&self) -> (r: &Header)
        ensures
            *r == self.header,
    {
        &self.header
    }

    pub fn payload(&self) -> (r: &Payload)
        ensures
            *r == self.payload,
    {
        &self.payload
    }

    pub fn payload_mut(&mut self) -> (r: &mut Payload)
        ensures
            *r == old(self).payload,
            final(self).payload == *final(r),
            final(self).header == old(self).header,
    {
        &mut self.payload
    }

    pub fn is_sd(&self) -> (r: bool)
        ensures
            r == (self.header.message_id.0 == SD_MESSAGE_ID_VALUE),
    {
        self.header.is_sd()
    }

    pub fn set_session_id(&mut self, session_id: u32)
        ensures
            final(self).header == (Header { session_id, ..old(self).header }),
            final(self).payload == old(self).payload,
    {
        self.header.set_session_id(session_id);
    }

    /// The SD header of a Service Discovery message.
    pub fn get_sd_header(&self) -> (r: Option<&sd::Header>)
        requires
            self.header.message_id.0 == SD_MESSAGE_ID_VALUE,
            self.header.message_type.wf(),
            !self.header.message_type.spec_is_tp(),
        ensures
            match self.payload {
                Payload::Discovery(h) => r == Some(&h),
                Payload::Raw(_) => r is None,
            },
    {
        match &self.payload {
            Payload::Discovery(h) => Some(h),
            Payload::Raw(_) => None,
        }
    }

    pub fn required_size(&self) -> (r: usize)
        requires
            self@.wf(),
        ensures
            r == self@.spec_encode().len(),
    {
        proof {
            if let PayloadView::Discovery(h) = self@.payload {
                h.lemma_encode_len();
            }
        }
        match &self.payload {
            Payload::Discovery(h) => HEADER_SIZE + h.required_size(),
            Payload::Raw(b) => HEADER_SIZE + b.len(),
        }
    }

    /// Appends the encoded message and returns its size.
    pub fn encode(&self, out: &mut Vec<u8>) -> (r: usize)
        requires
            self@.wf(),
        ensures
            final(out)@ == old(out)@ + self@.spec_encode(),
            r == self@.spec_encode().len(),
    {
        let ghost start = out@;
        let n = self.header.write(out);
        let ghost mid = out@;
        let m = match &self.payload {
            Payload::Discovery(h) => h.encode(out),
            Payload::Raw(b) => {
                push_all(out, b.as_slice());
                b.len()
            },
        };
        assert(out@ == mid + self@.payload.spec_encode());
        assert(out@ =~= start + self@.spec_encode());
        n + m
    }

    /// Decodes the message at the start of `bytes`.
    pub fn decode(bytes: &[u8]) -> (r: Result<Message, Error>)
        ensures
            message_result_view(r) == MessageView::spec_decode(bytes@),
    {
        let header = match Header::read(bytes) {
            Ok(h) => h,
            Err(e) => return Err(e),
        };
        if header.length < 8 {
            return Err(Error::InvalidLength(header.length));
        }
        if (bytes.len() as u64) < 8 + header.length as u64 {
            return Err(Error::UnexpectedEof);
        }
        let end = 8 + header.length as usize;
        let region = vstd::slice::slice_subrange(bytes, HEADER_SIZE, end);
        if header.is_sd() {
            if header.interface_version != 1 {
                return Err(Error::InvalidInterfaceVersion(header.interface_version));
            }
            if header.message_type.to_byte() != 0x02 {
                return Err(Error::InvalidMessageTypeField(header.message_type.to_byte()));
            }
            match header.return_code {
                ReturnCode::Okay => {},
                _ => return Err(Error::InvalidReturnCode(header.return_code.to_byte())),
            }
            match sd::Header::decode(region) {
                Ok(h) => Ok(Message { header, payload: Payload::Discovery(h) }),
                Err(e) => Err(e),
            }
        } else {
            Ok(Message { header, payload: Payload::Raw(vstd::slice::slice_to_vec(region)) })
        }
    }
}

impl Message {
    /// Whether the message can be encoded as it stands.
    pub fn is_wf(&self) -> (r: bool)
        ensures
            r == self@.wf(),
    {
        let h = &self.header;
        if !(h.protocol_version == 1 && h.message_type.is_valid() && h.return_code.is_valid()) {
            return false;
        }
        if h.length > 0xFFFF_FFFF - 8 {
            return false;
        }
        match &self.payload {
            Payload::Discovery(sd_header) => {
                if !sd_header.is_wf() {
                    return false;
                }
                h.message_id.0 == SD_MESSAGE_ID_VALUE && h.protocol_version == 1
                    && h.interface_version == 1 && h.message_type.0 == 0x02 && match h.return_code {
                    ReturnCode::Okay => true,
                    _ => false,
                } && h.length as usize == 8 + sd_header.required_size()
            },
            Payload::Raw(b) => h.message_id.0 != SD_MESSAGE_ID_VALUE && (b.len() as u64)
                < 0xFFFF_FFFF && h.length as u64 == 8 + b.len() as u64,
        }
    }
}

} // verus!
