//! The capability shared by the wire records: decoding, sizing and encoding.
use vstd::prelude::*;

use crate::protocol::message::{copy_sd_header, message_result_view, MessageView};
use crate::protocol::MessageId;
use crate::SD_MESSAGE_ID_VALUE;
use crate::protocol::sd::header::{result_view, HeaderView};
use crate::protocol::sd::{Entry, Options};
use crate::protocol::{sd, Error, Header, Message};

verus! {

/// A record of the SOME/IP wire format.
pub trait WireFormat: Sized {
    /// The value can be encoded.
    spec fn spec_encodable(&self) -> bool;

    /// The bytes of the value.
    spec fn spec_wire(&self) -> Seq<u8>;

    /// Decoding the bytes `s` yields `r`.
    spec fn spec_decodes_to(s: Seq<u8>, r: Result<Self, Error>) -> bool;

    /// Decodes the value at the start of `bytes`.
    fn decode(bytes: &[u8]) -> (r: Result<Self, Error>)
        ensures
            Self::spec_decodes_to(bytes@, r),
    ;

    /// Bytes that `encode` appends.
    fn required_size(&self) -> (r: usize)
        requires
            self.spec_encodable(),
        ensures
            r == self.spec_wire().len(),
    ;

    /// Appends the bytes of the value and returns their count.
    fn encode(&self, out: &mut Vec<u8>) -> (r: usize)
        requires
            self.spec_encodable(),
        ensures
            final(out)@ == old(out)@ + self.spec_wire(),
            r == self.spec_wire().len(),
    ;

    /// An encodable value decodes from its bytes, whatever follows them.
    proof fn lemma_round_trip(&self, rest: Seq<u8>)
        requires
            self.spec_encodable(),
        ensures
            Self::spec_decodes_to(self.spec_wire() + rest, Ok(*self)),
    ;
}

impl WireFormat for Header {
    open spec fn spec_encodable(&self) -> bool {
        self.wf()
    }

    open spec fn spec_wire(&self) -> Seq<u8> {
        self.spec_encode()
    }

    open spec fn spec_decodes_to(s: Seq<u8>, r: Result<Self, Error>) -> bool {
        r == Header::spec_decode(s)
    }

    fn decode(bytes: &[u8]) -> (r: Result<Self, Error>) {
        Header::read(bytes)
    }

    fn required_size(&self) -> (r: usize) {
        Header::required_size(self)
    }

    fn encode(&self, out: &mut Vec<u8>) -> (r: usize) {
        self.write(out)
    }

    proof fn lemma_round_trip(&self, rest: Seq<u8>) {
        Header::lemma_round_trip(*self, rest);
    }
}

impl WireFormat for Entry {
    open spec fn spec_encodable(&self) -> bool {
        self.wf()
    }

    open spec fn spec_wire(&self) -> Seq<u8> {
        self.spec_encode()
    }

    open spec fn spec_decodes_to(s: Seq<u8>, r: Result<Self, Error>) -> bool {
        r == Entry::spec_decode(s)
    }

    fn decode(bytes: &[u8]) -> (r: Result<Self, Error>) {
        Entry::decode(bytes)
    }

    fn required_size(&self) -> (r: usize) {
        proof {
            self.spec_encode_len();
        }
        Entry::required_size(self)
    }

    fn encode(&self, out: &mut Vec<u8>) -> (r: usize) {
        proof {
            self.spec_encode_len();
        }
        Entry::encode(self, out)
    }

    proof fn lemma_round_trip(&self, rest: Seq<u8>) {
        Entry::lemma_round_trip(*self, rest);
    }
}

impl WireFormat for Options {
    open spec fn spec_encodable(&self) -> bool {
        true
    }

    open spec fn spec_wire(&self) -> Seq<u8> {
        self.spec_encode()
    }

    open spec fn spec_decodes_to(s: Seq<u8>, r: Result<Self, Error>) -> bool {
        r == Options::spec_decode(s)
    }

    fn decode(bytes: &[u8]) -> (r: Result<Self, Error>) {
        Options::read(bytes)
    }

    fn required_size(&self) -> (r: usize) {
        self.size()
    }

    fn encode(&self, out: &mut Vec<u8>) -> (r: usize) {
        self.write(out)
    }

    proof fn lemma_round_trip(&self, rest: Seq<u8>) {
        Options::lemma_round_trip(*self, rest);
    }
}

impl WireFormat for sd::Header {
    open spec fn spec_encodable(&self) -> bool {
        self@.wf()
    }

    open spec fn spec_wire(&self) -> Seq<u8> {
        self@.spec_encode()
    }

    open spec fn spec_decodes_to(s: Seq<u8>, r: Result<Self, Error>) -> bool {
        result_view(r) == HeaderView::spec_decode(s)
    }

    fn decode(bytes: &[u8]) -> (r: Result<Self, Error>) {
        sd::Header::decode(bytes)
    }

    fn required_size(&self) -> (r: usize) {
        proof {
            self@.lemma_encode_len();
        }
        sd::Header::required_size(self)
    }

    fn encode(&self, out: &mut Vec<u8>) -> (r: usize) {
        proof {
            self@.lemma_encode_len();
        }
        sd::Header::encode(self, out)
    }

    proof fn lemma_round_trip(&self, rest: Seq<u8>) {
        self@.lemma_round_trip(rest);
    }
}

impl WireFormat for Message {
    open spec fn spec_encodable(&self) -> bool {
        self@.wf()
    }

    open spec fn spec_wire(&self) -> Seq<u8> {
        self@.spec_encode()
    }

    open spec fn spec_decodes_to(s: Seq<u8>, r: Result<Self, Error>) -> bool {
        message_result_view(r) == MessageView::spec_decode(s)
    }

    fn decode(bytes: &[u8]) -> (r: Result<Self, Error>) {
        Message::decode(bytes)
    }

    fn required_size(&self) -> (r: usize) {
        Message::required_size(self)
    }

    fn encode(&self, out: &mut Vec<u8>) -> (r: usize) {
        Message::encode(self, out)
    }

    proof fn lemma_round_trip(&self, rest: Seq<u8>) {
        self@.lemma_round_trip(rest);
    }
}

/// A payload format: the payloads of the messages an application exchanges.
/// Payloads do not identify themselves; the Message ID of the header tells
/// which one to decode.
pub trait PayloadWireFormat: Sized {
    spec fn spec_message_id(&self) -> MessageId;

    /// The SD header the payload is, if it is one.
    spec fn spec_sd_header(&self) -> Option<HeaderView>;

    /// The payload can be encoded.
    spec fn spec_encodable(&self) -> bool;

    /// The bytes of the payload.
    spec fn spec_wire(&self) -> Seq<u8>;

    /// Decoding `s` as the payload of a message with `message_id` yields `r`.
    spec fn spec_decodes_to(message_id: MessageId, s: Seq<u8>, r: Result<Self, Error>) -> bool;

    fn message_id(&self) -> (r: MessageId)
        ensures
            r == self.spec_message_id(),
    ;

    /// The payload as an SD header, if it is one.
    fn as_sd_header(&self) -> (r: Option<&sd::Header>)
        ensures
            r is Some <==> self.spec_sd_header() is Some,
            r is Some ==> r->0@ == self.spec_sd_header()->0,
    ;

    fn decode_with_message_id(message_id: MessageId, bytes: &[u8]) -> (r: Result<Self, Error>)
        ensures
            Self::spec_decodes_to(message_id, bytes@, r),
    ;

    /// A payload that carries `header`.
    fn new_sd_payload(header: &sd::Header) -> (r: Self)
        requires
            header@.wf(),
        ensures
            r.spec_message_id().0 == SD_MESSAGE_ID_VALUE,
            r.spec_sd_header() == Some(header@),
            r.spec_encodable(),
    ;

    fn required_size(&self) -> (r: usize)
        requires
            self.spec_encodable(),
        ensures
            r == self.spec_wire().len(),
    ;

    fn encode(&self, out: &mut Vec<u8>) -> (r: usize)
        requires
            self.spec_encodable(),
        ensures
            final(out)@ == old(out)@ + self.spec_wire(),
            r == self.spec_wire().len(),
    ;
}

/// The payload format of an application that exchanges SD messages only.
#[derive(Clone, Debug, Eq, PartialEq)]
pub struct DiscoveryOnlyPayload {
    header: sd::Header,
}

impl DiscoveryOnlyPayload {
    pub closed spec fn spec_header(&self) -> HeaderView {
        self.header@
    }
}

impl PayloadWireFormat for DiscoveryOnlyPayload {
    open spec fn spec_message_id(&self) -> MessageId {
        MessageId(SD_MESSAGE_ID_VALUE)
    }

    open spec fn spec_sd_header(&self) -> Option<HeaderView> {
        Some(self.spec_header())
    }

    open spec fn spec_encodable(&self) -> bool {
        self.spec_header().wf()
    }

    open spec fn spec_wire(&self) -> Seq<u8> {
        self.spec_header().spec_encode()
    }

    open spec fn spec_decodes_to(message_id: MessageId, s: Seq<u8>, r: Result<Self, Error>) -> bool {
        if message_id.0 == SD_MESSAGE_ID_VALUE {
            match r {
                Ok(p) => HeaderView::spec_decode(s) == Ok::<HeaderView, Error>(p.spec_header()),
                Err(e) => HeaderView::spec_decode(s) == Err::<HeaderView, Error>(e),
            }
        } else {
            r == Err::<Self, Error>(Error::UnsupportedMessageID(message_id.0))
        }
    }

    fn message_id(&self) -> (r: MessageId) {
        MessageId::sd()
    }

    fn as_sd_header(&self) -> Option<&sd::Header> {
        Some(&self.header)
    }

    fn decode_with_message_id(message_id: MessageId, bytes: &[u8]) -> (r: Result<Self, Error>) {
        if message_id.is_sd() {
            match sd::Header::decode(bytes) {
                Ok(header) => Ok(DiscoveryOnlyPayload { header }),
                Err(e) => Err(e),
            }
        } else {
            Err(Error::UnsupportedMessageID(message_id.0))
        }
    }

    fn new_sd_payload(header: &sd::Header) -> (r: Self) {
        DiscoveryOnlyPayload { header: copy_sd_header(header) }
    }

    fn required_size(&self) -> (r: usize) {
        proof {
            self.header@.lemma_encode_len();
        }
        self.header.required_size()
    }

    fn encode(&self, out: &mut Vec<u8>) -> (r: usize) {
        proof {
            self.header@.lemma_encode_len();
        }
        self.header.encode(out)
    }
}

} // verus!
