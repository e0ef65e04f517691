use vstd::prelude::*;

use crate::bytes::{
    be_u16, be_u24, be_u32, lemma_u16_be, lemma_u24_be, lemma_u32_be, push_u16_be, push_u24_be,
    push_u32_be, read_u16_be, read_u24_be, read_u32_be, u16_be, u24_be, u32_be,
};
use crate::protocol::Error;

verus! {

/// Size of an SD entry: its type byte and 15 bytes of body.
pub const ENTRY_SIZE: usize = 16;

/// Largest TTL: the field is 24 bits wide.
pub const MAX_TTL: u32 = 0x00FF_FFFF;

/// Numbers of options in the first and second option runs of an entry, one
/// nibble each.
#[derive(Clone, Copy, Debug, PartialEq, Eq, Structural)]
pub struct OptionsCount {
    pub first_options_count: u8,
    pub second_options_count: u8,
}

impl OptionsCount {
    pub open spec fn wf(self) -> bool {
        self.first_options_count < 16 && self.second_options_count < 16
    }

    pub open spec fn spec_byte(self) -> u8 {
        (self.first_options_count * 16 + self.second_options_count) as u8
    }

    pub open spec fn spec_from_byte(b: u8) -> OptionsCount {
        OptionsCount { first_options_count: b / 16, second_options_count: b % 16 }
    }

    pub fn new(first_options_count: u8, second_options_count: u8) -> (r: Self)
        requires
            first_options_count < 16,
            second_options_count < 16,
        ensures
            r.wf(),
            r == (OptionsCount { first_options_count, second_options_count }),
    {
        OptionsCount { first_options_count, second_options_count }
    }

    pub fn from_byte(value: u8) -> (r: Self)
        ensures
            r == Self::spec_from_byte(value),
            r.wf(),
    {
        OptionsCount { first_options_count: value / 16, second_options_count: value % 16 }
    }

    pub fn to_byte(self) -> (r: u8)
        requires
            self.wf(),
        ensures
            r == self.spec_byte(),
    {
        self.first_options_count * 16 + self.second_options_count
    }
}

/// Body of the FindService, OfferService and StopOfferService entries.
#[derive(Clone, Copy, Debug, PartialEq, Eq, Structural)]
pub struct ServiceEntry {
    pub index_first_options_run: u8,
    pub index_second_options_run: u8,
    pub options_count: OptionsCount,
    pub service_id: u16,
    pub instance_id: u16,
    pub major_version: u8,
    /// A 24-bit value.
    pub ttl: u32,
    pub minor_version: u32,
}

impl ServiceEntry {
    pub open spec fn wf(self) -> bool {
        self.options_count.wf() && self.ttl <= MAX_TTL
    }

    /// The 15 body bytes.
    pub open spec fn spec_encode(self) -> Seq<u8> {
        seq![self.index_first_options_run, self.index_second_options_run, self.options_count.spec_byte()]
            + u16_be(self.service_id) + u16_be(self.instance_id) + seq![self.major_version]
            + u24_be(self.ttl) + u32_be(self.minor_version)
    }

    /// The body at the start of `s`, which holds at least 15 bytes.
    pub open spec fn spec_decode(s: Seq<u8>) -> ServiceEntry {
        ServiceEntry {
            index_first_options_run: s[0],
            index_second_options_run: s[1],
            options_count: OptionsCount::spec_from_byte(s[2]),
            service_id: be_u16(s, 3),
            instance_id: be_u16(s, 5),
            major_version: s[7],
            ttl: be_u24(s, 8),
            minor_version: be_u32(s, 11),
        }
    }

    /// A FindService body for `service_id` with wildcards for instance,
    /// versions and TTL, referencing no options.
    pub fn find(service_id: u16) -> (r: Self)
        ensures
            r.wf(),
            r == (ServiceEntry {
                index_first_options_run: 0,
                index_second_options_run: 0,
                options_count: OptionsCount { first_options_count: 0, second_options_count: 0 },
                service_id,
                instance_id: 0xFFFF,
                major_version: 0xFF,
                ttl: 0x00FF_FFFF,
                minor_version: 0xFFFF_FFFF,
            }),
    {
        ServiceEntry {
            index_first_options_run: 0,
            index_second_options_run: 0,
            options_count: OptionsCount::new(0, 0),
            service_id,
            instance_id: 0xFFFF,
            major_version: 0xFF,
            ttl: 0x00FF_FFFF,
            minor_version: 0xFFFF_FFFF,
        }
    }

    pub fn decode(bytes: &[u8]) -> (r: Self)
        requires
            bytes@.len() >= 15,
        ensures
            r == Self::spec_decode(bytes@),
            r.wf(),
    {
        ServiceEntry {
            index_first_options_run: bytes[0],
            index_second_options_run: bytes[1],
            options_count: OptionsCount::from_byte(bytes[2]),
            service_id: read_u16_be(bytes, 3),
            instance_id: read_u16_be(bytes, 5),
            major_version: bytes[7],
            ttl: read_u24_be(bytes, 8),
            minor_version: read_u32_be(bytes, 11),
        }
    }

    pub fn encode(&self, out: &mut Vec<u8>)
        requires
            self.wf(),
        ensures
            final(out)@ == old(out)@ + self.spec_encode(),
    {
        out.push(self.index_first_options_run);
        out.push(self.index_second_options_run);
        out.push(self.options_count.to_byte());
        push_u16_be(out, self.service_id);
        push_u16_be(out, self.instance_id);
        out.push(self.major_version);
        push_u24_be(out, self.ttl);
        push_u32_be(out, self.minor_version);
        assert(final(out)@ =~= old(out)@ + self.spec_encode());
    }

    pub proof fn lemma_round_trip(self, rest: Seq<u8>)
        requires
            self.wf(),
        ensures
            Self::spec_decode(self.spec_encode() + rest) == self,
            self.spec_encode().len() == 15,
    {
        let s = self.spec_encode() + rest;
        assert(s.subrange(3, 5) =~= u16_be(self.service_id));
        assert(s.subrange(5, 7) =~= u16_be(self.instance_id));
        assert(s.subrange(8, 11) =~= u24_be(self.ttl));
        assert(s.subrange(11, 15) =~= u32_be(self.minor_version));
        lemma_u16_be(self.service_id, s, 3);
        lemma_u16_be(self.instance_id, s, 5);
        lemma_u24_be(self.ttl, s, 8);
        lemma_u32_be(self.minor_version, s, 11);
        assert(s[2] == self.options_count.spec_byte());
    }
}

/// Body of the SubscribeEventgroup and SubscribeEventgroupAck entries.
#[derive(Clone, Copy, Debug, PartialEq, Eq, Structural)]
pub struct EventGroupEntry {
    pub index_first_options_run: u8,
    pub index_second_options_run: u8,
    pub options_count: OptionsCount,
    pub service_id: u16,
    pub instance_id: u16,
    pub major_version: u8,
    /// A 24-bit value; 0 in an acknowledgement means rejection.
    pub ttl: u32,
    /// Only the low 4 bits are significant.
    pub counter: u16,
    pub event_group_id: u16,
}

impl EventGroupEntry {
    pub open spec fn wf(self) -> bool {
        self.options_count.wf() && self.ttl <= MAX_TTL && self.counter < 16
    }

    /// The 15 body bytes.
    pub open spec fn spec_encode(self) -> Seq<u8> {
        seq![self.index_first_options_run, self.index_second_options_run, self.options_count.spec_byte()]
            + u16_be(self.service_id) + u16_be(self.instance_id) + seq![self.major_version]
            + u24_be(self.ttl) + u16_be(self.counter) + u16_be(self.event_group_id)
    }

    /// The body at the start of `s`, which holds at least 15 bytes.
    pub open spec fn spec_decode(s: Seq<u8>) -> EventGroupEntry {
        EventGroupEntry {
            index_first_options_run: s[0],
            index_second_options_run: s[1],
            options_count: OptionsCount::spec_from_byte(s[2]),
            service_id: be_u16(s, 3),
            instance_id: be_u16(s, 5),
            major_version: s[7],
            ttl: be_u24(s, 8),
            counter: (be_u16(s, 11) % 16) as u16,
            event_group_id: be_u16(s, 13),
        }
    }

    /// A body with one option in the first run; the counter keeps its low 4 bits.
    pub fn new(
        service_id: u16,
        instance_id: u16,
        major_version: u8,
        ttl: u32,
        counter: u8,
        event_group_id: u16,
    ) -> (r: Self)
        ensures
            r.wf() == (ttl <= MAX_TTL),
            r == (EventGroupEntry {
                index_first_options_run: 0,
                index_second_options_run: 0,
                options_count: OptionsCount { first_options_count: 1, second_options_count: 0 },
                service_id,
                instance_id,
                major_version,
                ttl,
                counter: (counter % 16) as u16,
                event_group_id,
            }),
    {
        EventGroupEntry {
            index_first_options_run: 0,
            index_second_options_run: 0,
            options_count: OptionsCount::new(1, 0),
            service_id,
            instance_id,
            major_version,
            ttl,
            counter: (counter % 16) as u16,
            event_group_id,
        }
    }

    pub fn decode(bytes: &[u8]) -> (r: Self)
        requires
            bytes@.len() >= 15,
        ensures
            r == Self::spec_decode(bytes@),
            r.wf(),
    {
        EventGroupEntry {
            index_first_options_run: bytes[0],
            index_second_options_run: bytes[1],
            options_count: OptionsCount::from_byte(bytes[2]),
            service_id: read_u16_be(bytes, 3),
            instance_id: read_u16_be(bytes, 5),
            major_version: bytes[7],
            ttl: read_u24_be(bytes, 8),
            counter: read_u16_be(bytes, 11) % 16,
            event_group_id: read_u16_be(bytes, 13),
        }
    }

    pub fn encode(&self, out: &mut Vec<u8>)
        requires
            self.wf(),
        ensures
            final(out)@ == old(out)@ + self.spec_encode(),
    {
        out.push(self.index_first_options_run);
        out.push(self.index_second_options_run);
        out.push(self.options_count.to_byte());
        push_u16_be(out, self.service_id);
        push_u16_be(out, self.instance_id);
        out.push(self.major_version);
        push_u24_be(out, self.ttl);
        push_u16_be(out, self.counter);
        push_u16_be(out, self.event_group_id);
        assert(final(out)@ =~= old(out)@ + self.spec_encode());
    }

    pub proof fn lemma_round_trip(self, rest: Seq<u8>)
        requires
            self.wf(),
        ensures
            Self::spec_decode(self.spec_encode() + rest) == self,
            self.spec_encode().len() == 15,
    {
        let s = self.spec_encode() + rest;
        assert(s.subrange(3, 5) =~= u16_be(self.service_id));
        assert(s.subrange(5, 7) =~= u16_be(self.instance_id));
        assert(s.subrange(8, 11) =~= u24_be(self.ttl));
        assert(s.subrange(11, 13) =~= u16_be(self.counter));
        assert(s.subrange(13, 15) =~= u16_be(self.event_group_id));
        lemma_u16_be(self.service_id, s, 3);
        lemma_u16_be(self.instance_id, s, 5);
        lemma_u24_be(self.ttl, s, 8);
        lemma_u16_be(self.counter, s, 11);
        lemma_u16_be(self.event_group_id, s, 13);
        assert(s[2] == self.options_count.spec_byte());
    }
}

/// An SD entry.
#[derive(Clone, Copy, Debug, PartialEq, Eq, Structural)]
pub enum Entry {
    FindService(ServiceEntry),
    OfferService(ServiceEntry),
    StopOfferService(ServiceEntry),
    SubscribeEventGroup(EventGroupEntry),
    SubscribeAckEventGroup(EventGroupEntry),
}

impl Entry {
    pub open spec fn wf(self) -> bool {
        match self {
            Entry::FindService(e) => e.wf(),
            Entry::OfferService(e) => e.wf(),
            Entry::StopOfferService(e) => e.wf(),
            Entry::SubscribeEventGroup(e) => e.wf(),
            Entry::SubscribeAckEventGroup(e) => e.wf(),
        }
    }

    pub open spec fn spec_options_count(self) -> OptionsCount {
        match self {
            Entry::FindService(e) => e.options_count,
            Entry::OfferService(e) => e.options_count,
            Entry::StopOfferService(e) => e.options_count,
            Entry::SubscribeEventGroup(e) => e.options_count,
            Entry::SubscribeAckEventGroup(e) => e.options_count,
        }
    }

    pub open spec fn spec_index_first(self) -> u8 {
        match self {
            Entry::FindService(e) => e.index_first_options_run,
            Entry::OfferService(e) => e.index_first_options_run,
            Entry::StopOfferService(e) => e.index_first_options_run,
            Entry::SubscribeEventGroup(e) => e.index_first_options_run,
            Entry::SubscribeAckEventGroup(e) => e.index_first_options_run,
        }
    }

    pub open spec fn spec_index_second(self) -> u8 {
        match self {
            Entry::FindService(e) => e.index_second_options_run,
            Entry::OfferService(e) => e.index_second_options_run,
            Entry::StopOfferService(e) => e.index_second_options_run,
            Entry::SubscribeEventGroup(e) => e.index_second_options_run,
            Entry::SubscribeAckEventGroup(e) => e.index_second_options_run,
        }
    }

    /// Both option runs of the entry lie within `n` options.
    pub open spec fn spec_runs_in_range(self, n: nat) -> bool {
        let oc = self.spec_options_count();
        &&& (oc.first_options_count == 0 || self.spec_index_first() + oc.first_options_count <= n)
        &&& (oc.second_options_count == 0 || self.spec_index_second() + oc.second_options_count
            <= n)
    }

    /// Whether both option runs of the entry lie within `n` options.
    pub fn runs_in_range(&self, n: usize) -> (r: bool)
        ensures
            r == self.spec_runs_in_range(n as nat),
    {
        let (index_first, index_second) = match self {
            Entry::FindService(e) => (e.index_first_options_run, e.index_second_options_run),
            Entry::OfferService(e) => (e.index_first_options_run, e.index_second_options_run),
            Entry::StopOfferService(e) => (e.index_first_options_run, e.index_second_options_run),
            Entry::SubscribeEventGroup(e) => (e.index_first_options_run, e.index_second_options_run),
            Entry::SubscribeAckEventGroup(e) => (
                e.index_first_options_run,
                e.index_second_options_run,
            ),
        };
        let first = self.first_options_count() as usize;
        let second = self.second_options_count() as usize;
        (first == 0 || index_first as usize + first <= n) && (second == 0 || index_second as usize
            + second <= n)
    }

    /// The 16 bytes of the entry: type byte, then body.
    pub open spec fn spec_encode(self) -> Seq<u8> {
        match self {
            Entry::FindService(e) => seq![0x00u8] + e.spec_encode(),
            Entry::OfferService(e) => seq![0x01u8] + e.spec_encode(),
            Entry::StopOfferService(e) => seq![0x02u8] + e.spec_encode(),
            Entry::SubscribeEventGroup(e) => seq![0x06u8] + e.spec_encode(),
            Entry::SubscribeAckEventGroup(e) => seq![0x07u8] + e.spec_encode(),
        }
    }

    /// The entry at the start of `s`.
    pub open spec fn spec_decode(s: Seq<u8>) -> Result<Entry, Error> {
        if s.len() < 16 {
            Err(Error::UnexpectedEof)
        } else if s[0] == 0x00 {
            Ok(Entry::FindService(ServiceEntry::spec_decode(s.skip(1))))
        } else if s[0] == 0x01 {
            Ok(Entry::OfferService(ServiceEntry::spec_decode(s.skip(1))))
        } else if s[0] == 0x02 {
            Ok(Entry::StopOfferService(ServiceEntry::spec_decode(s.skip(1))))
        } else if s[0] == 0x06 {
            Ok(Entry::SubscribeEventGroup(EventGroupEntry::spec_decode(s.skip(1))))
        } else if s[0] == 0x07 {
            Ok(Entry::SubscribeAckEventGroup(EventGroupEntry::spec_decode(s.skip(1))))
        } else {
            Err(Error::InvalidSDEntryType(s[0]))
        }
    }

    pub fn first_options_count(&self) -> (r: u8)
        ensures
            r == self.spec_options_count().first_options_count,
    {
        match self {
            Entry::FindService(e) => e.options_count.first_options_count,
            Entry::OfferService(e) => e.options_count.first_options_count,
            Entry::StopOfferService(e) => e.options_count.first_options_count,
            Entry::SubscribeEventGroup(e) => e.options_count.first_options_count,
            Entry::SubscribeAckEventGroup(e) => e.options_count.first_options_count,
        }
    }

    pub fn second_options_count(&self) -> (r: u8)
        ensures
            r == self.spec_options_count().second_options_count,
    {
        match self {
            Entry::FindService(e) => e.options_count.second_options_count,
            Entry::OfferService(e) => e.options_count.second_options_count,
            Entry::StopOfferService(e) => e.options_count.second_options_count,
            Entry::SubscribeEventGroup(e) => e.options_count.second_options_count,
            Entry::SubscribeAckEventGroup(e) => e.options_count.second_options_count,
        }
    }

    /// Options referenced by both runs of a well-formed entry.
    pub fn total_options_count(&self) -> (r: u8)
        requires
            self.spec_options_count().wf(),
        ensures
            r == self.spec_options_count().first_options_count
                + self.spec_options_count().second_options_count,
    {
        self.first_options_count() + self.second_options_count()
    }

    pub fn required_size(&self) -> (r: usize)
        ensures
            r == ENTRY_SIZE,
    {
        ENTRY_SIZE
    }

    /// Decodes the entry at the start of `bytes`.
    pub fn decode(bytes: &[u8]) -> (r: Result<Entry, Error>)
        ensures
            r == Self::spec_decode(bytes@),
            r is Ok ==> r->Ok_0.wf(),
    {
        if bytes.len() < ENTRY_SIZE {
            return Err(Error::UnexpectedEof);
        }
        let body = vstd::slice::slice_subrange(bytes, 1, bytes.len());
        assert(body@ =~= bytes@.skip(1));
        let entry_type = bytes[0];
        if entry_type == 0x00 {
            Ok(Entry::FindService(ServiceEntry::decode(body)))
        } else if entry_type == 0x01 {
            Ok(Entry::OfferService(ServiceEntry::decode(body)))
        } else if entry_type == 0x02 {
            Ok(Entry::StopOfferService(ServiceEntry::decode(body)))
        } else if entry_type == 0x06 {
            Ok(Entry::SubscribeEventGroup(EventGroupEntry::decode(body)))
        } else if entry_type == 0x07 {
            Ok(Entry::SubscribeAckEventGroup(EventGroupEntry::decode(body)))
        } else {
            Err(Error::InvalidSDEntryType(entry_type))
        }
    }

    /// Appends the 16 bytes of the entry and returns their count.
    pub fn encode(&self, out: &mut Vec<u8>) -> (r: usize)
        requires
            self.wf(),
        ensures
            final(out)@ == old(out)@ + self.spec_encode(),
            r == ENTRY_SIZE,
    {
        let ghost start = out@;
        match self {
            Entry::FindService(e) => {
                out.push(0x00);
                e.encode(out);
            },
            Entry::OfferService(e) => {
                out.push(0x01);
                e.encode(out);
            },
            Entry::StopOfferService(e) => {
                out.push(0x02);
                e.encode(out);
            },
            Entry::SubscribeEventGroup(e) => {
                out.push(0x06);
                e.encode(out);
            },
            Entry::SubscribeAckEventGroup(e) => {
                out.push(0x07);
                e.encode(out);
            },
        }
        assert(out@ =~= start + self.spec_encode());
        ENTRY_SIZE
    }

    pub proof fn spec_encode_len(self)
        ensures
            self.spec_encode().len() == 16,
    {
    }

    /// A well-formed entry is 16 bytes and decodes from its encoding,
    /// whatever follows it.
    pub proof fn lemma_round_trip(self, rest: Seq<u8>)
        requires
            self.wf(),
        ensures
            self.spec_encode().len() == 16,
            Self::spec_decode(self.spec_encode() + rest) == Ok::<Entry, Error>(self),
    {
        let s = self.spec_encode() + rest;
        match self {
            Entry::FindService(e) => {
                e.lemma_round_trip(rest);
                assert(s.skip(1) =~= e.spec_encode() + rest);
            },
            Entry::OfferService(e) => {
                e.lemma_round_trip(rest);
                assert(s.skip(1) =~= e.spec_encode() + rest);
            },
            Entry::StopOfferService(e) => {
                e.lemma_round_trip(rest);
                assert(s.skip(1) =~= e.spec_encode() + rest);
            },
            Entry::SubscribeEventGroup(e) => {
                e.lemma_round_trip(rest);
                assert(s.skip(1) =~= e.spec_encode() + rest);
            },
            Entry::SubscribeAckEventGroup(e) => {
                e.lemma_round_trip(rest);
                assert(s.skip(1) =~= e.spec_encode() + rest);
            },
        }
    }
}

} // verus!
