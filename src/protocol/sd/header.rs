use vstd::prelude::*;

use super::entry::{ENTRY_SIZE, MAX_TTL};
use super::options::IPV4_ENDPOINT_OPTION_SIZE;
use super::{Entry, EventGroupEntry, Flags, Options, OptionsCount, ServiceEntry, TransportProtocol};
use crate::bytes::{be_u32, lemma_u32_be, push_u32_be, read_u32_be, u32_be};
use crate::protocol::Error;

verus! {

/// The SD header: flags, a run of entries and a run of options, each run
/// preceded by its length in bytes.
#[derive(Clone, Debug, PartialEq, Eq)]
pub struct Header {
    pub flags: Flags,
    pub entries: Vec<Entry>,
    pub options: Vec<Options>,
}

/// The value an SD header holds.
pub struct HeaderView {
    pub flags: Flags,
    pub entries: Seq<Entry>,
    pub options: Seq<Options>,
}

impl View for Header {
    type V = HeaderView;

    open spec fn view(&self) -> HeaderView {
        HeaderView { flags: self.flags, entries: self.entries@, options: self.options@ }
    }
}

/// The encodings of `es`, one after the other.
pub open spec fn entries_bytes(es: Seq<Entry>) -> Seq<u8>
    decreases es.len(),
{
    if es.len() == 0 {
        Seq::empty()
    } else {
        entries_bytes(es.drop_last()) + es.last().spec_encode()
    }
}

/// The encodings of `os`, one after the other.
pub open spec fn options_bytes(os: Seq<Options>) -> Seq<u8>
    decreases os.len(),
{
    if os.len() == 0 {
        Seq::empty()
    } else {
        options_bytes(os.drop_last()) + os.last().spec_encode()
    }
}

/// The first `n` entries of `s`, 16 bytes each, or the first error among them.
pub open spec fn parse_entries(s: Seq<u8>, n: nat) -> Result<Seq<Entry>, Error>
    decreases n,
{
    if n == 0 {
        Ok(Seq::empty())
    } else {
        match parse_entries(s, (n - 1) as nat) {
            Err(e) => Err(e),
            Ok(v) => match Entry::spec_decode(s.skip(16 * (n - 1))) {
                Err(e) => Err(e),
                Ok(x) => Ok(v.push(x)),
            },
        }
    }
}

/// The first `n` options of `s`, 12 bytes each, or the first error among them.
pub open spec fn parse_options(s: Seq<u8>, n: nat) -> Result<Seq<Options>, Error>
    decreases n,
{
    if n == 0 {
        Ok(Seq::empty())
    } else {
        match parse_options(s, (n - 1) as nat) {
            Err(e) => Err(e),
            Ok(v) => match Options::spec_decode(s.skip(12 * (n - 1))) {
                Err(e) => Err(e),
                Ok(x) => Ok(v.push(x)),
            },
        }
    }
}

impl HeaderView {
    /// Entries are well formed, and a SOME/IP message carrying the header
    /// fits a 32-bit length.
    pub open spec fn wf(self) -> bool {
        &&& forall|i: int| 0 <= i < self.entries.len() ==> (#[trigger] self.entries[i]).wf()
        &&& 12 + 16 * self.entries.len() + 12 * self.options.len() + 16 <= u32::MAX
    }

    /// Every entry's option runs lie within the options.
    pub open spec fn spec_option_runs_valid(self) -> bool {
        forall|i: int|
            0 <= i < self.entries.len() ==> (#[trigger] self.entries[i]).spec_runs_in_range(
                self.options.len(),
            )
    }

    pub open spec fn spec_size(self) -> nat {
        12 + 16 * self.entries.len() + 12 * self.options.len()
    }

    pub open spec fn spec_encode(self) -> Seq<u8> {
        seq![self.flags.spec_byte(), 0u8, 0u8, 0u8] + u32_be((16 * self.entries.len()) as u32)
            + entries_bytes(self.entries) + u32_be((12 * self.options.len()) as u32)
            + options_bytes(self.options)
    }

    /// The SD header at the start of `s`.
    pub open spec fn spec_decode(s: Seq<u8>) -> Result<HeaderView, Error> {
        if s.len() < 8 {
            Err(Error::UnexpectedEof)
        } else {
            let el = be_u32(s, 4) as int;
            if el % 16 != 0 {
                Err(Error::IncorrectEntriesSize(el as u32))
            } else if s.len() < 12 + el {
                Err(Error::UnexpectedEof)
            } else {
                let ol = be_u32(s, 8 + el) as int;
                if ol % 12 != 0 {
                    Err(Error::IncorrectOptionsSize(ol as u32))
                } else if s.len() < 12 + el + ol {
                    Err(Error::UnexpectedEof)
                } else {
                    match parse_entries(s.subrange(8, 8 + el), (el / 16) as nat) {
                        Err(e) => Err(e),
                        Ok(entries) => match parse_options(
                            s.subrange(12 + el, 12 + el + ol),
                            (ol / 12) as nat,
                        ) {
                            Err(e) => Err(e),
                            Ok(options) => Ok(
                                HeaderView {
                                    flags: Flags::spec_from_byte(s[0]),
                                    entries,
                                    options,
                                },
                            ),
                        },
                    }
                }
            }
        }
    }
}

pub proof fn lemma_entries_bytes_len(es: Seq<Entry>)
    ensures
        entries_bytes(es).len() == 16 * es.len(),
    decreases es.len(),
{
    if es.len() > 0 {
        lemma_entries_bytes_len(es.drop_last());
        es.last().spec_encode_len();
    }
}

pub proof fn lemma_options_bytes_len(os: Seq<Options>)
    ensures
        options_bytes(os).len() == 12 * os.len(),
    decreases os.len(),
{
    if os.len() > 0 {
        lemma_options_bytes_len(os.drop_last());
        os.last().lemma_round_trip(Seq::empty());
    }
}

proof fn lemma_parse_entries_err(s: Seq<u8>, i: nat, n: nat, e: Error)
    requires
        i <= n,
        parse_entries(s, i) == Err::<Seq<Entry>, Error>(e),
    ensures
        parse_entries(s, n) == Err::<Seq<Entry>, Error>(e),
    decreases n - i,
{
    if i < n {
        lemma_parse_entries_err(s, i + 1, n, e);
    }
}

proof fn lemma_parse_options_err(s: Seq<u8>, i: nat, n: nat, e: Error)
    requires
        i <= n,
        parse_options(s, i) == Err::<Seq<Options>, Error>(e),
    ensures
        parse_options(s, n) == Err::<Seq<Options>, Error>(e),
    decreases n - i,
{
    if i < n {
        lemma_parse_options_err(s, i + 1, n, e);
    }
}

proof fn lemma_parse_entries_of_bytes(es: Seq<Entry>, t: Seq<u8>)
    requires
        forall|i: int| 0 <= i < es.len() ==> (#[trigger] es[i]).wf(),
    ensures
        parse_entries(entries_bytes(es) + t, es.len()) == Ok::<Seq<Entry>, Error>(es),
    decreases es.len(),
{
    if es.len() > 0 {
        let init = es.drop_last();
        let x = es.last();
        assert(x == es[es.len() - 1]);
        x.lemma_round_trip(t);
        assert(entries_bytes(es) + t =~= entries_bytes(init) + (x.spec_encode() + t));
        lemma_parse_entries_of_bytes(init, x.spec_encode() + t);
        lemma_entries_bytes_len(init);
        assert((entries_bytes(es) + t).skip(16 * (es.len() - 1)) =~= x.spec_encode() + t);
        assert(init.push(x) =~= es);
    } else {
        assert(es =~= Seq::<Entry>::empty());
    }
}

proof fn lemma_parse_options_of_bytes(os: Seq<Options>, t: Seq<u8>)
    ensures
        parse_options(options_bytes(os) + t, os.len()) == Ok::<Seq<Options>, Error>(os),
    decreases os.len(),
{
    if os.len() > 0 {
        let init = os.drop_last();
        let x = os.last();
        x.lemma_round_trip(t);
        assert(options_bytes(os) + t =~= options_bytes(init) + (x.spec_encode() + t));
        lemma_parse_options_of_bytes(init, x.spec_encode() + t);
        lemma_options_bytes_len(init);
        assert((options_bytes(os) + t).skip(12 * (os.len() - 1)) =~= x.spec_encode() + t);
        assert(init.push(x) =~= os);
    } else {
        assert(os =~= Seq::<Options>::empty());
    }
}

/// Bytes that end before the lengths of the entries and options runs say
/// they should do not decode.
pub proof fn lemma_truncated_sd_header_is_error(s: Seq<u8>)
    requires
        s.len() < 8 || s.len() < 12 + be_u32(s, 4) || (s.len() >= 12 + be_u32(s, 4) && s.len()
            < 12 + be_u32(s, 4) + be_u32(s, 8 + be_u32(s, 4))),
    ensures
        HeaderView::spec_decode(s) is Err,
{
}

impl HeaderView {
    /// The encoding is `spec_size` bytes long.
    pub proof fn lemma_encode_len(self)
        ensures
            self.spec_encode().len() == self.spec_size(),
    {
        lemma_entries_bytes_len(self.entries);
        lemma_options_bytes_len(self.options);
    }

    proof fn lemma_encode_fields(self, rest: Seq<u8>)
        requires
            self.wf(),
        ensures
            ({
                let s = self.spec_encode() + rest;
                let el = 16 * self.entries.len() as int;
                let ol = 12 * self.options.len() as int;
                &&& self.spec_encode().len() == self.spec_size()
                &&& s[0] == self.flags.spec_byte()
                &&& be_u32(s, 4) == el
                &&& be_u32(s, 8 + el) == ol
                &&& s.subrange(8, 8 + el) == entries_bytes(self.entries) + Seq::<u8>::empty()
                &&& s.subrange(12 + el, 12 + el + ol) == options_bytes(self.options) + Seq::<
                    u8,
                >::empty()
            }),
    {
        let el: int = 16 * self.entries.len() as int;
        let ol: int = 12 * self.options.len() as int;
        lemma_entries_bytes_len(self.entries);
        lemma_options_bytes_len(self.options);
        let p0 = seq![self.flags.spec_byte(), 0u8, 0u8, 0u8];
        let p1 = u32_be(el as u32);
        let p2 = entries_bytes(self.entries);
        let p3 = u32_be(ol as u32);
        let p4 = options_bytes(self.options);
        let s = self.spec_encode() + rest;
        assert(s =~= p0 + (p1 + (p2 + (p3 + (p4 + rest)))));
        assert(s.subrange(4, 8) =~= p1);
        lemma_u32_be(el as u32, s, 4);
        assert(s.subrange(8 + el, 12 + el) =~= p3);
        lemma_u32_be(ol as u32, s, 8 + el);
        assert(s.subrange(8, 8 + el) =~= p2 + Seq::<u8>::empty());
        assert(s.subrange(12 + el, 12 + el + ol) =~= p4 + Seq::<u8>::empty());
    }

    /// A well-formed SD header is `spec_size` bytes long and decodes from its
    /// encoding, whatever follows it.
    pub proof fn lemma_round_trip(self, rest: Seq<u8>)
        requires
            self.wf(),
        ensures
            self.spec_encode().len() == self.spec_size(),
            HeaderView::spec_decode(self.spec_encode() + rest) == Ok::<HeaderView, Error>(self),
    {
        let ne = self.entries.len();
        let no = self.options.len();
        self.lemma_encode_fields(rest);
        lemma_parse_entries_of_bytes(self.entries, Seq::empty());
        lemma_parse_options_of_bytes(self.options, Seq::empty());
        self.flags.lemma_byte_round_trip();
        assert((16 * ne) / 16 == ne);
        assert((12 * no) / 12 == no);
    }
}

/// The view of a decoding result.
pub open spec fn result_view(r: Result<Header, Error>) -> Result<HeaderView, Error> {
    match r {
        Ok(h) => Ok(h@),
        Err(e) => Err(e),
    }
}

/// The FindService body that asks for any instance of `service_id`.
pub open spec fn spec_find_entry(service_id: u16) -> ServiceEntry {
    ServiceEntry {
        index_first_options_run: 0,
        index_second_options_run: 0,
        options_count: OptionsCount { first_options_count: 0, second_options_count: 0 },
        service_id,
        instance_id: 0xFFFF,
        major_version: 0xFF,
        ttl: 0x00FF_FFFF,
        minor_version: 0xFFFF_FFFF,
    }
}

/// An entry body with one option in the first run.
pub open spec fn spec_event_group_entry(
    service_id: u16,
    instance_id: u16,
    major_version: u8,
    ttl: u32,
    counter: u8,
    event_group_id: u16,
) -> EventGroupEntry {
    EventGroupEntry {
        index_first_options_run: 0,
        index_second_options_run: 0,
        options_count: OptionsCount { first_options_count: 1, second_options_count: 0 },
        service_id,
        instance_id,
        major_version,
        ttl,
        counter: (counter % 16) as u16,
        event_group_id,
    }
}

impl Header {
    pub fn new(flags: Flags, entries: Vec<Entry>, options: Vec<Options>) -> (r: Self)
        ensures
            r@ == (HeaderView { flags, entries: entries@, options: options@ }),
    {
        Header { flags, entries, options }
    }

    /// An OfferService of one service instance, reachable at the given endpoint.
    pub fn new_service_offer(
        reboot: bool,
        service_id: u16,
        instance_id: u16,
        major_version: u8,
        minor_version: u32,
        ttl: u32,
        client_ip: u32,
        protocol: TransportProtocol,
        client_port: u16,
    ) -> (r: Self)
        ensures
            r@.wf() == (ttl <= MAX_TTL),
            r@ == (HeaderView {
                flags: Flags { reboot, unicast: true },
                entries: seq![
                    Entry::OfferService(
                        ServiceEntry {
                            index_first_options_run: 0,
                            index_second_options_run: 0,
                            options_count: OptionsCount {
                                first_options_count: 1,
                                second_options_count: 0,
                            },
                            service_id,
                            instance_id,
                            major_version,
                            ttl,
                            minor_version,
                        },
                    ),
                ],
                options: seq![Options::IpV4Endpoint { ip: client_ip, protocol, port: client_port }],
            }),
    {
        let entry = Entry::OfferService(
            ServiceEntry {
                index_first_options_run: 0,
                index_second_options_run: 0,
                options_count: OptionsCount::new(1, 0),
                service_id,
                instance_id,
                major_version,
                ttl,
                minor_version,
            },
        );
        let endpoint = Options::IpV4Endpoint { ip: client_ip, protocol, port: client_port };
        let r = Header { flags: Flags::new_sd(reboot), entries: vec![entry], options: vec![endpoint] };
        assert(r@.entries =~= seq![entry]);
        assert(r@.options =~= seq![endpoint]);
        r
    }

    /// One FindService entry per service ID, no options.
    pub fn new_find_services(reboot: bool, service_ids: Vec<u16>) -> (r: Self)
        ensures
            r@.flags == (Flags { reboot, unicast: true }),
            r@.entries.len() == service_ids@.len(),
            forall|i: int|
                0 <= i < service_ids@.len() ==> r@.entries[i] == Entry::FindService(
                    spec_find_entry(#[trigger] service_ids@[i]),
                ),
            r@.options.len() == 0,
    {
        let mut entries: Vec<Entry> = Vec::new();
        let mut i: usize = 0;
        while i < service_ids.len()
            invariant
                i <= service_ids@.len(),
                entries@.len() == i,
                forall|j: int|
                    0 <= j < i ==> entries@[j] == Entry::FindService(
                        spec_find_entry(#[trigger] service_ids@[j]),
                    ),
            decreases service_ids@.len() - i,
        {
            entries.push(Entry::FindService(ServiceEntry::find(service_ids[i])));
            i = i + 1;
        }
        Header { flags: Flags::new_sd(reboot), entries, options: Vec::new() }
    }

    /// A SubscribeEventgroup with the subscriber's endpoint as its option.
    pub fn new_subscription(
        reboot: bool,
        service_id: u16,
        instance_id: u16,
        major_version: u8,
        ttl: u32,
        counter: u8,
        event_group_id: u16,
        client_ip: u32,
        protocol: TransportProtocol,
        client_port: u16,
    ) -> (r: Self)
        ensures
            r@.wf() == (ttl <= MAX_TTL),
            r@ == (HeaderView {
                flags: Flags { reboot, unicast: true },
                entries: seq![
                    Entry::SubscribeEventGroup(
                        spec_event_group_entry(
                            service_id,
                            instance_id,
                            major_version,
                            ttl,
                            counter,
                            event_group_id,
                        ),
                    ),
                ],
                options: seq![Options::IpV4Endpoint { ip: client_ip, protocol, port: client_port }],
            }),
    {
        let entry = Entry::SubscribeEventGroup(
            EventGroupEntry::new(service_id, instance_id, major_version, ttl, counter, event_group_id),
        );
        let endpoint = Options::IpV4Endpoint { ip: client_ip, protocol, port: client_port };
        let r = Header { flags: Flags::new_sd(reboot), entries: vec![entry], options: vec![endpoint] };
        assert(r@.entries =~= seq![entry]);
        assert(r@.options =~= seq![endpoint]);
        r
    }

    /// A SubscribeEventgroupAck, with the reboot flag set; a TTL of 0 makes it
    /// a rejection.
    pub fn subscribe_ack(
        service_id: u16,
        instance_id: u16,
        major_version: u8,
        ttl: u32,
        counter: u8,
        event_group_id: u16,
    ) -> (r: Self)
        ensures
            r@.wf() == (ttl <= MAX_TTL),
            r@ == (HeaderView {
                flags: Flags { reboot: true, unicast: true },
                entries: seq![
                    Entry::SubscribeAckEventGroup(
                        EventGroupEntry {
                            options_count: OptionsCount {
                                first_options_count: 0,
                                second_options_count: 0,
                            },
                            ..spec_event_group_entry(
                                service_id,
                                instance_id,
                                major_version,
                                ttl,
                                counter,
                                event_group_id,
                            )
                        },
                    ),
                ],
                options: Seq::<Options>::empty(),
            }),
    {
        let mut body = EventGroupEntry::new(
            service_id,
            instance_id,
            major_version,
            ttl,
            counter,
            event_group_id,
        );
        body.options_count = OptionsCount::new(0, 0);
        let entry = Entry::SubscribeAckEventGroup(body);
        let r = Header { flags: Flags::new_sd(true), entries: vec![entry], options: Vec::new() };
        assert(r@.entries =~= seq![entry]);
        assert(r@.options =~= Seq::<Options>::empty());
        r
    }

    /// Bytes of the encoded header.
    pub fn required_size(&self) -> (r: usize)
        requires
            self@.wf(),
        ensures
            r == self@.spec_size(),
    {
        12 + self.entries.len() * ENTRY_SIZE + self.options.len() * IPV4_ENDPOINT_OPTION_SIZE
    }

    /// Appends the encoded header and returns its size.
    #[verifier::rlimit(40)]
    pub fn encode(&self, out: &mut Vec<u8>) -> (r: usize)
        requires
            self@.wf(),
        ensures
            final(out)@ == old(out)@ + self@.spec_encode(),
            r == self@.spec_size(),
            r == self@.spec_encode().len(),
    {
        let ghost start = out@;
        let ne = self.entries.len();
        let no = self.options.len();
        out.push(self.flags.to_byte());
        out.push(0);
        out.push(0);
        out.push(0);
        push_u32_be(out, (ne * ENTRY_SIZE) as u32);
        let ghost prefix = out@;
        assert(prefix =~= start + (seq![self.flags.spec_byte(), 0u8, 0u8, 0u8] + u32_be(
            (16 * ne) as u32,
        )));
        let mut i: usize = 0;
        while i < ne
            invariant
                self@.wf(),
                ne == self.entries@.len(),
                i <= ne,
                out@ == prefix + entries_bytes(self.entries@.take(i as int)),
            decreases ne - i,
        {
            assert(self.entries@[i as int].wf());
            self.entries[i].encode(out);
            assert(self.entries@.take(i + 1).drop_last() =~= self.entries@.take(i as int));
            i = i + 1;
        }
        assert(self.entries@.take(ne as int) =~= self.entries@);
        push_u32_be(out, (no * IPV4_ENDPOINT_OPTION_SIZE) as u32);
        let ghost middle = out@;
        assert(middle == prefix + entries_bytes(self.entries@) + u32_be((12 * no) as u32));
        let mut j: usize = 0;
        while j < no
            invariant
                no == self.options@.len(),
                j <= no,
                out@ == middle + options_bytes(self.options@.take(j as int)),
            decreases no - j,
        {
            self.options[j].write(out);
            assert(self.options@.take(j + 1).drop_last() =~= self.options@.take(j as int));
            j = j + 1;
        }
        assert(self.options@.take(no as int) =~= self.options@);
        assert(out@ == middle + options_bytes(self.options@));
        assert(out@ =~= start + self@.spec_encode());
        proof {
            lemma_entries_bytes_len(self.entries@);
            lemma_options_bytes_len(self.options@);
        }
        12 + ne * ENTRY_SIZE + no * IPV4_ENDPOINT_OPTION_SIZE
    }

    /// Decodes the SD header at the start of `bytes`.
    #[verifier::loop_isolation(false)]
    #[verifier::rlimit(80)]
    pub fn decode(bytes: &[u8]) -> (r: Result<Header, Error>)
        ensures
            result_view(r) == HeaderView::spec_decode(bytes@),
    {
        let n = bytes.len();
        if n < 8 {
            return Err(Error::UnexpectedEof);
        }
        let el = read_u32_be(bytes, 4);
        if el % 16 != 0 {
            return Err(Error::IncorrectEntriesSize(el));
        }
        if (n as u64) < 12 + el as u64 {
            return Err(Error::UnexpectedEof);
        }
        let el = el as usize;
        let ol = read_u32_be(bytes, 8 + el);
        if ol % 12 != 0 {
            return Err(Error::IncorrectOptionsSize(ol));
        }
        if (n as u64) < 12 + el as u64 + ol as u64 {
            return Err(Error::UnexpectedEof);
        }
        let ol = ol as usize;
        let entry_region = vstd::slice::slice_subrange(bytes, 8, 8 + el);
        let ghost es = entry_region@;
        assert(es == bytes@.subrange(8, 8 + el as int));
        let ne = el / 16;
        let mut entries: Vec<Entry> = Vec::new();
        let mut i: usize = 0;
        while i < ne
            invariant
                es == entry_region@,
                es == bytes@.subrange(8, 8 + el as int),
                8 + el <= bytes@.len(),
                es.len() == el,
                ne == el / 16,
                i <= ne,
                parse_entries(es, i as nat) == Ok::<Seq<Entry>, Error>(entries@),
            decreases ne - i,
        {
            let item = vstd::slice::slice_subrange(entry_region, 16 * i, el);
            assert(item@ =~= es.skip(16 * i));
            match Entry::decode(item) {
                Ok(e) => {
                    entries.push(e);
                },
                Err(e) => {
                    proof {
                        lemma_parse_entries_err(es, (i + 1) as nat, ne as nat, e);
                    }
                    return Err(e);
                },
            }
            i = i + 1;
        }
        assert(ne as nat == (el / 16) as nat);
        let option_region = vstd::slice::slice_subrange(bytes, 12 + el, 12 + el + ol);
        let ghost os = option_region@;
        assert(os == bytes@.subrange(12 + el as int, 12 + el as int + ol as int));
        let no = ol / 12;
        let mut options: Vec<Options> = Vec::new();
        let mut j: usize = 0;
        while j < no
            invariant
                os == option_region@,
                8 + el <= bytes@.len(),
                parse_entries(bytes@.subrange(8, 8 + el as int), ne as nat) == Ok::<Seq<Entry>, Error>(
                    entries@,
                ),
                os.len() == ol,
                no == ol / 12,
                j <= no,
                parse_options(os, j as nat) == Ok::<Seq<Options>, Error>(options@),
            decreases no - j,
        {
            let item = vstd::slice::slice_subrange(option_region, 12 * j, ol);
            assert(item@ =~= os.skip(12 * j));
            match Options::read(item) {
                Ok(o) => {
                    options.push(o);
                },
                Err(e) => {
                    proof {
                        lemma_parse_options_err(os, (j + 1) as nat, no as nat, e);
                    }
                    return Err(e);
                },
            }
            j = j + 1;
        }
        Ok(Header { flags: Flags::from_byte(bytes[0]), entries, options })
    }
}

impl Header {
    /// Whether the header can be encoded: its entries are well formed and a
    /// message carrying it fits a 32-bit length.
    pub fn is_wf(&self) -> (r: bool)
        ensures
            r == self@.wf(),
    {
        let ne = self.entries.len();
        let no = self.options.len();
        if ne > 0x1000_0000 || no > 0x1555_5555 {
            assert(12 + 16 * self@.entries.len() + 12 * self@.options.len() + 16 > u32::MAX);
            return false;
        }
        if 12 + 16 * (ne as u64) + 12 * (no as u64) + 16 > 0xFFFF_FFFF {
            return false;
        }
        let mut i: usize = 0;
        while i < ne
            invariant
                ne == self.entries@.len(),
                i <= ne,
                forall|j: int| 0 <= j < i ==> (#[trigger] self.entries@[j]).wf(),
            decreases ne - i,
        {
            let ok = match &self.entries[i] {
                Entry::FindService(e) => e.options_count.first_options_count < 16
                    && e.options_count.second_options_count < 16 && e.ttl <= MAX_TTL,
                Entry::OfferService(e) => e.options_count.first_options_count < 16
                    && e.options_count.second_options_count < 16 && e.ttl <= MAX_TTL,
                Entry::StopOfferService(e) => e.options_count.first_options_count < 16
                    && e.options_count.second_options_count < 16 && e.ttl <= MAX_TTL,
                Entry::SubscribeEventGroup(e) => e.options_count.first_options_count < 16
                    && e.options_count.second_options_count < 16 && e.ttl <= MAX_TTL && e.counter
                    < 16,
                Entry::SubscribeAckEventGroup(e) => e.options_count.first_options_count < 16
                    && e.options_count.second_options_count < 16 && e.ttl <= MAX_TTL && e.counter
                    < 16,
            };
            if !ok {
                return false;
            }
            i = i + 1;
        }
        true
    }
}

impl Header {
    /// Whether every entry's option runs lie within the options.
    pub fn option_runs_valid(&self) -> (r: bool)
        ensures
            r == self@.spec_option_runs_valid(),
    {
        let n = self.options.len();
        let mut i: usize = 0;
        while i < self.entries.len()
            invariant
                n == self@.options.len(),
                i <= self@.entries.len(),
                forall|j: int|
                    0 <= j < i ==> (#[trigger] self@.entries[j]).spec_runs_in_range(n as nat),
            decreases self@.entries.len() - i,
        {
            if !self.entries[i].runs_in_range(n) {
                return false;
            }
            i = i + 1;
        }
        true
    }
}

} // verus!
