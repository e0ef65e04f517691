//! The endpoints a client has discovered from OfferService entries.
use vstd::prelude::*;

use crate::error::Error;
use crate::protocol::message::copy_sd_header;
use crate::protocol::sd::{self, Entry, Options, ServiceEntry, TransportProtocol};

verus! {

/// A service instance and the IPv4 endpoint where it is offered.
#[derive(Clone, Copy, Debug, Eq, Hash, PartialEq, Structural)]
pub struct DiscoveredIpV4Endpoint {
    pub service_id: u16,
    pub instance_id: u16,
    /// Address as a big-endian value.
    pub ip: u32,
    pub protocol: TransportProtocol,
    pub port: u16,
}

/// When an endpoint was last offered.
#[derive(Clone, Copy, Debug, PartialEq, Eq, Structural)]
pub struct EndpointInfo {
    /// Milliseconds since the Unix epoch.
    pub last_seen: i64,
}

/// The endpoint an offer names through its first option run.
pub open spec fn spec_discovered(e: ServiceEntry, option: Options) -> DiscoveredIpV4Endpoint {
    match option {
        Options::IpV4Endpoint { ip, protocol, port } => DiscoveredIpV4Endpoint {
            service_id: e.service_id,
            instance_id: e.instance_id,
            ip,
            protocol,
            port,
        },
    }
}

/// The table after seeing `key` at time `now`: its time is refreshed, or it
/// is added at the end.
pub open spec fn spec_record(
    v: Seq<(DiscoveredIpV4Endpoint, EndpointInfo)>,
    key: DiscoveredIpV4Endpoint,
    now: i64,
) -> Seq<(DiscoveredIpV4Endpoint, EndpointInfo)> {
    if exists|i: int| 0 <= i < v.len() && v[i].0 == key {
        let i = choose|i: int| 0 <= i < v.len() && v[i].0 == key;
        v.update(i, (key, EndpointInfo { last_seen: now }))
    } else {
        v.push((key, EndpointInfo { last_seen: now }))
    }
}

/// An offer is consistent when it references an option and its first run
/// starts at an existing option.
pub open spec fn spec_offer_valid(e: ServiceEntry, options: Seq<Options>) -> bool {
    e.options_count.first_options_count + e.options_count.second_options_count != 0
        && (e.index_first_options_run as int) < options.len()
}

/// The table after a run of entries, and whether every offer among them was
/// consistent; processing stops at the first inconsistent one.
pub open spec fn spec_update(
    v: Seq<(DiscoveredIpV4Endpoint, EndpointInfo)>,
    options: Seq<Options>,
    es: Seq<Entry>,
    now: i64,
) -> (Seq<(DiscoveredIpV4Endpoint, EndpointInfo)>, bool)
    decreases es.len(),
{
    if es.len() == 0 {
        (v, true)
    } else {
        let (w, ok) = spec_update(v, options, es.drop_last(), now);
        if !ok {
            (w, false)
        } else {
            match es.last() {
                Entry::OfferService(e) => if spec_offer_valid(e, options) {
                    (
                        spec_record(
                            w,
                            spec_discovered(e, options[e.index_first_options_run as int]),
                            now,
                        ),
                        true,
                    )
                } else {
                    (w, false)
                },
                _ => (w, true),
            }
        }
    }
}

/// Keys appear once.
pub open spec fn keys_unique(v: Seq<(DiscoveredIpV4Endpoint, EndpointInfo)>) -> bool {
    forall|i: int, j: int| 0 <= i < v.len() && 0 <= j < v.len() && i != j ==> v[i].0 != v[j].0
}

proof fn lemma_update_stops(
    v: Seq<(DiscoveredIpV4Endpoint, EndpointInfo)>,
    options: Seq<Options>,
    es: Seq<Entry>,
    now: i64,
    i: int,
)
    requires
        0 <= i <= es.len(),
        !spec_update(v, options, es.take(i), now).1,
    ensures
        spec_update(v, options, es, now) == spec_update(v, options, es.take(i), now),
    decreases es.len() - i,
{
    if i < es.len() {
        assert(es.take(i + 1).drop_last() =~= es.take(i));
        lemma_update_stops(v, options, es, now, i + 1);
    } else {
        assert(es.take(i) =~= es);
    }
}

/// Discovered endpoints with the time each was last offered.
#[derive(Clone, Debug)]
pub struct DiscoveryInfo {
    endpoints: Vec<(DiscoveredIpV4Endpoint, EndpointInfo)>,
}

impl View for DiscoveryInfo {
    type V = Seq<(DiscoveredIpV4Endpoint, EndpointInfo)>;

    closed spec fn view(&self) -> Seq<(DiscoveredIpV4Endpoint, EndpointInfo)> {
        self.endpoints@
    }
}

impl DiscoveryInfo {
    pub open spec fn wf(&self) -> bool {
        keys_unique(self@)
    }

    pub fn new() -> (r: Self)
        ensures
            r.wf(),
            r@ == Seq::<(DiscoveredIpV4Endpoint, EndpointInfo)>::empty(),
    {
        let r = DiscoveryInfo { endpoints: Vec::new() };
        assert(r@ =~= Seq::<(DiscoveredIpV4Endpoint, EndpointInfo)>::empty());
        r
    }

    /// The discovered endpoints, in the order they were first offered.
    pub fn endpoints(&self) -> (r: &Vec<(DiscoveredIpV4Endpoint, EndpointInfo)>)
        ensures
            r@ == self@,
    {
        &self.endpoints
    }

    fn copy(&self) -> (r: Self)
        ensures
            r@ == self@,
    {
        let mut endpoints: Vec<(DiscoveredIpV4Endpoint, EndpointInfo)> = Vec::new();
        let mut i: usize = 0;
        while i < self.endpoints.len()
            invariant
                i <= self@.len(),
                self@ == self.endpoints@,
                endpoints@ == self@.take(i as int),
            decreases self@.len() - i,
        {
            endpoints.push(self.endpoints[i]);
            i = i + 1;
            assert(endpoints@ =~= self@.take(i as int));
        }
        assert(endpoints@ =~= self@);
        DiscoveryInfo { endpoints }
    }

    fn record(&mut self, key: DiscoveredIpV4Endpoint, now: i64)
        requires
            old(self).wf(),
        ensures
            final(self).wf(),
            final(self)@ == spec_record(old(self)@, key, now),
    {
        let ghost v = self@;
        let mut i: usize = 0;
        while i < self.endpoints.len()
            invariant
                i <= v.len(),
                self@ == v,
                v == old(self)@,
                v == self.endpoints@,
                keys_unique(v),
                forall|j: int| 0 <= j < i ==> v[j].0 != key,
            decreases v.len() - i,
        {
            if self.endpoints[i].0 == key {
                assert(v[i as int].0 == key);
                let ghost c = choose|c: int| 0 <= c < v.len() && v[c].0 == key;
                assert(c == i);
                self.endpoints.set(i, (key, EndpointInfo { last_seen: now }));
                assert(keys_unique(self@)) by {
                    assert forall|a: int, b: int|
                        0 <= a < self@.len() && 0 <= b < self@.len() && a != b implies self@[a].0
                        != self@[b].0 by {
                        if a == i {
                            assert(v[b].0 != key);
                        } else if b == i {
                            assert(v[a].0 != key);
                        }
                    }
                }
                return ;
            }
            i = i + 1;
        }
        self.endpoints.push((key, EndpointInfo { last_seen: now }));
        assert(keys_unique(self@)) by {
            assert forall|a: int, b: int|
                0 <= a < self@.len() && 0 <= b < self@.len() && a != b implies self@[a].0
                != self@[b].0 by {
                if a == v.len() {
                    assert(self@[b] == v[b]);
                } else if b == v.len() {
                    assert(self@[a] == v[a]);
                }
            }
        }
    }

    /// Records the endpoint of every OfferService entry as seen at `now`.
    /// An offer that references no option, or whose first run starts past the
    /// options, makes the header invalid: processing stops there and the
    /// header comes back in the error. Returns a copy of the table.
    pub fn update_at(&mut self, sd_header: &sd::Header, now: i64) -> (r: Result<DiscoveryInfo, Error>)
        requires
            old(self).wf(),
        ensures
            final(self).wf(),
            ({
                let (w, ok) = spec_update(old(self)@, sd_header@.options, sd_header@.entries, now);
                &&& final(self)@ == w
                &&& ok ==> r is Ok && r->Ok_0@ == w
                &&& !ok ==> (r matches Err(Error::InvalidSDHeader(h)) && h@ == sd_header@)
            }),
    {
        let ghost v0 = self@;
        let n = sd_header.entries.len();
        let mut i: usize = 0;
        while i < n
            invariant
                self.wf(),
                v0 == old(self)@,
                n == sd_header@.entries.len(),
                i <= n,
                spec_update(v0, sd_header@.options, sd_header@.entries.take(i as int), now) == (
                self@,
                true,
                ),
            decreases n - i,
        {
            let entry = sd_header.entries[i];
            proof {
                assert(sd_header@.entries.take(i + 1).drop_last() =~= sd_header@.entries.take(
                    i as int,
                ));
                assert(sd_header@.entries.take(i + 1).last() == entry);
            }
            if let Entry::OfferService(e) = entry {
                let count = e.options_count.first_options_count as u16
                    + e.options_count.second_options_count as u16;
                let index = e.index_first_options_run as usize;
                if count == 0 || index >= sd_header.options.len() {
                    proof {
                        lemma_update_stops(
                            v0,
                            sd_header@.options,
                            sd_header@.entries,
                            now,
                            i + 1,
                        );
                    }
                    let h = copy_sd_header(sd_header);
                    return Err(Error::InvalidSDHeader(h));
                }
                match sd_header.options[index] {
                    Options::IpV4Endpoint { ip, protocol, port } => {
                        let key = DiscoveredIpV4Endpoint {
                            service_id: e.service_id,
                            instance_id: e.instance_id,
                            ip,
                            protocol,
                            port,
                        };
                        self.record(key, now);
                    },
                }
            }
            i = i + 1;
        }
        assert(sd_header@.entries.take(n as int) =~= sd_header@.entries);
        Ok(self.copy())
    }
}

} // verus!
