//! The decisions of a SOME/IP service provider.
use vstd::prelude::*;

pub mod service_info;
pub mod subscription_manager;

pub use service_info::{EventGroupInfo, ServiceInfo, SocketAddress, Subscriber};
pub use subscription_manager::SubscriptionManager;

use crate::protocol::message::{MessageView, PayloadView};
use crate::protocol::sd::entry::MAX_TTL;
use crate::protocol::sd::{
    Entry, EventGroupEntry, Flags, HeaderView, Options, OptionsCount, ServiceEntry,
    TransportProtocol,
};
use crate::protocol::{
    sd, Header, Message, MessageId, MessageTypeField, Payload, ReturnCode,
};
use crate::session::SessionCounter;
use crate::bytes::push_all;
use subscription_manager::{in_group, spec_subscribe};

verus! {

/// Time to live of offers and acknowledgements, in seconds, unless configured.
pub const DEFAULT_TTL: u32 = 3;

/// Service ID that a FindService uses to ask for every service.
pub const ANY_SERVICE: u16 = 0xFFFF;

/// When offers and acknowledgements carry the reboot flag.
#[derive(Debug, Clone, Copy, PartialEq, Eq, Structural)]
pub enum RebootPolicy {
    /// On every message.
    Always,
    /// From start until the SD session ID wraps, as SOME/IP prescribes.
    UntilSessionWrap,
}

/// Configuration of a service provider.
#[derive(Debug, Clone, Copy, PartialEq, Eq, Structural)]
pub struct ServerConfig {
    /// Local interface address, big-endian value.
    pub interface: u32,
    /// Port of the unicast service socket.
    pub local_port: u16,
    pub service_id: u16,
    pub instance_id: u16,
    pub major_version: u8,
    pub minor_version: u32,
    /// TTL of offers and acknowledgements (24 bits).
    pub ttl: u32,
    pub reboot_policy: RebootPolicy,
}

impl ServerConfig {
    /// A configuration with major version 1, minor version 0, the default
    /// TTL, and the reboot flag until the SD session ID wraps.
    pub fn new(interface: u32, local_port: u16, service_id: u16, instance_id: u16) -> (r: Self)
        ensures
            r == (ServerConfig {
                interface,
                local_port,
                service_id,
                instance_id,
                major_version: 1,
                minor_version: 0,
                ttl: DEFAULT_TTL,
                reboot_policy: RebootPolicy::UntilSessionWrap,
            }),
    {
        ServerConfig {
            interface,
            local_port,
            service_id,
            instance_id,
            major_version: 1,
            minor_version: 0,
            ttl: DEFAULT_TTL,
            reboot_policy: RebootPolicy::UntilSessionWrap,
        }
    }
}

/// A reply the provider owes for an SD entry it received.
#[derive(Debug, Clone, Copy, PartialEq, Eq, Structural)]
pub enum ServerAction {
    /// A unicast OfferService to whoever asked.
    Offer { target: SocketAddress },
    /// A SubscribeAck for `entry`; a rejected one carries TTL 0.
    SubscribeAck { target: SocketAddress, entry: EventGroupEntry, accepted: bool },
}

/// The subscriber's endpoint: the first IPv4 endpoint option.
pub open spec fn spec_endpoint(options: Seq<Options>) -> Option<SocketAddress> {
    if options.len() > 0 {
        match options[0] {
            Options::IpV4Endpoint { ip, port, .. } => Some(SocketAddress { ip, port }),
        }
    } else {
        None
    }
}

/// A subscription is accepted for the configured service and instance, with
/// an endpoint to deliver to.
pub open spec fn spec_accepts(config: ServerConfig, options: Seq<Options>, sub: EventGroupEntry) -> bool {
    sub.service_id == config.service_id && sub.instance_id == config.instance_id && spec_endpoint(
        options,
    ) is Some
}

/// The reply owed for one entry.
pub open spec fn spec_entry_action(
    config: ServerConfig,
    options: Seq<Options>,
    sender: SocketAddress,
    e: Entry,
) -> Option<ServerAction> {
    match e {
        Entry::SubscribeEventGroup(sub) => Some(
            ServerAction::SubscribeAck {
                target: sender,
                entry: sub,
                accepted: spec_accepts(config, options, sub),
            },
        ),
        Entry::FindService(f) => if f.service_id == config.service_id || f.service_id
            == ANY_SERVICE {
            Some(ServerAction::Offer { target: sender })
        } else {
            None
        },
        _ => None,
    }
}

/// The subscriber that one entry adds, if any.
pub open spec fn spec_entry_subscriber(config: ServerConfig, options: Seq<Options>, e: Entry) -> Option<
    Subscriber,
> {
    match e {
        Entry::SubscribeEventGroup(sub) => if spec_accepts(config, options, sub) {
            Some(
                Subscriber {
                    address: spec_endpoint(options)->0,
                    event_group_id: sub.event_group_id,
                    service_id: sub.service_id,
                    instance_id: sub.instance_id,
                },
            )
        } else {
            None
        },
        _ => None,
    }
}

/// The replies owed for a run of entries, in order.
pub open spec fn spec_actions(
    config: ServerConfig,
    options: Seq<Options>,
    sender: SocketAddress,
    es: Seq<Entry>,
) -> Seq<ServerAction>
    decreases es.len(),
{
    if es.len() == 0 {
        Seq::empty()
    } else {
        let init = spec_actions(config, options, sender, es.drop_last());
        match spec_entry_action(config, options, sender, es.last()) {
            Some(a) => init.push(a),
            None => init,
        }
    }
}

/// The subscription table after a run of entries.
pub open spec fn spec_subscriptions_after(
    v: Seq<Subscriber>,
    config: ServerConfig,
    options: Seq<Options>,
    es: Seq<Entry>,
) -> Seq<Subscriber>
    decreases es.len(),
{
    if es.len() == 0 {
        v
    } else {
        let w = spec_subscriptions_after(v, config, options, es.drop_last());
        match spec_entry_subscriber(config, options, es.last()) {
            Some(s) => spec_subscribe(w, s),
            None => w,
        }
    }
}

/// The SD header of an OfferService for the configured service, reachable
/// over UDP at the configured interface and port.
pub open spec fn spec_offer(config: ServerConfig, reboot: bool) -> HeaderView {
    HeaderView {
        flags: Flags { reboot, unicast: true },
        entries: seq![
            Entry::OfferService(
                ServiceEntry {
                    index_first_options_run: 0,
                    index_second_options_run: 0,
                    options_count: OptionsCount { first_options_count: 1, second_options_count: 0 },
                    service_id: config.service_id,
                    instance_id: config.instance_id,
                    major_version: config.major_version,
                    ttl: config.ttl,
                    minor_version: config.minor_version,
                },
            ),
        ],
        options: seq![
            Options::IpV4Endpoint {
                ip: config.interface,
                protocol: TransportProtocol::Udp,
                port: config.local_port,
            },
        ],
    }
}

/// The SD header acknowledging `entry`: the configured TTL, or 0 to reject.
pub open spec fn spec_subscribe_ack(
    config: ServerConfig,
    entry: EventGroupEntry,
    accepted: bool,
    reboot: bool,
) -> HeaderView {
    HeaderView {
        flags: Flags { reboot, unicast: true },
        entries: seq![
            Entry::SubscribeAckEventGroup(
                EventGroupEntry {
                    index_first_options_run: 0,
                    index_second_options_run: 0,
                    options_count: OptionsCount { first_options_count: 0, second_options_count: 0 },
                    service_id: entry.service_id,
                    instance_id: entry.instance_id,
                    major_version: entry.major_version,
                    ttl: if accepted {
                        config.ttl
                    } else {
                        0
                    },
                    counter: (entry.counter % 16) as u16,
                    event_group_id: entry.event_group_id,
                },
            ),
        ],
        options: Seq::empty(),
    }
}

/// The bytes of a Service Discovery message with session ID `session_id`
/// carrying `h`.
pub open spec fn spec_sd_datagram(session_id: u16, h: HeaderView) -> Seq<u8> {
    MessageView {
        header: Header::spec_sd(session_id as u32, h.spec_size()),
        payload: PayloadView::Discovery(h),
    }.spec_encode()
}

/// The first endpoint option, as a socket address.
pub fn extract_endpoint(options: &Vec<Options>) -> (r: Option<SocketAddress>)
    ensures
        r == spec_endpoint(options@),
{
    if options.len() > 0 {
        match options[0] {
            Options::IpV4Endpoint { ip, port, .. } => Some(SocketAddress::new(ip, port)),
        }
    } else {
        None
    }
}

fn sd_datagram(session_id: u16, h: &sd::Header) -> (r: Vec<u8>)
    requires
        h@.wf(),
    ensures
        r@ == spec_sd_datagram(session_id, h@),
{
    let message = Message::new_sd(session_id as u32, h);
    let mut out: Vec<u8> = Vec::new();
    message.encode(&mut out);
    assert(out@ =~= spec_sd_datagram(session_id, h@));
    out
}

/// The state of a service provider: its configuration, its subscription
/// table and the session counter of its SD messages.
#[derive(Debug, Clone)]
pub struct ServerState {
    pub config: ServerConfig,
    pub subscriptions: SubscriptionManager,
    pub sd_session: SessionCounter,
    /// The SD session ID has wrapped since start.
    pub session_wrapped: bool,
}

impl ServerState {
    pub open spec fn wf(&self) -> bool {
        self.subscriptions.wf() && self.sd_session.wf() && self.config.ttl <= MAX_TTL
    }

    /// The reboot flag of the next SD message.
    pub open spec fn spec_reboot_flag(&self) -> bool {
        match self.config.reboot_policy {
            RebootPolicy::Always => true,
            RebootPolicy::UntilSessionWrap => !self.session_wrapped,
        }
    }

    fn reboot_flag(&self) -> (r: bool)
        ensures
            r == self.spec_reboot_flag(),
    {
        match self.config.reboot_policy {
            RebootPolicy::Always => true,
            RebootPolicy::UntilSessionWrap => !self.session_wrapped,
        }
    }

    /// Takes the next SD session ID and notes a wrap.
    fn take_session_id(&mut self) -> (r: u16)
        requires
            old(self).wf(),
        ensures
            final(self).wf(),
            r == old(self).sd_session.spec_next(),
            final(self).sd_session.spec_next() == crate::session::spec_next_session(r),
            final(self).session_wrapped == (old(self).session_wrapped || r == 0xFFFF),
            final(self).config == old(self).config,
            final(self).subscriptions == old(self).subscriptions,
    {
        let sid = self.sd_session.next_session_id();
        if sid == 0xFFFF {
            self.session_wrapped = true;
        }
        sid
    }

    pub fn new(config: ServerConfig) -> (r: Self)
        requires
            config.ttl <= MAX_TTL,
        ensures
            r.wf(),
            r.config == config,
            r.subscriptions@ == Seq::<Subscriber>::empty(),
            r.sd_session.spec_next() == 1,
            !r.session_wrapped,
    {
        ServerState {
            config,
            subscriptions: SubscriptionManager::new(),
            sd_session: SessionCounter::new(),
            session_wrapped: false,
        }
    }

    /// Handles the entries of an SD message from `sender`: answers a
    /// FindService for this service (or for any) with an offer, and a
    /// SubscribeEventgroup with an acknowledgement, recording the subscriber
    /// where it is accepted. Returns the replies owed, in entry order.
    pub fn handle_sd_message(&mut self, sd_msg: &sd::Header, sender: SocketAddress) -> (r: Vec<
        ServerAction,
    >)
        requires
            old(self).wf(),
        ensures
            final(self).wf(),
            r@ == spec_actions(old(self).config, sd_msg@.options, sender, sd_msg@.entries),
            final(self).subscriptions@ == spec_subscriptions_after(
                old(self).subscriptions@,
                old(self).config,
                sd_msg@.options,
                sd_msg@.entries,
            ),
            final(self).config == old(self).config,
            final(self).sd_session == old(self).sd_session,
            final(self).session_wrapped == old(self).session_wrapped,
    {
        let endpoint = extract_endpoint(&sd_msg.options);
        let mut actions: Vec<ServerAction> = Vec::new();
        let mut i: usize = 0;
        let n = sd_msg.entries.len();
        while i < n
            invariant
                self.wf(),
                n == sd_msg@.entries.len(),
                i <= n,
                endpoint == spec_endpoint(sd_msg@.options),
                self.config == old(self).config,
                self.sd_session == old(self).sd_session,
                self.session_wrapped == old(self).session_wrapped,
                actions@ == spec_actions(
                    self.config,
                    sd_msg@.options,
                    sender,
                    sd_msg@.entries.take(i as int),
                ),
                self.subscriptions@ == spec_subscriptions_after(
                    old(self).subscriptions@,
                    self.config,
                    sd_msg@.options,
                    sd_msg@.entries.take(i as int),
                ),
            decreases n - i,
        {
            let entry = sd_msg.entries[i];
            proof {
                assert(sd_msg@.entries.take(i + 1).drop_last() =~= sd_msg@.entries.take(i as int));
                assert(sd_msg@.entries.take(i + 1).last() == entry);
            }
            match entry {
                Entry::SubscribeEventGroup(sub) => {
                    let accepted = sub.service_id == self.config.service_id && sub.instance_id
                        == self.config.instance_id && endpoint.is_some();
                    if accepted {
                        let address = endpoint.unwrap();
                        self.subscriptions.subscribe(
                            sub.service_id,
                            sub.instance_id,
                            sub.event_group_id,
                            address,
                        );
                    }
                    actions.push(ServerAction::SubscribeAck { target: sender, entry: sub, accepted });
                },
                Entry::FindService(find) => {
                    if find.service_id == self.config.service_id || find.service_id == ANY_SERVICE {
                        actions.push(ServerAction::Offer { target: sender });
                    }
                },
                _ => {},
            }
            i = i + 1;
        }
        assert(sd_msg@.entries.take(n as int) =~= sd_msg@.entries);
        actions
    }

    /// The next OfferService datagram; it takes the next SD session ID.
    pub fn offer_datagram(&mut self) -> (r: Vec<u8>)
        requires
            old(self).wf(),
        ensures
            final(self).wf(),
            r@ == spec_sd_datagram(
                old(self).sd_session.spec_next(),
                spec_offer(old(self).config, old(self).spec_reboot_flag()),
            ),
            final(self).sd_session.spec_next() == crate::session::spec_next_session(
                old(self).sd_session.spec_next(),
            ),
            final(self).session_wrapped == (old(self).session_wrapped || old(
                self,
            ).sd_session.spec_next() == 0xFFFF),
            final(self).config == old(self).config,
            final(self).subscriptions == old(self).subscriptions,
    {
        let c = self.config;
        let reboot = self.reboot_flag();
        let h = sd::Header::new_service_offer(
            reboot,
            c.service_id,
            c.instance_id,
            c.major_version,
            c.minor_version,
            c.ttl,
            c.interface,
            TransportProtocol::Udp,
            c.local_port,
        );
        let sid = self.take_session_id();
        sd_datagram(sid, &h)
    }

    /// The next SubscribeAck datagram for `entry`; it takes the next SD session ID.
    pub fn subscribe_ack_datagram(&mut self, entry: &EventGroupEntry, accepted: bool) -> (r: Vec<u8>)
        requires
            old(self).wf(),
        ensures
            final(self).wf(),
            r@ == spec_sd_datagram(
                old(self).sd_session.spec_next(),
                spec_subscribe_ack(old(self).config, *entry, accepted, old(self).spec_reboot_flag()),
            ),
            final(self).sd_session.spec_next() == crate::session::spec_next_session(
                old(self).sd_session.spec_next(),
            ),
            final(self).session_wrapped == (old(self).session_wrapped || old(
                self,
            ).sd_session.spec_next() == 0xFFFF),
            final(self).config == old(self).config,
            final(self).subscriptions == old(self).subscriptions,
    {
        let ttl = if accepted {
            self.config.ttl
        } else {
            0
        };
        let ack = Entry::SubscribeAckEventGroup(
            EventGroupEntry {
                index_first_options_run: 0,
                index_second_options_run: 0,
                options_count: OptionsCount::new(0, 0),
                service_id: entry.service_id,
                instance_id: entry.instance_id,
                major_version: entry.major_version,
                ttl,
                counter: entry.counter % 16,
                event_group_id: entry.event_group_id,
            },
        );
        let reboot = self.reboot_flag();
        let h = sd::Header::new(Flags::new(reboot, true), vec![ack], Vec::new());
        assert(h@.entries =~= seq![ack]);
        assert(h@.options =~= Seq::<Options>::empty());
        assert(h@ == spec_subscribe_ack(self.config, *entry, accepted, reboot));
        let sid = self.take_session_id();
        sd_datagram(sid, &h)
    }

    /// The SD header of a datagram the provider received, if it acts on it:
    /// not its own multicast echo, and a well-formed SD message.
    pub fn incoming_sd_header(&self, source: SocketAddress, on_sd_socket: bool, datagram: &[u8]) -> (r:
        Option<sd::Header>)
        ensures
            on_sd_socket && source.ip == self.config.interface ==> r is None,
            !(on_sd_socket && source.ip == self.config.interface) ==> match MessageView::spec_decode(
                datagram@,
            ) {
                Ok(m) => match m.payload {
                    PayloadView::Discovery(h) => r is Some && r->0@ == h,
                    PayloadView::Raw(_) => r is None,
                },
                Err(_) => r is None,
            },
    {
        if on_sd_socket && source.ip == self.config.interface {
            return None;
        }
        match Message::decode(datagram) {
            Ok(m) => match m.payload {
                Payload::Discovery(h) => Some(h),
                Payload::Raw(_) => None,
            },
            Err(_) => None,
        }
    }

    /// Endpoints of the subscribers of an event group, in subscription order.
    pub fn event_targets(&self, service_id: u16, instance_id: u16, event_group_id: u16) -> (r: Vec<
        SocketAddress,
    >)
        ensures
            ({
                let subs = self.subscriptions@.filter(
                    |s: Subscriber| in_group(s, service_id, instance_id, event_group_id),
                );
                &&& r@.len() == subs.len()
                &&& forall|i: int| 0 <= i < r@.len() ==> r@[i] == (#[trigger] subs[i]).address
            }),
    {
        let subs = self.subscriptions.get_subscribers(service_id, instance_id, event_group_id);
        let mut r: Vec<SocketAddress> = Vec::new();
        let mut i: usize = 0;
        while i < subs.len()
            invariant
                i <= subs@.len(),
                r@.len() == i,
                forall|j: int| 0 <= j < i ==> r@[j] == (#[trigger] subs@[j]).address,
            decreases subs@.len() - i,
        {
            r.push(subs[i].address);
            i = i + 1;
        }
        r
    }
}

/// The header of an event notification of `payload_len` bytes.
pub open spec fn spec_event_header(
    service_id: u16,
    event_id: u16,
    session_id: u32,
    protocol_version: u8,
    interface_version: u8,
    payload_len: nat,
) -> Header {
    Header {
        message_id: MessageId((service_id as int * 65536 + event_id as int) as u32),
        length: (payload_len + 8) as u32,
        session_id,
        protocol_version,
        interface_version,
        message_type: MessageTypeField(0x02),
        return_code: ReturnCode::Okay,
    }
}

/// The datagram of an event notification whose payload is already
/// serialized (and E2E-protected, say).
pub fn raw_event_datagram(
    service_id: u16,
    event_id: u16,
    session_id: u32,
    protocol_version: u8,
    interface_version: u8,
    payload: &[u8],
) -> (r: Vec<u8>)
    requires
        payload@.len() + 8 <= u32::MAX,
    ensures
        r@ == spec_event_header(
            service_id,
            event_id,
            session_id,
            protocol_version,
            interface_version,
            payload@.len(),
        ).spec_encode() + payload@,
{
    let header = Header {
        message_id: MessageId::new_from_service_and_method(service_id, event_id),
        length: (payload.len() + 8) as u32,
        session_id,
        protocol_version,
        interface_version,
        message_type: MessageTypeField::new(crate::protocol::MessageType::Notification, false),
        return_code: ReturnCode::Okay,
    };
    let mut out: Vec<u8> = Vec::new();
    header.write(&mut out);
    push_all(&mut out, payload);
    out
}

} // verus!
