use simple_someip::protocol::sd::{Entry, Header as SdHeader, Options, TransportProtocol};
use simple_someip::protocol::{Message, Payload};
use simple_someip::server::{
    raw_event_datagram, RebootPolicy, ServerAction, ServerConfig, ServerState, SocketAddress,
    SubscriptionManager,
};

#[test]
fn test_subscription_management() {
    let mut manager = SubscriptionManager::new();
    let addr = SocketAddress::new(0xC0A8_0101, 8080);

    // Subscribe
    manager.subscribe(0x5B, 1, 0x01, addr);
    assert_eq!(manager.subscription_count(), 1);

    // Get subscribers
    let subscribers = manager.get_subscribers(0x5B, 1, 0x01);
    assert_eq!(subscribers.len(), 1);
    assert_eq!(subscribers[0].address, addr);

    // Unsubscribe
    manager.unsubscribe(0x5B, 1, 0x01, addr);
    assert_eq!(manager.subscription_count(), 0);
}

#[test]
fn subscribing_twice_keeps_one_entry() {
    let mut manager = SubscriptionManager::new();
    let addr = SocketAddress::new(0x7F00_0001, 40000);
    manager.subscribe(0x1234, 1, 0x01, addr);
    manager.subscribe(0x1234, 1, 0x01, addr);
    assert_eq!(manager.subscription_count(), 1);
    manager.subscribe(0x1234, 1, 0x02, addr);
    manager.subscribe(0x1234, 1, 0x01, SocketAddress::new(0x7F00_0001, 40001));
    assert_eq!(manager.subscription_count(), 3);
    assert_eq!(manager.get_subscribers(0x1234, 1, 0x01).len(), 2);
    manager.unsubscribe(0x1234, 1, 0x09, addr);
    assert_eq!(manager.subscription_count(), 3);
}

fn server() -> ServerState {
    ServerState::new(ServerConfig::new(0xC0A8_0A57, 30682, 0x1234, 1))
}

fn client() -> SocketAddress {
    SocketAddress::new(0xC0A8_0A58, 30490)
}

fn subscription(service_id: u16, with_endpoint: bool) -> SdHeader {
    let mut header = SdHeader::new_subscription(
        true,
        service_id,
        1,
        1,
        3,
        0,
        0x01,
        0xC0A8_0A58,
        TransportProtocol::Udp,
        40000,
    );
    if !with_endpoint {
        header.options.clear();
    }
    header
}

#[test]
fn config_defaults() {
    let config = ServerConfig::new(0x7F00_0001, 30682, 0x5B, 1);
    assert_eq!(config.major_version, 1);
    assert_eq!(config.minor_version, 0);
    assert_eq!(config.ttl, 3);
}

#[test]
fn find_service_gets_unicast_offer() {
    let mut state = server();
    let find = SdHeader::new_find_services(true, vec![0x1234, 0x9999, 0xFFFF]);
    let actions = state.handle_sd_message(&find, client());
    assert_eq!(
        actions,
        vec![ServerAction::Offer { target: client() }, ServerAction::Offer { target: client() }]
    );
    let datagram = state.offer_datagram();
    let message = Message::decode(&datagram).unwrap();
    assert_eq!(message.header().session_id, 1);
    match message.payload() {
        Payload::Discovery(h) => {
            assert_eq!(h.entries.len(), 1);
            match h.entries[0] {
                Entry::OfferService(e) => {
                    assert_eq!(e.service_id, 0x1234);
                    assert_eq!(e.instance_id, 1);
                    assert_eq!(e.ttl, 3);
                },
                _ => panic!("expected an offer"),
            }
            assert_eq!(
                h.options,
                vec![Options::IpV4Endpoint {
                    ip: 0xC0A8_0A57,
                    protocol: TransportProtocol::Udp,
                    port: 30682
                }]
            );
        },
        Payload::Raw(_) => panic!("expected SD"),
    }
    let second = Message::decode(&state.offer_datagram()).unwrap();
    assert_eq!(second.header().session_id, 2);
}

fn ack_ttl(datagram: &[u8]) -> u32 {
    let message = Message::decode(datagram).unwrap();
    match message.payload() {
        Payload::Discovery(h) => match h.entries[0] {
            Entry::SubscribeAckEventGroup(e) => e.ttl,
            _ => panic!("expected an acknowledgement"),
        },
        Payload::Raw(_) => panic!("expected SD"),
    }
}

#[test]
fn subscribe_success_is_acked_and_recorded() {
    let mut state = server();
    let actions = state.handle_sd_message(&subscription(0x1234, true), client());
    assert_eq!(actions.len(), 1);
    assert_eq!(state.subscriptions.subscription_count(), 1);
    assert_eq!(state.event_targets(0x1234, 1, 0x01), vec![SocketAddress::new(0xC0A8_0A58, 40000)]);
    match actions[0] {
        ServerAction::SubscribeAck { target, entry, accepted } => {
            assert_eq!(target, client());
            assert!(accepted);
            assert_eq!(ack_ttl(&state.subscribe_ack_datagram(&entry, accepted)), 3);
        },
        _ => panic!("expected an acknowledgement"),
    }
    state.handle_sd_message(&subscription(0x1234, true), client());
    assert_eq!(state.subscriptions.subscription_count(), 1);
}

#[test]
fn subscribe_wrong_service_is_nacked() {
    let mut state = server();
    let actions = state.handle_sd_message(&subscription(0x9999, true), client());
    assert_eq!(state.subscriptions.subscription_count(), 0);
    match actions[0] {
        ServerAction::SubscribeAck { entry, accepted, .. } => {
            assert!(!accepted);
            assert_eq!(ack_ttl(&state.subscribe_ack_datagram(&entry, accepted)), 0);
        },
        _ => panic!("expected an acknowledgement"),
    }
}

#[test]
fn subscribe_without_endpoint_is_nacked() {
    let mut state = server();
    let actions = state.handle_sd_message(&subscription(0x1234, false), client());
    assert_eq!(state.subscriptions.subscription_count(), 0);
    assert!(matches!(actions[0], ServerAction::SubscribeAck { accepted: false, .. }));
}

#[test]
fn own_multicast_echo_is_ignored() {
    let state = server();
    let message = Message::new_sd(1, &subscription(0x1234, true));
    let mut datagram = Vec::new();
    message.encode(&mut datagram);
    let own = SocketAddress::new(0xC0A8_0A57, 30490);
    assert!(state.incoming_sd_header(own, true, &datagram).is_none());
    assert!(state.incoming_sd_header(own, false, &datagram).is_some());
    assert_eq!(
        state.incoming_sd_header(client(), true, &datagram),
        Some(subscription(0x1234, true))
    );
    assert!(state.incoming_sd_header(client(), true, &datagram[..20]).is_none());
}

#[test]
fn raw_event_datagram_layout() {
    let datagram = raw_event_datagram(0x1234, 0x8001, 5, 1, 1, &[0xAA, 0xBB]);
    assert_eq!(
        datagram,
        vec![0x12, 0x34, 0x80, 0x01, 0, 0, 0, 10, 0, 0, 0, 5, 1, 1, 0x02, 0x00, 0xAA, 0xBB]
    );
}

fn offer_reboot_flag(datagram: &[u8]) -> bool {
    match Message::decode(datagram).unwrap().payload() {
        Payload::Discovery(h) => h.flags.reboot,
        Payload::Raw(_) => panic!("expected SD"),
    }
}

#[test]
fn reboot_flag_until_session_wrap() {
    let mut state = server();
    assert_eq!(state.config.reboot_policy, RebootPolicy::UntilSessionWrap);
    for _ in 0..0xFFFF {
        assert!(offer_reboot_flag(&state.offer_datagram()));
    }
    let after_wrap = state.offer_datagram();
    assert_eq!(Message::decode(&after_wrap).unwrap().header().session_id, 1);
    assert!(!offer_reboot_flag(&after_wrap));

    let mut config = ServerConfig::new(0xC0A8_0A57, 30682, 0x1234, 1);
    config.reboot_policy = RebootPolicy::Always;
    let mut always = ServerState::new(config);
    for _ in 0..0x10000 {
        always.offer_datagram();
    }
    assert!(offer_reboot_flag(&always.offer_datagram()));
}
