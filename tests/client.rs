use simple_someip::client::discovery_info::{DiscoveredIpV4Endpoint, DiscoveryInfo};
use simple_someip::client::{decode_discovery, ClientAction, ClientState, ControlMessage};
use simple_someip::error::Error;
use simple_someip::protocol::message_id::MessageId;
use simple_someip::protocol::sd::{Header as SdHeader, TransportProtocol};
use simple_someip::protocol::{Header, Message, MessageType, MessageTypeField, Payload, ReturnCode};
use simple_someip::server::SocketAddress;

fn request(message_id: u32, body: Vec<u8>) -> Message {
    let header = Header {
        message_id: MessageId::new(message_id),
        length: 8 + body.len() as u32,
        session_id: 0,
        protocol_version: 1,
        interface_version: 1,
        message_type: MessageTypeField::new(MessageType::Request, false),
        return_code: ReturnCode::Okay,
    };
    Message::new(header, Payload::Raw(body))
}

fn target() -> SocketAddress {
    SocketAddress::new(0xC0A8_0A57, 30682)
}

#[test]
fn one_request_at_a_time() {
    let mut state = ClientState::new(0x7F00_0001, 0x0042);
    assert!(state.accept(ControlMessage::BindUnicast));
    assert!(!state.accept(ControlMessage::UnbindUnicast));
    assert!(matches!(state.step(), ClientAction::BindUnicast));
    assert!(!state.accept(ControlMessage::UnbindUnicast));
    state.unicast_bound(Some(40000));
    assert!(state.accept(ControlMessage::BindUnicast));
    assert!(matches!(state.step(), ClientAction::ReplyPort(40000)));
    assert!(state.active_request.is_none());
}

#[test]
fn request_response_correlation() {
    let mut state = ClientState::new(0x7F00_0001, 0x0042);
    state.unicast_bound(Some(40000));
    assert!(state.accept(ControlMessage::Send(target(), request(0x1234_0001, vec![1, 2]))));
    let datagram = match state.step() {
        ClientAction::SendRequest { target: t, datagram } => {
            assert_eq!(t, target());
            datagram
        },
        other => panic!("unexpected {:?}", other),
    };
    let sent = Message::decode(&datagram).unwrap();
    assert_eq!(sent.header().session_id, 0x0042_0001);
    state.request_sent();
    assert!(matches!(state.step(), ClientAction::Idle));
    assert!(!state.accept(ControlMessage::BindDiscovery));
    assert!(!state.correlate(&request(0x1234_0002, vec![])));
    assert!(state.correlate(&request(0x1234_0001, vec![9])));
    assert!(state.active_request.is_none());

    assert!(state.accept(ControlMessage::Send(target(), request(0x1234_0001, vec![]))));
    let second = match state.step() {
        ClientAction::SendRequest { datagram, .. } => Message::decode(&datagram).unwrap(),
        other => panic!("unexpected {:?}", other),
    };
    assert_eq!(second.header().session_id, 0x0042_0002);
}

#[test]
fn request_without_unicast_socket_fails() {
    let mut state = ClientState::new(0x7F00_0001, 1);
    assert!(state.accept(ControlMessage::Send(target(), request(0x1234_0001, vec![]))));
    assert!(matches!(state.step(), ClientAction::ReplyError(Error::UnicastSocketNotBound)));
    assert!(state.active_request.is_none());
}

#[test]
fn set_interface_rebinds_discovery() {
    let mut state = ClientState::new(0x7F00_0001, 1);
    state.accept(ControlMessage::BindDiscovery);
    assert!(matches!(state.step(), ClientAction::BindDiscovery { interface: 0x7F00_0001 }));
    assert!(state.discovery_bound(true));
    assert!(state.accept(ControlMessage::SetInterface(0xC0A8_0A58)));
    assert!(matches!(state.step(), ClientAction::ReleaseDiscovery));
    assert!(matches!(state.step(), ClientAction::BindDiscovery { interface: 0xC0A8_0A58 }));
    assert!(state.discovery_bound(true));
    assert!(state.active_request.is_none());
    assert_eq!(state.interface, 0xC0A8_0A58);
}

#[test]
fn send_sd_binds_discovery_first() {
    let mut state = ClientState::new(0x7F00_0001, 1);
    let find = SdHeader::new_find_services(true, vec![0x1234]);
    state.accept(ControlMessage::SendSD(target(), find.clone()));
    assert!(matches!(state.step(), ClientAction::BindDiscovery { .. }));
    assert!(!state.discovery_bound(true));
    let datagram = match state.step() {
        ClientAction::SendSd { datagram, .. } => datagram,
        other => panic!("unexpected {:?}", other),
    };
    assert_eq!(decode_discovery(&datagram), Ok(find));
    assert!(state.active_request.is_none());
}

#[test]
fn discovery_socket_rejects_other_messages() {
    let message = request(0x1234_0001, vec![1]);
    let mut datagram = Vec::new();
    message.encode(&mut datagram);
    assert_eq!(
        decode_discovery(&datagram),
        Err(Error::UnexpectedDiscoveryMessage(*message.header()))
    );
    assert!(matches!(decode_discovery(&datagram[..3]), Err(Error::ProtocolError(_))));
}

fn offer() -> SdHeader {
    SdHeader::new_service_offer(true, 0x1234, 1, 1, 0, 3, 0xC0A8_0A57, TransportProtocol::Udp, 30682)
}

#[test]
fn discovery_info_records_offers() {
    let mut info = DiscoveryInfo::new();
    let copy = info.update_at(&offer(), 1000).unwrap();
    assert_eq!(copy.endpoints().len(), 1);
    info.update_at(&offer(), 2000).unwrap();
    let endpoints = info.endpoints();
    assert_eq!(endpoints.len(), 1);
    assert_eq!(
        endpoints[0].0,
        DiscoveredIpV4Endpoint {
            service_id: 0x1234,
            instance_id: 1,
            ip: 0xC0A8_0A57,
            protocol: TransportProtocol::Udp,
            port: 30682
        }
    );
    assert_eq!(endpoints[0].1.last_seen, 2000);
}

#[test]
fn discovery_info_rejects_dangling_option_index() {
    let mut info = DiscoveryInfo::new();
    let mut header = offer();
    header.options.clear();
    match info.update_at(&header, 5) {
        Err(Error::InvalidSDHeader(h)) => assert_eq!(h, header),
        other => panic!("unexpected {:?}", other),
    }
    assert!(info.endpoints().is_empty());
}

#[test]
fn failed_send_keeps_the_session_id() {
    let mut state = ClientState::new(0x7F00_0001, 0x0042);
    state.unicast_bound(Some(40000));
    assert!(state.accept(ControlMessage::Send(target(), request(0x1234_0001, vec![]))));
    assert!(matches!(state.step(), ClientAction::SendRequest { .. }));
    state.request_failed();
    assert!(state.accept(ControlMessage::Send(target(), request(0x1234_0001, vec![]))));
    match state.step() {
        ClientAction::SendRequest { datagram, .. } => {
            assert_eq!(Message::decode(&datagram).unwrap().header().session_id, 0x0042_0001)
        },
        other => panic!("unexpected {:?}", other),
    }
}

#[test]
fn discovery_rejects_dangling_option_runs() {
    let mut header = offer();
    header.options.clear();
    let message = Message::new_sd(1, &header);
    let mut datagram = Vec::new();
    message.encode(&mut datagram);
    assert_eq!(decode_discovery(&datagram), Err(Error::InvalidSDHeader(header)));
    let good = Message::new_sd(2, &offer());
    let mut datagram = Vec::new();
    good.encode(&mut datagram);
    assert_eq!(decode_discovery(&datagram), Ok(offer()));
}
