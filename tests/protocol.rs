use simple_someip::protocol::message_id::MessageId;
use simple_someip::traits::{DiscoveryOnlyPayload, PayloadWireFormat, WireFormat};
use simple_someip::protocol::sd::{
    Entry, EventGroupEntry, Flags, Header as SdHeader, Options, OptionsCount, ServiceEntry,
    TransportProtocol,
};
use simple_someip::protocol::{
    Error, Header, Message, MessageType, MessageTypeField, Payload, ReturnCode,
};

/// Check that we properly decode and encode hex bytes
#[test]
fn test_all_u8_values() {
    let valid_inputs: [u8; 10] = [0x00, 0x01, 0x02, 0x80, 0x81, 0x20, 0x21, 0x22, 0xA0, 0xA1];
    for i in 0..=255 {
        let msg_type = MessageTypeField::try_from(i);
        if valid_inputs.contains(&i) {
            assert!(msg_type.is_ok());
            let msg_type = msg_type.unwrap();
            match i {
                0x00 => {
                    assert_eq!(msg_type.message_type(), MessageType::Request);
                    assert!(!msg_type.is_tp());
                }
                0x01 => {
                    assert_eq!(msg_type.message_type(), MessageType::RequestNoReturn);
                    assert!(!msg_type.is_tp());
                }
                0x02 => {
                    assert_eq!(msg_type.message_type(), MessageType::Notification);
                    assert!(!msg_type.is_tp());
                }
                0x80 => {
                    assert_eq!(msg_type.message_type(), MessageType::Response);
                    assert!(!msg_type.is_tp());
                }
                0x81 => {
                    assert_eq!(msg_type.message_type(), MessageType::Error);
                    assert!(!msg_type.is_tp());
                }
                0x20 => {
                    assert_eq!(msg_type.message_type(), MessageType::Request);
                    assert!(msg_type.is_tp());
                }
                0x21 => {
                    assert_eq!(msg_type.message_type(), MessageType::RequestNoReturn);
                    assert!(msg_type.is_tp());
                }
                0x22 => {
                    assert_eq!(msg_type.message_type(), MessageType::Notification);
                    assert!(msg_type.is_tp());
                }
                0xA0 => {
                    assert_eq!(msg_type.message_type(), MessageType::Response);
                    assert!(msg_type.is_tp());
                }
                0xA1 => {
                    assert_eq!(msg_type.message_type(), MessageType::Error);
                    assert!(msg_type.is_tp());
                }

                _ => unreachable!("Only valid inputs should have made it to this point"),
            }
        } else {
            assert!(msg_type.is_err());
        }
    }
}

fn sample_header() -> Header {
    Header {
        message_id: MessageId::new(0x1234_0001),
        length: 12,
        session_id: 0x0001_0002,
        protocol_version: 1,
        interface_version: 3,
        message_type: MessageTypeField::new(MessageType::Request, false),
        return_code: ReturnCode::Okay,
    }
}

#[test]
fn header_encodes_big_endian_and_round_trips() {
    let header = sample_header();
    let mut out = Vec::new();
    assert_eq!(header.write(&mut out), 16);
    assert_eq!(
        out,
        vec![0x12, 0x34, 0x00, 0x01, 0, 0, 0, 12, 0x00, 0x01, 0x00, 0x02, 1, 3, 0x00, 0x00]
    );
    assert_eq!(header.required_size(), 16);
    assert_eq!(Header::read(&out), Ok(header));
}

#[test]
fn header_decode_errors() {
    let header = sample_header();
    let mut out = Vec::new();
    header.write(&mut out);
    assert_eq!(Header::read(&out[..15]), Err(Error::UnexpectedEof));
    let mut bad_type = out.clone();
    bad_type[14] = 0x03;
    assert_eq!(Header::read(&bad_type), Err(Error::InvalidMessageTypeField(0x03)));
    let mut bad_code = out.clone();
    bad_code[15] = 0x5F;
    assert_eq!(Header::read(&bad_code), Err(Error::InvalidReturnCode(0x5F)));
    let mut bad_version = out.clone();
    bad_version[12] = 2;
    assert_eq!(Header::read(&bad_version), Err(Error::InvalidProtocolVersion(2)));
}

#[test]
fn return_code_ranges() {
    assert_eq!(ReturnCode::from_byte(0x00), Ok(ReturnCode::Okay));
    assert_eq!(ReturnCode::from_byte(0x0f), Ok(ReturnCode::E2ENoNewData));
    assert_eq!(ReturnCode::from_byte(0x10), Ok(ReturnCode::GenericError(0x10)));
    assert_eq!(ReturnCode::from_byte(0x1f), Ok(ReturnCode::GenericError(0x1f)));
    assert_eq!(ReturnCode::from_byte(0x20), Ok(ReturnCode::InterfaceError(0x20)));
    assert_eq!(ReturnCode::from_byte(0x5e), Ok(ReturnCode::InterfaceError(0x5e)));
    assert_eq!(ReturnCode::from_byte(0x5f), Err(Error::InvalidReturnCode(0x5f)));
    assert_eq!(ReturnCode::InterfaceError(0x42).to_byte(), 0x42);
}

#[test]
fn message_id_fields() {
    let mut id = MessageId::new_from_service_and_method(0x1234, 0x8001);
    assert_eq!(id.message_id(), 0x1234_8001);
    assert_eq!(id.service_id(), 0x1234);
    assert_eq!(id.method_id(), 0x8001);
    assert!(id.is_event());
    assert!(!id.is_sd());
    id.set_service_id(0xFFFF);
    id.set_method_id(0x8100);
    assert!(id.is_sd());
    assert!(!MessageId::new(0x1234_0001).is_event());
}

#[test]
fn flags_and_options_count_bytes() {
    assert_eq!(Flags::new(true, true).to_byte(), 0xC0);
    assert_eq!(Flags::new_sd(false).to_byte(), 0x40);
    assert_eq!(Flags::from_byte(0x80), Flags::new(true, false));
    let count = OptionsCount::from_byte(0x31);
    assert_eq!(count, OptionsCount::new(3, 1));
    assert_eq!(count.to_byte(), 0x31);
}

#[test]
fn find_service_entry_bytes() {
    let entry = Entry::FindService(ServiceEntry::find(0x1234));
    let mut out = Vec::new();
    assert_eq!(entry.encode(&mut out), 16);
    assert_eq!(
        out,
        vec![
            0x00, 0, 0, 0x00, 0x12, 0x34, 0xFF, 0xFF, 0xFF, 0xFF, 0xFF, 0xFF, 0xFF, 0xFF, 0xFF,
            0xFF
        ]
    );
    assert_eq!(Entry::decode(&out), Ok(entry));
    assert_eq!(entry.total_options_count(), 0);
}

#[test]
fn event_group_entry_round_trip_and_counter_mask() {
    let entry = Entry::SubscribeEventGroup(EventGroupEntry::new(0x1234, 1, 2, 3, 0x1F, 0x0001));
    let mut out = Vec::new();
    entry.encode(&mut out);
    assert_eq!(out.len(), 16);
    assert_eq!(out[0], 0x06);
    assert_eq!(&out[12..14], &[0x00, 0x0F]);
    assert_eq!(Entry::decode(&out), Ok(entry));
    let mut bad = out.clone();
    bad[0] = 0x03;
    assert_eq!(Entry::decode(&bad), Err(Error::InvalidSDEntryType(0x03)));
    assert_eq!(Entry::decode(&out[..15]), Err(Error::UnexpectedEof));
}

#[test]
fn ipv4_endpoint_option_bytes() {
    let option = Options::IpV4Endpoint {
        ip: 0xC0A8_0A57,
        protocol: TransportProtocol::Udp,
        port: 30682,
    };
    let mut out = Vec::new();
    assert_eq!(option.write(&mut out), 12);
    assert_eq!(option.size(), 12);
    assert_eq!(
        out,
        vec![0x00, 0x09, 0x04, 0x00, 192, 168, 10, 87, 0x00, 0x11, 0x77, 0xDA]
    );
    assert_eq!(Options::read(&out), Ok(option));
}

#[test]
fn option_decode_errors() {
    let good = vec![0x00, 0x09, 0x04, 0x00, 10, 0, 0, 1, 0x00, 0x06, 0x00, 0x50];
    assert_eq!(
        Options::read(&good),
        Ok(Options::IpV4Endpoint { ip: 0x0A00_0001, protocol: TransportProtocol::Tcp, port: 80 })
    );
    let mut unknown = good.clone();
    unknown[2] = 0x05;
    assert_eq!(Options::read(&unknown), Err(Error::InvalidSDOptionType(0x05)));
    let mut reserved = good.clone();
    reserved[2] = 0x01;
    assert_eq!(Options::read(&reserved), Err(Error::UnsupportedSDOptionType(0x01)));
    let mut length = good.clone();
    length[1] = 0x0A;
    assert_eq!(Options::read(&length), Err(Error::InvalidSDOptionLength(0x0A)));
    let mut protocol = good.clone();
    protocol[9] = 0x07;
    assert_eq!(Options::read(&protocol), Err(Error::InvalidSDOptionTransportProtocol(0x07)));
    assert_eq!(Options::read(&good[..11]), Err(Error::UnexpectedEof));
    let mut discard = good.clone();
    discard[3] = 0x80;
    assert_eq!(Options::read(&discard), Err(Error::InvalidSDOptionDiscardFlag(0x80)));
    let mut reserved_byte = good.clone();
    reserved_byte[8] = 0x01;
    assert_eq!(Options::read(&reserved_byte), Err(Error::InvalidSDOptionReserved(0x01)));
}

fn offer() -> SdHeader {
    SdHeader::new_service_offer(true, 0x1234, 1, 1, 0, 3, 0xC0A8_0A57, TransportProtocol::Udp, 30682)
}

#[test]
fn sd_header_round_trip() {
    let header = offer();
    let mut out = Vec::new();
    assert_eq!(header.encode(&mut out), 40);
    assert_eq!(header.required_size(), 40);
    assert_eq!(out.len(), 40);
    assert_eq!(&out[0..8], &[0xC0, 0, 0, 0, 0, 0, 0, 16]);
    assert_eq!(&out[24..28], &[0, 0, 0, 12]);
    assert_eq!(SdHeader::decode(&out), Ok(header));
}

#[test]
fn sd_header_find_services() {
    let header = SdHeader::new_find_services(false, vec![0x1234, 0x5678]);
    assert_eq!(header.entries.len(), 2);
    assert_eq!(header.entries[1], Entry::FindService(ServiceEntry::find(0x5678)));
    assert!(header.options.is_empty());
    let mut out = Vec::new();
    header.encode(&mut out);
    assert_eq!(SdHeader::decode(&out), Ok(header));
}

#[test]
fn sd_header_decode_errors() {
    let mut out = Vec::new();
    offer().encode(&mut out);
    assert_eq!(SdHeader::decode(&out[..39]), Err(Error::UnexpectedEof));
    assert_eq!(SdHeader::decode(&out[..7]), Err(Error::UnexpectedEof));
    let mut entries = out.clone();
    entries[7] = 15;
    assert_eq!(SdHeader::decode(&entries), Err(Error::IncorrectEntriesSize(15)));
    let mut options = out.clone();
    options[27] = 13;
    assert_eq!(SdHeader::decode(&options), Err(Error::IncorrectOptionsSize(13)));
    let mut entry_type = out.clone();
    entry_type[8] = 0x09;
    assert_eq!(SdHeader::decode(&entry_type), Err(Error::InvalidSDEntryType(0x09)));
}

#[test]
fn sd_message_round_trip() {
    let message = Message::new_sd(7, &offer());
    assert!(message.is_sd());
    assert_eq!(message.header().length, 48);
    assert_eq!(message.header().session_id, 7);
    let mut out = Vec::new();
    assert_eq!(message.encode(&mut out), 56);
    assert_eq!(message.required_size(), 56);
    let decoded = Message::decode(&out).unwrap();
    assert_eq!(decoded, message);
    assert_eq!(decoded.get_sd_header(), Some(&offer()));
}

#[test]
fn raw_message_round_trip() {
    let mut header = sample_header();
    header.length = 8 + 3;
    let message = Message::new(header, Payload::Raw(vec![1, 2, 3]));
    let mut out = Vec::new();
    message.encode(&mut out);
    assert_eq!(out.len(), 19);
    assert_eq!(Message::decode(&out), Ok(message));
}

#[test]
fn truncated_message_is_error() {
    let message = Message::new_sd(1, &offer());
    let mut out = Vec::new();
    message.encode(&mut out);
    for cut in 0..out.len() {
        assert!(Message::decode(&out[..cut]).is_err());
    }
    assert_eq!(Message::decode(&out[..50]), Err(Error::UnexpectedEof));
}

#[test]
fn message_header_errors() {
    let message = Message::new_sd(1, &offer());
    let mut out = Vec::new();
    message.encode(&mut out);
    let mut short = out.clone();
    short[7] = 7;
    assert_eq!(Message::decode(&short), Err(Error::InvalidLength(7)));
    let mut version = out.clone();
    version[12] = 2;
    assert_eq!(Message::decode(&version), Err(Error::InvalidProtocolVersion(2)));
    let mut interface = out.clone();
    interface[13] = 2;
    assert_eq!(Message::decode(&interface), Err(Error::InvalidInterfaceVersion(2)));
    let mut kind = out.clone();
    kind[14] = 0x00;
    assert_eq!(Message::decode(&kind), Err(Error::InvalidMessageTypeField(0x00)));
    let mut code = out.clone();
    code[15] = 0x01;
    assert_eq!(Message::decode(&code), Err(Error::InvalidReturnCode(0x01)));
}

fn wire_round_trip<T: WireFormat + PartialEq + std::fmt::Debug>(value: T, size: usize) {
    let mut out = vec![0xEE];
    assert_eq!(WireFormat::required_size(&value), size);
    assert_eq!(WireFormat::encode(&value, &mut out), size);
    assert_eq!(out.len(), size + 1);
    out.extend_from_slice(&[1, 2, 3]);
    assert_eq!(<T as WireFormat>::decode(&out[1..]), Ok(value));
}

#[test]
fn every_record_round_trips_through_the_capability() {
    wire_round_trip(sample_header(), 16);
    wire_round_trip(Entry::OfferService(ServiceEntry::find(7)), 16);
    wire_round_trip(
        Options::IpV4Endpoint { ip: 1, protocol: TransportProtocol::Tcp, port: 2 },
        12,
    );
    wire_round_trip(offer(), 40);
    wire_round_trip(Message::new_sd(3, &offer()), 56);
}

#[test]
fn discovery_only_payload() {
    let payload = DiscoveryOnlyPayload::new_sd_payload(&offer());
    assert!(payload.message_id().is_sd());
    assert_eq!(payload.as_sd_header(), Some(&offer()));
    let mut out = Vec::new();
    assert_eq!(PayloadWireFormat::required_size(&payload), 40);
    assert_eq!(PayloadWireFormat::encode(&payload, &mut out), 40);
    assert_eq!(
        DiscoveryOnlyPayload::decode_with_message_id(MessageId::sd(), &out),
        Ok(payload)
    );
    assert_eq!(
        DiscoveryOnlyPayload::decode_with_message_id(MessageId::new(0x1234_0001), &out),
        Err(Error::UnsupportedMessageID(0x1234_0001))
    );
}

#[test]
fn subscribe_ack_references_no_options() {
    let ack = SdHeader::subscribe_ack(0x1234, 1, 1, 0, 2, 0x01);
    assert!(ack.options.is_empty());
    assert_eq!(ack.entries[0].total_options_count(), 0);
    assert_eq!(ack.flags, Flags::new(true, true));
}
