use lifx_core::{BuildOptions, LifxIdent, LifxString, Message, RawMessage, HSBK};
use lifx_lan::bulb::{
    utc_from_nanos, Bulb, Color, IpAddress, SocketAddress, UtcTime, CLIENT_IDENTIFIER,
};
use lifx_lan::client::{
    broadcast_addresses, discovery_packet, handle_message, Interface, PacketOutcome, Registry,
};
use lifx_lan::codec::{check_frame, encode_request, unpack_frame, Reply, Request};

fn addr(last: u32) -> SocketAddress {
    SocketAddress { ip: IpAddress::V4(0xC0A8_0000 + last), port: 56700 }
}

fn reply_bytes(target: u64, msg: Message) -> Vec<u8> {
    let opts = BuildOptions { target: Some(target), ..BuildOptions::default() };
    RawMessage::build(&opts, msg).unwrap().pack().unwrap()
}

fn red() -> HSBK {
    HSBK { hue: 0, saturation: 65535, brightness: 32768, kelvin: 3500 }
}

#[test]
fn bulb_check_encodes_each_request() {
    let mut b = Bulb::new(addr(2), 0xABCD, 0);
    let packets = b.check(0);
    assert_eq!(packets.len(), 7);
    assert!(packets.iter().all(|p| p.is_ok()));
    let label = packets[0].as_ref().unwrap();
    let src = CLIENT_IDENTIFIER.to_le_bytes();
    let mut expected = vec![36, 0, 0x00, 0x14, src[0], src[1], src[2], src[3]];
    expected.extend_from_slice(&0xABCDu64.to_le_bytes());
    expected.extend_from_slice(&[0, 0, 0, 0, 0, 0, 1, 0]);
    expected.extend_from_slice(&[0; 8]);
    expected.extend_from_slice(&[23, 0, 0, 0]);
    assert_eq!(label, &expected);
    let power = packets[1].as_ref().unwrap();
    assert_eq!(&power[32..34], &[20, 0]);
}

#[test]
fn zone_request_carries_its_range() {
    let opts = BuildOptions { target: Some(5), res_required: true, ..BuildOptions::default() };
    let bytes =
        encode_request(&opts, Request::GetColorZones { start_index: 0, end_index: 255 }).unwrap();
    assert_eq!(bytes.len(), 38);
    assert_eq!(&bytes[0..2], &[38, 0]);
    assert_eq!(&bytes[32..34], &[0xF6, 0x01]);
    assert_eq!(&bytes[36..38], &[0, 255]);
}

#[test]
fn discovery_packet_is_broadcast_get_service() {
    let packet = discovery_packet();
    assert!(packet.is_ok());
    let bytes = packet.unwrap();
    let mut expected = vec![36, 0, 0x00, 0x34, 0, 0, 0, 0];
    expected.extend_from_slice(&[0; 8]);
    expected.extend_from_slice(&[0; 8]);
    expected.extend_from_slice(&[0; 8]);
    expected.extend_from_slice(&[2, 0, 0, 0]);
    assert_eq!(bytes, expected);
}

#[test]
fn broadcast_addresses_skip_loopback_and_ipv6() {
    let ifaces = vec![
        Interface { ip: IpAddress::V4(0x7F00_0001), broadcast: Some(0x7FFF_FFFF) },
        Interface { ip: IpAddress::V4(0xC0A8_0105), broadcast: Some(0xC0A8_01FF) },
        Interface { ip: IpAddress::V6(1), broadcast: None },
        Interface { ip: IpAddress::V4(0x0A00_0001), broadcast: None },
        Interface { ip: IpAddress::V4(0x0A00_0002), broadcast: Some(0x0A00_00FF) },
    ];
    assert_eq!(broadcast_addresses(&ifaces), vec![0xC0A8_01FF, 0x0A00_00FF]);
    assert_eq!(broadcast_addresses(&vec![]), Vec::<u32>::new());
}

#[test]
fn frame_checks() {
    let good = reply_bytes(9, Message::StatePower { level: 1 });
    assert!(check_frame(&good));
    let raw = unpack_frame(&good).unwrap();
    assert_eq!(raw.frame_addr.target, 9);
    assert_eq!(raw.protocol_header.typ, 22);
    assert_eq!(raw.payload, vec![1, 0]);
    assert!(!check_frame(&good[..35]));
    let mut wrong_protocol = good.clone();
    wrong_protocol[2] = 0xFF;
    assert!(!check_frame(&wrong_protocol));
    assert!(unpack_frame(&wrong_protocol).is_none());
    let mut not_addressable = good.clone();
    not_addressable[3] = 0x04;
    assert!(!check_frame(&not_addressable));
    assert!(unpack_frame(&not_addressable).is_none());
    let mut too_long = good.clone();
    too_long[0] = 200;
    assert!(!check_frame(&too_long));
    assert!(unpack_frame(&too_long).is_none());
}

#[test]
fn upsert_is_idempotent() {
    let mut reg = Registry::new();
    for _ in 0..3 {
        reg.upsert(0xABCD, addr(2), 0);
    }
    assert_eq!(reg.bulbs.len(), 1);
    assert_eq!(reg.bulbs[&0xABCD].addr, addr(2));
    assert_eq!(reg.bulbs[&0xABCD].target, 0xABCD);
    reg.upsert(0xABCD, addr(3), 0);
    assert_eq!(reg.bulbs.len(), 1);
    assert_eq!(reg.bulbs[&0xABCD].addr, addr(3));
}

#[test]
fn roaming_device_keeps_its_state() {
    let mut reg = Registry::new();
    let out = reg.handle_datagram(addr(2), &reply_bytes(7, Message::StatePower { level: 65535 }), 1);
    assert!(matches!(out, PacketOutcome::Handled));
    let out = reg.handle_datagram(addr(4), &reply_bytes(7, Message::GetService), 2);
    assert!(matches!(out, PacketOutcome::Handled));
    let b = &reg.bulbs[&7];
    assert_eq!(b.addr, addr(4));
    assert_eq!(b.power(), Some(&65535));
}

#[test]
fn malformed_then_undecodable_then_power() {
    let mut reg = Registry::new();
    let out = reg.handle_datagram(addr(2), &[1, 2, 3], 0);
    assert!(matches!(out, PacketOutcome::Malformed));
    assert_eq!(reg.bulbs.len(), 0);

    let mut bad_payload = reply_bytes(0xABCD, Message::StatePower { level: 1 });
    bad_payload.truncate(36);
    bad_payload[0] = 36;
    let out = reg.handle_datagram(addr(2), &bad_payload, 0);
    assert!(matches!(out, PacketOutcome::Undecodable(_)));
    assert_eq!(reg.bulbs.len(), 1);
    assert!(reg.bulbs[&0xABCD].power().is_none());

    let out = reg.handle_datagram(addr(2), &reply_bytes(0xABCD, Message::StatePower { level: 65535 }), 5);
    assert!(matches!(out, PacketOutcome::Handled));
    let b = &reg.bulbs[&0xABCD];
    assert_eq!(b.power(), Some(&65535));
    assert_eq!(b.power.last_updated, 5);
    assert!(b.name().is_none());
    assert!(b.color().is_none());
    assert!(b.model.as_ref().is_none());
    assert!(b.location.as_ref().is_none());
}

#[test]
fn unaddressed_frame_is_dropped() {
    let mut reg = Registry::new();
    let opts = BuildOptions::default();
    let bytes = RawMessage::build(&opts, Message::StatePower { level: 1 }).unwrap().pack().unwrap();
    let out = reg.handle_datagram(addr(2), &bytes, 0);
    assert!(matches!(out, PacketOutcome::Unaddressed));
    assert_eq!(reg.bulbs.len(), 0);
}

#[test]
fn unknown_message_type_records_device_only() {
    let mut reg = Registry::new();
    let mut bytes = reply_bytes(3, Message::GetService);
    bytes[32] = 0x0F;
    bytes[33] = 0x27;
    let out = reg.handle_datagram(addr(2), &bytes, 0);
    assert!(matches!(out, PacketOutcome::Undecodable(_)));
    assert_eq!(reg.bulbs.len(), 1);
    assert!(reg.bulbs[&3].color().is_none());
}

#[test]
fn version_then_light_state_end_to_end() {
    let mut reg = Registry::new();
    let version = Message::StateVersion { vendor: 1, product: 1, reserved: 0 };
    reg.handle_datagram(addr(2), &reply_bytes(0xABCD, version), 10);
    {
        let b = &reg.bulbs[&0xABCD];
        assert!(b.color_single().is_none());
        assert!(b.color_multi().is_none());
        assert_eq!(b.model.as_ref(), Some(&(1, 1)));
        assert!(matches!(b.color(), Some(Color::Single(None))));
    }
    let state = Message::LightState {
        color: red(),
        reserved: 0,
        power: 65535,
        label: LifxString::new(c"Desk"),
        reserved2: 0,
    };
    let out = reg.handle_datagram(addr(2), &reply_bytes(0xABCD, state), 20);
    assert!(matches!(out, PacketOutcome::Handled));
    let b = &reg.bulbs[&0xABCD];
    assert_eq!(b.color_single(), Some(&red()));
    assert!(b.color_multi().is_none());
    assert_eq!(b.power(), Some(&65535));
    assert_eq!(b.name(), Some(&"Desk".to_string()));
}

#[test]
fn multizone_version_seeds_zones() {
    let mut b = Bulb::new(addr(2), 4, 0);
    handle_message(&mut b, Reply::StateVersion { vendor: 1, product: 31 }, 3);
    assert_eq!(b.color_multi().map(|z| z.len()), Some(0));
    assert!(b.color_single().is_none());
    handle_message(
        &mut b,
        Reply::LightState { color: red(), power: 65535, label: "Strip".to_string() },
        4,
    );
    assert_eq!(b.color_multi().map(|z| z.len()), Some(0));
    assert!(b.power().is_none());
    assert_eq!(b.name(), Some(&"Strip".to_string()));
}

#[test]
fn unknown_product_leaves_colour_unknown() {
    let mut b = Bulb::new(addr(2), 4, 0);
    handle_message(&mut b, Reply::StateVersion { vendor: 9, product: 9 }, 3);
    assert_eq!(b.model.as_ref(), Some(&(9, 9)));
    assert!(b.color().is_none());
}

#[test]
fn light_state_before_version_sets_only_name() {
    let mut b = Bulb::new(addr(2), 4, 0);
    handle_message(
        &mut b,
        Reply::LightState { color: red(), power: 65535, label: "Desk".to_string() },
        4,
    );
    assert_eq!(b.name(), Some(&"Desk".to_string()));
    assert!(b.color().is_none());
    assert!(b.power().is_none());
}

#[test]
fn light_state_keeps_colour_timestamp() {
    let mut b = Bulb::new(addr(2), 4, 0);
    handle_message(&mut b, Reply::StateVersion { vendor: 1, product: 1 }, 3);
    handle_message(
        &mut b,
        Reply::LightState { color: red(), power: 0, label: "Desk".to_string() },
        9,
    );
    assert_eq!(b.color.last_updated, 3);
    assert_eq!(b.power.last_updated, 9);
    assert_eq!(b.power(), Some(&0));
}

#[test]
fn location_reply_splits_device_time() {
    let mut reg = Registry::new();
    let msg = Message::StateLocation {
        location: LifxIdent([7; 16]),
        label: LifxString::new(c"Kitchen"),
        updated_at: 1_500_000_000_123_456_789,
    };
    reg.handle_datagram(addr(2), &reply_bytes(11, msg), 1);
    let loc = reg.bulbs[&11].location.as_ref().unwrap();
    assert_eq!(loc.id, [7; 16]);
    assert_eq!(loc.name, "Kitchen");
    assert_eq!(loc.updated_at, UtcTime { secs: 1_500_000_000, nanos: 123_456_789 });
}

#[test]
fn label_and_other_replies() {
    let mut b = Bulb::new(addr(2), 4, 0);
    handle_message(&mut b, Reply::StateLabel { label: "Hall".to_string() }, 2);
    assert_eq!(b.name(), Some(&"Hall".to_string()));
    handle_message(&mut b, Reply::Other, 3);
    assert_eq!(b.name.last_updated, 2);
    handle_message(&mut b, Reply::StatePower { level: 0 }, 4);
    assert_eq!(b.power(), Some(&0));
}

#[test]
fn nanos_split() {
    assert_eq!(utc_from_nanos(0), UtcTime { secs: 0, nanos: 0 });
    assert_eq!(utc_from_nanos(2_999_999_999), UtcTime { secs: 2, nanos: 999_999_999 });
    assert_eq!(
        utc_from_nanos(u64::MAX),
        UtcTime { secs: 18_446_744_073, nanos: 709_551_615 }
    );
}

#[test]
fn new_device_is_stamped_with_arrival_time() {
    let mut reg = Registry::new();
    reg.handle_datagram(addr(2), &reply_bytes(8, Message::StatePower { level: 1 }), 77);
    let b = &reg.bulbs[&8];
    assert_eq!(b.name.last_updated, 77);
    assert_eq!(b.power.last_updated, 77);
    assert!(b.is_wf());
    reg.upsert(9, addr(3), 5);
    assert_eq!(reg.bulbs[&9].model.last_updated, 5);
}
