use socks5::server::machine::Side;
use socks5::server::wire::{
    accepts_methods, decode_port, encode_port, method_selection, AddressType, IpAddress, Reply,
    ReplyCode, SOCKS5ConnectionErr, TargetAddress, ADDRESS_TYPE_DOMAIN_NAME, ADDRESS_TYPE_IPV4,
    ADDRESS_TYPE_IPV6, BUFFER_SIZE, NO_AUTHENTICATION_REQUIRED, PROTOCOL_VERSION,
    PROXY_CMD_CONNECT, REPLY_CONNECTION_REFUSED, REPLY_SUCCEEDED, RESERVED,
};

#[test]
fn protocol_constants_have_their_wire_values() {
    assert_eq!(PROTOCOL_VERSION, 0x05);
    assert_eq!(NO_AUTHENTICATION_REQUIRED, 0x00);
    assert_eq!(PROXY_CMD_CONNECT, 0x01);
    assert_eq!(ADDRESS_TYPE_IPV4, 0x01);
    assert_eq!(ADDRESS_TYPE_DOMAIN_NAME, 0x03);
    assert_eq!(ADDRESS_TYPE_IPV6, 0x04);
    assert_eq!(REPLY_SUCCEEDED, 0x00);
    assert_eq!(REPLY_CONNECTION_REFUSED, 0x05);
    assert_eq!(RESERVED, 0x00);
    assert_eq!(BUFFER_SIZE, 4096);
}

#[test]
fn error_messages_name_what_went_wrong() {
    assert_eq!(SOCKS5ConnectionErr::InvalidVersion.message(), "Invalid SOCKS5 version");
    assert_eq!(SOCKS5ConnectionErr::UnsupportedCommand.message(), "Unsupported SOCKS5 command");
    assert_eq!(SOCKS5ConnectionErr::InvalidAddressType.message(), "Invalid SOCKS5 address type");
    assert_eq!(
        SOCKS5ConnectionErr::ConnectionFailed.message(),
        "Failed to connect to destination"
    );
    assert_eq!(
        SOCKS5ConnectionErr::UnsupportedAuthMethod.message(),
        "Unsupported SOCKS5 authentication method"
    );
}

#[test]
fn address_type_tags_decode() {
    assert_eq!(AddressType::from_tag(0x01), Some(AddressType::IPv4));
    assert_eq!(AddressType::from_tag(0x03), Some(AddressType::DomainName));
    assert_eq!(AddressType::from_tag(0x04), Some(AddressType::IPv6));
    assert_eq!(AddressType::from_tag(0x00), None);
    assert_eq!(AddressType::from_tag(0x02), None);
    assert_eq!(AddressType::from_tag(0x05), None);
    assert_eq!(AddressType::from_tag(0xFF), None);
}

#[test]
fn address_type_tags_round_trip() {
    let kinds = [AddressType::IPv4, AddressType::IPv6, AddressType::DomainName];
    for kind in kinds {
        assert_eq!(AddressType::from_tag(kind.tag()), Some(kind));
    }
    assert_eq!(AddressType::IPv4.tag(), 0x01);
    assert_eq!(AddressType::DomainName.tag(), 0x03);
    assert_eq!(AddressType::IPv6.tag(), 0x04);
}

#[test]
fn address_type_says_how_much_to_read_first() {
    assert_eq!(AddressType::IPv4.first_read(), 4);
    assert_eq!(AddressType::IPv6.first_read(), 16);
    assert_eq!(AddressType::DomainName.first_read(), 1);
}

#[test]
fn port_decodes_big_endian() {
    assert_eq!(decode_port(&[0x1F, 0x90]), Some(8080));
    assert_eq!(decode_port(&[0x00, 0x00]), Some(0));
    assert_eq!(decode_port(&[0x00, 0x50]), Some(80));
    assert_eq!(decode_port(&[0x01, 0x00]), Some(256));
    assert_eq!(decode_port(&[0xFF, 0xFF]), Some(65535));
}

#[test]
fn port_needs_exactly_two_bytes() {
    assert_eq!(decode_port(&[]), None);
    assert_eq!(decode_port(&[0x1F]), None);
    assert_eq!(decode_port(&[0x00, 0x1F, 0x90]), None);
}

#[test]
fn port_encodes_big_endian() {
    assert_eq!(encode_port(8080), vec![0x1F, 0x90]);
    assert_eq!(encode_port(0), vec![0x00, 0x00]);
    assert_eq!(encode_port(1), vec![0x00, 0x01]);
    assert_eq!(encode_port(65535), vec![0xFF, 0xFF]);
}

#[test]
fn port_round_trips_for_every_port() {
    let mut port: u32 = 0;
    while port <= 65535 {
        let bytes = encode_port(port as u16);
        assert_eq!(bytes, (port as u16).to_be_bytes().to_vec());
        assert_eq!(decode_port(&bytes), Some(port as u16));
        port += 1;
    }
}

#[test]
fn ipv4_address_decodes_from_four_bytes() {
    let ip = IpAddress::from_octets(AddressType::IPv4, &[192, 168, 1, 1]);
    assert_eq!(ip, Some(IpAddress::V4(0xC0A8_0101)));
    assert_eq!(IpAddress::from_octets(AddressType::IPv4, &[0, 0, 0, 0]), Some(IpAddress::V4(0)));
    assert_eq!(
        IpAddress::from_octets(AddressType::IPv4, &[255, 255, 255, 255]),
        Some(IpAddress::V4(u32::MAX))
    );
}

#[test]
fn ipv6_address_decodes_from_sixteen_bytes() {
    let bytes: [u8; 16] = [
        0xfe, 0x80, 0, 0, 0, 0, 0, 0, 0x02, 0x1a, 0x2b, 0xff, 0xfe, 0x3c, 0x4d, 0x5e,
    ];
    let ip = IpAddress::from_octets(AddressType::IPv6, &bytes);
    assert_eq!(ip, Some(IpAddress::V6(0xfe80_0000_0000_0000_021a_2bff_fe3c_4d5e)));
    assert_eq!(ip, Some(IpAddress::V6(u128::from_be_bytes(bytes))));
    assert_eq!(
        IpAddress::from_octets(AddressType::IPv6, &[0xFF; 16]),
        Some(IpAddress::V6(u128::MAX))
    );
}

#[test]
fn address_of_the_wrong_width_does_not_decode() {
    assert_eq!(IpAddress::from_octets(AddressType::IPv4, &[127, 0, 0]), None);
    assert_eq!(IpAddress::from_octets(AddressType::IPv4, &[127, 0, 0, 1, 0]), None);
    assert_eq!(IpAddress::from_octets(AddressType::IPv4, &[0; 16]), None);
    assert_eq!(IpAddress::from_octets(AddressType::IPv6, &[0; 4]), None);
    assert_eq!(IpAddress::from_octets(AddressType::IPv6, &[0; 17]), None);
    assert_eq!(IpAddress::from_octets(AddressType::DomainName, &[0; 4]), None);
    assert_eq!(IpAddress::from_octets(AddressType::DomainName, &[0; 16]), None);
}

#[test]
fn address_octets_are_in_network_order() {
    assert_eq!(IpAddress::V4(0xC0A8_0101).octets(), vec![192, 168, 1, 1]);
    assert_eq!(IpAddress::V4(0).octets(), vec![0, 0, 0, 0]);
    assert_eq!(IpAddress::V4(1).octets(), vec![0, 0, 0, 1]);
    let mut expected: Vec<u8> = vec![0; 16];
    expected[15] = 1;
    assert_eq!(IpAddress::V6(1).octets(), expected);
    let bits: u128 = 0x0102_0304_0506_0708_090a_0b0c_0d0e_0f10;
    assert_eq!(IpAddress::V6(bits).octets(), bits.to_be_bytes().to_vec());
}

#[test]
fn address_octets_round_trip() {
    let addresses = [
        IpAddress::V4(0),
        IpAddress::V4(0x7F00_0001),
        IpAddress::V4(u32::MAX),
        IpAddress::V6(0),
        IpAddress::V6(1),
        IpAddress::V6(0x2001_0db8_85a3_0000_0000_8a2e_0370_7334),
        IpAddress::V6(u128::MAX),
    ];
    for ip in addresses {
        assert_eq!(IpAddress::from_octets(ip.kind(), &ip.octets()), Some(ip));
    }
    assert_eq!(IpAddress::V4(7).kind(), AddressType::IPv4);
    assert_eq!(IpAddress::V6(7).kind(), AddressType::IPv6);
}

#[test]
fn target_is_encoded_as_tag_address_and_port() {
    let mut out: Vec<u8> = vec![0xEE];
    TargetAddress { ip: IpAddress::V4(0x0A00_0001), port: 1080 }.encode_into(&mut out);
    assert_eq!(out, vec![0xEE, 0x01, 10, 0, 0, 1, 0x04, 0x38]);

    let mut out: Vec<u8> = Vec::new();
    TargetAddress { ip: IpAddress::V6(1), port: 443 }.encode_into(&mut out);
    assert_eq!(out, vec![0x04, 0, 0, 0, 0, 0, 0, 0, 0, 0, 0, 0, 0, 0, 0, 0, 1, 0x01, 0xBB]);
}

#[test]
fn unspecified_target_is_all_zero_ipv4() {
    assert_eq!(TargetAddress::unspecified(), TargetAddress { ip: IpAddress::V4(0), port: 0 });
}

#[test]
fn reply_codes_have_their_wire_values() {
    assert_eq!(ReplyCode::Succeeded.byte(), 0x00);
    assert_eq!(ReplyCode::ConnectionRefused.byte(), 0x05);
}

#[test]
fn refusal_reply_is_ten_fixed_bytes() {
    let reply = Reply::refused();
    assert_eq!(reply.code, ReplyCode::ConnectionRefused);
    assert_eq!(reply.bound, TargetAddress::unspecified());
    assert_eq!(reply.encode(), vec![0x05, 0x05, 0x00, 0x01, 0, 0, 0, 0, 0, 0]);
}

#[test]
fn success_reply_carries_the_bound_endpoint() {
    let bound = TargetAddress { ip: IpAddress::V4(0xC0A8_0102), port: 51234 };
    let reply = Reply::succeeded(bound);
    assert_eq!(reply.code, ReplyCode::Succeeded);
    assert_eq!(reply.bound, bound);
    assert_eq!(reply.encode(), vec![0x05, 0x00, 0x00, 0x01, 192, 168, 1, 2, 0xC8, 0x22]);

    let bound = TargetAddress { ip: IpAddress::V6(0xfe80 << 112 | 0x1), port: 9 };
    let encoded = Reply::succeeded(bound).encode();
    assert_eq!(encoded.len(), 22);
    assert_eq!(
        encoded,
        vec![0x05, 0x00, 0x00, 0x04, 0xfe, 0x80, 0, 0, 0, 0, 0, 0, 0, 0, 0, 0, 0, 0, 0, 1, 0, 9]
    );
}

#[test]
fn method_selection_is_version_and_no_authentication() {
    assert_eq!(method_selection(), vec![0x05, 0x00]);
}

#[test]
fn methods_are_accepted_when_no_authentication_is_offered() {
    assert!(accepts_methods(&[0x00]));
    assert!(accepts_methods(&[0x01, 0x02, 0x00]));
    assert!(accepts_methods(&[0x00, 0x02]));
    assert!(accepts_methods(&[0xFF, 0x00, 0xFF]));
    assert!(!accepts_methods(&[]));
    assert!(!accepts_methods(&[0x01]));
    assert!(!accepts_methods(&[0x02, 0x01, 0xFF]));
    let all_but_none: Vec<u8> = (1..=255).collect();
    assert!(!accepts_methods(&all_but_none));
}

#[test]
fn sides_are_each_other_s_opposite() {
    assert_eq!(Side::Client.other(), Side::Destination);
    assert_eq!(Side::Destination.other(), Side::Client);
    assert_eq!(Side::Client.other().other(), Side::Client);
}
