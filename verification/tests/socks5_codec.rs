use ppaass_agent::socks5::address::{NetAddress, Socks5Address};
use ppaass_agent::socks5::auth::{
    decode_auth_request, encode_auth_reply, Socks5AuthCommandContent, Socks5AuthCommandResultContent, Socks5AuthMethod,
};
use ppaass_agent::pool::usable_proxy_addresses;
use ppaass_agent::socks5::socket::SocketAddress;
use ppaass_agent::socks5::init::{
    decode_init_request, encode_init_reply, Socks5InitCommandResultContent, Socks5InitCommandResultStatus, Socks5InitCommandType,
};
use ppaass_agent::socks5::udp::{Socks5UdpDataPacket, UdpDiagram};
use ppaass_agent::socks5::Socks5CodecError;

fn ipv4_of(a: &Socks5Address) -> ([u8; 4], u16) {
    match a {
        Socks5Address::IpV4(ip, port) => (*ip, *port),
        other => panic!("not an IPv4 address: {other:?}"),
    }
}

#[test]
fn parse_ipv4_address_with_tail() {
    let bytes = [1u8, 192, 168, 1, 10, 0x1f, 0x90, 0xaa, 0xbb];
    let (address, consumed) = Socks5Address::parse(&bytes).unwrap();
    assert_eq!(consumed, 7);
    assert_eq!(ipv4_of(&address), ([192, 168, 1, 10], 8080));
}

#[test]
fn parse_ipv6_address() {
    let mut bytes = vec![4u8];
    bytes.extend_from_slice(&[0x20, 0x01, 0x0d, 0xb8, 0, 0, 0, 0, 0, 0, 0, 0, 0, 0, 0, 1]);
    bytes.extend_from_slice(&[0x01, 0xbb]);
    let (address, consumed) = Socks5Address::parse(&bytes).unwrap();
    assert_eq!(consumed, 19);
    match &address {
        Socks5Address::IpV6(ip, port) => {
            assert_eq!(ip[0], 0x20);
            assert_eq!(ip[15], 1);
            assert_eq!(*port, 443);
        },
        other => panic!("unexpected {other:?}"),
    }
    assert_eq!(address.to_string(), "2001:db8:0:0:0:0:0:1:443");
}

#[test]
fn parse_domain_address() {
    let mut bytes = vec![3u8, 11];
    bytes.extend_from_slice(b"example.com");
    bytes.extend_from_slice(&[0, 80]);
    let (address, consumed) = Socks5Address::parse(&bytes).unwrap();
    assert_eq!(consumed, 15);
    assert_eq!(address.to_string(), "example.com:80");
}

#[test]
fn parse_domain_zero_means_loopback() {
    let bytes = [3u8, 1, b'0', 0x04, 0x38];
    let (address, _) = Socks5Address::parse(&bytes).unwrap();
    assert_eq!(address.to_string(), "127.0.0.1:1080");
}

#[test]
fn parse_domain_with_invalid_utf8_is_lossy() {
    let bytes = [3u8, 2, b'a', 0xff, 0, 1];
    let (address, _) = Socks5Address::parse(&bytes).unwrap();
    assert_eq!(address.to_string(), "a\u{FFFD}:1");
}

#[test]
fn parse_address_errors() {
    assert_eq!(Socks5Address::parse(&[]).unwrap_err(), Socks5CodecError::NoRemaining);
    assert_eq!(
        Socks5Address::parse(&[1, 1, 2, 3]).unwrap_err(),
        Socks5CodecError::AddressTooShort { address_type: 1, remaining: 3, required: 6 }
    );
    assert_eq!(
        Socks5Address::parse(&[4, 0]).unwrap_err(),
        Socks5CodecError::AddressTooShort { address_type: 4, remaining: 1, required: 18 }
    );
    assert_eq!(
        Socks5Address::parse(&[3]).unwrap_err(),
        Socks5CodecError::AddressTooShort { address_type: 3, remaining: 0, required: 1 }
    );
    assert_eq!(
        Socks5Address::parse(&[3, 5, b'a', b'b']).unwrap_err(),
        Socks5CodecError::AddressTooShort { address_type: 3, remaining: 2, required: 7 }
    );
    assert_eq!(Socks5Address::parse(&[2, 0, 0]).unwrap_err(), Socks5CodecError::UnknownAddressType(2));
}

#[test]
fn address_roundtrip_on_concrete_values() {
    let addresses = vec![
        Socks5Address::IpV4([10, 0, 0, 1], 65535),
        Socks5Address::IpV6([0xfe, 0x80, 0, 0, 0, 0, 0, 0, 0, 0, 0, 0, 0, 0, 0, 0x2a], 22),
        Socks5Address::Domain("www.rust-lang.org".to_string(), 443),
        Socks5Address::Domain("bücher.example".to_string(), 8443),
    ];
    for a in addresses {
        let mut wire = a.to_bytes();
        let len = wire.len();
        wire.extend_from_slice(&[9, 9, 9]);
        let (b, consumed) = Socks5Address::parse(&wire).unwrap();
        assert_eq!(consumed, len);
        assert_eq!(b.to_string(), a.to_string());
    }
}

#[test]
fn encode_addresses() {
    assert_eq!(Socks5Address::IpV4([1, 2, 3, 4], 258).to_bytes(), vec![1, 1, 2, 3, 4, 1, 2]);
    assert_eq!(Socks5Address::Domain("ab".to_string(), 1).to_bytes(), vec![3, 2, b'a', b'b', 0, 1]);
}

#[test]
fn address_text_forms() {
    assert_eq!(Socks5Address::IpV4([0, 255, 10, 9], 0).to_string(), "0.255.10.9:0");
    let ip = [0xffu8, 0xff, 0, 0x10, 0xab, 0xcd, 0, 0, 0, 0, 0, 0, 0, 0, 0x12, 0x34];
    assert_eq!(Socks5Address::IpV6(ip, 65535).to_string(), "ffff:10:abcd:0:0:0:0:1234:65535");
}

#[test]
fn net_address_conversion_keeps_address() {
    let a = Socks5Address::Domain("host".to_string(), 7);
    let n = a.duplicate().into_net_address();
    match &n {
        NetAddress::Domain { host, port } => {
            assert_eq!(host, "host");
            assert_eq!(*port, 7);
        },
        other => panic!("unexpected {other:?}"),
    }
    assert_eq!(Socks5Address::from_net_address(n).to_string(), a.to_string());
}

#[test]
fn auth_method_bytes() {
    for (byte, method) in [
        (0u8, Socks5AuthMethod::NoAuthenticationRequired),
        (1, Socks5AuthMethod::GssApi),
        (2, Socks5AuthMethod::UsernameAndPassword),
        (3, Socks5AuthMethod::IanaAssigned),
        (8, Socks5AuthMethod::ReservedForPrivateMethods),
        (16, Socks5AuthMethod::NoAcceptableMethods),
    ] {
        assert_eq!(Socks5AuthMethod::from(byte), method);
        assert_eq!(u8::from(method), byte);
    }
    assert_eq!(Socks5AuthMethod::from(7), Socks5AuthMethod::NoAuthenticationRequired);
    assert_eq!(Socks5AuthMethod::from(255), Socks5AuthMethod::NoAuthenticationRequired);
}

#[test]
fn decode_auth_requests() {
    assert!(decode_auth_request(&[5]).unwrap().is_none());
    assert!(decode_auth_request(&[5, 3, 0]).unwrap().is_none());
    assert_eq!(decode_auth_request(&[4, 1, 0]).err(), Some(Socks5CodecError::InvalidVersion(4)));
    let (content, consumed) = decode_auth_request(&[5, 2, 0, 2, 0xee]).unwrap().unwrap();
    assert_eq!(consumed, 4);
    let parts = content.split();
    assert_eq!(parts.version, 5);
    assert_eq!(parts.method_number, 2);
    assert_eq!(parts.methods, vec![Socks5AuthMethod::NoAuthenticationRequired, Socks5AuthMethod::UsernameAndPassword]);
    let (content, consumed) = decode_auth_request(&[5, 0]).unwrap().unwrap();
    assert_eq!(consumed, 2);
    assert!(content.split().methods.is_empty());
}

#[test]
fn encode_auth_reply_bytes() {
    let mut out = vec![0xaa];
    encode_auth_reply(Socks5AuthCommandResultContent::new(Socks5AuthMethod::NoAuthenticationRequired), &mut out);
    assert_eq!(out, vec![0xaa, 5, 0]);
    let mut out = Vec::new();
    encode_auth_reply(Socks5AuthCommandResultContent::new(Socks5AuthMethod::NoAcceptableMethods), &mut out);
    assert_eq!(out, vec![5, 16]);
}

#[test]
fn init_command_types() {
    assert_eq!(Socks5InitCommandType::try_from_byte(1), Ok(Socks5InitCommandType::Connect));
    assert_eq!(Socks5InitCommandType::try_from_byte(2), Ok(Socks5InitCommandType::Bind));
    assert_eq!(Socks5InitCommandType::try_from_byte(3), Ok(Socks5InitCommandType::UdpAssociate));
    assert_eq!(Socks5InitCommandType::try_from_byte(0), Err(Socks5CodecError::UnknownInitCommandType(0)));
}

#[test]
fn init_result_status_bytes() {
    for v in 0u8..=9 {
        let s = Socks5InitCommandResultStatus::try_from_byte(v).unwrap();
        assert_eq!(u8::from(s), v);
    }
    assert_eq!(Socks5InitCommandResultStatus::try_from_byte(10), Err(Socks5CodecError::UnknownInitCommandStatus(10)));
    assert_eq!(Socks5InitCommandResultStatus::try_from_byte(4), Ok(Socks5InitCommandResultStatus::HostUnReachable));
}

#[test]
fn decode_init_requests() {
    assert!(decode_init_request(&[5, 1, 0]).unwrap().is_none());
    assert_eq!(decode_init_request(&[6, 1, 0, 1]).err(), Some(Socks5CodecError::InvalidVersion(6)));
    assert_eq!(decode_init_request(&[5, 9, 0, 1]).err(), Some(Socks5CodecError::UnknownInitCommandType(9)));
    assert!(decode_init_request(&[5, 1, 0, 1, 127]).unwrap().is_none());
    assert!(decode_init_request(&[5, 1, 0, 3, 4, b'a', b'b']).unwrap().is_none());
    assert_eq!(decode_init_request(&[5, 1, 0, 2, 1]).err(), Some(Socks5CodecError::UnknownAddressType(2)));
    let request = [5u8, 1, 0, 1, 127, 0, 0, 1, 0, 80, 0xde, 0xad];
    let (content, consumed) = decode_init_request(&request).unwrap().unwrap();
    assert_eq!(consumed, 10);
    let parts = content.split();
    assert_eq!(parts.command_type, Socks5InitCommandType::Connect);
    assert_eq!(parts.dst_address.to_string(), "127.0.0.1:80");
}

#[test]
fn encode_init_replies() {
    let mut out = Vec::new();
    encode_init_reply(
        Socks5InitCommandResultContent::new(Socks5InitCommandResultStatus::Succeeded, Some(Socks5Address::IpV4([8, 8, 4, 4], 53))),
        &mut out,
    );
    assert_eq!(out, vec![5, 0, 0, 1, 8, 8, 4, 4, 0, 53]);
    let mut out = Vec::new();
    encode_init_reply(Socks5InitCommandResultContent::new(Socks5InitCommandResultStatus::ConnectionRefused, None), &mut out);
    assert_eq!(out, vec![5, 5, 0]);
}

#[test]
fn udp_packet_roundtrip() {
    let packet = Socks5UdpDataPacket { frag: 3, address: Socks5Address::IpV4([1, 1, 1, 1], 53), data: vec![1, 2, 3] };
    let wire = packet.to_bytes();
    assert_eq!(wire, vec![0, 0, 3, 1, 1, 1, 1, 1, 0, 53, 1, 2, 3]);
    let back = Socks5UdpDataPacket::parse(&wire).unwrap();
    assert_eq!(back.frag, 3);
    assert_eq!(back.address.to_string(), "1.1.1.1:53");
    assert_eq!(back.data, vec![1, 2, 3]);
}

#[test]
fn udp_packet_errors() {
    assert_eq!(Socks5UdpDataPacket::parse(&[]).unwrap_err(), Socks5CodecError::InvalidUdpPacket);
    assert_eq!(Socks5UdpDataPacket::parse(&[0, 0]).unwrap_err(), Socks5CodecError::InvalidUdpPacket);
    assert_eq!(Socks5UdpDataPacket::parse(&[0, 0, 0, 7]).unwrap_err(), Socks5CodecError::InvalidUdpPacket);
}

#[test]
fn udp_diagram_roundtrip() {
    let d = UdpDiagram { source_port: 1234, target_port: 53, length: 2, checksum: 0xbeef, data: vec![7, 8] };
    let wire = d.to_bytes();
    assert_eq!(wire, vec![0x04, 0xd2, 0, 53, 0, 2, 0xbe, 0xef, 7, 8]);
    let mut longer = wire.clone();
    longer.push(99);
    let back = UdpDiagram::parse(&longer);
    assert_eq!(back.source_port, 1234);
    assert_eq!(back.target_port, 53);
    assert_eq!(back.length, 2);
    assert_eq!(back.checksum, 0xbeef);
    assert_eq!(back.data, vec![7, 8]);
}

#[test]
fn auth_content_keeps_the_claimed_count() {
    let content = Socks5AuthCommandContent::new(3, vec![Socks5AuthMethod::NoAuthenticationRequired]);
    let parts = content.split();
    assert_eq!(parts.version, 5);
    assert_eq!(parts.method_number, 3);
    assert_eq!(parts.methods, vec![Socks5AuthMethod::NoAuthenticationRequired]);
}

#[test]
fn socket_address_conversions() {
    match Socks5Address::IpV4([10, 0, 0, 7], 8080).to_socket_address() {
        Some(SocketAddress::V4 { ip, port }) => {
            assert_eq!(ip, [10, 0, 0, 7]);
            assert_eq!(port, 8080);
        },
        other => panic!("unexpected {other:?}"),
    }
    let mut ip = [0u8; 16];
    ip[0] = 0x20;
    ip[1] = 0x01;
    ip[2] = 0x0d;
    ip[3] = 0xb8;
    ip[15] = 0x01;
    let socket = Socks5Address::IpV6(ip, 443).to_socket_address().unwrap();
    match socket {
        SocketAddress::V6 { segments, port, flowinfo, scope_id } => {
            assert_eq!(segments, [0x2001, 0x0db8, 0, 0, 0, 0, 0, 1]);
            assert_eq!(port, 443);
            assert_eq!((flowinfo, scope_id), (0, 0));
        },
        other => panic!("unexpected {other:?}"),
    }
    assert_eq!(Socks5Address::from_socket_address(socket).to_bytes(), Socks5Address::IpV6(ip, 443).to_bytes());
    assert!(Socks5Address::Domain("example.com".to_string(), 80).to_socket_address().is_none());
    let scoped = SocketAddress::V6 { segments: [0xfe80, 0, 0, 0, 0, 0, 0, 0x1234], port: 9, flowinfo: 5, scope_id: 2 };
    let back = Socks5Address::from_socket_address(scoped);
    assert_eq!(back.to_string(), "fe80:0:0:0:0:0:0:1234:9");
    assert_eq!(ipv4_of(&Socks5Address::from_socket_address(SocketAddress::V4 { ip: [1, 2, 3, 4], port: 5 })), ([1, 2, 3, 4], 5));
}

#[test]
fn proxy_addresses_that_parsed() {
    let a = SocketAddress::V4 { ip: [1, 2, 3, 4], port: 80 };
    let b = SocketAddress::V4 { ip: [5, 6, 7, 8], port: 81 };
    let kept = usable_proxy_addresses(vec![None, Some(a), None, Some(b)]).unwrap();
    assert_eq!(kept.len(), 2);
    assert!(matches!(kept[0], SocketAddress::V4 { ip: [1, 2, 3, 4], port: 80 }));
    assert!(matches!(kept[1], SocketAddress::V4 { ip: [5, 6, 7, 8], port: 81 }));
    assert!(usable_proxy_addresses(vec![None, None]).is_none());
    assert!(usable_proxy_addresses(vec![]).is_none());
}
