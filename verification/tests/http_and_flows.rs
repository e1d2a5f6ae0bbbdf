use bytecodec::bytes::{BytesEncoder, RemainingBytesDecoder};
use bytecodec::{Decode, EncodeExt, Eos};
use httpcodec::{BodyDecoder, BodyEncoder, RequestDecoder, RequestEncoder};
use ppaass_agent::dispatch::{decode_client_protocol, dispatch, ClientProtocol, DispatchError, FlowKind};
use ppaass_agent::flow::{
    relay_verdict, FlowError, HttpFlowAction, HttpFlowEvent, HttpFlowState, ProxyInitReply, RelayErrorSource,
    RelayHalfOutcome, RelayVerdict, Socks5FlowAction, Socks5FlowEvent, Socks5FlowState,
};
use ppaass_agent::http::{destination_from_url, is_connect, resolve_http_destination, HttpTargetError};
use ppaass_agent::inbound::{ClientInboundError, ClientInboundEvent, ClientInboundOutput, ClientInboundStatus, ClientInputMessage};
use ppaass_agent::socks5::address::{NetAddress, Socks5Address};
use ppaass_agent::socks5::Socks5CodecError;

fn domain(a: &NetAddress) -> (String, u16) {
    match a {
        NetAddress::Domain { host, port } => (host.clone(), *port),
        other => panic!("not a domain: {other:?}"),
    }
}

#[test]
fn protocol_from_first_byte() {
    assert_eq!(decode_client_protocol(&[]), None);
    assert_eq!(decode_client_protocol(&[5, 1, 0]), Some(ClientProtocol::Socks5));
    assert_eq!(decode_client_protocol(&[4]), Some(ClientProtocol::Socks4));
    assert_eq!(decode_client_protocol(b"GET / HTTP/1.1"), Some(ClientProtocol::Http));
    assert_eq!(dispatch(Some(ClientProtocol::Socks5)), Ok(FlowKind::Socks5));
    assert_eq!(dispatch(Some(ClientProtocol::Http)), Ok(FlowKind::Http));
    assert_eq!(dispatch(Some(ClientProtocol::Socks4)), Err(DispatchError::Socks4Unsupported));
    assert_eq!(dispatch(None), Err(DispatchError::NothingToRead));
}

#[test]
fn connect_method_in_any_case() {
    assert!(is_connect("CONNECT"));
    assert!(is_connect("connect"));
    assert!(is_connect("CoNnEcT"));
    assert!(!is_connect("GET"));
    assert!(!is_connect("CONNECTS"));
}

#[test]
fn http_destinations() {
    let a = resolve_http_destination("CONNECT", "example.com:8443").unwrap();
    assert_eq!(domain(&a), ("example.com".to_string(), 8443));
    let a = resolve_http_destination("CONNECT", "example.com").unwrap();
    assert_eq!(domain(&a), ("example.com".to_string(), 443));
    let a = resolve_http_destination("GET", "http://www.example.org/index.html").unwrap();
    assert_eq!(domain(&a), ("www.example.org".to_string(), 80));
    let a = resolve_http_destination("POST", "https://api.example.org/v1").unwrap();
    assert_eq!(domain(&a), ("api.example.org".to_string(), 443));
    let a = resolve_http_destination("GET", "http://10.0.0.1:8080/").unwrap();
    assert_eq!(domain(&a), ("10.0.0.1".to_string(), 8080));
}

#[test]
fn http_destination_errors() {
    assert!(matches!(resolve_http_destination("GET", "/relative/path"), Err(HttpTargetError::InvalidUrl(_))));
    assert!(matches!(destination_from_url("data:text/plain,hello"), Err(HttpTargetError::NoHost)));
}

fn socks5_step(state: Socks5FlowState, event: Socks5FlowEvent, token: &Option<String>) -> (Socks5FlowState, Socks5FlowAction) {
    state.step(event, token)
}

#[test]
fn socks5_handshake_to_relay() {
    let token = Some("user1".to_string());
    let (s, a) = socks5_step(Socks5FlowState::Authenticate, Socks5FlowEvent::ClientData(vec![5]), &token);
    assert_eq!(s, Socks5FlowState::Authenticate);
    assert!(matches!(a, Socks5FlowAction::ReadMore));
    let (s, a) = socks5_step(s, Socks5FlowEvent::ClientData(vec![5, 1, 0]), &token);
    assert_eq!(s, Socks5FlowState::Initialize);
    match a {
        Socks5FlowAction::Reply { consumed, reply } => {
            assert_eq!(consumed, 3);
            assert_eq!(reply, vec![5, 0]);
        },
        other => panic!("unexpected {other:?}"),
    }
    let request = vec![5, 1, 0, 3, 3, b'a', b'b', b'c', 0, 80];
    let (s, a) = socks5_step(s, Socks5FlowEvent::ClientData(request), &token);
    assert_eq!(s, Socks5FlowState::AwaitProxy);
    match a {
        Socks5FlowAction::ConnectProxy { consumed, user_token, dst_address } => {
            assert_eq!(consumed, 10);
            assert_eq!(user_token, "user1");
            assert_eq!(domain(&dst_address), ("abc".to_string(), 80));
        },
        other => panic!("unexpected {other:?}"),
    }
    let reply = ProxyInitReply::Success { dst_address: NetAddress::IpV4 { ip: [1, 2, 3, 4], port: 80 } };
    let (s, a) = socks5_step(s, Socks5FlowEvent::ProxyReply(reply), &token);
    assert_eq!(s, Socks5FlowState::Relay);
    match a {
        Socks5FlowAction::StartRelay { reply } => assert_eq!(reply, vec![5, 0, 0, 1, 1, 2, 3, 4, 0, 80]),
        other => panic!("unexpected {other:?}"),
    }
}

#[test]
fn socks5_flow_failures() {
    let token = Some("u".to_string());
    let (s, a) = socks5_step(Socks5FlowState::Authenticate, Socks5FlowEvent::ClientData(vec![4, 1, 0]), &token);
    assert_eq!(s, Socks5FlowState::Closed);
    assert!(matches!(a, Socks5FlowAction::Fail(FlowError::Decode(Socks5CodecError::InvalidVersion(4)))));
    let (s, a) = socks5_step(Socks5FlowState::Authenticate, Socks5FlowEvent::ClientData(vec![5, 3, 0]), &token);
    assert_eq!(s, Socks5FlowState::Authenticate);
    assert!(matches!(a, Socks5FlowAction::ReadMore));
    let (s, a) = socks5_step(s, Socks5FlowEvent::ClientData(vec![5, 3, 0, 1, 2]), &token);
    assert_eq!(s, Socks5FlowState::Initialize);
    assert!(matches!(a, Socks5FlowAction::Reply { consumed: 5, .. }));
    let (s, a) = socks5_step(s, Socks5FlowEvent::ClientData(vec![5, 1, 0, 3, 9, b'e']), &token);
    assert_eq!(s, Socks5FlowState::Initialize);
    assert!(matches!(a, Socks5FlowAction::ReadMore));
    let (_, a) = socks5_step(Socks5FlowState::Initialize, Socks5FlowEvent::ClientClosed, &token);
    assert!(matches!(a, Socks5FlowAction::Fail(FlowError::ConnectionExhausted)));
    let bind = vec![5, 2, 0, 1, 1, 2, 3, 4, 0, 1];
    let (s, a) = socks5_step(Socks5FlowState::Initialize, Socks5FlowEvent::ClientData(bind), &token);
    assert_eq!(s, Socks5FlowState::Closed);
    match a {
        Socks5FlowAction::ReplyAndClose { consumed, reply } => {
            assert_eq!(consumed, 10);
            assert_eq!(reply, vec![5, 7, 0, 1, 0, 0, 0, 0, 0, 0]);
        },
        other => panic!("unexpected {other:?}"),
    }
    let connect = vec![5, 1, 0, 1, 1, 2, 3, 4, 0, 1];
    let (_, a) = socks5_step(Socks5FlowState::Initialize, Socks5FlowEvent::ClientData(connect), &None);
    assert!(matches!(a, Socks5FlowAction::Fail(FlowError::UserTokenMissing)));
    let (_, a) = socks5_step(Socks5FlowState::AwaitProxy, Socks5FlowEvent::ProxyReply(ProxyInitReply::Fail), &token);
    assert!(matches!(a, Socks5FlowAction::Fail(FlowError::ProxyInitFailed)));
    let (_, a) = socks5_step(Socks5FlowState::AwaitProxy, Socks5FlowEvent::ProxyReply(ProxyInitReply::NotTcpInit), &token);
    assert!(matches!(a, Socks5FlowAction::Fail(FlowError::InvalidProxyResponse)));
    let (_, a) = socks5_step(Socks5FlowState::AwaitProxy, Socks5FlowEvent::ProxyClosed, &token);
    assert!(matches!(a, Socks5FlowAction::Fail(FlowError::ConnectionExhausted)));
    let (s, a) = socks5_step(Socks5FlowState::Relay, Socks5FlowEvent::ClientClosed, &token);
    assert_eq!(s, Socks5FlowState::Closed);
    assert!(matches!(a, Socks5FlowAction::Fail(FlowError::InvalidStatus)));
}

fn reencoded(request: &[u8]) -> Vec<u8> {
    let mut decoder = RequestDecoder::<BodyDecoder<RemainingBytesDecoder>>::default();
    decoder.decode(request, Eos::new(true)).unwrap();
    let decoded = decoder.finish_decoding().unwrap();
    RequestEncoder::<BodyEncoder<BytesEncoder>>::default().encode_into_bytes(decoded).unwrap()
}

#[test]
fn http_connect_flow() {
    let token = Some("t".to_string());
    let request = b"CONNECT example.com:443 HTTP/1.1\r\nHost: example.com:443\r\n\r\n".to_vec();
    let (s, a) = HttpFlowState::AwaitRequest.step(HttpFlowEvent::ClientData(request[..20].to_vec()), &token);
    assert!(matches!(s, HttpFlowState::AwaitRequest));
    assert!(matches!(a, HttpFlowAction::ReadMore));
    let (s, a) = HttpFlowState::AwaitRequest.step(HttpFlowEvent::ClientData(request.clone()), &token);
    match a {
        HttpFlowAction::ConnectProxy { consumed, user_token, dst_address } => {
            assert_eq!(consumed, request.len());
            assert_eq!(user_token, "t");
            assert_eq!(domain(&dst_address), ("example.com".to_string(), 443));
        },
        other => panic!("unexpected {other:?}"),
    }
    let reply = ProxyInitReply::Success { dst_address: NetAddress::Domain { host: "example.com".to_string(), port: 443 } };
    let (s, a) = s.step(HttpFlowEvent::ProxyReply(reply), &token);
    assert!(matches!(s, HttpFlowState::Relay));
    assert!(matches!(a, HttpFlowAction::StartRelay { connection_established: true, init_data: None }));
}

#[test]
fn http_plain_request_flow() {
    let token = Some("t".to_string());
    let request = b"GET http://example.com/a HTTP/1.1\r\nHost: example.com\r\n\r\n".to_vec();
    let (s, a) = HttpFlowState::AwaitRequest.step(HttpFlowEvent::ClientData(request.clone()), &token);
    match a {
        HttpFlowAction::ConnectProxy { dst_address, .. } => {
            assert_eq!(domain(&dst_address), ("example.com".to_string(), 80));
        },
        other => panic!("unexpected {other:?}"),
    }
    let (s, a) = s.step(HttpFlowEvent::ProxyReply(ProxyInitReply::Success { dst_address: NetAddress::IpV4 { ip: [0; 4], port: 0 } }), &token);
    assert!(matches!(s, HttpFlowState::Relay));
    match a {
        HttpFlowAction::StartRelay { connection_established, init_data } => {
            assert!(!connection_established);
            let data = init_data.unwrap();
            assert_eq!(data, reencoded(&request));
            assert!(data.starts_with(b"GET http://example.com/a HTTP/1.1\r\n"));
        },
        other => panic!("unexpected {other:?}"),
    }
}

#[test]
fn http_flow_failures() {
    let token = Some("t".to_string());
    let (s, a) = HttpFlowState::AwaitRequest.step(HttpFlowEvent::ClientData(b"GET\r\n\r\n".to_vec()), &token);
    assert!(matches!(s, HttpFlowState::Closed));
    assert!(matches!(a, HttpFlowAction::Fail(FlowError::HttpDecode(_))));
    let (_, a) = HttpFlowState::AwaitRequest.step(HttpFlowEvent::ClientData(b"GET / HTTP/2.0\r\n\r\n".to_vec()), &token);
    assert!(matches!(a, HttpFlowAction::Fail(FlowError::HttpDecode(_))));
    let request = b"GET http://h/ HTTP/1.1\r\n\r\n".to_vec();
    let (_, a) = HttpFlowState::AwaitRequest.step(HttpFlowEvent::ClientData(request), &None);
    assert!(matches!(a, HttpFlowAction::Fail(FlowError::UserTokenMissing)));
    let request = b"GET /relative HTTP/1.1\r\n\r\n".to_vec();
    let (_, a) = HttpFlowState::AwaitRequest.step(HttpFlowEvent::ClientData(request), &token);
    assert!(matches!(a, HttpFlowAction::Fail(FlowError::HttpTarget(HttpTargetError::InvalidUrl(_)))));
    let (_, a) = HttpFlowState::AwaitRequest.step(HttpFlowEvent::ClientClosed, &token);
    assert!(matches!(a, HttpFlowAction::Fail(FlowError::ConnectionExhausted)));
    let waiting = HttpFlowState::AwaitProxy { is_connect: true, init_data: None };
    let (_, a) = waiting.step(HttpFlowEvent::ProxyReply(ProxyInitReply::Fail), &token);
    assert!(matches!(a, HttpFlowAction::Fail(FlowError::ProxyInitFailed)));
}

#[test]
fn relay_verdicts() {
    assert_eq!(relay_verdict(RelayHalfOutcome::Completed, RelayHalfOutcome::Completed), RelayVerdict::Done);
    assert_eq!(
        relay_verdict(RelayHalfOutcome::Failed, RelayHalfOutcome::Completed),
        RelayVerdict::Failed { recover_client_stream: true, source: RelayErrorSource::AgentToProxy }
    );
    assert_eq!(
        relay_verdict(RelayHalfOutcome::Failed, RelayHalfOutcome::Failed),
        RelayVerdict::Failed { recover_client_stream: true, source: RelayErrorSource::BothFailed }
    );
    assert_eq!(
        relay_verdict(RelayHalfOutcome::Failed, RelayHalfOutcome::Crashed),
        RelayVerdict::Failed { recover_client_stream: false, source: RelayErrorSource::ProxyToAgentCrashed }
    );
    assert_eq!(
        relay_verdict(RelayHalfOutcome::Crashed, RelayHalfOutcome::Crashed),
        RelayVerdict::Failed { recover_client_stream: false, source: RelayErrorSource::BothCrashed }
    );
}

#[test]
fn inbound_socks5_messages() {
    let (s, out) = ClientInboundStatus::New.step(ClientInboundEvent::FirstByte(5));
    assert_eq!(s, ClientInboundStatus::Socks5Authenticate);
    assert!(matches!(out, ClientInboundOutput::Switched { ref initial_buffer } if initial_buffer == &vec![5]));
    let (s, out) = s.step(ClientInboundEvent::Data(vec![5, 2, 0]));
    assert_eq!(s, ClientInboundStatus::Socks5Authenticate);
    assert!(matches!(out, ClientInboundOutput::NeedMore));
    let (s, out) = s.step(ClientInboundEvent::Data(vec![5, 2, 0, 1]));
    assert_eq!(s, ClientInboundStatus::Socks5Initialize);
    match out {
        ClientInboundOutput::Message { consumed, message: ClientInputMessage::Socks5Authenticate { method_number, methods } } => {
            assert_eq!(consumed, 4);
            assert_eq!(method_number, 2);
            assert_eq!(methods.len(), 2);
        },
        other => panic!("unexpected {other:?}"),
    }
    let (s, out) = s.step(ClientInboundEvent::Data(vec![5, 3, 0, 1, 9, 9, 9, 9, 0, 9]));
    assert_eq!(s, ClientInboundStatus::Relay);
    match out {
        ClientInboundOutput::Message { message: ClientInputMessage::Socks5UdpAssociate { dest_address }, .. } => {
            assert_eq!(dest_address.to_string(), "9.9.9.9:9");
        },
        other => panic!("unexpected {other:?}"),
    }
    let (_, out) = s.step(ClientInboundEvent::Data(vec![1, 2, 3]));
    match out {
        ClientInboundOutput::Message { consumed, message: ClientInputMessage::Relay(data) } => {
            assert_eq!(consumed, 3);
            assert_eq!(data, vec![1, 2, 3]);
        },
        other => panic!("unexpected {other:?}"),
    }
    let (_, out) = ClientInboundStatus::Relay.step(ClientInboundEvent::Data(vec![]));
    assert!(matches!(out, ClientInboundOutput::End));
}

#[test]
fn inbound_http_and_errors() {
    let (s, _) = ClientInboundStatus::New.step(ClientInboundEvent::FirstByte(b'G'));
    assert_eq!(s, ClientInboundStatus::HttpInitialize);
    let (s, out) = s.step(ClientInboundEvent::Data(b"GET http://example.com:81/ HT".to_vec()));
    assert_eq!(s, ClientInboundStatus::HttpInitialize);
    assert!(matches!(out, ClientInboundOutput::NeedMore));
    let request = b"GET http://example.com:81/ HTTP/1.1\r\n\r\n".to_vec();
    let (s, out) = s.step(ClientInboundEvent::Data(request.clone()));
    assert_eq!(s, ClientInboundStatus::Relay);
    match out {
        ClientInboundOutput::Message { consumed, message: ClientInputMessage::HttpConnect { dest_address, initial_data } } => {
            assert_eq!(consumed, request.len());
            assert_eq!(domain(&dest_address), ("example.com".to_string(), 81));
            assert_eq!(initial_data, reencoded(&request));
        },
        other => panic!("unexpected {other:?}"),
    }
    let (s, out) = ClientInboundStatus::HttpInitialize.step(ClientInboundEvent::Data(b"CONNECT https://h:8443 HTTP/1.1\r\n\r\n".to_vec()));
    assert_eq!(s, ClientInboundStatus::Relay);
    match out {
        ClientInboundOutput::Message { message: ClientInputMessage::HttpsConnect { dest_address }, .. } => {
            assert_eq!(domain(&dest_address), ("h".to_string(), 8443));
        },
        other => panic!("unexpected {other:?}"),
    }
    let (s, out) = ClientInboundStatus::HttpInitialize.step(ClientInboundEvent::Data(b"CONNECT h:8443 HTTP/1.1\r\n\r\n".to_vec()));
    assert_eq!(s, ClientInboundStatus::Closed);
    assert!(matches!(out, ClientInboundOutput::Error(ClientInboundError::HttpTarget(HttpTargetError::NoHost))));
    let (s, out) = ClientInboundStatus::HttpInitialize.step(ClientInboundEvent::Data(b"GET\r\n\r\n".to_vec()));
    assert_eq!(s, ClientInboundStatus::Closed);
    assert!(matches!(out, ClientInboundOutput::Error(ClientInboundError::HttpDecode(_))));
    let (s, out) = ClientInboundStatus::New.step(ClientInboundEvent::FirstByte(4));
    assert_eq!(s, ClientInboundStatus::Closed);
    assert!(matches!(out, ClientInboundOutput::Error(ClientInboundError::Socks4Unsupported)));
    let (_, out) = ClientInboundStatus::Socks5Initialize.step(ClientInboundEvent::Data(vec![5, 7, 0, 1]));
    assert!(matches!(out, ClientInboundOutput::Error(ClientInboundError::Socks5Codec(Socks5CodecError::UnknownInitCommandType(7)))));
    let _ = Socks5Address::IpV4([0; 4], 0);
}

#[test]
fn socks5_udp_associate_flow() {
    let token = Some("user1".to_string());
    let request = vec![5, 3, 0, 1, 192, 168, 1, 2, 0x1f, 0x90];
    let (s, a) = socks5_step(Socks5FlowState::Initialize, Socks5FlowEvent::ClientData(request), &token);
    assert_eq!(s, Socks5FlowState::AwaitUdpBind);
    match a {
        Socks5FlowAction::BindUdp { consumed, client_address } => {
            assert_eq!(consumed, 10);
            assert!(matches!(client_address, NetAddress::IpV4 { ip: [192, 168, 1, 2], port: 8080 }));
        },
        other => panic!("unexpected {other:?}"),
    }
    let bound = NetAddress::IpV4 { ip: [127, 0, 0, 1], port: 40000 };
    let (s, a) = socks5_step(s, Socks5FlowEvent::UdpBound(bound), &token);
    assert_eq!(s, Socks5FlowState::UdpRelay);
    match a {
        Socks5FlowAction::StartUdpRelay { reply } => assert_eq!(reply, vec![5, 0, 0, 1, 127, 0, 0, 1, 0x9c, 0x40]),
        other => panic!("unexpected {other:?}"),
    }
    let datagram = vec![0, 0, 0, 3, 3, b'd', b'n', b's', 0, 53, 0xaa, 0xbb];
    let (s, a) = socks5_step(s, Socks5FlowEvent::ClientDatagram(datagram), &token);
    assert_eq!(s, Socks5FlowState::UdpRelay);
    match a {
        Socks5FlowAction::ForwardDatagram { user_token, dst_address, data } => {
            assert_eq!(user_token, "user1");
            assert_eq!(domain(&dst_address), ("dns".to_string(), 53));
            assert_eq!(data, vec![0xaa, 0xbb]);
        },
        other => panic!("unexpected {other:?}"),
    }
    let back = Socks5FlowEvent::ProxyDatagram { src_address: NetAddress::IpV4 { ip: [8, 8, 8, 8], port: 53 }, data: vec![7, 7] };
    let (s, a) = socks5_step(s, back, &token);
    assert_eq!(s, Socks5FlowState::UdpRelay);
    match a {
        Socks5FlowAction::SendDatagram { packet } => assert_eq!(packet, vec![0, 0, 0, 1, 8, 8, 8, 8, 0, 53, 7, 7]),
        other => panic!("unexpected {other:?}"),
    }
    let (s, a) = socks5_step(s, Socks5FlowEvent::ClientClosed, &token);
    assert_eq!(s, Socks5FlowState::Closed);
    assert!(matches!(a, Socks5FlowAction::Finish));
}

#[test]
fn socks5_udp_failures_and_drops() {
    let token = Some("u".to_string());
    let (s, a) = socks5_step(Socks5FlowState::AwaitUdpBind, Socks5FlowEvent::UdpBindFailed, &token);
    assert_eq!(s, Socks5FlowState::Closed);
    match a {
        Socks5FlowAction::ReplyAndClose { consumed, reply } => {
            assert_eq!(consumed, 0);
            assert_eq!(reply, vec![5, 1, 0, 1, 0, 0, 0, 0, 0, 0]);
        },
        other => panic!("unexpected {other:?}"),
    }
    let fragment = vec![0, 0, 1, 1, 1, 2, 3, 4, 0, 80, 9];
    let (s, a) = socks5_step(Socks5FlowState::UdpRelay, Socks5FlowEvent::ClientDatagram(fragment), &token);
    assert_eq!(s, Socks5FlowState::UdpRelay);
    assert!(matches!(a, Socks5FlowAction::DropDatagram));
    let (s, a) = socks5_step(Socks5FlowState::UdpRelay, Socks5FlowEvent::ClientDatagram(vec![0, 0]), &token);
    assert_eq!(s, Socks5FlowState::UdpRelay);
    assert!(matches!(a, Socks5FlowAction::DropDatagram));
    let (s, a) = socks5_step(Socks5FlowState::UdpRelay, Socks5FlowEvent::ProxyClosed, &token);
    assert_eq!(s, Socks5FlowState::Closed);
    assert!(matches!(a, Socks5FlowAction::Fail(FlowError::ConnectionExhausted)));
    let udp = vec![5, 3, 0, 1, 0, 0, 0, 0, 0, 0];
    let (_, a) = socks5_step(Socks5FlowState::Initialize, Socks5FlowEvent::ClientData(udp), &None);
    assert!(matches!(a, Socks5FlowAction::Fail(FlowError::UserTokenMissing)));
    let (_, a) = socks5_step(Socks5FlowState::AwaitUdpBind, Socks5FlowEvent::ClientClosed, &token);
    assert!(matches!(a, Socks5FlowAction::Fail(FlowError::ConnectionExhausted)));
    let (s, a) = socks5_step(Socks5FlowState::AwaitUdpBind, Socks5FlowEvent::ProxyClosed, &token);
    assert_eq!(s, Socks5FlowState::Closed);
    assert!(matches!(a, Socks5FlowAction::Fail(FlowError::InvalidStatus)));
}

#[test]
fn socks5_requests_without_user_token() {
    for request in [
        vec![5, 1, 0, 1, 1, 2, 3, 4, 0, 1],
        vec![5, 2, 0, 1, 1, 2, 3, 4, 0, 1],
        vec![5, 3, 0, 1, 1, 2, 3, 4, 0, 1],
    ] {
        let (s, a) = socks5_step(Socks5FlowState::Initialize, Socks5FlowEvent::ClientData(request), &None);
        assert_eq!(s, Socks5FlowState::Closed);
        assert!(matches!(a, Socks5FlowAction::Fail(FlowError::UserTokenMissing)));
    }
}
