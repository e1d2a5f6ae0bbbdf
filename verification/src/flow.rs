//! The decisions of a client connection, from the first request to the start
//! of the relay, as state machines: the caller performs the I/O that an action
//! names and hands back what happened as the next event.
use vstd::prelude::*;
use crate::http::{decode_http_request, http_request_decode, HttpRequestParts, is_connect, is_connect_method, resolve_http_destination, spec_http_destination, spec_request_url, url_parse, HttpTargetError};
use crate::socks5::Socks5CodecError;
use crate::socks5::address::{copy_string, NetAddress, Socks5Address, SpecSocks5Address};
use crate::socks5::auth::{decode_auth_request, encode_auth_reply, spec_decode_auth_request, spec_encode_auth_reply, Socks5AuthCommandResultContent, Socks5AuthMethod};
use crate::socks5::udp::{spec_encode_udp_packet, spec_parse_udp_packet, Socks5UdpDataPacket};
use crate::socks5::init::{decode_init_request, encode_init_reply, spec_decode_init_request, spec_encode_init_reply, Socks5InitCommandContentParts, Socks5InitCommandResultContent, Socks5InitCommandResultStatus, Socks5InitCommandType};

verus! {

/// What the proxy answered to a request for a TCP session.
#[derive(Debug)]
pub enum ProxyInitReply {
    /// A TCP session response of type success, with the destination that the
    /// proxy connected to.
    Success { dst_address: NetAddress },
    /// A TCP session response of type fail.
    Fail,
    /// A message whose payload is not a TCP session response.
    NotTcpInit,
}

/// Why a client connection ends before its relay starts.
#[derive(Debug)]
pub enum FlowError {
    /// The client or the proxy closed the connection.
    ConnectionExhausted,
    /// A SOCKS5 message from the client does not decode.
    Decode(Socks5CodecError),
    /// The configuration holds no user token.
    UserTokenMissing,
    /// The proxy answered with something other than a TCP session response.
    InvalidProxyResponse,
    /// The proxy could not open the TCP session.
    ProxyInitFailed,
    /// The destination of an HTTP request is not known.
    HttpTarget(HttpTargetError),
    /// An HTTP request could not be encoded again to be forwarded.
    HttpEncode(String),
    /// The client's bytes are not an HTTP request.
    HttpDecode(String),
    /// The event does not belong to the state the flow is in.
    InvalidStatus,
}

/// Where a SOCKS5 connection is in its handshake.
#[derive(Debug, Clone, Copy, PartialEq, Eq, Structural)]
pub enum Socks5FlowState {
    /// Waiting for the method-selection request.
    Authenticate,
    /// Waiting for the request that names a command.
    Initialize,
    /// Waiting for the proxy's answer to the TCP session request.
    AwaitProxy,
    /// Relaying data both ways.
    Relay,
    /// Waiting for the UDP socket of an association to be bound.
    AwaitUdpBind,
    /// Relaying the datagrams of a UDP association.
    UdpRelay,
    /// Done; nothing more is served.
    Closed,
}

/// What happened on a SOCKS5 connection.
#[derive(Debug)]
pub enum Socks5FlowEvent {
    /// The bytes read from the client and not yet consumed.
    ClientData(Vec<u8>),
    /// The client closed the connection.
    ClientClosed,
    /// The proxy answered the TCP session request.
    ProxyReply(ProxyInitReply),
    /// The proxy closed the connection.
    ProxyClosed,
    /// The UDP socket of the association is bound to this address.
    UdpBound(NetAddress),
    /// No UDP socket could be bound for the association.
    UdpBindFailed,
    /// A datagram arrived from the client on the association's socket.
    ClientDatagram(Vec<u8>),
    /// The proxy relayed back a datagram that `src_address` sent.
    ProxyDatagram { src_address: NetAddress, data: Vec<u8> },
}

/// What the caller does next on a SOCKS5 connection.
#[derive(Debug)]
pub enum Socks5FlowAction {
    /// Read more bytes from the client.
    ReadMore,
    /// Drop `consumed` bytes of the client's data and write `reply` to the client.
    Reply { consumed: usize, reply: Vec<u8> },
    /// Drop `consumed` bytes of the client's data and ask the proxy, on behalf
    /// of `user_token`, for a TCP session to `dst_address`.
    ConnectProxy { consumed: usize, user_token: String, dst_address: NetAddress },
    /// Write `reply` to the client, then relay.
    StartRelay { reply: Vec<u8> },
    /// Drop `consumed` bytes of the client's data and bind a UDP socket for
    /// the datagrams that `client_address` will send.
    BindUdp { consumed: usize, client_address: NetAddress },
    /// Write `reply` to the client, then relay datagrams.
    StartUdpRelay { reply: Vec<u8> },
    /// Drop `consumed` bytes of the client's data, write `reply` to the
    /// client and close the connection.
    ReplyAndClose { consumed: usize, reply: Vec<u8> },
    /// Send `data` through the proxy, on behalf of `user_token`, to `dst_address`.
    ForwardDatagram { user_token: String, dst_address: NetAddress, data: Vec<u8> },
    /// Send `packet` to the client on the association's socket.
    SendDatagram { packet: Vec<u8> },
    /// Ignore the datagram.
    DropDatagram,
    /// Close the connection; the client ended it.
    Finish,
    /// Close the connection with an error.
    Fail(FlowError),
}

/// The address `0.0.0.0:0`, sent where a reply has no address to name.
pub open spec fn spec_unspecified_address() -> SpecSocks5Address {
    SpecSocks5Address::IpV4(seq![0u8, 0u8, 0u8, 0u8], 0)
}

fn unspecified_address() -> (r: Socks5Address)
    ensures
        r@ == spec_unspecified_address(),
{
    let ip: [u8; 4] = [0u8, 0u8, 0u8, 0u8];
    assert(ip@ =~= seq![0u8, 0u8, 0u8, 0u8]);
    Socks5Address::IpV4(ip, 0)
}

/// The wire form of a reply with `status` and, as bound address, `bind`.
fn init_reply(status: Socks5InitCommandResultStatus, bind: Socks5Address) -> (r: Vec<u8>)
    ensures
        r@ == spec_encode_init_reply(status, Some(bind@)),
{
    let mut out: Vec<u8> = Vec::new();
    let ghost b = bind@;
    encode_init_reply(Socks5InitCommandResultContent::new(status, Some(bind)), &mut out);
    assert(out@ =~= spec_encode_init_reply(status, Some(b)));
    out
}

impl Socks5FlowState {
    /// The next state and action of a SOCKS5 connection in this state when
    /// `event` happens, with `user_token` from the configuration.
    pub fn step(self, event: Socks5FlowEvent, user_token: &Option<String>) -> (r: (Socks5FlowState, Socks5FlowAction))
        ensures
            self == Socks5FlowState::Authenticate ==> (event matches Socks5FlowEvent::ClientData(b) ==> (
                match spec_decode_auth_request(b@) {
                    Ok(None) => r.0 == Socks5FlowState::Authenticate && r.1 is ReadMore,
                    Err(e) => {
                        &&& r.0 == Socks5FlowState::Closed
                        &&& r.1 matches Socks5FlowAction::Fail(FlowError::Decode(e2))
                        &&& e2 == e
                    },
                    Ok(Some((_, n))) => {
                        &&& r.0 == Socks5FlowState::Initialize
                        &&& r.1 matches Socks5FlowAction::Reply { consumed, reply }
                        &&& consumed == n
                        &&& reply@ == spec_encode_auth_reply(Socks5AuthMethod::NoAuthenticationRequired)
                    },
                })),
            self == Socks5FlowState::Initialize ==> (event matches Socks5FlowEvent::ClientData(b) ==> (
                match spec_decode_init_request(b@) {
                    Ok(None) => r.0 == Socks5FlowState::Initialize && r.1 is ReadMore,
                    Err(e) => {
                        &&& r.0 == Socks5FlowState::Closed
                        &&& r.1 matches Socks5FlowAction::Fail(FlowError::Decode(e2))
                        &&& e2 == e
                    },
                    Ok(Some((t, a, n))) => match user_token {
                        None => {
                            &&& r.0 == Socks5FlowState::Closed
                            &&& r.1 matches Socks5FlowAction::Fail(FlowError::UserTokenMissing)
                        },
                        Some(token) => match t {
                            Socks5InitCommandType::Bind => {
                                &&& r.0 == Socks5FlowState::Closed
                                &&& r.1 matches Socks5FlowAction::ReplyAndClose { consumed, reply }
                                &&& consumed == n
                                &&& reply@ == spec_encode_init_reply(
                                    Socks5InitCommandResultStatus::CommandNotSupported,
                                    Some(spec_unspecified_address()),
                                )
                            },
                            Socks5InitCommandType::Connect => {
                                &&& r.0 == Socks5FlowState::AwaitProxy
                                &&& r.1 matches Socks5FlowAction::ConnectProxy { consumed, user_token: t2, dst_address }
                                &&& consumed == n
                                &&& t2@ == token@
                                &&& dst_address@ == a
                            },
                            Socks5InitCommandType::UdpAssociate => {
                                &&& r.0 == Socks5FlowState::AwaitUdpBind
                                &&& r.1 matches Socks5FlowAction::BindUdp { consumed, client_address }
                                &&& consumed == n
                                &&& client_address@ == a
                            },
                        },
                    },
                })),
            (self == Socks5FlowState::Authenticate || self == Socks5FlowState::Initialize
                || self == Socks5FlowState::AwaitUdpBind) ==> (event is ClientClosed ==> {
                &&& r.0 == Socks5FlowState::Closed
                &&& r.1 matches Socks5FlowAction::Fail(FlowError::ConnectionExhausted)
            }),
            self == Socks5FlowState::AwaitProxy ==> (event matches Socks5FlowEvent::ProxyReply(reply) ==> (
                match reply {
                    ProxyInitReply::NotTcpInit => {
                        &&& r.0 == Socks5FlowState::Closed
                        &&& r.1 matches Socks5FlowAction::Fail(FlowError::InvalidProxyResponse)
                    },
                    ProxyInitReply::Fail => {
                        &&& r.0 == Socks5FlowState::Closed
                        &&& r.1 matches Socks5FlowAction::Fail(FlowError::ProxyInitFailed)
                    },
                    ProxyInitReply::Success { dst_address } => {
                        &&& r.0 == Socks5FlowState::Relay
                        &&& r.1 matches Socks5FlowAction::StartRelay { reply: out }
                        &&& out@ == spec_encode_init_reply(Socks5InitCommandResultStatus::Succeeded, Some(dst_address@))
                    },
                })),
            (self == Socks5FlowState::AwaitProxy || self == Socks5FlowState::UdpRelay) ==> (event is ProxyClosed ==> {
                &&& r.0 == Socks5FlowState::Closed
                &&& r.1 matches Socks5FlowAction::Fail(FlowError::ConnectionExhausted)
            }),
            self == Socks5FlowState::AwaitUdpBind ==> (event matches Socks5FlowEvent::UdpBound(bind) ==> {
                &&& r.0 == Socks5FlowState::UdpRelay
                &&& r.1 matches Socks5FlowAction::StartUdpRelay { reply }
                &&& reply@ == spec_encode_init_reply(Socks5InitCommandResultStatus::Succeeded, Some(bind@))
            }),
            self == Socks5FlowState::AwaitUdpBind ==> (event is UdpBindFailed ==> {
                &&& r.0 == Socks5FlowState::Closed
                &&& r.1 matches Socks5FlowAction::ReplyAndClose { consumed, reply }
                &&& consumed == 0
                &&& reply@ == spec_encode_init_reply(
                    Socks5InitCommandResultStatus::Failure,
                    Some(spec_unspecified_address()),
                )
            }),
            self == Socks5FlowState::UdpRelay ==> (event matches Socks5FlowEvent::ClientDatagram(b) ==> (
                match spec_parse_udp_packet(b@) {
                    Err(_) => r.0 == Socks5FlowState::UdpRelay && r.1 is DropDatagram,
                    Ok((frag, a, data)) => if frag != 0 {
                        r.0 == Socks5FlowState::UdpRelay && r.1 is DropDatagram
                    } else {
                        match user_token {
                            None => {
                                &&& r.0 == Socks5FlowState::Closed
                                &&& r.1 matches Socks5FlowAction::Fail(FlowError::UserTokenMissing)
                            },
                            Some(token) => {
                                &&& r.0 == Socks5FlowState::UdpRelay
                                &&& r.1 matches Socks5FlowAction::ForwardDatagram { user_token: t2, dst_address, data: d }
                                &&& t2@ == token@
                                &&& dst_address@ == a
                                &&& d@ == data
                            },
                        }
                    },
                })),
            self == Socks5FlowState::UdpRelay ==> (event matches Socks5FlowEvent::ProxyDatagram { src_address, data } ==> {
                &&& r.0 == Socks5FlowState::UdpRelay
                &&& r.1 matches Socks5FlowAction::SendDatagram { packet }
                &&& packet@ == spec_encode_udp_packet(0, src_address@, data@)
            }),
            self == Socks5FlowState::UdpRelay ==> (event is ClientClosed ==> {
                &&& r.0 == Socks5FlowState::Closed
                &&& r.1 is Finish
            }),
            event matches Socks5FlowEvent::ClientData(b) ==> (r.1 matches Socks5FlowAction::Reply { consumed, .. }
                ==> consumed <= b@.len()),
            event matches Socks5FlowEvent::ClientData(b) ==> (
            r.1 matches Socks5FlowAction::ConnectProxy { consumed, .. } ==> consumed <= b@.len()),
            event matches Socks5FlowEvent::ClientData(b) ==> (
            r.1 matches Socks5FlowAction::BindUdp { consumed, .. } ==> consumed <= b@.len()),
            event matches Socks5FlowEvent::ClientData(b) ==> (
            r.1 matches Socks5FlowAction::ReplyAndClose { consumed, .. } ==> consumed <= b@.len()),
            !socks5_event_expected(self, event) ==> {
                &&& r.0 == Socks5FlowState::Closed
                &&& r.1 matches Socks5FlowAction::Fail(FlowError::InvalidStatus)
            },
    {
        match (self, event) {
            (Socks5FlowState::Authenticate, Socks5FlowEvent::ClientData(b)) => {
                match decode_auth_request(b.as_slice()) {
                    Ok(None) => (Socks5FlowState::Authenticate, Socks5FlowAction::ReadMore),
                    Err(e) => (Socks5FlowState::Closed, Socks5FlowAction::Fail(FlowError::Decode(e))),
                    Ok(Some((_, consumed))) => {
                        let mut reply: Vec<u8> = Vec::new();
                        encode_auth_reply(
                            Socks5AuthCommandResultContent::new(Socks5AuthMethod::NoAuthenticationRequired),
                            &mut reply,
                        );
                        assert(reply@ =~= spec_encode_auth_reply(Socks5AuthMethod::NoAuthenticationRequired));
                        (Socks5FlowState::Initialize, Socks5FlowAction::Reply { consumed, reply })
                    },
                }
            },
            (Socks5FlowState::Initialize, Socks5FlowEvent::ClientData(b)) => {
                match decode_init_request(b.as_slice()) {
                    Ok(None) => (Socks5FlowState::Initialize, Socks5FlowAction::ReadMore),
                    Err(e) => (Socks5FlowState::Closed, Socks5FlowAction::Fail(FlowError::Decode(e))),
                    Ok(Some((content, consumed))) => {
                        let Socks5InitCommandContentParts { command_type, dst_address, .. } = content.split();
                        let token = match user_token {
                            None => return (
                                Socks5FlowState::Closed,
                                Socks5FlowAction::Fail(FlowError::UserTokenMissing),
                            ),
                            Some(token) => token,
                        };
                        match command_type {
                            Socks5InitCommandType::Bind => {
                                let reply = init_reply(
                                    Socks5InitCommandResultStatus::CommandNotSupported,
                                    unspecified_address(),
                                );
                                (Socks5FlowState::Closed, Socks5FlowAction::ReplyAndClose { consumed, reply })
                            },
                            Socks5InitCommandType::Connect => (
                                Socks5FlowState::AwaitProxy,
                                Socks5FlowAction::ConnectProxy {
                                    consumed,
                                    user_token: copy_string(token),
                                    dst_address: dst_address.into_net_address(),
                                },
                            ),
                            Socks5InitCommandType::UdpAssociate => (
                                Socks5FlowState::AwaitUdpBind,
                                Socks5FlowAction::BindUdp { consumed, client_address: dst_address.into_net_address() },
                            ),
                        }
                    },
                }
            },
            (Socks5FlowState::Authenticate, Socks5FlowEvent::ClientClosed)
            | (Socks5FlowState::Initialize, Socks5FlowEvent::ClientClosed)
            | (Socks5FlowState::AwaitUdpBind, Socks5FlowEvent::ClientClosed) => (
                Socks5FlowState::Closed,
                Socks5FlowAction::Fail(FlowError::ConnectionExhausted),
            ),
            (Socks5FlowState::AwaitProxy, Socks5FlowEvent::ProxyReply(reply)) => match reply {
                ProxyInitReply::NotTcpInit => (
                    Socks5FlowState::Closed,
                    Socks5FlowAction::Fail(FlowError::InvalidProxyResponse),
                ),
                ProxyInitReply::Fail => (Socks5FlowState::Closed, Socks5FlowAction::Fail(FlowError::ProxyInitFailed)),
                ProxyInitReply::Success { dst_address } => {
                    let out = init_reply(
                        Socks5InitCommandResultStatus::Succeeded,
                        Socks5Address::from_net_address(dst_address),
                    );
                    (Socks5FlowState::Relay, Socks5FlowAction::StartRelay { reply: out })
                },
            },
            (Socks5FlowState::AwaitProxy, Socks5FlowEvent::ProxyClosed)
            | (Socks5FlowState::UdpRelay, Socks5FlowEvent::ProxyClosed) => (
                Socks5FlowState::Closed,
                Socks5FlowAction::Fail(FlowError::ConnectionExhausted),
            ),
            (Socks5FlowState::AwaitUdpBind, Socks5FlowEvent::UdpBound(bind)) => {
                let reply = init_reply(Socks5InitCommandResultStatus::Succeeded, Socks5Address::from_net_address(bind));
                (Socks5FlowState::UdpRelay, Socks5FlowAction::StartUdpRelay { reply })
            },
            (Socks5FlowState::AwaitUdpBind, Socks5FlowEvent::UdpBindFailed) => {
                let reply = init_reply(Socks5InitCommandResultStatus::Failure, unspecified_address());
                (Socks5FlowState::Closed, Socks5FlowAction::ReplyAndClose { consumed: 0, reply })
            },
            (Socks5FlowState::UdpRelay, Socks5FlowEvent::ClientDatagram(b)) => {
                match Socks5UdpDataPacket::parse(b.as_slice()) {
                    Err(_) => (Socks5FlowState::UdpRelay, Socks5FlowAction::DropDatagram),
                    Ok(packet) => {
                        let Socks5UdpDataPacket { frag, address, data } = packet;
                        if frag != 0 {
                            (Socks5FlowState::UdpRelay, Socks5FlowAction::DropDatagram)
                        } else {
                            match user_token {
                                None => (Socks5FlowState::Closed, Socks5FlowAction::Fail(FlowError::UserTokenMissing)),
                                Some(token) => (
                                    Socks5FlowState::UdpRelay,
                                    Socks5FlowAction::ForwardDatagram {
                                        user_token: copy_string(token),
                                        dst_address: address.into_net_address(),
                                        data,
                                    },
                                ),
                            }
                        }
                    },
                }
            },
            (Socks5FlowState::UdpRelay, Socks5FlowEvent::ProxyDatagram { src_address, data }) => {
                let packet = Socks5UdpDataPacket { frag: 0, address: Socks5Address::from_net_address(src_address), data };
                (Socks5FlowState::UdpRelay, Socks5FlowAction::SendDatagram { packet: packet.to_bytes() })
            },
            (Socks5FlowState::UdpRelay, Socks5FlowEvent::ClientClosed) => (Socks5FlowState::Closed, Socks5FlowAction::Finish),
            _ => (Socks5FlowState::Closed, Socks5FlowAction::Fail(FlowError::InvalidStatus)),
        }
    }
}

/// Whether `event` is one that a SOCKS5 connection in state `s` waits for.
pub open spec fn socks5_event_expected(s: Socks5FlowState, event: Socks5FlowEvent) -> bool {
    match s {
        Socks5FlowState::Authenticate | Socks5FlowState::Initialize => event is ClientData || event is ClientClosed,
        Socks5FlowState::AwaitProxy => event is ProxyReply || event is ProxyClosed,
        Socks5FlowState::AwaitUdpBind => event is UdpBound || event is UdpBindFailed || event is ClientClosed,
        Socks5FlowState::UdpRelay => event is ClientDatagram || event is ProxyDatagram || event is ClientClosed
            || event is ProxyClosed,
        _ => false,
    }
}

/// Where an HTTP proxy connection is before its relay.
#[derive(Debug)]
pub enum HttpFlowState {
    /// Waiting for the first request.
    AwaitRequest,
    /// Waiting for the proxy's answer; `is_connect` tells a `CONNECT`
    /// tunnel, and `init_data` holds the request to forward for any other
    /// method.
    AwaitProxy { is_connect: bool, init_data: Option<Vec<u8>> },
    /// Relaying data both ways.
    Relay,
    /// Done; nothing more is served.
    Closed,
}

/// What happened on an HTTP proxy connection.
#[derive(Debug)]
pub enum HttpFlowEvent {
    /// The bytes read from the client and not yet consumed.
    ClientData(Vec<u8>),
    /// The client closed the connection.
    ClientClosed,
    /// The proxy answered the TCP session request.
    ProxyReply(ProxyInitReply),
    /// The proxy closed the connection.
    ProxyClosed,
}

/// What the caller does next on an HTTP proxy connection.
#[derive(Debug)]
pub enum HttpFlowAction {
    /// Read more bytes from the client.
    ReadMore,
    /// Drop the `consumed` bytes of the request and ask the proxy, on behalf
    /// of `user_token`, for a TCP session to `dst_address`.
    ConnectProxy { consumed: usize, user_token: String, dst_address: NetAddress },
    /// Answer `200 Connection Established` where `connection_established`
    /// holds, send `init_data` to the proxy where there is some, then relay.
    StartRelay { connection_established: bool, init_data: Option<Vec<u8>> },
    /// Close the connection with an error.
    Fail(FlowError),
}

pub open spec fn spec_option_bytes(v: Option<Vec<u8>>) -> Option<Seq<u8>> {
    match v {
        Some(v) => Some(v@),
        None => None,
    }
}

/// Whether `event` is one that an HTTP connection in state `s` waits for.
pub open spec fn http_event_expected(s: HttpFlowState, event: HttpFlowEvent) -> bool {
    match s {
        HttpFlowState::AwaitRequest => event is ClientData || event is ClientClosed,
        HttpFlowState::AwaitProxy { .. } => event is ProxyReply || event is ProxyClosed,
        _ => false,
    }
}

impl HttpFlowState {
    /// The next state and action of an HTTP proxy connection in this state
    /// when `event` happens, with `user_token` from the configuration.
    pub fn step(self, event: HttpFlowEvent, user_token: &Option<String>) -> (r: (HttpFlowState, HttpFlowAction))
        ensures
            self is AwaitRequest ==> (event matches HttpFlowEvent::ClientData(b) ==> (
                match http_request_decode(b@) {
                    Ok(None) => r.0 is AwaitRequest && r.1 is ReadMore,
                    Err(e) => {
                        &&& r.0 is Closed
                        &&& r.1 matches HttpFlowAction::Fail(FlowError::HttpDecode(m))
                        &&& m@ == e
                    },
                    Ok(Some((method, target, encoded, n))) => if !is_connect_method(method) && encoded is Err {
                        &&& r.0 is Closed
                        &&& r.1 matches HttpFlowAction::Fail(FlowError::HttpEncode(m))
                        &&& encoded matches Err(e) && m@ == e
                    } else {
                        match url_parse(spec_request_url(method, target)) {
                            Err(e) => {
                                &&& r.0 is Closed
                                &&& r.1 matches HttpFlowAction::Fail(FlowError::HttpTarget(HttpTargetError::InvalidUrl(m)))
                                &&& m@ == e
                            },
                            Ok((_, _, None)) => {
                                &&& r.0 is Closed
                                &&& r.1 matches HttpFlowAction::Fail(FlowError::HttpTarget(HttpTargetError::NoHost))
                            },
                            Ok((_, _, Some(_))) => match user_token {
                                None => {
                                    &&& r.0 is Closed
                                    &&& r.1 matches HttpFlowAction::Fail(FlowError::UserTokenMissing)
                                },
                                Some(token) => {
                                    &&& r.1 matches HttpFlowAction::ConnectProxy { consumed, user_token: t2, dst_address }
                                    &&& consumed == n
                                    &&& t2@ == token@
                                    &&& spec_http_destination(method, target) == Some(dst_address@)
                                    &&& r.0 matches HttpFlowState::AwaitProxy { is_connect: c, init_data }
                                    &&& c == is_connect_method(method)
                                    &&& spec_option_bytes(init_data) == (if c { None } else {
                                        match encoded {
                                            Ok(v) => Some(v),
                                            Err(_) => None,
                                        }
                                    })
                                },
                            },
                        }
                    },
                })),
            event matches HttpFlowEvent::ClientData(b) ==> (
            r.1 matches HttpFlowAction::ConnectProxy { consumed, .. } ==> consumed <= b@.len()),
            self is AwaitRequest ==> (event is ClientClosed ==> {
                &&& r.0 is Closed
                &&& r.1 matches HttpFlowAction::Fail(FlowError::ConnectionExhausted)
            }),
            self matches HttpFlowState::AwaitProxy { is_connect, init_data } ==> (
                event matches HttpFlowEvent::ProxyReply(reply) ==> (match reply {
                    ProxyInitReply::NotTcpInit => {
                        &&& r.0 is Closed
                        &&& r.1 matches HttpFlowAction::Fail(FlowError::InvalidProxyResponse)
                    },
                    ProxyInitReply::Fail => {
                        &&& r.0 is Closed
                        &&& r.1 matches HttpFlowAction::Fail(FlowError::ProxyInitFailed)
                    },
                    ProxyInitReply::Success { .. } => {
                        &&& r.0 is Relay
                        &&& r.1 matches HttpFlowAction::StartRelay { connection_established, init_data: d }
                        &&& connection_established == is_connect
                        &&& spec_option_bytes(d) == spec_option_bytes(init_data)
                    },
                })),
            self is AwaitProxy ==> (event is ProxyClosed ==> {
                &&& r.0 is Closed
                &&& r.1 matches HttpFlowAction::Fail(FlowError::ConnectionExhausted)
            }),
            !http_event_expected(self, event) ==> {
                &&& r.0 is Closed
                &&& r.1 matches HttpFlowAction::Fail(FlowError::InvalidStatus)
            },
    {
        match (self, event) {
            (HttpFlowState::AwaitRequest, HttpFlowEvent::ClientData(b)) => {
                let HttpRequestParts { method, target, encoded, consumed } = match decode_http_request(b.as_slice()) {
                    Ok(None) => return (HttpFlowState::AwaitRequest, HttpFlowAction::ReadMore),
                    Err(e) => return (HttpFlowState::Closed, HttpFlowAction::Fail(FlowError::HttpDecode(e))),
                    Ok(Some(p)) => p,
                };
                let connect = is_connect(method.as_str());
                let init_data = if connect {
                    None
                } else {
                    match encoded {
                        Ok(v) => Some(v),
                        Err(e) => return (HttpFlowState::Closed, HttpFlowAction::Fail(FlowError::HttpEncode(e))),
                    }
                };
                let dst_address = match resolve_http_destination(method.as_str(), target.as_str()) {
                    Ok(a) => a,
                    Err(e) => return (HttpFlowState::Closed, HttpFlowAction::Fail(FlowError::HttpTarget(e))),
                };
                match user_token {
                    None => (HttpFlowState::Closed, HttpFlowAction::Fail(FlowError::UserTokenMissing)),
                    Some(token) => (
                        HttpFlowState::AwaitProxy { is_connect: connect, init_data },
                        HttpFlowAction::ConnectProxy { consumed, user_token: copy_string(token), dst_address },
                    ),
                }
            },
            (HttpFlowState::AwaitRequest, HttpFlowEvent::ClientClosed) => (
                HttpFlowState::Closed,
                HttpFlowAction::Fail(FlowError::ConnectionExhausted),
            ),
            (HttpFlowState::AwaitProxy { is_connect, init_data }, HttpFlowEvent::ProxyReply(reply)) => match reply {
                ProxyInitReply::NotTcpInit => (HttpFlowState::Closed, HttpFlowAction::Fail(FlowError::InvalidProxyResponse)),
                ProxyInitReply::Fail => (HttpFlowState::Closed, HttpFlowAction::Fail(FlowError::ProxyInitFailed)),
                ProxyInitReply::Success { .. } => (
                    HttpFlowState::Relay,
                    HttpFlowAction::StartRelay { connection_established: is_connect, init_data },
                ),
            },
            (HttpFlowState::AwaitProxy { .. }, HttpFlowEvent::ProxyClosed) => (
                HttpFlowState::Closed,
                HttpFlowAction::Fail(FlowError::ConnectionExhausted),
            ),
            _ => (HttpFlowState::Closed, HttpFlowAction::Fail(FlowError::InvalidStatus)),
        }
    }
}

/// How one direction of a relay ended.
#[derive(Debug, Clone, Copy, PartialEq, Eq, Structural)]
pub enum RelayHalfOutcome {
    /// The data ran out and the direction finished.
    Completed,
    /// The direction stopped on an error and gave its half of the client
    /// stream back.
    Failed,
    /// The task of the direction did not finish (it panicked or was cancelled).
    Crashed,
}

/// Which error a finished relay reports.
#[derive(Debug, Clone, Copy, PartialEq, Eq, Structural)]
pub enum RelayErrorSource {
    /// The error of the client-to-proxy direction.
    AgentToProxy,
    /// The error of the proxy-to-client direction.
    ProxyToAgent,
    /// Both directions failed.
    BothFailed,
    /// The client-to-proxy task did not finish.
    AgentToProxyCrashed,
    /// The proxy-to-client task did not finish.
    ProxyToAgentCrashed,
    /// Neither task finished.
    BothCrashed,
}

/// What a relay ends with.
#[derive(Debug, Clone, Copy, PartialEq, Eq, Structural)]
pub enum RelayVerdict {
    /// Both directions finished.
    Done,
    /// The relay fails; where both halves of the client stream came back they
    /// are joined again to hand the stream back with the error.
    Failed { recover_client_stream: bool, source: RelayErrorSource },
}

/// The end of a relay from how its two directions ended: done when both
/// finished; otherwise the error of a crashed task first, then the error of
/// a failed direction, and the client stream handed back only when no task
/// crashed.
pub fn relay_verdict(agent_to_proxy: RelayHalfOutcome, proxy_to_agent: RelayHalfOutcome) -> (r: RelayVerdict)
    ensures
        r == match (agent_to_proxy, proxy_to_agent) {
            (RelayHalfOutcome::Completed, RelayHalfOutcome::Completed) => RelayVerdict::Done,
            (RelayHalfOutcome::Failed, RelayHalfOutcome::Completed) => RelayVerdict::Failed {
                recover_client_stream: true,
                source: RelayErrorSource::AgentToProxy,
            },
            (RelayHalfOutcome::Completed, RelayHalfOutcome::Failed) => RelayVerdict::Failed {
                recover_client_stream: true,
                source: RelayErrorSource::ProxyToAgent,
            },
            (RelayHalfOutcome::Failed, RelayHalfOutcome::Failed) => RelayVerdict::Failed {
                recover_client_stream: true,
                source: RelayErrorSource::BothFailed,
            },
            (RelayHalfOutcome::Crashed, RelayHalfOutcome::Crashed) => RelayVerdict::Failed {
                recover_client_stream: false,
                source: RelayErrorSource::BothCrashed,
            },
            (RelayHalfOutcome::Crashed, _) => RelayVerdict::Failed {
                recover_client_stream: false,
                source: RelayErrorSource::AgentToProxyCrashed,
            },
            (_, RelayHalfOutcome::Crashed) => RelayVerdict::Failed {
                recover_client_stream: false,
                source: RelayErrorSource::ProxyToAgentCrashed,
            },
        },
{
    match (agent_to_proxy, proxy_to_agent) {
        (RelayHalfOutcome::Completed, RelayHalfOutcome::Completed) => RelayVerdict::Done,
        (RelayHalfOutcome::Failed, RelayHalfOutcome::Completed) => RelayVerdict::Failed {
            recover_client_stream: true,
            source: RelayErrorSource::AgentToProxy,
        },
        (RelayHalfOutcome::Completed, RelayHalfOutcome::Failed) => RelayVerdict::Failed {
            recover_client_stream: true,
            source: RelayErrorSource::ProxyToAgent,
        },
        (RelayHalfOutcome::Failed, RelayHalfOutcome::Failed) => RelayVerdict::Failed {
            recover_client_stream: true,
            source: RelayErrorSource::BothFailed,
        },
        (RelayHalfOutcome::Crashed, RelayHalfOutcome::Crashed) => RelayVerdict::Failed {
            recover_client_stream: false,
            source: RelayErrorSource::BothCrashed,
        },
        (RelayHalfOutcome::Crashed, _) => RelayVerdict::Failed {
            recover_client_stream: false,
            source: RelayErrorSource::AgentToProxyCrashed,
        },
        (_, RelayHalfOutcome::Crashed) => RelayVerdict::Failed {
            recover_client_stream: false,
            source: RelayErrorSource::ProxyToAgentCrashed,
        },
    }
}

} // verus!
