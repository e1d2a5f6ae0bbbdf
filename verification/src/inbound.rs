//! The inbound side of a client connection of the desktop agent: one stream
//! of client messages, whatever protocol the client speaks. The first byte
//! picks the protocol; then the handshake messages are decoded, and after
//! them the client's raw data.
use vstd::prelude::*;
use crate::dispatch::{SOCKS_V4, SOCKS_V5};
use crate::http::{decode_http_request, http_request_decode, HttpRequestParts, destination_from_url, is_connect, is_connect_method, spec_target_port, url_parse, HttpTargetError};
use crate::socks5::Socks5CodecError;
use crate::socks5::address::{NetAddress, Socks5Address, SpecSocks5Address};
use crate::socks5::auth::{decode_auth_request, spec_decode_auth_request, Socks5AuthCommandContentParts, Socks5AuthMethod};
use crate::socks5::init::{decode_init_request, spec_decode_init_request, Socks5InitCommandContentParts, Socks5InitCommandType};

verus! {

/// A message read from a client.
#[derive(Debug)]
#[allow(inconsistent_fields)]
pub enum ClientInputMessage {
    /// A `CONNECT` request: open a tunnel to `dest_address`.
    HttpsConnect { dest_address: NetAddress },
    /// Any other HTTP request: forward `initial_data` to `dest_address`.
    HttpConnect { dest_address: NetAddress, initial_data: Vec<u8> },
    /// A SOCKS5 method-selection request.
    Socks5Authenticate { method_number: u8, methods: Vec<Socks5AuthMethod> },
    Socks5Connect { dest_address: Socks5Address },
    Socks5Bind { dest_address: Socks5Address },
    Socks5UdpAssociate { dest_address: Socks5Address },
    /// A read of the client's raw data.
    Relay(Vec<u8>),
}

/// Where the inbound stream is.
#[derive(Debug, Clone, Copy, PartialEq, Eq, Structural)]
pub enum ClientInboundStatus {
    /// Waiting for the first byte.
    New,
    /// Waiting for the first HTTP request.
    HttpInitialize,
    /// Waiting for the SOCKS5 method-selection request.
    Socks5Authenticate,
    /// Waiting for the SOCKS5 request.
    Socks5Initialize,
    /// Passing the client's raw data on.
    Relay,
    /// Ended by an error.
    Closed,
}

/// What the inbound stream saw.
#[derive(Debug)]
pub enum ClientInboundEvent {
    /// The first byte of the connection (a zero when the client sent none).
    FirstByte(u8),
    /// The client's bytes not yet consumed (handshake states), or one read of
    /// raw data (relay state).
    Data(Vec<u8>),
    /// The client closed the connection.
    Closed,
}

/// Why the inbound stream fails.
#[derive(Debug)]
pub enum ClientInboundError {
    /// The first byte asks for SOCKS4.
    Socks4Unsupported,
    /// A SOCKS5 message does not decode.
    Socks5Codec(Socks5CodecError),
    /// The request target of an HTTP request is not a URL, or has no host.
    HttpTarget(HttpTargetError),
    /// An HTTP request could not be encoded again.
    HttpCodecGeneral(String),
    /// The client's bytes are not an HTTP request.
    HttpDecode(String),
    /// The event does not belong to the status.
    InvalidStatus,
}

/// What the inbound stream yields.
#[derive(Debug)]
pub enum ClientInboundOutput {
    /// The protocol is known: decode from now on with `initial_buffer` in front
    /// of the client's next bytes; no message yet.
    Switched { initial_buffer: Vec<u8> },
    /// A message, made from the first `consumed` bytes of the data.
    Message { consumed: usize, message: ClientInputMessage },
    /// More bytes are needed.
    NeedMore,
    /// The stream ends.
    End,
    Error(ClientInboundError),
}

/// The destination that the desktop agent reads from an HTTP request target:
/// the target is parsed as a URL as it stands.
pub open spec fn spec_inbound_http_destination(target: Seq<char>) -> Option<SpecSocks5Address> {
    match url_parse(target) {
        Ok((scheme, port, Some(host))) => Some(SpecSocks5Address::Domain(host, spec_target_port(scheme, port))),
        _ => None,
    }
}

impl ClientInboundStatus {
    /// The next status and output of the inbound stream in this status when
    /// `event` happens.
    pub fn step(self, event: ClientInboundEvent) -> (r: (ClientInboundStatus, ClientInboundOutput))
        ensures
            self == ClientInboundStatus::New ==> (event matches ClientInboundEvent::FirstByte(b) ==> (
                if b == SOCKS_V4 {
                    &&& r.0 == ClientInboundStatus::Closed
                    &&& r.1 matches ClientInboundOutput::Error(ClientInboundError::Socks4Unsupported)
                } else {
                    &&& r.0 == (if b == SOCKS_V5 {
                        ClientInboundStatus::Socks5Authenticate
                    } else {
                        ClientInboundStatus::HttpInitialize
                    })
                    &&& r.1 matches ClientInboundOutput::Switched { initial_buffer }
                    &&& initial_buffer@ == seq![b]
                })),
            self == ClientInboundStatus::HttpInitialize ==> (event matches ClientInboundEvent::Data(b) ==> (
                match http_request_decode(b@) {
                    Ok(None) => r.0 == ClientInboundStatus::HttpInitialize && r.1 is NeedMore,
                    Err(e) => {
                        &&& r.0 == ClientInboundStatus::Closed
                        &&& r.1 matches ClientInboundOutput::Error(ClientInboundError::HttpDecode(m))
                        &&& m@ == e
                    },
                    Ok(Some((method, target, encoded, n))) => match url_parse(target) {
                        Err(e) => {
                            &&& r.0 == ClientInboundStatus::Closed
                            &&& r.1 matches ClientInboundOutput::Error(
                                ClientInboundError::HttpTarget(HttpTargetError::InvalidUrl(m)),
                            )
                            &&& m@ == e
                        },
                        Ok((_, _, None)) => {
                            &&& r.0 == ClientInboundStatus::Closed
                            &&& r.1 matches ClientInboundOutput::Error(ClientInboundError::HttpTarget(HttpTargetError::NoHost))
                        },
                        Ok((_, _, Some(_))) => if is_connect_method(method) {
                            &&& r.0 == ClientInboundStatus::Relay
                            &&& r.1 matches ClientInboundOutput::Message {
                                consumed,
                                message: ClientInputMessage::HttpsConnect { dest_address },
                            }
                            &&& consumed == n
                            &&& spec_inbound_http_destination(target) == Some(dest_address@)
                        } else {
                            match encoded {
                                Err(e) => {
                                    &&& r.0 == ClientInboundStatus::Closed
                                    &&& r.1 matches ClientInboundOutput::Error(ClientInboundError::HttpCodecGeneral(m))
                                    &&& m@ == e
                                },
                                Ok(bytes) => {
                                    &&& r.0 == ClientInboundStatus::Relay
                                    &&& r.1 matches ClientInboundOutput::Message {
                                        consumed,
                                        message: ClientInputMessage::HttpConnect { dest_address, initial_data },
                                    }
                                    &&& consumed == n
                                    &&& spec_inbound_http_destination(target) == Some(dest_address@)
                                    &&& initial_data@ == bytes
                                },
                            }
                        },
                    },
                })),
            self == ClientInboundStatus::Socks5Authenticate ==> (event matches ClientInboundEvent::Data(b) ==> (
                match spec_decode_auth_request(b@) {
                    Ok(None) => r.0 == ClientInboundStatus::Socks5Authenticate && r.1 is NeedMore,
                    Err(e) => {
                        &&& r.0 == ClientInboundStatus::Closed
                        &&& r.1 matches ClientInboundOutput::Error(ClientInboundError::Socks5Codec(e2))
                        &&& e2 == e
                    },
                    Ok(Some((methods, n))) => {
                        &&& r.0 == ClientInboundStatus::Socks5Initialize
                        &&& r.1 matches ClientInboundOutput::Message {
                            consumed,
                            message: ClientInputMessage::Socks5Authenticate { method_number, methods: ms },
                        }
                        &&& consumed == n
                        &&& method_number == b@[1]
                        &&& ms@ == methods
                    },
                })),
            self == ClientInboundStatus::Socks5Initialize ==> (event matches ClientInboundEvent::Data(b) ==> (
                match spec_decode_init_request(b@) {
                    Ok(None) => r.0 == ClientInboundStatus::Socks5Initialize && r.1 is NeedMore,
                    Err(e) => {
                        &&& r.0 == ClientInboundStatus::Closed
                        &&& r.1 matches ClientInboundOutput::Error(ClientInboundError::Socks5Codec(e2))
                        &&& e2 == e
                    },
                    Ok(Some((t, a, n))) => {
                        &&& r.0 == ClientInboundStatus::Relay
                        &&& r.1 matches ClientInboundOutput::Message { consumed, message }
                        &&& consumed == n
                        &&& match t {
                            Socks5InitCommandType::Connect => message matches ClientInputMessage::Socks5Connect {
                                dest_address,
                            } && dest_address@ == a,
                            Socks5InitCommandType::Bind => message matches ClientInputMessage::Socks5Bind {
                                dest_address,
                            } && dest_address@ == a,
                            Socks5InitCommandType::UdpAssociate => message matches ClientInputMessage::Socks5UdpAssociate {
                                dest_address,
                            } && dest_address@ == a,
                        }
                    },
                })),
            self == ClientInboundStatus::Relay ==> (event matches ClientInboundEvent::Data(d) ==> (
                if d@.len() == 0 {
                    r.0 == ClientInboundStatus::Relay && r.1 is End
                } else {
                    &&& r.0 == ClientInboundStatus::Relay
                    &&& r.1 matches ClientInboundOutput::Message { consumed, message: ClientInputMessage::Relay(v) }
                    &&& consumed == d@.len()
                    &&& v@ == d@
                })),
            (self == ClientInboundStatus::HttpInitialize || self == ClientInboundStatus::Socks5Authenticate
                || self == ClientInboundStatus::Socks5Initialize || self == ClientInboundStatus::Relay) ==> (
            event is Closed ==> r.0 == self && r.1 is End),
            event matches ClientInboundEvent::Data(b) ==> (r.1 matches ClientInboundOutput::Message { consumed, .. }
                ==> consumed <= b@.len()),
            !inbound_event_expected(self, event) ==> {
                &&& r.0 == ClientInboundStatus::Closed
                &&& r.1 matches ClientInboundOutput::Error(ClientInboundError::InvalidStatus)
            },
    {
        match (self, event) {
            (ClientInboundStatus::New, ClientInboundEvent::FirstByte(b)) => {
                if b == SOCKS_V4 {
                    return (ClientInboundStatus::Closed, ClientInboundOutput::Error(ClientInboundError::Socks4Unsupported));
                }
                let mut initial_buffer: Vec<u8> = Vec::new();
                initial_buffer.push(b);
                let next = if b == SOCKS_V5 {
                    ClientInboundStatus::Socks5Authenticate
                } else {
                    ClientInboundStatus::HttpInitialize
                };
                assert(initial_buffer@ =~= seq![b]);
                (next, ClientInboundOutput::Switched { initial_buffer })
            },
            (ClientInboundStatus::HttpInitialize, ClientInboundEvent::Data(b)) => {
                let HttpRequestParts { method, target, encoded, consumed } = match decode_http_request(b.as_slice()) {
                    Ok(None) => return (ClientInboundStatus::HttpInitialize, ClientInboundOutput::NeedMore),
                    Err(e) => return (
                        ClientInboundStatus::Closed,
                        ClientInboundOutput::Error(ClientInboundError::HttpDecode(e)),
                    ),
                    Ok(Some(p)) => p,
                };
                let dest_address = match destination_from_url(target.as_str()) {
                    Ok(a) => a,
                    Err(e) => return (
                        ClientInboundStatus::Closed,
                        ClientInboundOutput::Error(ClientInboundError::HttpTarget(e)),
                    ),
                };
                if is_connect(method.as_str()) {
                    return (
                        ClientInboundStatus::Relay,
                        ClientInboundOutput::Message {
                            consumed,
                            message: ClientInputMessage::HttpsConnect { dest_address },
                        },
                    );
                }
                match encoded {
                    Err(e) => (
                        ClientInboundStatus::Closed,
                        ClientInboundOutput::Error(ClientInboundError::HttpCodecGeneral(e)),
                    ),
                    Ok(initial_data) => (
                        ClientInboundStatus::Relay,
                        ClientInboundOutput::Message {
                            consumed,
                            message: ClientInputMessage::HttpConnect { dest_address, initial_data },
                        },
                    ),
                }
            },
            (ClientInboundStatus::Socks5Authenticate, ClientInboundEvent::Data(b)) => {
                match decode_auth_request(b.as_slice()) {
                    Ok(None) => (ClientInboundStatus::Socks5Authenticate, ClientInboundOutput::NeedMore),
                    Err(e) => (ClientInboundStatus::Closed, ClientInboundOutput::Error(ClientInboundError::Socks5Codec(e))),
                    Ok(Some((content, consumed))) => {
                        let Socks5AuthCommandContentParts { method_number, methods, .. } = content.split();
                        (
                            ClientInboundStatus::Socks5Initialize,
                            ClientInboundOutput::Message {
                                consumed,
                                message: ClientInputMessage::Socks5Authenticate { method_number, methods },
                            },
                        )
                    },
                }
            },
            (ClientInboundStatus::Socks5Initialize, ClientInboundEvent::Data(b)) => {
                match decode_init_request(b.as_slice()) {
                    Ok(None) => (ClientInboundStatus::Socks5Initialize, ClientInboundOutput::NeedMore),
                    Err(e) => (ClientInboundStatus::Closed, ClientInboundOutput::Error(ClientInboundError::Socks5Codec(e))),
                    Ok(Some((content, consumed))) => {
                        let Socks5InitCommandContentParts { command_type, dst_address, .. } = content.split();
                        let message = match command_type {
                            Socks5InitCommandType::Connect => ClientInputMessage::Socks5Connect { dest_address: dst_address },
                            Socks5InitCommandType::Bind => ClientInputMessage::Socks5Bind { dest_address: dst_address },
                            Socks5InitCommandType::UdpAssociate => ClientInputMessage::Socks5UdpAssociate {
                                dest_address: dst_address,
                            },
                        };
                        (ClientInboundStatus::Relay, ClientInboundOutput::Message { consumed, message })
                    },
                }
            },
            (ClientInboundStatus::Relay, ClientInboundEvent::Data(d)) => {
                if d.len() == 0 {
                    return (ClientInboundStatus::Relay, ClientInboundOutput::End);
                }
                let consumed = d.len();
                (
                    ClientInboundStatus::Relay,
                    ClientInboundOutput::Message { consumed, message: ClientInputMessage::Relay(d) },
                )
            },
            (ClientInboundStatus::HttpInitialize, ClientInboundEvent::Closed) => (ClientInboundStatus::HttpInitialize, ClientInboundOutput::End),
            (ClientInboundStatus::Socks5Authenticate, ClientInboundEvent::Closed) => (ClientInboundStatus::Socks5Authenticate, ClientInboundOutput::End),
            (ClientInboundStatus::Socks5Initialize, ClientInboundEvent::Closed) => (ClientInboundStatus::Socks5Initialize, ClientInboundOutput::End),
            (ClientInboundStatus::Relay, ClientInboundEvent::Closed) => (ClientInboundStatus::Relay, ClientInboundOutput::End),
            _ => (ClientInboundStatus::Closed, ClientInboundOutput::Error(ClientInboundError::InvalidStatus)),
        }
    }
}

/// Whether `event` is one that the inbound stream in status `s` waits for.
pub open spec fn inbound_event_expected(s: ClientInboundStatus, event: ClientInboundEvent) -> bool {
    match s {
        ClientInboundStatus::New => event is FirstByte,
        ClientInboundStatus::HttpInitialize => event is Data || event is Closed,
        ClientInboundStatus::Socks5Authenticate | ClientInboundStatus::Socks5Initialize
        | ClientInboundStatus::Relay => event is Data || event is Closed,
        ClientInboundStatus::Closed => false,
    }
}

} // verus!
