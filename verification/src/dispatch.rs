//! Choosing the protocol of a new client connection from its first byte.
use vstd::prelude::*;

verus! {

/// The first byte of a SOCKS5 client.
pub const SOCKS_V5: u8 = 5;
/// The first byte of a SOCKS4 client.
pub const SOCKS_V4: u8 = 4;

/// The protocol that a client speaks.
#[derive(Debug, Clone, Copy, PartialEq, Eq, Structural)]
pub enum ClientProtocol {
    /// The client uses the agent as an HTTP proxy.
    Http,
    /// The client uses the agent as a SOCKS5 proxy.
    Socks5,
    Socks4,
}

pub open spec fn spec_protocol_of(first: u8) -> ClientProtocol {
    if first == SOCKS_V5 {
        ClientProtocol::Socks5
    } else if first == SOCKS_V4 {
        ClientProtocol::Socks4
    } else {
        ClientProtocol::Http
    }
}

/// Reads the protocol from the first byte of `src` without consuming it;
/// nothing while `src` is empty.
pub fn decode_client_protocol(src: &[u8]) -> (r: Option<ClientProtocol>)
    ensures
        src@.len() == 0 ==> r is None,
        src@.len() > 0 ==> r == Some(spec_protocol_of(src@[0])),
{
    if src.len() < 1 {
        return None;
    }
    let flag = src[0];
    if flag == SOCKS_V5 {
        Some(ClientProtocol::Socks5)
    } else if flag == SOCKS_V4 {
        Some(ClientProtocol::Socks4)
    } else {
        Some(ClientProtocol::Http)
    }
}

/// The flow that serves a client connection.
#[derive(Debug, Clone, Copy, PartialEq, Eq, Structural)]
pub enum FlowKind {
    Http,
    Socks5,
}

/// Why a client connection is not served.
#[derive(Debug, Clone, Copy, PartialEq, Eq, Structural)]
pub enum DispatchError {
    /// The client closed the connection before its first byte.
    NothingToRead,
    /// SOCKS4 is not supported.
    Socks4Unsupported,
}

/// Picks the flow for a connection from the protocol that its first byte
/// shows: SOCKS5 and HTTP are served, SOCKS4 is refused, and a connection that
/// closed before its first byte is refused.
pub fn dispatch(protocol: Option<ClientProtocol>) -> (r: Result<FlowKind, DispatchError>)
    ensures
        protocol is None ==> r == Err::<FlowKind, DispatchError>(DispatchError::NothingToRead),
        protocol == Some(ClientProtocol::Socks4) ==> r == Err::<FlowKind, DispatchError>(
            DispatchError::Socks4Unsupported,
        ),
        protocol == Some(ClientProtocol::Socks5) ==> r == Ok::<FlowKind, DispatchError>(FlowKind::Socks5),
        protocol == Some(ClientProtocol::Http) ==> r == Ok::<FlowKind, DispatchError>(FlowKind::Http),
{
    match protocol {
        None => Err(DispatchError::NothingToRead),
        Some(ClientProtocol::Socks4) => Err(DispatchError::Socks4Unsupported),
        Some(ClientProtocol::Socks5) => Ok(FlowKind::Socks5),
        Some(ClientProtocol::Http) => Ok(FlowKind::Http),
    }
}

/// The first byte names the protocol: 5 is SOCKS5, 4 is SOCKS4, and every
/// other byte, the first letter of any HTTP method among them, is HTTP.
pub proof fn lemma_protocol_of_first_byte(b: u8)
    ensures
        (spec_protocol_of(b) == ClientProtocol::Socks5) <==> b == 5,
        (spec_protocol_of(b) == ClientProtocol::Socks4) <==> b == 4,
        (spec_protocol_of(b) == ClientProtocol::Http) <==> (b != 5 && b != 4),
{
}

} // verus!
