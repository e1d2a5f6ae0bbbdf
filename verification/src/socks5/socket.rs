//! Socket addresses as plain values, and their conversion to and from the
//! IP forms of a SOCKS5 address.
use vstd::prelude::*;
use crate::socks5::address::{ipv6_group, Socks5Address, SpecSocks5Address};
use crate::wire::{be_u16, read_u16_be};

verus! {

/// An IP socket address: an IPv4 address and port, or the eight 16-bit
/// segments of an IPv6 address with its port, flow information and scope id.
#[derive(Debug, Clone, Copy)]
pub enum SocketAddress {
    V4 { ip: [u8; 4], port: u16 },
    V6 { segments: [u16; 8], port: u16, flowinfo: u32, scope_id: u32 },
}

/// The mathematical value of a [`SocketAddress`].
pub enum SpecSocketAddress {
    V4(Seq<u8>, u16),
    V6(Seq<u16>, u16, u32, u32),
}

impl View for SocketAddress {
    type V = SpecSocketAddress;

    open spec fn view(&self) -> SpecSocketAddress {
        match self {
            SocketAddress::V4 { ip, port } => SpecSocketAddress::V4(ip@, *port),
            SocketAddress::V6 { segments, port, flowinfo, scope_id } => SpecSocketAddress::V6(
                segments@,
                *port,
                *flowinfo,
                *scope_id,
            ),
        }
    }
}

/// The eight segments of the IPv6 address with the sixteen bytes `ip`.
pub open spec fn ipv6_segments(ip: Seq<u8>) -> Seq<u16> {
    Seq::new(8, |i: int| ipv6_group(ip, i))
}

/// The sixteen bytes of the IPv6 address with the eight segments `segments`,
/// each segment written big-endian.
pub open spec fn ipv6_octets(segments: Seq<u16>) -> Seq<u8> {
    Seq::new(
        16,
        |i: int|
            if i % 2 == 0 {
                (segments[i / 2] / 256) as u8
            } else {
                (segments[i / 2] % 256) as u8
            },
    )
}

/// The socket address that a SOCKS5 address names without a lookup: an IP
/// address keeps its port, an IPv6 one has no flow information and scope id
/// 0; a domain names none.
pub open spec fn spec_to_socket_address(a: SpecSocks5Address) -> Option<SpecSocketAddress> {
    match a {
        SpecSocks5Address::IpV4(ip, port) => Some(SpecSocketAddress::V4(ip, port)),
        SpecSocks5Address::IpV6(ip, port) => Some(SpecSocketAddress::V6(ipv6_segments(ip), port, 0, 0)),
        SpecSocks5Address::Domain(..) => None,
    }
}

/// The SOCKS5 form of a socket address; flow information and scope id are
/// not part of it.
pub open spec fn spec_from_socket_address(s: SpecSocketAddress) -> SpecSocks5Address {
    match s {
        SpecSocketAddress::V4(ip, port) => SpecSocks5Address::IpV4(ip, port),
        SpecSocketAddress::V6(segments, port, _, _) => SpecSocks5Address::IpV6(ipv6_octets(segments), port),
    }
}

proof fn lemma_byte_pair(hi: u8, lo: u8)
    ensures
        (be_u16(hi, lo) / 256) as u8 == hi,
        (be_u16(hi, lo) % 256) as u8 == lo,
{
    assert((hi as nat) * 256 + (lo as nat) < 65536) by (nonlinear_arith);
    assert(((hi as nat) * 256 + (lo as nat)) / 256 == hi as nat) by (nonlinear_arith);
    assert(((hi as nat) * 256 + (lo as nat)) % 256 == lo as nat) by (nonlinear_arith);
}

proof fn lemma_segment_bytes(v: u16)
    ensures
        be_u16((v / 256) as u8, (v % 256) as u8) == v,
{
    assert((v / 256) * 256 + v % 256 == v) by (nonlinear_arith);
}

impl Socks5Address {
    /// The socket address this address names, where it is an IP address; a
    /// domain would need a lookup, so it gives `None`.
    pub fn to_socket_address(&self) -> (r: Option<SocketAddress>)
        ensures
            spec_to_socket_address(self@) == match r {
                Some(s) => Some(s@),
                None => None::<SpecSocketAddress>,
            },
    {
        match self {
            Socks5Address::IpV4(ip, port) => Some(SocketAddress::V4 { ip: *ip, port: *port }),
            Socks5Address::IpV6(ip, port) => {
                let segments: [u16; 8] = [
                    read_u16_be(ip, 0),
                    read_u16_be(ip, 2),
                    read_u16_be(ip, 4),
                    read_u16_be(ip, 6),
                    read_u16_be(ip, 8),
                    read_u16_be(ip, 10),
                    read_u16_be(ip, 12),
                    read_u16_be(ip, 14),
                ];
                assert(segments@ =~= ipv6_segments(ip@));
                Some(SocketAddress::V6 { segments, port: *port, flowinfo: 0, scope_id: 0 })
            },
            Socks5Address::Domain(..) => None,
        }
    }

    /// The SOCKS5 form of a socket address.
    pub fn from_socket_address(s: SocketAddress) -> (r: Socks5Address)
        ensures
            r@ == spec_from_socket_address(s@),
    {
        match s {
            SocketAddress::V4 { ip, port } => Socks5Address::IpV4(ip, port),
            SocketAddress::V6 { segments, port, .. } => {
                let g = segments;
                let ip: [u8; 16] = [
                    (g[0] / 256) as u8, (g[0] % 256) as u8,
                    (g[1] / 256) as u8, (g[1] % 256) as u8,
                    (g[2] / 256) as u8, (g[2] % 256) as u8,
                    (g[3] / 256) as u8, (g[3] % 256) as u8,
                    (g[4] / 256) as u8, (g[4] % 256) as u8,
                    (g[5] / 256) as u8, (g[5] % 256) as u8,
                    (g[6] / 256) as u8, (g[6] % 256) as u8,
                    (g[7] / 256) as u8, (g[7] % 256) as u8,
                ];
                assert(ip@ =~= ipv6_octets(g@));
                Socks5Address::IpV6(ip, port)
            },
        }
    }
}

/// An IP address taken to a socket address and back is the same address.
pub proof fn lemma_socket_address_roundtrip(a: SpecSocks5Address)
    requires
        a matches SpecSocks5Address::IpV4(ip, _) ==> ip.len() == 4,
        a matches SpecSocks5Address::IpV6(ip, _) ==> ip.len() == 16,
        !(a is Domain),
    ensures
        spec_to_socket_address(a) matches Some(s) && spec_from_socket_address(s) == a,
{
    if let SpecSocks5Address::IpV6(ip, port) = a {
        let back = ipv6_octets(ipv6_segments(ip));
        assert forall|i: int| 0 <= i < 16 implies back[i] == ip[i] by {
            let k = i / 2;
            assert(0 <= k < 8);
            lemma_byte_pair(ip[2 * k], ip[2 * k + 1]);
            assert(i == 2 * k || i == 2 * k + 1);
        }
        assert(back =~= ip);
    }
}

/// A socket address taken to the SOCKS5 form and back keeps its address and
/// port; flow information and scope id come back as 0.
pub proof fn lemma_socket_address_back(s: SpecSocketAddress)
    requires
        s matches SpecSocketAddress::V4(ip, _) ==> ip.len() == 4,
        s matches SpecSocketAddress::V6(segments, _, _, _) ==> segments.len() == 8,
    ensures
        spec_to_socket_address(spec_from_socket_address(s)) == Some(
            match s {
                SpecSocketAddress::V4(ip, port) => SpecSocketAddress::V4(ip, port),
                SpecSocketAddress::V6(segments, port, _, _) => SpecSocketAddress::V6(segments, port, 0, 0),
            },
        ),
{
    if let SpecSocketAddress::V6(segments, port, _, _) = s {
        let back = ipv6_segments(ipv6_octets(segments));
        assert forall|i: int| 0 <= i < 8 implies back[i] == segments[i] by {
            let o = ipv6_octets(segments);
            assert(o[2 * i] == (segments[i] / 256) as u8);
            assert(o[2 * i + 1] == (segments[i] % 256) as u8);
            lemma_segment_bytes(segments[i]);
        }
        assert(back =~= segments);
    }
}

} // verus!
