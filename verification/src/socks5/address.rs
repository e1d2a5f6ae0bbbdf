//! SOCKS5 addresses: the wire form (RFC 1928, section 5), the text form used
//! in logs, and the conversion to the address type of the proxy protocol.
use vstd::prelude::*;
use vstd::utf8::{decode_utf8, encode_utf8, valid_utf8};
use vstd::string::StringSliceAdditionalSpecFns;
use crate::socks5::Socks5CodecError;
use crate::text::{decimal, hex_lower, push_decimal, push_hex_lower};
use crate::wire::{be_bytes, be_u16, push_slice, push_u16_be, read_u16_be, copy_range};

verus! {

/// Address type byte of an IPv4 address.
pub const ADDRESS_TYPE_IPV4: u8 = 1;
/// Address type byte of a domain name.
pub const ADDRESS_TYPE_DOMAIN: u8 = 3;
/// Address type byte of an IPv6 address.
pub const ADDRESS_TYPE_IPV6: u8 = 4;

/// A destination or bind address of a SOCKS5 request.
#[derive(Debug)]
pub enum Socks5Address {
    IpV4([u8; 4], u16),
    IpV6([u8; 16], u16),
    Domain(String, u16),
}

/// The mathematical value of a [`Socks5Address`].
pub enum SpecSocks5Address {
    IpV4(Seq<u8>, u16),
    IpV6(Seq<u8>, u16),
    Domain(Seq<char>, u16),
}

impl View for Socks5Address {
    type V = SpecSocks5Address;

    open spec fn view(&self) -> SpecSocks5Address {
        match self {
            Socks5Address::IpV4(ip, port) => SpecSocks5Address::IpV4(ip@, *port),
            Socks5Address::IpV6(ip, port) => SpecSocks5Address::IpV6(ip@, *port),
            Socks5Address::Domain(host, port) => SpecSocks5Address::Domain(host@, *port),
        }
    }
}

/// The address type of the proxy protocol: the same three kinds of address.
#[derive(Debug)]
#[allow(inconsistent_fields)]
pub enum NetAddress {
    IpV4 { ip: [u8; 4], port: u16 },
    IpV6 { ip: [u8; 16], port: u16 },
    Domain { host: String, port: u16 },
}

impl View for NetAddress {
    type V = SpecSocks5Address;

    open spec fn view(&self) -> SpecSocks5Address {
        match self {
            NetAddress::IpV4 { ip, port } => SpecSocks5Address::IpV4(ip@, *port),
            NetAddress::IpV6 { ip, port } => SpecSocks5Address::IpV6(ip@, *port),
            NetAddress::Domain { host, port } => SpecSocks5Address::Domain(host@, *port),
        }
    }
}

/// What `String::from_utf8_lossy` gives on bytes that are not valid UTF-8.
pub uninterp spec fn utf8_lossy(bytes: Seq<u8>) -> Seq<char>;

/// The text that `String::from_utf8_lossy` makes of `bytes`.
pub open spec fn lossy_text(bytes: Seq<u8>) -> Seq<char> {
    if valid_utf8(bytes) {
        decode_utf8(bytes)
    } else {
        utf8_lossy(bytes)
    }
}

/// Calls `String::from_utf8_lossy`. Its documentation says that valid UTF-8
/// comes back as the string it encodes; on other bytes, each invalid sequence
/// becomes U+FFFD, and that result is only named here.
#[verifier::external_body]
fn from_utf8_lossy(bytes: &[u8]) -> (s: String)
    ensures
        s@ == (if valid_utf8(bytes@) { decode_utf8(bytes@) } else { utf8_lossy(bytes@) }),
{
    String::from_utf8_lossy(bytes).to_string()
}

/// The host that a domain address names: `0` stands for `127.0.0.1`.
pub open spec fn domain_host(decoded: Seq<char>) -> Seq<char> {
    if decoded == seq!['0'] {
        seq!['1', '2', '7', '.', '0', '.', '0', '.', '1']
    } else {
        decoded
    }
}

/// Decodes an address from the front of `s`: the address and the number of
/// bytes it takes, or the reason it cannot be read.
pub open spec fn spec_parse_address(s: Seq<u8>) -> Result<(SpecSocks5Address, nat), Socks5CodecError> {
    if s.len() == 0 {
        Err(Socks5CodecError::NoRemaining)
    } else {
        let remaining = (s.len() - 1) as nat;
        if s[0] == ADDRESS_TYPE_IPV4 {
            if remaining < 6 {
                Err(Socks5CodecError::AddressTooShort { address_type: 1, remaining: remaining as usize, required: 6 })
            } else {
                Ok((SpecSocks5Address::IpV4(s.subrange(1, 5), be_u16(s[5], s[6])), 7))
            }
        } else if s[0] == ADDRESS_TYPE_IPV6 {
            if remaining < 18 {
                Err(Socks5CodecError::AddressTooShort { address_type: 4, remaining: remaining as usize, required: 18 })
            } else {
                Ok((SpecSocks5Address::IpV6(s.subrange(1, 17), be_u16(s[17], s[18])), 19))
            }
        } else if s[0] == ADDRESS_TYPE_DOMAIN {
            if remaining < 1 {
                Err(Socks5CodecError::AddressTooShort { address_type: 3, remaining: 0, required: 1 })
            } else {
                let n = s[1] as nat;
                if remaining - 1 < n + 2 {
                    Err(Socks5CodecError::AddressTooShort {
                        address_type: 3,
                        remaining: (remaining - 1) as usize,
                        required: (n + 2) as usize,
                    })
                } else {
                    let host = domain_host(lossy_text(s.subrange(2, 2 + n as int)));
                    Ok((SpecSocks5Address::Domain(host, be_u16(s[2 + n as int], s[3 + n as int])), n + 4))
                }
            }
        } else {
            Err(Socks5CodecError::UnknownAddressType(s[0]))
        }
    }
}

/// The wire form of an address.
pub open spec fn spec_encode_address(a: SpecSocks5Address) -> Seq<u8> {
    match a {
        SpecSocks5Address::IpV4(ip, port) => seq![ADDRESS_TYPE_IPV4] + ip + be_bytes(port),
        SpecSocks5Address::IpV6(ip, port) => seq![ADDRESS_TYPE_IPV6] + ip + be_bytes(port),
        SpecSocks5Address::Domain(host, port) => {
            let b = encode_utf8(host);
            seq![ADDRESS_TYPE_DOMAIN, (b.len() % 256) as u8] + b + be_bytes(port)
        },
    }
}

/// Whether the wire form of `a` reads back as `a`: a domain must fit its
/// one-byte length and must not be the text `0`, which reads back as
/// `127.0.0.1`.
pub open spec fn encodes_faithfully(a: SpecSocks5Address) -> bool {
    match a {
        SpecSocks5Address::IpV4(ip, _) => ip.len() == 4,
        SpecSocks5Address::IpV6(ip, _) => ip.len() == 16,
        SpecSocks5Address::Domain(host, _) => encode_utf8(host).len() <= 255 && host != seq!['0'],
    }
}

pub open spec fn sep(c: char) -> Seq<char> {
    seq![c]
}

/// The eight 16-bit groups of an IPv6 address, read big-endian.
pub open spec fn ipv6_group(ip: Seq<u8>, i: int) -> u16 {
    be_u16(ip[2 * i], ip[2 * i + 1])
}

/// The text form: `a.b.c.d:port`, eight lower-case hexadecimal groups and the
/// decimal port separated by `:`, or `host:port`.
pub open spec fn spec_address_text(a: SpecSocks5Address) -> Seq<char> {
    match a {
        SpecSocks5Address::IpV4(ip, port) => decimal(ip[0] as nat) + sep('.') + decimal(ip[1] as nat)
            + sep('.') + decimal(ip[2] as nat) + sep('.') + decimal(ip[3] as nat) + sep(':')
            + decimal(port as nat),
        SpecSocks5Address::IpV6(ip, port) => hex_lower(ipv6_group(ip, 0) as nat) + sep(':')
            + hex_lower(ipv6_group(ip, 1) as nat) + sep(':') + hex_lower(ipv6_group(ip, 2) as nat)
            + sep(':') + hex_lower(ipv6_group(ip, 3) as nat) + sep(':') + hex_lower(
            ipv6_group(ip, 4) as nat,
        ) + sep(':') + hex_lower(ipv6_group(ip, 5) as nat) + sep(':') + hex_lower(
            ipv6_group(ip, 6) as nat,
        ) + sep(':') + hex_lower(ipv6_group(ip, 7) as nat) + sep(':') + decimal(port as nat),
        SpecSocks5Address::Domain(host, port) => host + sep(':') + decimal(port as nat),
    }
}

/// A copy of a text.
pub fn copy_string(s: &String) -> (r: String)
    ensures
        r@ == s@,
{
    s.clone()
}

impl Socks5Address {
    /// Decodes the address at the front of `bytes`; gives it with the number
    /// of bytes it takes.
    pub fn parse(bytes: &[u8]) -> (r: Result<(Socks5Address, usize), Socks5CodecError>)
        ensures
            match spec_parse_address(bytes@) {
                Ok((a, n)) => r matches Ok((addr, m)) && addr@ == a && m == n,
                Err(e) => r == Err::<(Socks5Address, usize), Socks5CodecError>(e),
            },
            r matches Ok((_, m)) ==> m <= bytes@.len(),
    {
        if bytes.len() == 0 {
            return Err(Socks5CodecError::NoRemaining);
        }
        let address_type = bytes[0];
        let remaining = bytes.len() - 1;
        if address_type == ADDRESS_TYPE_IPV4 {
            if remaining < 6 {
                return Err(Socks5CodecError::AddressTooShort { address_type: 1, remaining, required: 6 });
            }
            let ip: [u8; 4] = [bytes[1], bytes[2], bytes[3], bytes[4]];
            let port = read_u16_be(bytes, 5);
            assert(ip@ =~= bytes@.subrange(1, 5));
            Ok((Socks5Address::IpV4(ip, port), 7))
        } else if address_type == ADDRESS_TYPE_IPV6 {
            if remaining < 18 {
                return Err(Socks5CodecError::AddressTooShort { address_type: 4, remaining, required: 18 });
            }
            let ip: [u8; 16] = [
                bytes[1], bytes[2], bytes[3], bytes[4], bytes[5], bytes[6], bytes[7], bytes[8],
                bytes[9], bytes[10], bytes[11], bytes[12], bytes[13], bytes[14], bytes[15], bytes[16],
            ];
            let port = read_u16_be(bytes, 17);
            assert(ip@ =~= bytes@.subrange(1, 17));
            Ok((Socks5Address::IpV6(ip, port), 19))
        } else if address_type == ADDRESS_TYPE_DOMAIN {
            if remaining < 1 {
                return Err(Socks5CodecError::AddressTooShort { address_type: 3, remaining: 0, required: 1 });
            }
            let n = bytes[1] as usize;
            if remaining - 1 < n + 2 {
                return Err(
                    Socks5CodecError::AddressTooShort { address_type: 3, remaining: remaining - 1, required: n + 2 },
                );
            }
            let name_bytes = copy_range(bytes, 2, 2 + n);
            let decoded = from_utf8_lossy(name_bytes.as_slice());
            let host = if decoded.unicode_len() == 1 && decoded.as_str().get_char(0) == '0' {
                let loopback = String::from_str("127.0.0.1");
                proof {
                    reveal_strlit("127.0.0.1");
                    assert(decoded@ =~= seq!['0']);
                    assert(loopback@ =~= seq!['1', '2', '7', '.', '0', '.', '0', '.', '1']);
                }
                loopback
            } else {
                proof {
                    if decoded@ == seq!['0'] {
                        assert(decoded@[0] == '0');
                    }
                }
                decoded
            };
            let port = read_u16_be(bytes, 2 + n);
            Ok((Socks5Address::Domain(host, port), n + 4))
        } else {
            Err(Socks5CodecError::UnknownAddressType(address_type))
        }
    }

    /// Appends the wire form of this address to `out`.
    pub fn encode_into(&self, out: &mut Vec<u8>)
        ensures
            final(out)@ == old(out)@ + spec_encode_address(self@),
    {
        match self {
            Socks5Address::IpV4(ip, port) => {
                out.push(ADDRESS_TYPE_IPV4);
                push_slice(out, ip);
                push_u16_be(out, *port);
                assert(final(out)@ =~= old(out)@ + spec_encode_address(self@));
            },
            Socks5Address::IpV6(ip, port) => {
                out.push(ADDRESS_TYPE_IPV6);
                push_slice(out, ip);
                push_u16_be(out, *port);
                assert(final(out)@ =~= old(out)@ + spec_encode_address(self@));
            },
            Socks5Address::Domain(host, port) => {
                let b = host.as_str().as_bytes();
                out.push(ADDRESS_TYPE_DOMAIN);
                out.push((b.len() % 256) as u8);
                push_slice(out, b);
                push_u16_be(out, *port);
                assert(final(out)@ =~= old(out)@ + spec_encode_address(self@));
            },
        }
    }

    /// The wire form of this address.
    pub fn to_bytes(&self) -> (r: Vec<u8>)
        ensures
            r@ == spec_encode_address(self@),
    {
        let mut out: Vec<u8> = Vec::new();
        self.encode_into(&mut out);
        assert(out@ =~= spec_encode_address(self@));
        out
    }

    /// The text form of this address, as written in logs.
    pub fn to_string(&self) -> (r: String)
        ensures
            r@ == spec_address_text(self@),
    {
        match self {
            Socks5Address::IpV4(ip, port) => {
                let mut s = String::new();
                push_decimal(&mut s, ip[0] as u64);
                s.push('.');
                push_decimal(&mut s, ip[1] as u64);
                s.push('.');
                push_decimal(&mut s, ip[2] as u64);
                s.push('.');
                push_decimal(&mut s, ip[3] as u64);
                s.push(':');
                push_decimal(&mut s, *port as u64);
                assert(s@ =~= spec_address_text(self@));
                s
            },
            Socks5Address::IpV6(ip, port) => {
                let mut s = String::new();
                let mut i: usize = 0;
                while i < 8
                    invariant
                        i <= 8,
                        ip@.len() == 16,
                        s@ == ipv6_prefix_text(ip@, i as int),
                    decreases 8 - i,
                {
                    let group = read_u16_be(ip, 2 * i);
                    push_hex_lower(&mut s, group as u64);
                    s.push(':');
                    i = i + 1;
                    assert(s@ =~= ipv6_prefix_text(ip@, i as int));
                }
                push_decimal(&mut s, *port as u64);
                proof {
                    lemma_ipv6_text(ip@, *port);
                }
                s
            },
            Socks5Address::Domain(host, port) => {
                let mut s = copy_string(host);
                s.push(':');
                push_decimal(&mut s, *port as u64);
                assert(s@ =~= spec_address_text(self@));
                s
            },
        }
    }

    /// A copy of this address.
    pub fn duplicate(&self) -> (r: Socks5Address)
        ensures
            r@ == self@,
    {
        match self {
            Socks5Address::IpV4(ip, port) => Socks5Address::IpV4(*ip, *port),
            Socks5Address::IpV6(ip, port) => Socks5Address::IpV6(*ip, *port),
            Socks5Address::Domain(host, port) => Socks5Address::Domain(copy_string(host), *port),
        }
    }

    /// The same address in the address type of the proxy protocol.
    pub fn into_net_address(self) -> (r: NetAddress)
        ensures
            r@ == self@,
    {
        match self {
            Socks5Address::IpV4(ip, port) => NetAddress::IpV4 { ip, port },
            Socks5Address::IpV6(ip, port) => NetAddress::IpV6 { ip, port },
            Socks5Address::Domain(host, port) => NetAddress::Domain { host, port },
        }
    }

    /// The SOCKS5 form of an address of the proxy protocol.
    pub fn from_net_address(a: NetAddress) -> (r: Socks5Address)
        ensures
            r@ == a@,
    {
        match a {
            NetAddress::IpV4 { ip, port } => Socks5Address::IpV4(ip, port),
            NetAddress::IpV6 { ip, port } => Socks5Address::IpV6(ip, port),
            NetAddress::Domain { host, port } => Socks5Address::Domain(host, port),
        }
    }
}

impl NetAddress {
    /// A copy of this address.
    pub fn duplicate(&self) -> (r: NetAddress)
        ensures
            r@ == self@,
    {
        match self {
            NetAddress::IpV4 { ip, port } => NetAddress::IpV4 { ip: *ip, port: *port },
            NetAddress::IpV6 { ip, port } => NetAddress::IpV6 { ip: *ip, port: *port },
            NetAddress::Domain { host, port } => NetAddress::Domain { host: copy_string(host), port: *port },
        }
    }
}

/// The text of the first `k` groups of an IPv6 address, each followed by `:`.
pub open spec fn ipv6_prefix_text(ip: Seq<u8>, k: int) -> Seq<char>
    decreases k,
{
    if k <= 0 {
        seq![]
    } else {
        ipv6_prefix_text(ip, k - 1) + hex_lower(ipv6_group(ip, k - 1) as nat) + sep(':')
    }
}

proof fn lemma_ipv6_text(ip: Seq<u8>, port: u16)
    ensures
        ipv6_prefix_text(ip, 8) + decimal(port as nat) =~= spec_address_text(
            SpecSocks5Address::IpV6(ip, port),
        ),
{
    reveal_with_fuel(ipv6_prefix_text, 9);
}

/// Reading back the wire form of an address gives the same address and
/// consumes exactly the wire form, whatever bytes follow it: this holds of
/// every address but a domain longer than 255 bytes in UTF-8 and the domain
/// `0`.
pub proof fn lemma_address_roundtrip(a: SpecSocks5Address, tail: Seq<u8>)
    requires
        encodes_faithfully(a),
    ensures
        spec_parse_address(spec_encode_address(a) + tail) == Ok::<(SpecSocks5Address, nat), Socks5CodecError>(
            (a, spec_encode_address(a).len()),
        ),
{
    let s = spec_encode_address(a) + tail;
    match a {
        SpecSocks5Address::IpV4(ip, port) => {
            assert(s.subrange(1, 5) =~= ip);
        },
        SpecSocks5Address::IpV6(ip, port) => {
            assert(s.subrange(1, 17) =~= ip);
        },
        SpecSocks5Address::Domain(host, port) => {
            let b = encode_utf8(host);
            vstd::utf8::encode_utf8_valid_utf8(host);
            vstd::utf8::encode_utf8_decode_utf8(host);
            assert(s.subrange(2, 2 + b.len() as int) =~= b);
            assert(s[1] as nat == b.len());
        },
    }
}

/// The wire form of an address that has only partly arrived does not read
/// as an error of its content: it lacks bytes, and only that.
pub proof fn lemma_address_prefix_incomplete(a: SpecSocks5Address, k: int)
    requires
        encodes_faithfully(a),
        0 <= k < spec_encode_address(a).len(),
    ensures
        spec_parse_address(spec_encode_address(a).take(k)) matches Err(e) && (e is NoRemaining
            || e is AddressTooShort),
{
    let p = spec_encode_address(a).take(k);
    if k > 0 {
        assert(p[0] == spec_encode_address(a)[0]);
    }
    if let SpecSocks5Address::Domain(host, _) = a {
        if k > 1 {
            assert(p[1] == spec_encode_address(a)[1]);
            assert(p[1] as nat == encode_utf8(host).len());
        }
    }
}

/// The wire form of an address (RFC 1928, section 5): type 1 with four
/// address bytes, type 4 with sixteen, or type 3 with the length of the
/// name's UTF-8 bytes and those bytes; then the port, high byte first.
pub proof fn lemma_address_wire_layout(a: SpecSocks5Address)
    requires
        encodes_faithfully(a),
    ensures
        ({
            let w = spec_encode_address(a);
            match a {
                SpecSocks5Address::IpV4(ip, port) => {
                    &&& w.len() == 7 && w[0] == 1u8 && w.subrange(1, 5) == ip
                    &&& w[5] as int * 256 + w[6] as int == port as int
                },
                SpecSocks5Address::IpV6(ip, port) => {
                    &&& w.len() == 19 && w[0] == 4u8 && w.subrange(1, 17) == ip
                    &&& w[17] as int * 256 + w[18] as int == port as int
                },
                SpecSocks5Address::Domain(host, port) => {
                    let n = encode_utf8(host).len();
                    &&& w.len() == n + 4 && w[0] == 3u8 && w[1] as int == n
                    &&& w.subrange(2, 2 + n as int) == encode_utf8(host)
                    &&& w[2 + n as int] as int * 256 + w[3 + n as int] as int == port as int
                },
            }
        }),
{
    let w = spec_encode_address(a);
    match a {
        SpecSocks5Address::IpV4(ip, port) => {
            assert(w.subrange(1, 5) =~= ip);
            assert((port / 256) * 256 + port % 256 == port) by (nonlinear_arith);
        },
        SpecSocks5Address::IpV6(ip, port) => {
            assert(w.subrange(1, 17) =~= ip);
            assert((port / 256) * 256 + port % 256 == port) by (nonlinear_arith);
        },
        SpecSocks5Address::Domain(host, port) => {
            let b = encode_utf8(host);
            assert(w.subrange(2, 2 + b.len() as int) =~= b);
            assert((port / 256) * 256 + port % 256 == port) by (nonlinear_arith);
        },
    }
}

} // verus!
