//! Requests and replies (RFC 1928, sections 4 and 6): the client names a
//! command and a destination, the agent answers with a status and the bound
//! address.
use vstd::prelude::*;
use crate::socks5::Socks5CodecError;
use crate::socks5::address::{Socks5Address, SpecSocks5Address, spec_encode_address, spec_parse_address, encodes_faithfully, lemma_address_prefix_incomplete, lemma_address_roundtrip};
use crate::dispatch::SOCKS_V5;

verus! {

/// The command of a SOCKS5 request.
#[derive(Debug, Clone, Copy, PartialEq, Eq, Structural)]
pub enum Socks5InitCommandType {
    Connect,
    Bind,
    UdpAssociate,
}

pub open spec fn spec_init_command_type(v: u8) -> Result<Socks5InitCommandType, Socks5CodecError> {
    if v == 1 {
        Ok(Socks5InitCommandType::Connect)
    } else if v == 2 {
        Ok(Socks5InitCommandType::Bind)
    } else if v == 3 {
        Ok(Socks5InitCommandType::UdpAssociate)
    } else {
        Err(Socks5CodecError::UnknownInitCommandType(v))
    }
}

impl Socks5InitCommandType {
    /// The command that a byte names: 1, 2 or 3.
    pub fn try_from_byte(v: u8) -> (r: Result<Socks5InitCommandType, Socks5CodecError>)
        ensures
            r == spec_init_command_type(v),
    {
        if v == 1 {
            Ok(Socks5InitCommandType::Connect)
        } else if v == 2 {
            Ok(Socks5InitCommandType::Bind)
        } else if v == 3 {
            Ok(Socks5InitCommandType::UdpAssociate)
        } else {
            Err(Socks5CodecError::UnknownInitCommandType(v))
        }
    }
}

/// The status of a SOCKS5 reply.
#[derive(Debug, Clone, Copy, PartialEq, Eq, Structural)]
pub enum Socks5InitCommandResultStatus {
    Succeeded,
    Failure,
    ConnectionNotAllowedByRuleSet,
    NetworkUnReachable,
    HostUnReachable,
    ConnectionRefused,
    TtlExpired,
    CommandNotSupported,
    AddressTypeNotSupported,
    Unassigned,
}

/// The byte that stands for a status: its position in the list, 0 to 9.
pub open spec fn spec_status_byte(s: Socks5InitCommandResultStatus) -> u8 {
    match s {
        Socks5InitCommandResultStatus::Succeeded => 0,
        Socks5InitCommandResultStatus::Failure => 1,
        Socks5InitCommandResultStatus::ConnectionNotAllowedByRuleSet => 2,
        Socks5InitCommandResultStatus::NetworkUnReachable => 3,
        Socks5InitCommandResultStatus::HostUnReachable => 4,
        Socks5InitCommandResultStatus::ConnectionRefused => 5,
        Socks5InitCommandResultStatus::TtlExpired => 6,
        Socks5InitCommandResultStatus::CommandNotSupported => 7,
        Socks5InitCommandResultStatus::AddressTypeNotSupported => 8,
        Socks5InitCommandResultStatus::Unassigned => 9,
    }
}

pub open spec fn spec_status(v: u8) -> Result<Socks5InitCommandResultStatus, Socks5CodecError> {
    if v == 0 {
        Ok(Socks5InitCommandResultStatus::Succeeded)
    } else if v == 1 {
        Ok(Socks5InitCommandResultStatus::Failure)
    } else if v == 2 {
        Ok(Socks5InitCommandResultStatus::ConnectionNotAllowedByRuleSet)
    } else if v == 3 {
        Ok(Socks5InitCommandResultStatus::NetworkUnReachable)
    } else if v == 4 {
        Ok(Socks5InitCommandResultStatus::HostUnReachable)
    } else if v == 5 {
        Ok(Socks5InitCommandResultStatus::ConnectionRefused)
    } else if v == 6 {
        Ok(Socks5InitCommandResultStatus::TtlExpired)
    } else if v == 7 {
        Ok(Socks5InitCommandResultStatus::CommandNotSupported)
    } else if v == 8 {
        Ok(Socks5InitCommandResultStatus::AddressTypeNotSupported)
    } else if v == 9 {
        Ok(Socks5InitCommandResultStatus::Unassigned)
    } else {
        Err(Socks5CodecError::UnknownInitCommandStatus(v))
    }
}

impl Socks5InitCommandResultStatus {
    /// The status that a byte names: 0 to 9.
    pub fn try_from_byte(v: u8) -> (r: Result<Socks5InitCommandResultStatus, Socks5CodecError>)
        ensures
            r == spec_status(v),
    {
        if v == 0 {
            Ok(Socks5InitCommandResultStatus::Succeeded)
        } else if v == 1 {
            Ok(Socks5InitCommandResultStatus::Failure)
        } else if v == 2 {
            Ok(Socks5InitCommandResultStatus::ConnectionNotAllowedByRuleSet)
        } else if v == 3 {
            Ok(Socks5InitCommandResultStatus::NetworkUnReachable)
        } else if v == 4 {
            Ok(Socks5InitCommandResultStatus::HostUnReachable)
        } else if v == 5 {
            Ok(Socks5InitCommandResultStatus::ConnectionRefused)
        } else if v == 6 {
            Ok(Socks5InitCommandResultStatus::TtlExpired)
        } else if v == 7 {
            Ok(Socks5InitCommandResultStatus::CommandNotSupported)
        } else if v == 8 {
            Ok(Socks5InitCommandResultStatus::AddressTypeNotSupported)
        } else if v == 9 {
            Ok(Socks5InitCommandResultStatus::Unassigned)
        } else {
            Err(Socks5CodecError::UnknownInitCommandStatus(v))
        }
    }
}

impl From<Socks5InitCommandResultStatus> for u8 {
    fn from(s: Socks5InitCommandResultStatus) -> (r: u8) {
        match s {
            Socks5InitCommandResultStatus::Succeeded => 0,
            Socks5InitCommandResultStatus::Failure => 1,
            Socks5InitCommandResultStatus::ConnectionNotAllowedByRuleSet => 2,
            Socks5InitCommandResultStatus::NetworkUnReachable => 3,
            Socks5InitCommandResultStatus::HostUnReachable => 4,
            Socks5InitCommandResultStatus::ConnectionRefused => 5,
            Socks5InitCommandResultStatus::TtlExpired => 6,
            Socks5InitCommandResultStatus::CommandNotSupported => 7,
            Socks5InitCommandResultStatus::AddressTypeNotSupported => 8,
            Socks5InitCommandResultStatus::Unassigned => 9,
        }
    }
}

impl vstd::std_specs::convert::FromSpecImpl<Socks5InitCommandResultStatus> for u8 {
    open spec fn obeys_from_spec() -> bool {
        true
    }

    open spec fn from_spec(s: Socks5InitCommandResultStatus) -> u8 {
        spec_status_byte(s)
    }
}

/// A status reads back from its byte, and exactly the bytes 0 to 9 name a
/// status.
pub proof fn lemma_status_roundtrip(s: Socks5InitCommandResultStatus, v: u8)
    ensures
        spec_status(spec_status_byte(s)) == Ok::<Socks5InitCommandResultStatus, Socks5CodecError>(s),
        spec_status(v) is Ok <==> v <= 9,
        spec_status(v) matches Ok(t) ==> spec_status_byte(t) == v,
{
}

/// The command and destination of a request, taken apart.
pub struct Socks5InitCommandContentParts {
    pub version: u8,
    pub command_type: Socks5InitCommandType,
    pub dst_address: Socks5Address,
}

/// A SOCKS5 request: a command and its destination.
#[derive(Debug)]
pub struct Socks5InitCommandContent {
    version: u8,
    request_type: Socks5InitCommandType,
    dest_address: Socks5Address,
}

impl Socks5InitCommandContent {
    pub closed spec fn spec_version(&self) -> u8 {
        self.version
    }

    pub closed spec fn spec_request_type(&self) -> Socks5InitCommandType {
        self.request_type
    }

    pub closed spec fn spec_dest_address(&self) -> SpecSocks5Address {
        self.dest_address@
    }

    pub fn new(request_type: Socks5InitCommandType, dest_address: Socks5Address) -> (r: Self)
        ensures
            r.spec_version() == SOCKS_V5,
            r.spec_request_type() == request_type,
            r.spec_dest_address() == dest_address@,
    {
        Socks5InitCommandContent { version: SOCKS_V5, request_type, dest_address }
    }

    pub fn split(self) -> (r: Socks5InitCommandContentParts)
        ensures
            r.version == self.spec_version(),
            r.command_type == self.spec_request_type(),
            r.dst_address@ == self.spec_dest_address(),
    {
        Socks5InitCommandContentParts {
            version: self.version,
            command_type: self.request_type,
            dst_address: self.dest_address,
        }
    }
}

/// The status and bound address of a reply, taken apart.
pub struct Socks5InitCommandResultContentParts {
    pub version: u8,
    pub status: Socks5InitCommandResultStatus,
    pub bind_address: Option<Socks5Address>,
}

/// A SOCKS5 reply: a status and, where there is one, the bound address.
#[derive(Debug)]
pub struct Socks5InitCommandResultContent {
    version: u8,
    status: Socks5InitCommandResultStatus,
    bind_address: Option<Socks5Address>,
}

pub open spec fn spec_option_address(a: Option<Socks5Address>) -> Option<SpecSocks5Address> {
    match a {
        Some(a) => Some(a@),
        None => None,
    }
}

impl Socks5InitCommandResultContent {
    pub closed spec fn spec_version(&self) -> u8 {
        self.version
    }

    pub closed spec fn spec_status(&self) -> Socks5InitCommandResultStatus {
        self.status
    }

    pub closed spec fn spec_bind_address(&self) -> Option<SpecSocks5Address> {
        spec_option_address(self.bind_address)
    }

    pub fn new(status: Socks5InitCommandResultStatus, bind_address: Option<Socks5Address>) -> (r: Self)
        ensures
            r.spec_version() == SOCKS_V5,
            r.spec_status() == status,
            r.spec_bind_address() == spec_option_address(bind_address),
    {
        Socks5InitCommandResultContent { version: SOCKS_V5, status, bind_address }
    }

    pub fn split(self) -> (r: Socks5InitCommandResultContentParts)
        ensures
            r.version == self.spec_version(),
            r.status == self.spec_status(),
            spec_option_address(r.bind_address) == self.spec_bind_address(),
    {
        Socks5InitCommandResultContentParts {
            version: self.version,
            status: self.status,
            bind_address: self.bind_address,
        }
    }
}

/// Whether decoding an address failed only because its bytes have not all
/// arrived yet.
pub open spec fn address_incomplete(e: Socks5CodecError) -> bool {
    e is NoRemaining || e is AddressTooShort
}

/// Decoding a request from the front of `src`: nothing yet with fewer than
/// four bytes or while the address has not fully arrived; an error for a
/// wrong version, an unknown command or an unknown address type; else the
/// command, the destination, and the number of bytes the request takes.
pub open spec fn spec_decode_init_request(src: Seq<u8>) -> Result<Option<(Socks5InitCommandType, SpecSocks5Address, nat)>, Socks5CodecError> {
    if src.len() < 4 {
        Ok(None)
    } else if src[0] != SOCKS_V5 {
        Err(Socks5CodecError::InvalidVersion(src[0]))
    } else {
        match spec_init_command_type(src[1]) {
            Err(e) => Err(e),
            Ok(t) => match spec_parse_address(src.subrange(3, src.len() as int)) {
                Err(e) => if address_incomplete(e) {
                    Ok(None)
                } else {
                    Err(e)
                },
                Ok((a, n)) => Ok(Some((t, a, 3 + n))),
            },
        }
    }
}

/// Decodes a request at the front of `src`.
pub fn decode_init_request(src: &[u8]) -> (r: Result<Option<(Socks5InitCommandContent, usize)>, Socks5CodecError>)
    ensures
        match spec_decode_init_request(src@) {
            Ok(None) => r matches Ok(None),
            Ok(Some((t, a, n))) => r matches Ok(Some((c, m))) && c.spec_version() == SOCKS_V5 && c.spec_request_type() == t
                && c.spec_dest_address() == a && m == n,
            Err(e) => r == Err::<Option<(Socks5InitCommandContent, usize)>, Socks5CodecError>(e),
        },
        r matches Ok(Some((_, m))) ==> m <= src@.len(),
{
    if src.len() < 4 {
        return Ok(None);
    }
    let version = src[0];
    if version != SOCKS_V5 {
        return Err(Socks5CodecError::InvalidVersion(version));
    }
    let request_type = match Socks5InitCommandType::try_from_byte(src[1]) {
        Ok(t) => t,
        Err(e) => return Err(e),
    };
    let rest = vstd::slice::slice_subrange(src, 3, src.len());
    match Socks5Address::parse(rest) {
        Ok((dest_address, n)) => Ok(Some((Socks5InitCommandContent::new(request_type, dest_address), 3 + n))),
        Err(Socks5CodecError::NoRemaining) => Ok(None),
        Err(Socks5CodecError::AddressTooShort { .. }) => Ok(None),
        Err(e) => Err(e),
    }
}

/// The wire form of a reply: version, status, a reserved zero byte, then the
/// bound address where there is one.
pub open spec fn spec_encode_init_reply(status: Socks5InitCommandResultStatus, bind: Option<SpecSocks5Address>) -> Seq<u8> {
    seq![SOCKS_V5, spec_status_byte(status), 0u8] + match bind {
        Some(a) => spec_encode_address(a),
        None => Seq::<u8>::empty(),
    }
}

/// Appends the wire form of a reply to `dst`.
pub fn encode_init_reply(item: Socks5InitCommandResultContent, dst: &mut Vec<u8>)
    ensures
        final(dst)@ == old(dst)@ + spec_encode_init_reply(item.spec_status(), item.spec_bind_address()),
{
    let Socks5InitCommandResultContentParts { status, bind_address, .. } = item.split();
    dst.push(SOCKS_V5);
    dst.push(u8::from(status));
    dst.push(0u8);
    match bind_address {
        Some(a) => {
            a.encode_into(dst);
        },
        None => {},
    }
    assert(final(dst)@ =~= old(dst)@ + spec_encode_init_reply(item.spec_status(), item.spec_bind_address()));
}

/// The byte that stands for a command.
pub open spec fn spec_command_byte(t: Socks5InitCommandType) -> u8 {
    match t {
        Socks5InitCommandType::Connect => 1,
        Socks5InitCommandType::Bind => 2,
        Socks5InitCommandType::UdpAssociate => 3,
    }
}

/// A request that a client writes (version 5, the command, any reserved
/// byte, then an address whose wire form reads back) decodes as that command
/// and address and takes exactly its own bytes, whatever follows it.
pub proof fn lemma_init_request_decodes(t: Socks5InitCommandType, reserved: u8, a: SpecSocks5Address, tail: Seq<u8>)
    requires
        encodes_faithfully(a),
    ensures
        ({
            let request = seq![SOCKS_V5, spec_command_byte(t), reserved] + spec_encode_address(a) + tail;
            spec_decode_init_request(request) == Ok::<Option<(Socks5InitCommandType, SpecSocks5Address, nat)>, Socks5CodecError>(
                Some((t, a, 3 + spec_encode_address(a).len())),
            )
        }),
{
    let request = seq![SOCKS_V5, spec_command_byte(t), reserved] + spec_encode_address(a) + tail;
    lemma_address_roundtrip(a, tail);
    assert(request.subrange(3, request.len() as int) =~= spec_encode_address(a) + tail);
}

/// A request that has only partly arrived asks for more bytes.
pub proof fn lemma_init_request_prefix(t: Socks5InitCommandType, reserved: u8, a: SpecSocks5Address, k: int)
    requires
        encodes_faithfully(a),
        0 <= k < 3 + spec_encode_address(a).len(),
    ensures
        spec_decode_init_request((seq![SOCKS_V5, spec_command_byte(t), reserved] + spec_encode_address(a)).take(k))
            == Ok::<Option<(Socks5InitCommandType, SpecSocks5Address, nat)>, Socks5CodecError>(None),
{
    let request = seq![SOCKS_V5, spec_command_byte(t), reserved] + spec_encode_address(a);
    let p = request.take(k);
    if k >= 4 {
        assert(p[0] == SOCKS_V5);
        assert(p[1] == spec_command_byte(t));
        assert(p.subrange(3, p.len() as int) =~= spec_encode_address(a).take(k - 3));
        lemma_address_prefix_incomplete(a, k - 3);
    }
}

/// The statuses of a reply in the order of their codes in RFC 1928:
/// `X'00'` succeeded through `X'08'` address type not supported, then the
/// first unassigned code.
pub open spec fn rfc1928_reply_codes() -> Seq<Socks5InitCommandResultStatus> {
    seq![
        Socks5InitCommandResultStatus::Succeeded,
        Socks5InitCommandResultStatus::Failure,
        Socks5InitCommandResultStatus::ConnectionNotAllowedByRuleSet,
        Socks5InitCommandResultStatus::NetworkUnReachable,
        Socks5InitCommandResultStatus::HostUnReachable,
        Socks5InitCommandResultStatus::ConnectionRefused,
        Socks5InitCommandResultStatus::TtlExpired,
        Socks5InitCommandResultStatus::CommandNotSupported,
        Socks5InitCommandResultStatus::AddressTypeNotSupported,
        Socks5InitCommandResultStatus::Unassigned,
    ]
}

/// Every status is written as its RFC 1928 code, and every code from 0 to 9
/// reads as the status RFC 1928 gives it.
pub proof fn lemma_status_codes_follow_rfc1928(s: Socks5InitCommandResultStatus, v: u8)
    ensures
        spec_status_byte(s) < 10,
        rfc1928_reply_codes()[spec_status_byte(s) as int] == s,
        v < 10 ==> spec_status(v) == Ok::<Socks5InitCommandResultStatus, Socks5CodecError>(
            rfc1928_reply_codes()[v as int],
        ),
{
}

/// A reply is the version 5, the status code, a zero byte, then the bound
/// address, which reads back from the rest of the reply as that same address,
/// whatever its kind; without a bound address the reply is the three bytes.
pub proof fn lemma_init_reply_carries_bind_address(status: Socks5InitCommandResultStatus, a: SpecSocks5Address)
    requires
        encodes_faithfully(a),
    ensures
        ({
            let r = spec_encode_init_reply(status, Some(a));
            &&& r.len() > 3
            &&& r[0] == 5u8
            &&& r[1] == spec_status_byte(status)
            &&& r[2] == 0u8
            &&& spec_parse_address(r.subrange(3, r.len() as int))
                == Ok::<(SpecSocks5Address, nat), Socks5CodecError>((a, (r.len() - 3) as nat))
        }),
        spec_encode_init_reply(status, None) == seq![5u8, spec_status_byte(status), 0u8],
{
    let r = spec_encode_init_reply(status, Some(a));
    let enc = spec_encode_address(a);
    lemma_address_roundtrip(a, Seq::<u8>::empty());
    assert(enc + Seq::<u8>::empty() =~= enc);
    assert(r.subrange(3, r.len() as int) =~= enc);
    assert(spec_encode_init_reply(status, None) =~= seq![5u8, spec_status_byte(status), 0u8]);
}

/// The command codes of RFC 1928: 1 is `CONNECT`, 2 is `BIND`, 3 is
/// `UDP ASSOCIATE`, and every other byte is refused as unknown.
pub proof fn lemma_command_codes_follow_rfc1928(v: u8, t: Socks5InitCommandType)
    ensures
        spec_init_command_type(1) == Ok::<Socks5InitCommandType, Socks5CodecError>(Socks5InitCommandType::Connect),
        spec_init_command_type(2) == Ok::<Socks5InitCommandType, Socks5CodecError>(Socks5InitCommandType::Bind),
        spec_init_command_type(3) == Ok::<Socks5InitCommandType, Socks5CodecError>(Socks5InitCommandType::UdpAssociate),
        !(1 <= v <= 3) ==> spec_init_command_type(v) == Err::<Socks5InitCommandType, Socks5CodecError>(
            Socks5CodecError::UnknownInitCommandType(v),
        ),
        spec_init_command_type(spec_command_byte(t)) == Ok::<Socks5InitCommandType, Socks5CodecError>(t),
{
}

} // verus!
