//! Method selection (RFC 1928, section 3): the client offers authentication
//! methods, the agent always answers "no authentication required".
use vstd::prelude::*;
use crate::socks5::Socks5CodecError;
use crate::dispatch::SOCKS_V5;

verus! {

/// An authentication method of a SOCKS5 method-selection message.
#[derive(Debug, Clone, Copy, PartialEq, Eq, Structural)]
pub enum Socks5AuthMethod {
    NoAuthenticationRequired,
    GssApi,
    UsernameAndPassword,
    IanaAssigned,
    ReservedForPrivateMethods,
    NoAcceptableMethods,
}

/// The method that a byte names; a byte that names none reads as
/// "no authentication required".
pub open spec fn spec_auth_method(v: u8) -> Socks5AuthMethod {
    if v == 0 {
        Socks5AuthMethod::NoAuthenticationRequired
    } else if v == 1 {
        Socks5AuthMethod::GssApi
    } else if v == 2 {
        Socks5AuthMethod::UsernameAndPassword
    } else if v == 3 {
        Socks5AuthMethod::IanaAssigned
    } else if v == 8 {
        Socks5AuthMethod::ReservedForPrivateMethods
    } else if v == 16 {
        Socks5AuthMethod::NoAcceptableMethods
    } else {
        Socks5AuthMethod::NoAuthenticationRequired
    }
}

/// The byte that stands for a method.
pub open spec fn spec_auth_method_byte(m: Socks5AuthMethod) -> u8 {
    match m {
        Socks5AuthMethod::NoAuthenticationRequired => 0,
        Socks5AuthMethod::GssApi => 1,
        Socks5AuthMethod::UsernameAndPassword => 2,
        Socks5AuthMethod::IanaAssigned => 3,
        Socks5AuthMethod::ReservedForPrivateMethods => 8,
        Socks5AuthMethod::NoAcceptableMethods => 16,
    }
}

impl From<u8> for Socks5AuthMethod {
    fn from(v: u8) -> (r: Self) {
        if v == 0 {
            Socks5AuthMethod::NoAuthenticationRequired
        } else if v == 1 {
            Socks5AuthMethod::GssApi
        } else if v == 2 {
            Socks5AuthMethod::UsernameAndPassword
        } else if v == 3 {
            Socks5AuthMethod::IanaAssigned
        } else if v == 8 {
            Socks5AuthMethod::ReservedForPrivateMethods
        } else if v == 16 {
            Socks5AuthMethod::NoAcceptableMethods
        } else {
            Socks5AuthMethod::NoAuthenticationRequired
        }
    }
}

impl vstd::std_specs::convert::FromSpecImpl<u8> for Socks5AuthMethod {
    open spec fn obeys_from_spec() -> bool {
        true
    }

    open spec fn from_spec(v: u8) -> Self {
        spec_auth_method(v)
    }
}

impl From<Socks5AuthMethod> for u8 {
    fn from(m: Socks5AuthMethod) -> (r: u8) {
        match m {
            Socks5AuthMethod::NoAuthenticationRequired => 0,
            Socks5AuthMethod::GssApi => 1,
            Socks5AuthMethod::UsernameAndPassword => 2,
            Socks5AuthMethod::IanaAssigned => 3,
            Socks5AuthMethod::ReservedForPrivateMethods => 8,
            Socks5AuthMethod::NoAcceptableMethods => 16,
        }
    }
}

impl vstd::std_specs::convert::FromSpecImpl<Socks5AuthMethod> for u8 {
    open spec fn obeys_from_spec() -> bool {
        true
    }

    open spec fn from_spec(m: Socks5AuthMethod) -> u8 {
        spec_auth_method_byte(m)
    }
}

/// Every method reads back from its own byte.
pub proof fn lemma_auth_method_roundtrip(m: Socks5AuthMethod)
    ensures
        spec_auth_method(spec_auth_method_byte(m)) == m,
{
}

/// A byte that names a method is that method's byte; every other byte reads
/// as "no authentication required".
pub proof fn lemma_auth_byte_roundtrip(v: u8)
    ensures
        (v == 0 || v == 1 || v == 2 || v == 3 || v == 8 || v == 16) ==> spec_auth_method_byte(
            spec_auth_method(v),
        ) == v,
        !(v == 0 || v == 1 || v == 2 || v == 3 || v == 8 || v == 16) ==> spec_auth_method(v)
            == Socks5AuthMethod::NoAuthenticationRequired,
{
}

/// The fields of a method-selection request, taken apart.
pub struct Socks5AuthCommandContentParts {
    pub version: u8,
    pub method_number: u8,
    pub methods: Vec<Socks5AuthMethod>,
}

/// A method-selection request: the version, the number of methods the
/// client claims, and the methods that it offers.
#[derive(Debug)]
pub struct Socks5AuthCommandContent {
    version: u8,
    method_number: u8,
    methods: Vec<Socks5AuthMethod>,
}

impl Socks5AuthCommandContent {
    pub closed spec fn spec_version(&self) -> u8 {
        self.version
    }

    pub closed spec fn spec_method_number(&self) -> u8 {
        self.method_number
    }

    pub closed spec fn spec_methods(&self) -> Seq<Socks5AuthMethod> {
        self.methods@
    }

    /// A version 5 request with the count and the methods as given; the
    /// count is kept as it is, whether or not it matches the list.
    pub fn new(method_number: u8, methods: Vec<Socks5AuthMethod>) -> (r: Self)
        ensures
            r.spec_version() == SOCKS_V5,
            r.spec_method_number() == method_number,
            r.spec_methods() == methods@,
    {
        Socks5AuthCommandContent { version: SOCKS_V5, method_number, methods }
    }

    pub fn split(self) -> (r: Socks5AuthCommandContentParts)
        ensures
            r.version == self.spec_version(),
            r.method_number == self.spec_method_number(),
            r.methods@ == self.spec_methods(),
    {
        Socks5AuthCommandContentParts { version: self.version, method_number: self.method_number, methods: self.methods }
    }
}

/// The fields of a method-selection reply, taken apart.
pub struct Socks5AuthCommandResultContentParts {
    pub version: u8,
    pub method: Socks5AuthMethod,
}

/// A method-selection reply: the version and the method that the agent chose.
#[derive(Debug)]
pub struct Socks5AuthCommandResultContent {
    version: u8,
    method: Socks5AuthMethod,
}

impl Socks5AuthCommandResultContent {
    pub closed spec fn spec_version(&self) -> u8 {
        self.version
    }

    pub closed spec fn spec_method(&self) -> Socks5AuthMethod {
        self.method
    }

    /// A version 5 reply that names `method`.
    pub fn new(method: Socks5AuthMethod) -> (r: Self)
        ensures
            r.spec_version() == SOCKS_V5,
            r.spec_method() == method,
    {
        Socks5AuthCommandResultContent { version: SOCKS_V5, method }
    }

    pub fn split(self) -> (r: Socks5AuthCommandResultContentParts)
        ensures
            r.version == self.spec_version(),
            r.method == self.spec_method(),
    {
        Socks5AuthCommandResultContentParts { version: self.version, method: self.method }
    }
}

/// The methods named by the bytes `s`, in order.
pub open spec fn spec_auth_methods(s: Seq<u8>) -> Seq<Socks5AuthMethod> {
    s.map_values(|b: u8| spec_auth_method(b))
}

/// Decoding a method-selection request from the front of `src`: nothing yet
/// with fewer than two bytes, an error if the version is not 5, nothing yet
/// while fewer methods have arrived than the request claims, else the offered
/// methods and the number of bytes they take.
pub open spec fn spec_decode_auth_request(src: Seq<u8>) -> Result<Option<(Seq<Socks5AuthMethod>, nat)>, Socks5CodecError> {
    if src.len() < 2 {
        Ok(None)
    } else if src[0] != SOCKS_V5 {
        Err(Socks5CodecError::InvalidVersion(src[0]))
    } else {
        let n = src[1] as nat;
        if src.len() < 2 + n {
            Ok(None)
        } else {
            Ok(Some((spec_auth_methods(src.subrange(2, 2 + n as int)), n + 2)))
        }
    }
}

/// Decodes a method-selection request at the front of `src`.
pub fn decode_auth_request(src: &[u8]) -> (r: Result<Option<(Socks5AuthCommandContent, usize)>, Socks5CodecError>)
    ensures
        match spec_decode_auth_request(src@) {
            Ok(None) => r matches Ok(None),
            Ok(Some((methods, n))) => r matches Ok(Some((c, m))) && c.spec_methods() == methods && m == n
                && c.spec_version() == SOCKS_V5 && c.spec_method_number() == src@[1],
            Err(e) => r == Err::<Option<(Socks5AuthCommandContent, usize)>, Socks5CodecError>(e),
        },
        r matches Ok(Some((_, m))) ==> m <= src@.len(),
{
    if src.len() < 2 {
        return Ok(None);
    }
    let version = src[0];
    if version != SOCKS_V5 {
        return Err(Socks5CodecError::InvalidVersion(version));
    }
    let n = src[1] as usize;
    if src.len() < 2 + n {
        return Ok(None);
    }
    let mut methods: Vec<Socks5AuthMethod> = Vec::new();
    let mut i: usize = 0;
    while i < n
        invariant
            i <= n,
            n == src@[1],
            2 + n <= src@.len(),
            methods@ =~= spec_auth_methods(src@.subrange(2, 2 + i as int)),
        decreases n - i,
    {
        methods.push(Socks5AuthMethod::from(src[2 + i]));
        i = i + 1;
        assert(methods@ =~= spec_auth_methods(src@.subrange(2, 2 + i as int)));
    }
    Ok(Some((Socks5AuthCommandContent::new(src[1], methods), n + 2)))
}

/// The wire form of a method-selection reply: the version, then the method.
pub open spec fn spec_encode_auth_reply(method: Socks5AuthMethod) -> Seq<u8> {
    seq![SOCKS_V5, spec_auth_method_byte(method)]
}

/// Appends the wire form of a method-selection reply to `dst`.
pub fn encode_auth_reply(item: Socks5AuthCommandResultContent, dst: &mut Vec<u8>)
    ensures
        final(dst)@ == old(dst)@ + spec_encode_auth_reply(item.spec_method()),
{
    dst.push(SOCKS_V5);
    let Socks5AuthCommandResultContentParts { method, .. } = item.split();
    dst.push(u8::from(method));
    assert(final(dst)@ =~= old(dst)@ + spec_encode_auth_reply(item.spec_method()));
}

/// A method-selection request that a client writes (version 5, the number
/// of methods, the method bytes) decodes as the methods those bytes name and
/// takes exactly its own bytes, whatever follows it.
pub proof fn lemma_auth_request_decodes(method_bytes: Seq<u8>, tail: Seq<u8>)
    requires
        method_bytes.len() <= 255,
    ensures
        ({
            let request = seq![SOCKS_V5, method_bytes.len() as u8] + method_bytes + tail;
            &&& spec_decode_auth_request(request) == Ok::<Option<(Seq<Socks5AuthMethod>, nat)>, Socks5CodecError>(
                Some((spec_auth_methods(method_bytes), method_bytes.len() + 2)),
            )
        }),
{
    let request = seq![SOCKS_V5, method_bytes.len() as u8] + method_bytes + tail;
    assert(request.subrange(2, 2 + method_bytes.len() as int) =~= method_bytes);
}

/// A method-selection request that has only partly arrived asks for more
/// bytes.
pub proof fn lemma_auth_request_prefix(method_bytes: Seq<u8>, k: int)
    requires
        method_bytes.len() <= 255,
        0 <= k < method_bytes.len() + 2,
    ensures
        spec_decode_auth_request((seq![SOCKS_V5, method_bytes.len() as u8] + method_bytes).take(k))
            == Ok::<Option<(Seq<Socks5AuthMethod>, nat)>, Socks5CodecError>(None),
{
    let p = (seq![SOCKS_V5, method_bytes.len() as u8] + method_bytes).take(k);
    if k >= 2 {
        assert(p[0] == SOCKS_V5);
        assert(p[1] == method_bytes.len() as u8);
    }
}

/// The methods of a method-selection message with their codes in RFC 1928.
pub open spec fn rfc1928_method_codes() -> Seq<(Socks5AuthMethod, u8)> {
    seq![
        (Socks5AuthMethod::NoAuthenticationRequired, 0u8),
        (Socks5AuthMethod::GssApi, 1u8),
        (Socks5AuthMethod::UsernameAndPassword, 2u8),
        (Socks5AuthMethod::IanaAssigned, 3u8),
        (Socks5AuthMethod::ReservedForPrivateMethods, 8u8),
        (Socks5AuthMethod::NoAcceptableMethods, 16u8),
    ]
}

/// Each method is written as its RFC 1928 code and each of those codes reads
/// as its method; a byte that is none of them reads as "no authentication
/// required". The agent's reply to a method selection is the two bytes
/// `5, 0`.
pub proof fn lemma_auth_method_codes_follow_rfc1928(i: int, v: u8)
    requires
        0 <= i < 6,
    ensures
        spec_auth_method_byte(rfc1928_method_codes()[i].0) == rfc1928_method_codes()[i].1,
        spec_auth_method(rfc1928_method_codes()[i].1) == rfc1928_method_codes()[i].0,
        (forall|j: int| 0 <= j < 6 ==> rfc1928_method_codes()[j].1 != v) ==> spec_auth_method(v)
            == Socks5AuthMethod::NoAuthenticationRequired,
        spec_encode_auth_reply(Socks5AuthMethod::NoAuthenticationRequired) == seq![5u8, 0u8],
{
    if !(v == 0 || v == 1 || v == 2 || v == 3 || v == 8 || v == 16) {
    } else {
        if v == 0 { assert(rfc1928_method_codes()[0].1 == v); }
        if v == 1 { assert(rfc1928_method_codes()[1].1 == v); }
        if v == 2 { assert(rfc1928_method_codes()[2].1 == v); }
        if v == 3 { assert(rfc1928_method_codes()[3].1 == v); }
        if v == 8 { assert(rfc1928_method_codes()[4].1 == v); }
        if v == 16 { assert(rfc1928_method_codes()[5].1 == v); }
    }
}

} // verus!
