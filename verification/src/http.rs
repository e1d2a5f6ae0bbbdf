//! The first HTTP request of a client, decoded from its bytes, and its
//! destination: the target of a `CONNECT` request or the absolute URL of any
//! other request.
use vstd::prelude::*;
use crate::socks5::address::{NetAddress, SpecSocks5Address};
use bytecodec::bytes::{BytesEncoder, RemainingBytesDecoder};
use bytecodec::{Decode, EncodeExt, ErrorKind, Eos};
use httpcodec::{BodyDecoder, BodyEncoder, RequestDecoder, RequestEncoder};

verus! {

/// Scheme of a TLS tunnel.
pub const HTTPS_SCHEMA: &'static str = "https";
/// Default port of `https` URLs.
pub const HTTPS_DEFAULT_PORT: u16 = 443;
/// Default port of every other URL.
pub const HTTP_DEFAULT_PORT: u16 = 80;

/// The parts of a parsed URL that the agent reads.
pub struct UrlParts {
    pub scheme: String,
    pub port: Option<u16>,
    pub host: Option<String>,
}

pub open spec fn spec_option_text(s: Option<String>) -> Option<Seq<char>> {
    match s {
        Some(s) => Some(s@),
        None => None,
    }
}

/// What `url::Url::parse` gives on a text: the scheme, the explicit port and
/// the host as text, or the text of the parse error.
pub uninterp spec fn url_parse(input: Seq<char>) -> Result<(Seq<char>, Option<u16>, Option<Seq<char>>), Seq<char>>;

/// Calls `url::Url::parse`, and on success reads `scheme()`, `port()` and
/// `host()` (rendered with its `Display`) of the result; on failure gives
/// the error's text. The result is only named: the URL grammar is the url
/// crate's.
#[verifier::external_body]
fn parse_url(input: &str) -> (r: Result<UrlParts, String>)
    ensures
        match r {
            Ok(p) => url_parse(input@) == Ok::<(Seq<char>, Option<u16>, Option<Seq<char>>), Seq<char>>(
                (p.scheme@, p.port, spec_option_text(p.host)),
            ),
            Err(e) => url_parse(input@) == Err::<(Seq<char>, Option<u16>, Option<Seq<char>>), Seq<char>>(e@),
        },
{
    match url::Url::parse(input) {
        Ok(u) => Ok(UrlParts {
            scheme: u.scheme().to_string(),
            port: u.port(),
            host: match u.host() {
                Some(h) => Some(h.to_string()),
                None => None,
            },
        }),
        Err(e) => Err(e.to_string()),
    }
}

/// The first HTTP request of a client, as the agent reads it: its method,
/// its request target, the request encoded again to be forwarded (or the
/// text of the encoding error), and the number of bytes it took.
#[derive(Debug)]
pub struct HttpRequestParts {
    pub method: String,
    pub target: String,
    pub encoded: Result<Vec<u8>, String>,
    pub consumed: usize,
}

pub open spec fn spec_encoded(e: Result<Vec<u8>, String>) -> Result<Seq<u8>, Seq<char>> {
    match e {
        Ok(v) => Ok(v@),
        Err(m) => Err(m@),
    }
}

/// What decoding a buffer as one HTTP request with `httpcodec` gives:
/// nothing yet while the request has not fully arrived; else the method,
/// the request target, the request encoded again (or the encoding error's
/// text) and the number of bytes taken; or the text of the decoding error.
pub uninterp spec fn http_request_decode(bytes: Seq<u8>) -> Result<Option<(Seq<char>, Seq<char>, Result<Seq<u8>, Seq<char>>, nat)>, Seq<char>>;

/// Decodes `bytes`, as all that the client has sent so far, with a fresh
/// `httpcodec::RequestDecoder` (body read by `BodyDecoder` over
/// `RemainingBytesDecoder`, end of stream marked); an `UnexpectedEos` error
/// means the request is incomplete. A decoded request is encoded again with
/// `RequestEncoder::encode_into_bytes`. The contract names the result and
/// says only that a request takes no more bytes than were given, as
/// `decode` returns how many of the given bytes it read.
#[verifier::external_body]
pub(crate) fn decode_http_request(bytes: &[u8]) -> (r: Result<Option<HttpRequestParts>, String>)
    ensures
        match r {
            Ok(None) => http_request_decode(bytes@) == Ok::<Option<(Seq<char>, Seq<char>, Result<Seq<u8>, Seq<char>>, nat)>, Seq<char>>(None),
            Ok(Some(p)) => http_request_decode(bytes@) == Ok::<Option<(Seq<char>, Seq<char>, Result<Seq<u8>, Seq<char>>, nat)>, Seq<char>>(
                Some((p.method@, p.target@, spec_encoded(p.encoded), p.consumed as nat)),
            ) && p.consumed <= bytes@.len(),
            Err(e) => http_request_decode(bytes@) == Err::<Option<(Seq<char>, Seq<char>, Result<Seq<u8>, Seq<char>>, nat)>, Seq<char>>(e@),
        },
{
    let mut decoder = RequestDecoder::<BodyDecoder<RemainingBytesDecoder>>::default();
    let consumed = match decoder.decode(bytes, Eos::new(true)) {
        Ok(n) => n,
        Err(e) if *e.kind() == ErrorKind::UnexpectedEos => return Ok(None),
        Err(e) => return Err(format!("{e}")),
    };
    let request = decoder.finish_decoding().map_err(|e| format!("{e}"))?;
    let (method, target) = (request.method().to_string(), request.request_target().to_string());
    let encoded = RequestEncoder::<BodyEncoder<BytesEncoder>>::default().encode_into_bytes(request).map_err(|e| format!("{e}"));
    Ok(Some(HttpRequestParts { method, target, encoded, consumed }))
}

pub open spec fn ascii_lower(c: char) -> char {
    if 'A' <= c && c <= 'Z' {
        ((c as u32) + 32) as char
    } else {
        c
    }
}

pub open spec fn connect_text() -> Seq<char> {
    seq!['c', 'o', 'n', 'n', 'e', 'c', 't']
}

/// Whether an HTTP method is `CONNECT`, in any letter case.
pub open spec fn is_connect_method(m: Seq<char>) -> bool {
    m.len() == 7 && forall|i: int| 0 <= i < 7 ==> #[trigger] ascii_lower(m[i]) == connect_text()[i]
}

pub open spec fn https_prefix() -> Seq<char> {
    seq!['h', 't', 't', 'p', 's', ':', '/', '/']
}

/// The URL that names the destination: `https://` before the target of a
/// `CONNECT` request, the target itself otherwise.
pub open spec fn spec_request_url(method: Seq<char>, target: Seq<char>) -> Seq<char> {
    if is_connect_method(method) {
        https_prefix() + target
    } else {
        target
    }
}

pub open spec fn https_text() -> Seq<char> {
    seq!['h', 't', 't', 'p', 's']
}

/// The port of a URL: the explicit one, else 443 for `https` and 80 for any
/// other scheme.
pub open spec fn spec_target_port(scheme: Seq<char>, port: Option<u16>) -> u16 {
    match port {
        Some(p) => p,
        None => if scheme == https_text() {
            HTTPS_DEFAULT_PORT
        } else {
            HTTP_DEFAULT_PORT
        },
    }
}

/// Why the destination of an HTTP request is not known.
#[derive(Debug)]
pub enum HttpTargetError {
    /// The URL does not parse; the text says why.
    InvalidUrl(String),
    /// The URL has no host.
    NoHost,
}

/// The destination of a request, as a domain address, when the URL parses
/// and has a host.
pub open spec fn spec_http_destination(method: Seq<char>, target: Seq<char>) -> Option<SpecSocks5Address> {
    match url_parse(spec_request_url(method, target)) {
        Ok((scheme, port, Some(host))) => Some(SpecSocks5Address::Domain(host, spec_target_port(scheme, port))),
        _ => None,
    }
}

fn ascii_lower_char(c: char) -> (r: char)
    ensures
        r == ascii_lower(c),
{
    if 'A' <= c && c <= 'Z' {
        ((c as u32) + 32) as u8 as char
    } else {
        c
    }
}

/// Whether `method` is `CONNECT`, in any letter case.
pub fn is_connect(method: &str) -> (r: bool)
    ensures
        r == is_connect_method(method@),
{
    if method.unicode_len() != 7 {
        return false;
    }
    let expected = "connect";
    proof {
        reveal_strlit("connect");
    }
    let mut i: usize = 0;
    while i < 7
        invariant
            i <= 7,
            method@.len() == 7,
            expected@ == connect_text(),
            forall|j: int| 0 <= j < i ==> #[trigger] ascii_lower(method@[j]) == connect_text()[j],
        decreases 7 - i,
    {
        if ascii_lower_char(method.get_char(i)) != expected.get_char(i) {
            return false;
        }
        i = i + 1;
    }
    true
}

fn https_url(target: &str) -> (r: String)
    ensures
        r@ == https_prefix() + target@,
{
    let prefix = String::from_str("https://");
    proof {
        reveal_strlit("https://");
    }
    let r = prefix.concat(target);
    assert(r@ =~= https_prefix() + target@);
    r
}

fn is_https(scheme: &String) -> (r: bool)
    ensures
        r == (scheme@ == https_text()),
{
    let https = String::from_str(HTTPS_SCHEMA);
    proof {
        reveal_strlit("https");
        assert(https@ =~= https_text());
    }
    *scheme == https
}

/// The destination that a URL names: its host, and its port or the scheme's
/// default; an error if the URL does not parse or has no host.
pub fn destination_from_url(url: &str) -> (r: Result<NetAddress, HttpTargetError>)
    ensures
        match url_parse(url@) {
            Err(e) => r matches Err(HttpTargetError::InvalidUrl(m)) && m@ == e,
            Ok((_, _, None)) => r matches Err(HttpTargetError::NoHost),
            Ok((scheme, port, Some(host))) => r matches Ok(a) && a@ == SpecSocks5Address::Domain(
                host,
                spec_target_port(scheme, port),
            ),
        },
{
    let parts = match parse_url(url) {
        Ok(p) => p,
        Err(e) => return Err(HttpTargetError::InvalidUrl(e)),
    };
    let port = match parts.port {
        Some(p) => p,
        None => if is_https(&parts.scheme) {
            HTTPS_DEFAULT_PORT
        } else {
            HTTP_DEFAULT_PORT
        },
    };
    match parts.host {
        None => Err(HttpTargetError::NoHost),
        Some(host) => Ok(NetAddress::Domain { host, port }),
    }
}

/// The destination of an HTTP proxy request with method `method` and request
/// target `target`: the URL's host, and its port or the scheme's default.
pub fn resolve_http_destination(method: &str, target: &str) -> (r: Result<NetAddress, HttpTargetError>)
    ensures
        match url_parse(spec_request_url(method@, target@)) {
            Err(e) => r matches Err(HttpTargetError::InvalidUrl(m)) && m@ == e,
            Ok((_, _, None)) => r matches Err(HttpTargetError::NoHost),
            Ok((scheme, port, Some(host))) => r matches Ok(a) && a@ == SpecSocks5Address::Domain(
                host,
                spec_target_port(scheme, port),
            ),
        },
{
    let url = if is_connect(method) {
        https_url(target)
    } else {
        String::from_str(target)
    };
    destination_from_url(url.as_str())
}

/// A method is taken as `CONNECT` exactly when it is the seven letters of
/// `connect`, each in lower or upper case; any other method, of seven letters
/// or not, is forwarded as it is.
pub proof fn lemma_connect_method_is_connect_in_any_case(m: Seq<char>)
    ensures
        is_connect_method(m) <==> (m.len() == 7 && forall|i: int|
            0 <= i < 7 ==> (m[i] == seq!['c', 'o', 'n', 'n', 'e', 'c', 't'][i] || m[i] == seq![
                'C',
                'O',
                'N',
                'N',
                'E',
                'C',
                'T',
            ][i])),
{
    let lower = seq!['c', 'o', 'n', 'n', 'e', 'c', 't'];
    let upper = seq!['C', 'O', 'N', 'N', 'E', 'C', 'T'];
    assert(connect_text() == lower);
    if m.len() == 7 {
        assert forall|i: int| 0 <= i < 7 implies (ascii_lower(m[i]) == lower[i] <==> (m[i] == lower[i]
            || m[i] == upper[i])) by {
            lemma_ascii_lower_to(m[i], lower[i], upper[i]);
        }
    }
}

proof fn lemma_ascii_lower_to(c: char, lo: char, up: char)
    requires
        'a' <= lo <= 'z',
        up as u32 + 32 == lo as u32,
    ensures
        ascii_lower(c) == lo <==> (c == lo || c == up),
{
    if 'A' <= c && c <= 'Z' {
        assert(((c as u32) + 32) as char as u32 == (c as u32) + 32);
    }
}

/// Where a URL names no port, the destination port is 443 exactly for the
/// scheme `https` and 80 for every other scheme; an explicit port is kept.
/// A `CONNECT` target is read as `https://` followed by the target, any
/// other target as it stands.
pub proof fn lemma_default_ports(scheme: Seq<char>, port: u16, method: Seq<char>, target: Seq<char>)
    ensures
        spec_target_port(scheme, Some(port)) == port,
        spec_target_port(scheme, None) == 443 <==> scheme == seq!['h', 't', 't', 'p', 's'],
        spec_target_port(scheme, None) == 443 || spec_target_port(scheme, None) == 80,
        is_connect_method(method) ==> spec_request_url(method, target) == seq!['h', 't', 't', 'p', 's', ':', '/', '/']
            + target,
        !is_connect_method(method) ==> spec_request_url(method, target) == target,
{
}

} // verus!
