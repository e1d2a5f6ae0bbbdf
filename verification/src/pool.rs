//! The proxy addresses that the connection pool uses.
use vstd::prelude::*;
use crate::socks5::socket::SocketAddress;

verus! {

/// The addresses among `parsed` that parsed, in their order.
pub open spec fn parsed_addresses(parsed: Seq<Option<SocketAddress>>) -> Seq<SocketAddress>
    decreases parsed.len(),
{
    if parsed.len() == 0 {
        Seq::empty()
    } else {
        let rest = parsed_addresses(parsed.drop_last());
        match parsed.last() {
            Some(a) => rest.push(a),
            None => rest,
        }
    }
}

/// The proxy addresses the pool connects to: those of the configured
/// addresses that parsed, in the configured order; `None` where none did,
/// since the pool then has no proxy to use.
pub fn usable_proxy_addresses(parsed: Vec<Option<SocketAddress>>) -> (r: Option<Vec<SocketAddress>>)
    ensures
        match r {
            Some(v) => v@ == parsed_addresses(parsed@) && v@.len() > 0,
            None => parsed_addresses(parsed@).len() == 0,
        },
{
    let mut out: Vec<SocketAddress> = Vec::new();
    let mut i: usize = 0;
    while i < parsed.len()
        invariant
            i <= parsed@.len(),
            out@ == parsed_addresses(parsed@.take(i as int)),
        decreases parsed@.len() - i,
    {
        assert(parsed@.take(i + 1).drop_last() =~= parsed@.take(i as int));
        match parsed[i] {
            Some(a) => out.push(a),
            None => {},
        }
        i = i + 1;
    }
    assert(parsed@.take(parsed@.len() as int) =~= parsed@);
    if out.len() == 0 {
        None
    } else {
        Some(out)
    }
}

/// No configured address is lost or invented: an address is kept exactly
/// when it parsed, each parsed address is kept after those configured before
/// it, and nothing more is kept than was configured.
pub proof fn lemma_parsed_addresses_keep_every_parsed(s: Seq<Option<SocketAddress>>, a: SocketAddress)
    ensures
        parsed_addresses(Seq::empty()) == Seq::<SocketAddress>::empty(),
        parsed_addresses(s.push(Some(a))) == parsed_addresses(s).push(a),
        parsed_addresses(s.push(None)) == parsed_addresses(s),
        forall|x: SocketAddress| parsed_addresses(s).contains(x) <==> s.contains(Some(x)),
        parsed_addresses(s).len() <= s.len(),
    decreases s.len(),
{
    assert(s.push(Some(a)).drop_last() =~= s);
    assert(s.push(None::<SocketAddress>).drop_last() =~= s);
    if s.len() > 0 {
        let t = s.drop_last();
        lemma_parsed_addresses_keep_every_parsed(t, a);
        assert(t.push(s.last()) =~= s);
        let rest = parsed_addresses(t);
        assert forall|x: SocketAddress| parsed_addresses(s).contains(x) <==> s.contains(Some(x)) by {
            if s.contains(Some(x)) {
                let k = choose|k: int| 0 <= k < s.len() && s[k] == Some(x);
                if k < t.len() {
                    assert(t[k] == Some(x));
                    assert(t.contains(Some(x)));
                    assert(rest.contains(x));
                    let j = choose|j: int| 0 <= j < rest.len() && rest[j] == x;
                    match s.last() {
                        Some(y) => assert(rest.push(y)[j] == x),
                        None => {},
                    }
                } else {
                    assert(s.last() == Some(x));
                    assert(rest.push(x)[rest.len() as int] == x);
                }
            }
            if parsed_addresses(s).contains(x) {
                let k = choose|k: int| 0 <= k < parsed_addresses(s).len() && parsed_addresses(s)[k] == x;
                if k < rest.len() {
                    match s.last() {
                        Some(y) => assert(rest[k] == rest.push(y)[k]),
                        None => {},
                    }
                    assert(rest.contains(x));
                    assert(t.contains(Some(x)));
                    let j = choose|j: int| 0 <= j < t.len() && t[j] == Some(x);
                    assert(s[j] == Some(x));
                } else {
                    assert(s.last() == Some(x));
                    assert(s[s.len() - 1] == Some(x));
                }
            }
        }
    } else {
        assert forall|x: SocketAddress| parsed_addresses(s).contains(x) <==> s.contains(Some(x)) by {
            assert(parsed_addresses(s) =~= Seq::<SocketAddress>::empty());
            if s.contains(Some(x)) {
                let k = choose|k: int| 0 <= k < s.len() && s[k] == Some(x);
            }
        }
    }
}

} // verus!
