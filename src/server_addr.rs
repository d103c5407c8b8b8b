use vstd::prelude::*;
use crate::addr::SockAddr;
use crate::seqs::{last_index_of, lemma_last_index_prefix};
use crate::text::{chars_of, string_of};

verus! {

/// Port used when the configured server address names none.
pub const DEFAULT_SERVER_PORT: u16 = 3515;

pub open spec fn is_digit(c: char) -> bool {
    '0' <= c && c <= '9'
}

pub open spec fn all_digits(s: Seq<char>) -> bool {
    forall|i: int| 0 <= i < s.len() ==> is_digit(#[trigger] s[i])
}

/// The number that a string of decimal digits denotes.
pub open spec fn digits_value(s: Seq<char>) -> nat
    decreases s.len(),
{
    if s.len() == 0 {
        0
    } else {
        digits_value(s.drop_last()) * 10 + ((s.last() as u32 - '0' as u32) as nat)
    }
}

/// A port number in decimal: an optional `+`, then at least one digit, with a
/// value of at most 65535 (leading zeros allowed).
pub open spec fn spec_parse_port(s: Seq<char>) -> Option<u16> {
    let d = if s.len() > 0 && s[0] == '+' { s.drop_first() } else { s };
    if d.len() > 0 && all_digits(d) && digits_value(d) <= 65535 {
        Some(digits_value(d) as u16)
    } else {
        None
    }
}

/// Host and port of a `host[:port]` address: everything after the last `:` is
/// the port, which must parse; without `:` the port is the default one.
pub open spec fn spec_host_port(s: Seq<char>) -> Option<(Seq<char>, u16)> {
    match last_index_of(s, ':') {
        None => Some((s, DEFAULT_SERVER_PORT)),
        Some(p) => match spec_parse_port(s.subrange(p + 1, s.len() as int)) {
            Some(port) => Some((s.subrange(0, p), port)),
            None => None,
        },
    }
}

/// The host part of a configured server address: what precedes the last `:`,
/// or the whole text when there is none. This is also the TLS server name
/// presented with pinned roots (an IP-literal host works with IP-SAN certificates).
pub open spec fn spec_domain_or_ip(s: Seq<char>) -> Seq<char> {
    match last_index_of(s, ':') {
        None => s,
        Some(p) => s.subrange(0, p),
    }
}

/// A server address without `:` is all host, with the default port 3515.
pub proof fn host_port_without_port(s: Seq<char>)
    requires
        forall|i: int| 0 <= i < s.len() ==> s[i] != ':',
    ensures
        spec_host_port(s) == Some((s, DEFAULT_SERVER_PORT)),
{
    lemma_last_index_prefix(s, ':', 0);
}

/// In `host:port` with a port of decimal digits, the port is the one written.
pub proof fn host_port_with_port(host: Seq<char>, digits: Seq<char>)
    requires
        digits.len() > 0,
        all_digits(digits),
        digits_value(digits) <= 65535,
    ensures
        spec_host_port(host + seq![':'] + digits) == Some((host, digits_value(digits) as u16)),
{
    let s = host + seq![':'] + digits;
    let k = host.len() as int + 1;
    assert forall|i: int| k <= i < s.len() implies s[i] != ':' by {
        assert(s[i] == digits[i - k]);
        assert(is_digit(digits[i - k]));
    }
    lemma_last_index_prefix(s, ':', k);
    assert(s.subrange(0, k).last() == ':');
    assert(s.subrange(0, k - 1) =~= host);
    assert(s.subrange(k, s.len() as int) =~= digits);
    assert(is_digit(digits[0]));
}

/// Position of the last `c` in `s`.
fn rfind(s: &Vec<char>, c: char) -> (r: Option<usize>)
    ensures
        r matches Some(p) ==> p < s@.len() && last_index_of(s@, c) == Some(p as int),
        r is None ==> last_index_of(s@, c) is None,
{
    let mut k = s.len();
    while k > 0
        invariant
            k <= s@.len(),
            forall|i: int| k <= i < s@.len() ==> s@[i] != c,
        decreases k,
    {
        if s[k - 1] == c {
            proof {
                lemma_last_index_prefix(s@, c, k as int);
                assert(s@.subrange(0, k as int).drop_last() =~= s@.subrange(0, k - 1));
            }
            return Some(k - 1);
        }
        k = k - 1;
    }
    proof {
        lemma_last_index_prefix(s@, c, 0);
    }
    None
}

proof fn lemma_digits_grow(d: Seq<char>, i: int)
    requires
        0 <= i <= d.len(),
        all_digits(d),
    ensures
        digits_value(d.subrange(0, i)) <= digits_value(d),
    decreases d.len() - i,
{
    if i < d.len() {
        let t = d.subrange(0, i + 1);
        assert(t.drop_last() =~= d.subrange(0, i));
        lemma_digits_grow(d, i + 1);
    } else {
        assert(d.subrange(0, i) =~= d);
    }
}

/// Parses `s[from..to]` as a port number.
pub fn parse_port(s: &Vec<char>, from: usize, to: usize) -> (r: Option<u16>)
    requires
        from <= to <= s@.len(),
    ensures
        r == spec_parse_port(s@.subrange(from as int, to as int)),
{
    let ghost all = s@.subrange(from as int, to as int);
    let mut start = from;
    if from < to && s[from] == '+' {
        start = from + 1;
    }
    let ghost d = s@.subrange(start as int, to as int);
    assert(d =~= (if all.len() > 0 && all[0] == '+' { all.drop_first() } else { all }));
    if start == to {
        return None;
    }
    let mut v: u32 = 0;
    let mut i = start;
    while i < to
        invariant
            from <= start <= i <= to <= s@.len(),
            d == s@.subrange(start as int, to as int),
            all == s@.subrange(from as int, to as int),
            d == (if all.len() > 0 && all[0] == '+' { all.drop_first() } else { all }),
            all_digits(s@.subrange(start as int, i as int)),
            v as nat == digits_value(s@.subrange(start as int, i as int)),
            v <= 65535,
        decreases to - i,
    {
        let c = s[i];
        let ghost prev = s@.subrange(start as int, i as int);
        let ghost next = s@.subrange(start as int, i + 1);
        assert(next.drop_last() =~= prev);
        if !('0' <= c && c <= '9') {
            assert(d[i - start] == c);
            assert(!all_digits(d));
            return None;
        }
        assert(all_digits(next)) by {
            assert forall|j: int| 0 <= j < next.len() implies is_digit(#[trigger] next[j]) by {
                if j < prev.len() {
                    assert(next[j] == prev[j]);
                }
            }
        }
        v = v * 10 + (c as u32 - '0' as u32);
        assert(next.last() == c);
        assert(v as nat == digits_value(next));
        if v > 65535 {
            proof {
                if all_digits(d) {
                    assert(d.subrange(0, i + 1 - start) =~= next);
                    lemma_digits_grow(d, i + 1 - start);
                }
            }
            return None;
        }
        i = i + 1;
    }
    assert(s@.subrange(start as int, i as int) =~= d);
    Some(v as u16)
}

/// Why a server address could not be used.
#[derive(Clone, Copy, Debug, PartialEq, Eq, Structural)]
pub enum AddrError {
    /// The text after the last `:` is not a port number.
    InvalidPort,
}

/// Splits `host[:port]`, with the default port when none is written.
pub fn split_host_port(addr: &str) -> (r: Result<(String, u16), AddrError>)
    ensures
        match spec_host_port(addr@) {
            Some((host, port)) => r matches Ok((h, p)) && h@ == host && p == port,
            None => r == Err::<(String, u16), AddrError>(AddrError::InvalidPort),
        },
{
    let cs = chars_of(addr);
    match rfind(&cs, ':') {
        None => {
            let host = string_of(&cs, 0, cs.len());
            assert(cs@.subrange(0, cs@.len() as int) =~= cs@);
            Ok((host, DEFAULT_SERVER_PORT))
        },
        Some(p) => match parse_port(&cs, p + 1, cs.len()) {
            Some(port) => Ok((string_of(&cs, 0, p), port)),
            None => Err(AddrError::InvalidPort),
        },
    }
}

/// The host part of a configured server address (see `spec_domain_or_ip`).
pub fn extract_domain_or_ip(addr: &str) -> (r: String)
    ensures
        r@ == spec_domain_or_ip(addr@),
{
    let cs = chars_of(addr);
    match rfind(&cs, ':') {
        None => {
            assert(cs@.subrange(0, cs@.len() as int) =~= cs@);
            string_of(&cs, 0, cs.len())
        },
        Some(p) => string_of(&cs, 0, p),
    }
}

/// Where to connect: a literal socket address, or a host to look up with the
/// port to use.
#[derive(Debug)]
pub enum ServerTarget {
    Literal(SockAddr),
    Lookup { host: String, port: u16 },
}

/// Decides how to reach the configured server. `literal` is the address that
/// the text denotes when it parses as a socket address.
pub fn server_target(addr: &str, literal: Option<SockAddr>) -> (r: Result<ServerTarget, AddrError>)
    ensures
        literal matches Some(a) ==> r matches Ok(ServerTarget::Literal(b)) && a == b,
        literal is None ==> match spec_host_port(addr@) {
            Some((host, port)) => r matches Ok(ServerTarget::Lookup { host: h, port: p })
                && h@ == host && p == port,
            None => r matches Err(AddrError::InvalidPort),
        },
{
    match literal {
        Some(a) => Ok(ServerTarget::Literal(a)),
        None => match split_host_port(addr) {
            Ok((host, port)) => Ok(ServerTarget::Lookup { host, port }),
            Err(e) => Err(e),
        },
    }
}

/// One rung of the resolution ladder: a DNS-over-TLS server by index, the
/// configured plain name servers, or the system resolver.
#[derive(Clone, Copy, Debug, PartialEq, Eq, Structural)]
pub enum LookupStep {
    Dot(usize),
    NameServers,
    System,
}

/// The rung that follows a failed DoT lookup at `i`, or the ones below it.
pub open spec fn spec_after_dot(i: int, n_dot: int, has_name_servers: bool) -> LookupStep {
    if i + 1 < n_dot {
        LookupStep::Dot((i + 1) as usize)
    } else if has_name_servers {
        LookupStep::NameServers
    } else {
        LookupStep::System
    }
}

/// The first rung tried: the first DoT server, else the name servers, else
/// the system resolver.
pub fn first_lookup_step(n_dot: usize, has_name_servers: bool) -> (r: LookupStep)
    ensures
        r == spec_after_dot(-1, n_dot as int, has_name_servers),
{
    if n_dot > 0 {
        LookupStep::Dot(0)
    } else if has_name_servers {
        LookupStep::NameServers
    } else {
        LookupStep::System
    }
}

/// The rung to try after `step` failed; `None` once the system resolver has
/// failed too, which makes resolution fail.
pub fn next_lookup_step(step: LookupStep, n_dot: usize, has_name_servers: bool) -> (r: Option<
    LookupStep,
>)
    ensures
        match step {
            LookupStep::Dot(i) => r == Some(spec_after_dot(i as int, n_dot as int, has_name_servers)),
            LookupStep::NameServers => r == Some(LookupStep::System),
            LookupStep::System => r is None,
        },
{
    match step {
        LookupStep::Dot(i) => {
            if i < n_dot && i + 1 < n_dot {
                Some(LookupStep::Dot(i + 1))
            } else if has_name_servers {
                Some(LookupStep::NameServers)
            } else {
                Some(LookupStep::System)
            }
        },
        LookupStep::NameServers => Some(LookupStep::System),
        LookupStep::System => None,
    }
}

} // verus!
