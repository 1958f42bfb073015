//! Where a tunnel goes: splitting a `host:port` target into the host and the port, with
//! 443 standing in for a port that is missing or does not read as a number.

use vstd::prelude::*;
use crate::numbers::{decimal, decimal_string, lemma_decimal_digits, lemma_parse_decimal_port, parse_port, parse_u16};
use crate::text::{chars_of, substring};

verus! {

/// The port used when a target names none, or names one that is not a number.
pub const DEFAULT_PORT: u16 = 443;

/// The index of the last `:` in `s[..end]`, or -1 when there is none.
pub open spec fn last_colon(s: Seq<char>, end: int) -> int
    decreases end,
{
    if end <= 0 {
        -1
    } else if s[end - 1] == ':' {
        end - 1
    } else {
        last_colon(s, end - 1)
    }
}

/// The host and the port of a target: split at the last `:`; the part after it is read as
/// `u16::from_str` reads it, and 443 is used when that fails or when there is no `:`.
pub open spec fn target_parts(target: Seq<char>) -> (Seq<char>, u16) {
    let pos = last_colon(target, target.len() as int);
    if pos >= 0 {
        (
            target.take(pos),
            match parse_u16(target.skip(pos + 1)) {
                Some(p) => p,
                None => DEFAULT_PORT,
            },
        )
    } else {
        (target, DEFAULT_PORT)
    }
}

/// `host:port`, the port written in decimal.
pub open spec fn host_port(host: Seq<char>, port: u16) -> Seq<char> {
    host + seq![':'] + decimal(port as nat)
}

/// Splits a target into its host and its port.
pub fn split_target(target: &str) -> (r: (String, u16))
    ensures
        r.0@ == target_parts(target@).0,
        r.1 == target_parts(target@).1,
{
    let s = chars_of(target);
    let len = s.len();
    let mut i = len;
    while i > 0
        invariant
            i <= len == s@.len(),
            s@ == target@,
            last_colon(s@, len as int) == last_colon(s@, i as int),
        decreases i,
    {
        if s[i - 1] == ':' {
            let host = substring(&s, 0, i - 1);
            assert(host@ =~= s@.take(i - 1));
            let port = match parse_port(&s, i) {
                Some(p) => p,
                None => DEFAULT_PORT,
            };
            return (host, port);
        }
        i = i - 1;
    }
    (target.to_owned(), DEFAULT_PORT)
}

/// The address that a tunnel to `target` connects to: its host and its port, joined by
/// a colon, the port in decimal.
pub fn connect_address(target: &str) -> (r: String)
    ensures
        r@ == host_port(target_parts(target@).0, target_parts(target@).1),
{
    let (host, port) = split_target(target);
    join_host_port(&host, port)
}

/// `host:port`, the port written in decimal.
pub fn join_host_port(host: &str, port: u16) -> (r: String)
    ensures
        r@ == host_port(host@, port),
{
    let mut out = host.to_owned();
    out.append(":");
    proof {
        reveal_strlit(":");
    }
    let digits = decimal_string(port as u64);
    out.append(digits.as_str());
    assert(out@ =~= host_port(host@, port));
    out
}

/// A target written as `host:port` splits back into that host and that port, whatever
/// the host holds (colons included).
pub proof fn lemma_target_parts_of_host_port(host: Seq<char>, port: u16)
    ensures
        target_parts(host_port(host, port)) == (host, port),
{
    let t = host_port(host, port);
    let d = decimal(port as nat);
    lemma_decimal_digits(port as nat);
    lemma_parse_decimal_port(port);
    let pos = host.len() as int;
    assert(t[pos] == ':');
    assert forall|j: int| pos < j < t.len() implies t[j] != ':' by {
        assert(t[j] == d[j - pos - 1]);
    }
    lemma_last_colon_from(t, t.len() as int, pos);
    assert(t.take(pos) =~= host);
    assert(t.skip(pos + 1) =~= d);
}

proof fn lemma_last_colon_from(s: Seq<char>, end: int, pos: int)
    requires
        0 <= pos < end <= s.len(),
        s[pos] == ':',
        forall|j: int| pos < j < s.len() ==> s[j] != ':',
    ensures
        last_colon(s, end) == pos,
    decreases end,
{
    if end - 1 != pos {
        lemma_last_colon_from(s, end - 1, pos);
    }
}

/// Traffic goes where the client asks: a target written `host:port`, the port in
/// decimal, is connected to at exactly that address.
pub proof fn lemma_connects_where_asked(host: Seq<char>, port: u16)
    ensures
        host_port(target_parts(host_port(host, port)).0, target_parts(host_port(host, port)).1)
            == host_port(host, port),
{
    lemma_target_parts_of_host_port(host, port);
}

} // verus!
