//! The HTTP side of the proxy: reading headers out of the first packet of a client,
//! and the request line of a `CONNECT`.

use vstd::prelude::*;
use crate::text::{
    chars_of, crlf_at, lemma_line_end_at, eq_ignore_ascii_case, find_line_end, find_non_space, find_space, first_line,
    has_prefix_at, lemma_line_end_bounds, lemma_skip_space_bounds, lemma_word_end_bounds, line_end,
    opt_chars, range_eq_ignore_ascii_case, skip_space, starts_with, str_eq,
    substring, word_end,
};
use crate::outside::{decode_utf8_lossy, utf8_lossy};
use crate::numbers::decimal;
use crate::target::{host_port, lemma_target_parts_of_host_port, split_target, target_parts};

verus! {

/// The text that opens a header line for `name`: the name, a colon and a space.
pub open spec fn header_prefix(name: Seq<char>) -> Seq<char> {
    name + seq![':', ' ']
}

/// The value of the first line, at or after the line that starts at `from`, that begins
/// with `prefix`; `None` when no such line follows.
pub open spec fn header_from(s: Seq<char>, prefix: Seq<char>, from: int) -> Option<Seq<char>>
    decreases s.len() - from,
{
    if 0 <= from <= s.len() {
        let end = line_end(s, from);
        let line = s.subrange(from, end);
        if starts_with(line, prefix) {
            Some(line.skip(prefix.len() as int))
        } else if end >= s.len() {
            None
        } else {
            proof {
                lemma_line_end_bounds(s, from);
            }
            header_from(s, prefix, end + 2)
        }
    } else {
        None
    }
}

/// The value of header `name` in `headers`: the rest of the first line that begins with
/// `name: ` (the name compared case-sensitively).
pub open spec fn header_value(headers: Seq<char>, name: Seq<char>) -> Option<Seq<char>> {
    header_from(headers, header_prefix(name), 0)
}

/// Return the value of an HTTP header line (case-sensitive name match).
pub fn find_header(headers: &str, name: &str) -> (r: Option<String>)
    ensures
        opt_chars(r) == header_value(headers@, name@),
{
    let s = chars_of(headers);
    let mut prefix = chars_of(name);
    prefix.push(':');
    prefix.push(' ');
    assert(prefix@ =~= header_prefix(name@));
    let len = s.len();
    let mut from: usize = 0;
    loop
        invariant
            len == s@.len(),
            from <= len,
            prefix@ == header_prefix(name@),
            header_value(headers@, name@) == header_from(s@, prefix@, from as int),
        decreases len - from,
    {
        let end = find_line_end(&s, from);
        proof {
            lemma_line_end_bounds(s@, from as int);
        }
        if has_prefix_at(&s, from, end, &prefix) {
            let v = substring(&s, from + prefix.len(), end);
            assert(v@ =~= s@.subrange(from as int, end as int).skip(prefix@.len() as int));
            return Some(v);
        }
        if end >= len {
            return None;
        }
        from = end + 2;
    }
}

/// The method word of a tunnel request.
pub open spec fn connect_method() -> Seq<char> {
    seq!['C', 'O', 'N', 'N', 'E', 'C', 'T']
}

/// The target of a `CONNECT host:port HTTP/1.1` request line: the first line of
/// `headers` is split at white space; when its first word is `CONNECT` (ASCII letters
/// in any case) the second word, if there is one, is the target.
pub open spec fn connect_host(headers: Seq<char>) -> Option<Seq<char>> {
    let line = first_line(headers);
    let m0 = skip_space(line, 0);
    let m1 = word_end(line, m0);
    let t0 = skip_space(line, m1);
    if m0 >= line.len() {
        None
    } else if !eq_ignore_ascii_case(line.subrange(m0, m1), connect_method()) {
        None
    } else if t0 >= line.len() {
        None
    } else {
        Some(line.subrange(t0, word_end(line, t0)))
    }
}

/// Extract the host:port from a `CONNECT host:port HTTP/1.1` request line.
pub fn extract_connect_host(headers: &str) -> (r: Option<String>)
    ensures
        opt_chars(r) == connect_host(headers@),
{
    let s = chars_of(headers);
    let end = find_line_end(&s, 0);
    proof {
        lemma_line_end_bounds(s@, 0);
    }
    let ghost line = s@.subrange(0, end as int);
    assert(line == first_line(headers@));
    let m0 = find_non_space(&s, 0, end);
    proof {
        lemma_skip_space_bounds(line, 0);
    }
    if m0 >= end {
        return None;
    }
    let m1 = find_space(&s, m0, end);
    proof {
        lemma_word_end_bounds(line, m0 as int);
    }
    let method: Vec<char> = vec!['C', 'O', 'N', 'N', 'E', 'C', 'T'];
    assert(method@ =~= connect_method());
    assert(s@.subrange(m0 as int, m1 as int) =~= line.subrange(m0 as int, m1 as int));
    if !range_eq_ignore_ascii_case(&s, m0, m1, &method) {
        return None;
    }
    let t0 = find_non_space(&s, m1, end);
    proof {
        lemma_skip_space_bounds(line, m1 as int);
    }
    if t0 >= end {
        return None;
    }
    let t1 = find_space(&s, t0, end);
    proof {
        lemma_word_end_bounds(line, t0 as int);
    }
    let host = substring(&s, t0, t1);
    assert(host@ =~= line.subrange(t0 as int, t1 as int));
    Some(host)
}

/// Where a request that names no target is tunnelled: the local SSH service, which the
/// proxy fronts as a WebSocket endpoint.
pub const DEFAULT_TARGET: &'static str = "127.0.0.1:111";

/// What the proxy does with an HTTP client.
#[derive(PartialEq, Eq, Structural, Clone, Copy, Debug)]
pub enum Verdict {
    /// Connect to the target and open the tunnel.
    Tunnel,
    /// Answer `407 Proxy Auth Required`: the password is set and was not presented.
    AuthRequired,
    /// Answer `403 Forbidden`: no password is set and the target is not local.
    Forbidden,
}

/// The plan for an HTTP client, made from the text of its first packet.
pub struct HttpPlan {
    /// The `host:port` to tunnel to.
    pub target: String,
    /// Whether one more packet is read from the client and dropped before anything else.
    pub swallow_extra: bool,
    pub verdict: Verdict,
}

/// The target that a request asks for: a non-empty `X-Real-Host` header, else the target
/// of a `CONNECT` request line, else [`DEFAULT_TARGET`], the local SSH service.
pub open spec fn requested_target(headers: Seq<char>) -> Seq<char> {
    let from_header = header_value(headers, "X-Real-Host"@);
    if from_header is Some && from_header->0.len() > 0 {
        from_header->0
    } else {
        match connect_host(headers) {
            Some(t) => t,
            None => DEFAULT_TARGET@,
        }
    }
}

/// Whether the request carries a non-empty `X-Split` header.
pub open spec fn wants_split(headers: Seq<char>) -> bool {
    let v = header_value(headers, "X-Split"@);
    v is Some && v->0.len() > 0
}

/// The target is on this machine: its host (what precedes its last `:`, or all of it when
/// it has none) is `127.0.0.1` or `localhost`.
pub open spec fn is_local_target(target: Seq<char>) -> bool {
    let host = target_parts(target).0;
    host == "127.0.0.1"@ || host == "localhost"@
}

/// The password that a request presents: its `X-Pass` header, or nothing.
pub open spec fn presented_pass(headers: Seq<char>) -> Seq<char> {
    match header_value(headers, "X-Pass"@) {
        Some(v) => v,
        None => Seq::empty(),
    }
}

/// The access rule of the proxy, for both protocols. With a password set, a client is
/// tunnelled exactly when it presents that password; without one, exactly when its target
/// is local.
pub open spec fn access_verdict(presented: Seq<char>, pass: Seq<char>, target: Seq<char>) -> Verdict {
    if pass.len() > 0 {
        if presented == pass {
            Verdict::Tunnel
        } else {
            Verdict::AuthRequired
        }
    } else if is_local_target(target) {
        Verdict::Tunnel
    } else {
        Verdict::Forbidden
    }
}

/// The access rule applied to an HTTP request: it presents its `X-Pass` header.
pub open spec fn verdict_for(headers: Seq<char>, pass: Seq<char>) -> Verdict {
    access_verdict(presented_pass(headers), pass, requested_target(headers))
}

/// Whether the host of `target` is `127.0.0.1` or `localhost`.
pub fn local_target(target: &str) -> (b: bool)
    ensures
        b == is_local_target(target@),
{
    let (host, _) = split_target(target);
    str_eq(host.as_str(), "127.0.0.1") || str_eq(host.as_str(), "localhost")
}

/// Applies the access rule: `presented` is the password that the client presents (empty
/// for none), `pass` the proxy's password (empty for none), `target` where it asks to go.
pub fn access_decision(presented: &str, pass: &str, target: &str) -> (v: Verdict)
    ensures
        v == access_verdict(presented@, pass@, target@),
{
    if !pass.is_empty() {
        if str_eq(presented, pass) {
            Verdict::Tunnel
        } else {
            Verdict::AuthRequired
        }
    } else if local_target(target) {
        Verdict::Tunnel
    } else {
        Verdict::Forbidden
    }
}

/// Decides what to do with an HTTP client, given the text of its first packet and the
/// password that the proxy was started with (empty for none).
pub fn plan_http(headers: &str, pass: &str) -> (p: HttpPlan)
    ensures
        p.target@ == requested_target(headers@),
        p.swallow_extra == wants_split(headers@),
        p.verdict == verdict_for(headers@, pass@),
{
    let target = match find_header(headers, "X-Real-Host") {
        Some(v) if !v.as_str().is_empty() => v,
        _ => match extract_connect_host(headers) {
            Some(t) => t,
            None => DEFAULT_TARGET.to_owned(),
        },
    };
    let swallow_extra = match find_header(headers, "X-Split") {
        Some(v) => !v.as_str().is_empty(),
        None => false,
    };
    let supplied = match find_header(headers, "X-Pass") {
        Some(v) => v,
        None => String::new(),
    };
    let verdict = access_decision(supplied.as_str(), pass, target.as_str());
    HttpPlan { target, swallow_extra, verdict }
}

/// Decides what to do with an HTTP client, given the bytes of its first packet (read as
/// UTF-8, invalid sequences replaced) and the proxy's password.
pub fn plan_http_request(initial: &[u8], pass: &str) -> (p: HttpPlan)
    ensures
        p.target@ == requested_target(utf8_lossy(initial@)),
        p.swallow_extra == wants_split(utf8_lossy(initial@)),
        p.verdict == verdict_for(utf8_lossy(initial@), pass@),
{
    let headers = decode_utf8_lossy(initial);
    plan_http(headers.as_str(), pass)
}

/// The size of the buffers that client packets are read into.
pub const BUFLEN: usize = 16384;

/// Sent to the client once the tunnel to its target is open.
pub const RESPONSE: &'static str = "HTTP/1.1 101 <b><i><font color=\"blue\">RYOTWELL.VERCEL.APP</font></b> Switching Protocols\r\nUpgrade: websocket\r\nConnection: Upgrade\r\nSec-WebSocket-Accept: foo\r\n\r\n";

/// Sent when a password is set and the client did not present it.
pub const AUTH_REQUIRED: &'static str = "HTTP/1.1 407 Proxy Auth Required\r\n\r\n";

/// Sent when no password is set and the target is not local.
pub const FORBIDDEN: &'static str = "HTTP/1.1 403 Forbidden\r\n\r\n";

/// Sent when the target cannot be reached.
pub const BAD_GATEWAY: &'static str = "HTTP/1.1 502 Bad Gateway\r\n\r\n";

/// The answer once the tunnel's target was tried: the switch to the tunnel when it was
/// reached, `502 Bad Gateway` when it was not.
pub fn connect_reply(connected: bool) -> (r: &'static str)
    ensures
        r == (if connected {
            RESPONSE
        } else {
            BAD_GATEWAY
        }),
{
    if connected {
        RESPONSE
    } else {
        BAD_GATEWAY
    }
}

/// The answer that refuses a client, for the verdicts that refuse.
pub fn refusal(v: Verdict) -> (r: Option<&'static str>)
    ensures
        r == match v {
            Verdict::Tunnel => None,
            Verdict::AuthRequired => Some(AUTH_REQUIRED),
            Verdict::Forbidden => Some(FORBIDDEN),
        },
{
    match v {
        Verdict::Tunnel => None,
        Verdict::AuthRequired => Some(AUTH_REQUIRED),
        Verdict::Forbidden => Some(FORBIDDEN),
    }
}

/// A header written as the first line, `name: value` followed by `\r\n`, is found with
/// that value, whatever follows it, provided the line holds no line feed.
pub proof fn lemma_header_first_line(name: Seq<char>, value: Seq<char>, rest: Seq<char>)
    requires
        forall|i: int| 0 <= i < header_prefix(name).len() + value.len() ==> (header_prefix(name) + value)[i] != '\n',
    ensures
        header_value(header_prefix(name) + value + seq!['\r', '\n'] + rest, name) == Some(value),
{
    let line = header_prefix(name) + value;
    let s = line + seq!['\r', '\n'] + rest;
    let n = line.len() as int;
    assert(crlf_at(s, n));
    assert forall|j: int| 0 <= j < n implies !crlf_at(s, j) by {
        if j + 1 < n {
            assert(s[j + 1] == line[j + 1]);
        } else {
            assert(s[j + 1] == '\r');
        }
    }
    lemma_line_end_at(s, 0, n);
    assert(s.subrange(0, n) =~= line);
    assert(line.subrange(0, header_prefix(name).len() as int) =~= header_prefix(name));
    assert(line.skip(header_prefix(name).len() as int) =~= value);
}

/// The access rule of the proxy. With a password set, a client is tunnelled exactly when
/// its `X-Pass` header equals the password, and is otherwise answered 407. Without a
/// password, a client is tunnelled exactly when the host of its target is `127.0.0.1` or
/// `localhost`, and is otherwise answered 403.
pub proof fn lemma_access_rule(headers: Seq<char>, pass: Seq<char>)
    ensures
        pass.len() > 0 ==> (verdict_for(headers, pass) == Verdict::Tunnel <==> presented_pass(
            headers,
        ) == pass),
        pass.len() > 0 ==> verdict_for(headers, pass) != Verdict::Forbidden,
        pass.len() == 0 ==> (verdict_for(headers, pass) == Verdict::Tunnel <==> is_local_target(
            requested_target(headers),
        )),
        pass.len() == 0 ==> verdict_for(headers, pass) != Verdict::AuthRequired,
        pass.len() == 0 && verdict_for(headers, pass) == Verdict::Tunnel ==> (target_parts(
            requested_target(headers),
        ).0 == "127.0.0.1"@ || target_parts(requested_target(headers)).0 == "localhost"@),
{
}

/// A non-empty `X-Real-Host` header names the target, whatever the request line says.
pub proof fn lemma_real_host_wins(headers: Seq<char>)
    requires
        header_value(headers, "X-Real-Host"@) is Some,
        header_value(headers, "X-Real-Host"@)->0.len() > 0,
    ensures
        requested_target(headers) == header_value(headers, "X-Real-Host"@)->0,
{
}

/// A request that names no target, such as a plain WebSocket upgrade, goes to the local
/// SSH service, port 111; without a password it is tunnelled there.
pub proof fn lemma_untargeted_requests_reach_ssh(headers: Seq<char>)
    requires
        !(header_value(headers, "X-Real-Host"@) is Some && header_value(
            headers,
            "X-Real-Host"@,
        )->0.len() > 0),
        connect_host(headers) is None,
    ensures
        requested_target(headers) == host_port("127.0.0.1"@, 111),
        target_parts(requested_target(headers)) == ("127.0.0.1"@, 111u16),
        verdict_for(headers, Seq::empty()) == Verdict::Tunnel,
{
    reveal_strlit("127.0.0.1:111");
    reveal_strlit("127.0.0.1");
    assert(decimal(111) =~= seq!['1', '1', '1']) by {
        reveal_with_fuel(decimal, 3);
    }
    assert(DEFAULT_TARGET@ =~= host_port("127.0.0.1"@, 111));
    lemma_target_parts_of_host_port("127.0.0.1"@, 111);
}

/// The password a request presents is exactly the text of its `X-Pass` header, with no
/// folding of case or trimming: with a password set, a request whose `X-Pass` header is
/// that password, character for character, is tunnelled, wherever it asks to go; and one
/// whose header differs in any character is answered 407.
pub proof fn lemma_pass_compared_verbatim(headers: Seq<char>, pass: Seq<char>)
    requires
        pass.len() > 0,
    ensures
        header_value(headers, "X-Pass"@) is Some ==> presented_pass(headers) == header_value(
            headers,
            "X-Pass"@,
        )->0,
        header_value(headers, "X-Pass"@) == Some(pass) ==> verdict_for(headers, pass)
            == Verdict::Tunnel,
        header_value(headers, "X-Pass"@) is Some && header_value(headers, "X-Pass"@)->0 != pass
            ==> verdict_for(headers, pass) == Verdict::AuthRequired,
        header_value(headers, "X-Pass"@) is None ==> verdict_for(headers, pass)
            == Verdict::AuthRequired,
{
}

} // verus!
