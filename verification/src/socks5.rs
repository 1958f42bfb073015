//! The SOCKS5 side of the proxy, as a state machine: the caller performs each action
//! (send a reply, read an exact number of bytes, connect) and hands back what it read.
//! Only the CONNECT command, without authentication, to an IPv4 address or a domain
//! name, is served, and only where the proxy's access rule admits it: a SOCKS5 client
//! presents no password, so with a password set every request is refused, and without
//! one only local targets are served.

use vstd::prelude::*;
use crate::numbers::{decimal, push_decimal};
use crate::outside::{decode_utf8_lossy, utf8_lossy};
use crate::http::{access_decision, access_verdict, Verdict};
use crate::target::{host_port, join_host_port, lemma_target_parts_of_host_port, target_parts};

verus! {

/// The protocol version byte that opens every SOCKS5 message.
pub const SOCKS_VERSION: u8 = 5;

/// The command byte of a CONNECT request.
pub const CMD_CONNECT: u8 = 1;

/// The address type byte of an IPv4 address.
pub const ATYP_IPV4: u8 = 1;

/// The address type byte of a domain name.
pub const ATYP_DOMAIN: u8 = 3;

/// Why a SOCKS5 request is refused.
#[derive(PartialEq, Eq, Structural, Clone, Copy, Debug)]
pub enum Socks5Error {
    /// The command is not CONNECT.
    UnsupportedCommand,
    /// The address type is neither IPv4 nor a domain name.
    UnsupportedAddressType(u8),
    /// The access rule does not admit the target.
    NotAllowed,
}

/// Where the negotiation with a client stands.
pub enum Socks5Stage {
    /// The four-byte request header (version, command, reserved, address type) is awaited.
    Header,
    /// The four bytes of an IPv4 address are awaited.
    Ipv4,
    /// The length byte of a domain name is awaited.
    DomainLength,
    /// The `len` bytes of a domain name are awaited.
    Domain { len: usize },
    /// The two bytes of the port (big-endian) are awaited.
    Port { address: String },
    /// The target is being connected to.
    Connecting { target: String },
    /// The tunnel is open.
    Tunnel,
    /// The request was refused.
    Refused,
}

/// What the caller does next.
pub enum Socks5Action {
    /// Send `reply` to the client, then read exactly `read` bytes from it.
    ReplyAndRead { reply: Vec<u8>, read: usize },
    /// Read exactly this many bytes from the client.
    Read(usize),
    /// Open a connection to `target` (`host:port`).
    Connect { target: String },
    /// Send `reply` to the client, then copy bytes both ways.
    ReplyAndTunnel { reply: Vec<u8> },
    /// Give up with this error.
    Fail(Socks5Error),
    /// Send `reply` to the client, then give up with this error.
    ReplyAndFail { reply: Vec<u8>, error: Socks5Error },
    /// Give up with the error that the connection to the target failed with.
    Abort,
}

/// The stage, with strings as character sequences.
pub enum StageModel {
    Header,
    Ipv4,
    DomainLength,
    Domain { len: nat },
    Port { address: Seq<char> },
    Connecting { target: Seq<char> },
    Tunnel,
    Refused,
}

/// The action, with byte and character sequences.
pub enum ActionModel {
    ReplyAndRead { reply: Seq<u8>, read: nat },
    Read(nat),
    Connect { target: Seq<char> },
    ReplyAndTunnel { reply: Seq<u8> },
    Fail(Socks5Error),
    ReplyAndFail { reply: Seq<u8>, error: Socks5Error },
    Abort,
}

impl View for Socks5Stage {
    type V = StageModel;

    open spec fn view(&self) -> StageModel {
        match self {
            Socks5Stage::Header => StageModel::Header,
            Socks5Stage::Ipv4 => StageModel::Ipv4,
            Socks5Stage::DomainLength => StageModel::DomainLength,
            Socks5Stage::Domain { len } => StageModel::Domain { len: *len as nat },
            Socks5Stage::Port { address } => StageModel::Port { address: address@ },
            Socks5Stage::Connecting { target } => StageModel::Connecting { target: target@ },
            Socks5Stage::Tunnel => StageModel::Tunnel,
            Socks5Stage::Refused => StageModel::Refused,
        }
    }
}

impl View for Socks5Action {
    type V = ActionModel;

    open spec fn view(&self) -> ActionModel {
        match self {
            Socks5Action::ReplyAndRead { reply, read } => ActionModel::ReplyAndRead {
                reply: reply@,
                read: *read as nat,
            },
            Socks5Action::Read(n) => ActionModel::Read(*n as nat),
            Socks5Action::Connect { target } => ActionModel::Connect { target: target@ },
            Socks5Action::ReplyAndTunnel { reply } => ActionModel::ReplyAndTunnel { reply: reply@ },
            Socks5Action::Fail(e) => ActionModel::Fail(*e),
            Socks5Action::ReplyAndFail { reply, error } => ActionModel::ReplyAndFail {
                reply: reply@,
                error: *error,
            },
            Socks5Action::Abort => ActionModel::Abort,
        }
    }
}

/// The reply to the greeting: version 5, no authentication.
pub open spec fn greeting_reply() -> Seq<u8> {
    seq![5u8, 0u8]
}

/// The reply once the target is connected: version 5, success, and a zero IPv4 address
/// and port.
pub open spec fn success_reply() -> Seq<u8> {
    seq![5u8, 0u8, 0u8, 1u8, 0u8, 0u8, 0u8, 0u8, 0u8, 0u8]
}

/// The reply that refuses a target: version 5, connection not allowed by ruleset, and a
/// zero IPv4 address and port.
pub open spec fn not_allowed_reply() -> Seq<u8> {
    seq![5u8, 2u8, 0u8, 1u8, 0u8, 0u8, 0u8, 0u8, 0u8, 0u8]
}

/// The access rule for a SOCKS5 request to `target`: the client presents no password.
pub open spec fn socks5_verdict(target: Seq<char>, pass: Seq<char>) -> Verdict {
    access_verdict(Seq::empty(), pass, target)
}

/// An IPv4 address in dotted decimal.
pub open spec fn dotted_quad(ip: Seq<u8>) -> Seq<char> {
    decimal(ip[0] as nat) + seq!['.'] + decimal(ip[1] as nat) + seq!['.'] + decimal(ip[2] as nat)
        + seq!['.'] + decimal(ip[3] as nat)
}

/// The port that two bytes hold, most significant first.
pub open spec fn port_of(b: Seq<u8>) -> u16 {
    (b[0] as nat * 256 + b[1] as nat) as u16
}

/// How many bytes a stage waits for; `None` when it waits for none.
pub open spec fn bytes_awaited(stage: StageModel) -> Option<nat> {
    match stage {
        StageModel::Header => Some(4),
        StageModel::Ipv4 => Some(4),
        StageModel::DomainLength => Some(1),
        StageModel::Domain { len } => Some(len),
        StageModel::Port { .. } => Some(2),
        _ => None,
    }
}

/// The first step, once the first packet of a client shows version 5: answer the
/// greeting and read the request header.
pub open spec fn start_step() -> (StageModel, ActionModel) {
    (StageModel::Header, ActionModel::ReplyAndRead { reply: greeting_reply(), read: 4 })
}

/// The step taken on the bytes that a stage waited for; `pass` is the proxy's password
/// (empty for none).
pub open spec fn bytes_step(stage: StageModel, b: Seq<u8>, pass: Seq<char>) -> (StageModel, ActionModel) {
    match stage {
        StageModel::Header => if b[1] != CMD_CONNECT {
            (StageModel::Refused, ActionModel::Fail(Socks5Error::UnsupportedCommand))
        } else if b[3] == ATYP_IPV4 {
            (StageModel::Ipv4, ActionModel::Read(4))
        } else if b[3] == ATYP_DOMAIN {
            (StageModel::DomainLength, ActionModel::Read(1))
        } else {
            (StageModel::Refused, ActionModel::Fail(Socks5Error::UnsupportedAddressType(b[3])))
        },
        StageModel::Ipv4 => (StageModel::Port { address: dotted_quad(b) }, ActionModel::Read(2)),
        StageModel::DomainLength => (
            StageModel::Domain { len: b[0] as nat },
            ActionModel::Read(b[0] as nat),
        ),
        StageModel::Domain { .. } => (
            StageModel::Port { address: utf8_lossy(b) },
            ActionModel::Read(2),
        ),
        StageModel::Port { address } => {
            let target = host_port(address, port_of(b));
            if socks5_verdict(target, pass) == Verdict::Tunnel {
                (StageModel::Connecting { target }, ActionModel::Connect { target })
            } else {
                (
                    StageModel::Refused,
                    ActionModel::ReplyAndFail {
                        reply: not_allowed_reply(),
                        error: Socks5Error::NotAllowed,
                    },
                )
            }
        },
        _ => (stage, ActionModel::Read(0)),
    }
}

/// The step taken once the target is connected.
pub open spec fn connected_step() -> (StageModel, ActionModel) {
    (StageModel::Tunnel, ActionModel::ReplyAndTunnel { reply: success_reply() })
}

/// The step taken when the target cannot be reached: give up, sending nothing.
pub open spec fn unreachable_step() -> (StageModel, ActionModel) {
    (StageModel::Refused, ActionModel::Abort)
}

/// How many bytes `stage` waits for; `None` when it waits for none.
pub fn awaited(stage: &Socks5Stage) -> (n: Option<usize>)
    ensures
        match n {
            Some(k) => bytes_awaited(stage@) == Some(k as nat),
            None => bytes_awaited(stage@) is None,
        },
{
    match stage {
        Socks5Stage::Header => Some(4),
        Socks5Stage::Ipv4 => Some(4),
        Socks5Stage::DomainLength => Some(1),
        Socks5Stage::Domain { len } => Some(*len),
        Socks5Stage::Port { .. } => Some(2),
        _ => None,
    }
}

/// Answers the greeting of a client whose first packet began with version 5.
pub fn socks5_start() -> (r: (Socks5Stage, Socks5Action))
    ensures
        (r.0@, r.1@) == start_step(),
{
    let reply: Vec<u8> = vec![5u8, 0u8];
    assert(reply@ =~= greeting_reply());
    (Socks5Stage::Header, Socks5Action::ReplyAndRead { reply, read: 4 })
}

/// An IPv4 address in dotted decimal.
pub fn format_ipv4(ip: &[u8]) -> (s: String)
    requires
        ip@.len() == 4,
    ensures
        s@ == dotted_quad(ip@),
{
    let mut v: Vec<char> = Vec::new();
    push_decimal(&mut v, ip[0] as u64);
    v.push('.');
    push_decimal(&mut v, ip[1] as u64);
    v.push('.');
    push_decimal(&mut v, ip[2] as u64);
    v.push('.');
    push_decimal(&mut v, ip[3] as u64);
    assert(v@ =~= dotted_quad(ip@));
    crate::outside::string_from_chars(&v)
}

/// Takes the step for the bytes that `stage` waited for; `pass` is the proxy's password
/// (empty for none).
pub fn socks5_on_bytes(stage: Socks5Stage, bytes: &[u8], pass: &str) -> (r: (Socks5Stage, Socks5Action))
    requires
        bytes_awaited(stage@) == Some(bytes@.len()),
    ensures
        (r.0@, r.1@) == bytes_step(stage@, bytes@, pass@),
{
    match stage {
        Socks5Stage::Header => {
            if bytes[1] != CMD_CONNECT {
                (Socks5Stage::Refused, Socks5Action::Fail(Socks5Error::UnsupportedCommand))
            } else if bytes[3] == ATYP_IPV4 {
                (Socks5Stage::Ipv4, Socks5Action::Read(4))
            } else if bytes[3] == ATYP_DOMAIN {
                (Socks5Stage::DomainLength, Socks5Action::Read(1))
            } else {
                (
                    Socks5Stage::Refused,
                    Socks5Action::Fail(Socks5Error::UnsupportedAddressType(bytes[3])),
                )
            }
        },
        Socks5Stage::Ipv4 => {
            let address = format_ipv4(bytes);
            (Socks5Stage::Port { address }, Socks5Action::Read(2))
        },
        Socks5Stage::DomainLength => {
            let len = bytes[0] as usize;
            (Socks5Stage::Domain { len }, Socks5Action::Read(len))
        },
        Socks5Stage::Domain { .. } => {
            let address = decode_utf8_lossy(bytes);
            (Socks5Stage::Port { address }, Socks5Action::Read(2))
        },
        Socks5Stage::Port { address } => {
            let port: u16 = (bytes[0] as u16) * 256 + (bytes[1] as u16);
            let target = join_host_port(address.as_str(), port);
            proof {
                reveal_strlit("");
            }
            if access_decision("", pass, target.as_str()) == Verdict::Tunnel {
                let connect = target.clone();
                (Socks5Stage::Connecting { target }, Socks5Action::Connect { target: connect })
            } else {
                let reply: Vec<u8> = vec![5u8, 2u8, 0u8, 1u8, 0u8, 0u8, 0u8, 0u8, 0u8, 0u8];
                assert(reply@ =~= not_allowed_reply());
                (
                    Socks5Stage::Refused,
                    Socks5Action::ReplyAndFail { reply, error: Socks5Error::NotAllowed },
                )
            }
        },
        _ => {
            assert(false);
            (stage, Socks5Action::Read(0))
        },
    }
}

/// Takes the step once the target is connected: report success and open the tunnel.
pub fn socks5_on_connected(stage: Socks5Stage) -> (r: (Socks5Stage, Socks5Action))
    requires
        stage@ is Connecting,
    ensures
        (r.0@, r.1@) == connected_step(),
{
    let reply: Vec<u8> = vec![5u8, 0u8, 0u8, 1u8, 0u8, 0u8, 0u8, 0u8, 0u8, 0u8];
    assert(reply@ =~= success_reply());
    (Socks5Stage::Tunnel, Socks5Action::ReplyAndTunnel { reply })
}

/// Gives up once the target cannot be reached.
pub fn socks5_on_unreachable(stage: Socks5Stage) -> (r: (Socks5Stage, Socks5Action))
    requires
        stage@ is Connecting,
    ensures
        (r.0@, r.1@) == unreachable_step(),
{
    (Socks5Stage::Refused, Socks5Action::Abort)
}

/// The text of a refusal.
pub open spec fn error_text(e: Socks5Error) -> Seq<char> {
    match e {
        Socks5Error::UnsupportedCommand => "Only SOCKS5 CONNECT (0x01) is supported"@,
        Socks5Error::UnsupportedAddressType(t) => "Unsupported SOCKS5 address type: "@ + decimal(
            t as nat,
        ),
        Socks5Error::NotAllowed => "SOCKS5 target not allowed"@,
    }
}

impl Socks5Error {
    /// The text of this refusal.
    pub fn message(&self) -> (s: String)
        ensures
            s@ == error_text(*self),
    {
        match self {
            Socks5Error::UnsupportedCommand => "Only SOCKS5 CONNECT (0x01) is supported".to_owned(),
            Socks5Error::UnsupportedAddressType(t) => {
                let mut s = "Unsupported SOCKS5 address type: ".to_owned();
                let d = crate::numbers::decimal_string(*t as u64);
                s.append(d.as_str());
                s
            },
            Socks5Error::NotAllowed => "SOCKS5 target not allowed".to_owned(),
        }
    }
}

/// A CONNECT request to an IPv4 address, fed to the machine in the pieces that it asks
/// for, ends in a connection to that address, in dotted decimal, and that port, when the
/// access rule admits that target; and that target splits back into exactly that address
/// and port.
pub proof fn lemma_ipv4_request_connects(header: Seq<u8>, ip: Seq<u8>, port: Seq<u8>, pass: Seq<char>)
    requires
        header.len() == 4,
        header[1] == CMD_CONNECT,
        header[3] == ATYP_IPV4,
        ip.len() == 4,
        port.len() == 2,
        socks5_verdict(host_port(dotted_quad(ip), port_of(port)), pass) == Verdict::Tunnel,
    ensures
        ({
            let (s0, a0) = start_step();
            let (s1, a1) = bytes_step(s0, header, pass);
            let (s2, a2) = bytes_step(s1, ip, pass);
            let (s3, a3) = bytes_step(s2, port, pass);
            &&& a0 == ActionModel::ReplyAndRead { reply: greeting_reply(), read: 4 }
            &&& a1 == ActionModel::Read(4)
            &&& a2 == ActionModel::Read(2)
            &&& a3 == ActionModel::Connect { target: host_port(dotted_quad(ip), port_of(port)) }
            &&& target_parts(host_port(dotted_quad(ip), port_of(port))) == (
                dotted_quad(ip),
                port_of(port),
            )
        }),
{
    lemma_target_parts_of_host_port(dotted_quad(ip), port_of(port));
}

/// A CONNECT request to a domain name, fed to the machine in the pieces that it asks
/// for, ends in a connection to that name (decoded as UTF-8) and that port, when the
/// access rule admits that target; and that target splits back into exactly that name
/// and port.
pub proof fn lemma_domain_request_connects(
    header: Seq<u8>,
    len: u8,
    name: Seq<u8>,
    port: Seq<u8>,
    pass: Seq<char>,
)
    requires
        header.len() == 4,
        header[1] == CMD_CONNECT,
        header[3] == ATYP_DOMAIN,
        name.len() == len,
        port.len() == 2,
        socks5_verdict(host_port(utf8_lossy(name), port_of(port)), pass) == Verdict::Tunnel,
    ensures
        ({
            let (s1, a1) = bytes_step(StageModel::Header, header, pass);
            let (s2, a2) = bytes_step(s1, seq![len], pass);
            let (s3, a3) = bytes_step(s2, name, pass);
            let (s4, a4) = bytes_step(s3, port, pass);
            &&& a1 == ActionModel::Read(1)
            &&& a2 == ActionModel::Read(len as nat)
            &&& bytes_awaited(s2) == Some(name.len())
            &&& a3 == ActionModel::Read(2)
            &&& a4 == ActionModel::Connect { target: host_port(utf8_lossy(name), port_of(port)) }
            &&& target_parts(host_port(utf8_lossy(name), port_of(port))) == (
                utf8_lossy(name),
                port_of(port),
            )
        }),
{
    lemma_target_parts_of_host_port(utf8_lossy(name), port_of(port));
}

/// The access rule holds for SOCKS5: the machine connects only where the rule admits the
/// target, and refuses with the ruleset reply otherwise. With a password set it never
/// connects (a SOCKS5 client presents none); without one it connects exactly when the
/// host of the target is `127.0.0.1` or `localhost`.
pub proof fn lemma_socks5_access_rule(address: Seq<char>, port: Seq<u8>, pass: Seq<char>)
    requires
        port.len() == 2,
    ensures
        ({
            let target = host_port(address, port_of(port));
            let (s, a) = bytes_step(StageModel::Port { address }, port, pass);
            &&& (a is Connect <==> socks5_verdict(target, pass) == Verdict::Tunnel)
            &&& (a is Connect ==> a == ActionModel::Connect { target })
            &&& (pass.len() > 0 ==> !(a is Connect))
            &&& (pass.len() == 0 ==> (a is Connect <==> address == "127.0.0.1"@ || address
                == "localhost"@))
            &&& (!(a is Connect) ==> s == StageModel::Refused && a == ActionModel::ReplyAndFail {
                reply: not_allowed_reply(),
                error: Socks5Error::NotAllowed,
            })
        }),
{
    lemma_target_parts_of_host_port(address, port_of(port));
}

/// A request whose command is not CONNECT is refused, whatever its address type.
pub proof fn lemma_only_connect_is_served(header: Seq<u8>, pass: Seq<char>)
    requires
        header.len() == 4,
        header[1] != CMD_CONNECT,
    ensures
        bytes_step(StageModel::Header, header, pass) == (
            StageModel::Refused,
            ActionModel::Fail(Socks5Error::UnsupportedCommand),
        ),
{
}

/// The port bytes are read most significant first: writing a port big-endian and
/// reading it back gives the port.
pub proof fn lemma_port_big_endian(p: u16)
    ensures
        port_of(seq![(p / 256) as u8, (p % 256) as u8]) == p,
{
}

} // verus!
