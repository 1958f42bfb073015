//! The tunnel configurations that the bot hands out: a share link and a Clash entry for
//! VLESS, Trojan or VMess over TLS and WebSocket, the caption that presents them, and the
//! address of a QR code of the link.

use vstd::prelude::*;
use vstd::utf8::encode_utf8;
use crate::commands::{protocol_label, Protocol};
use crate::outside::{
    base64_standard, encode_base64, form_bound, is_v4_uuid_text, json_object, json_object_text,
    pairs_view, random_uuid, url_fits, url_with_params, url_with_query,
};
use crate::text::{opt_chars, starts_with};

verus! {

/// The server that the configurations point at.
pub const HOST: &'static str = "free.engsel.qzz.io";

/// The service that draws QR codes.
pub const QR_SERVICE: &'static str = "https://api.qrserver.com/v1/create-qr-code/";

/// A share link and a Clash entry.
pub struct VpnConfig {
    pub link: String,
    pub clash: String,
}

/// The VLESS share link.
pub open spec fn vless_link(u: Seq<char>, h: Seq<char>) -> Seq<char> {
    "vless://"@ + u + "@"@ + h + ":443?encryption=none&security=tls&sni="@ + h
        + "&fp=chrome&type=ws&host="@ + h + "&path=%2Fvless#kita_temenan_aja"@
}

/// The Trojan share link.
pub open spec fn trojan_link(u: Seq<char>, h: Seq<char>) -> Seq<char> {
    "trojan://"@ + u + "@"@ + h + ":443?security=tls&sni="@ + h + "&type=ws&host="@ + h
        + "&path=%2Ftrojan#kita_temenan_aja"@
}

/// A Clash entry over TLS and WebSocket to `h`, port 443, with the path `/kind`; `key: u`
/// names the user, and `extra` follows that line.
pub open spec fn clash_entry(kind: Seq<char>, key: Seq<char>, u: Seq<char>, extra: Seq<char>, h: Seq<
    char,
>) -> Seq<char> {
    "- name: \"kita temenan aja\"\n  type: "@ + kind + "\n  server: "@ + h + "\n  port: 443\n  "@
        + key + ": "@ + u + extra + "\n  network: ws\n  tls: true\n  udp: true\n  sni: \""@ + h
        + "\"\n  ws-opts:\n    path: \"/"@ + kind + "\"\n    headers:\n      host: \""@ + h
        + "\""@
}

/// The Clash entry of a protocol.
pub open spec fn clash_of(p: Protocol, u: Seq<char>, h: Seq<char>) -> Seq<char> {
    match p {
        Protocol::Vless => clash_entry("vless"@, "uuid"@, u, Seq::empty(), h),
        Protocol::Trojan => clash_entry("trojan"@, "password"@, u, Seq::empty(), h),
        Protocol::Vmess => clash_entry(
            "vmess"@,
            "uuid"@,
            u,
            "\n  alterId: 0\n  cipher: auto"@,
            h,
        ),
    }
}

/// The members of the VMess share object.
pub open spec fn vmess_members(u: Seq<char>, h: Seq<char>) -> Seq<(Seq<char>, Seq<char>)> {
    seq![
        ("v"@, "2"@),
        ("ps"@, "kita temenan aja"@),
        ("add"@, h),
        ("port"@, "443"@),
        ("id"@, u),
        ("aid"@, "0"@),
        ("scy"@, "auto"@),
        ("net"@, "ws"@),
        ("type"@, "none"@),
        ("host"@, h),
        ("path"@, "/vmess"@),
        ("tls"@, "tls"@),
        ("sni"@, h),
        ("alpn"@, ""@),
    ]
}

/// The VMess share link of a share object written as `json`: `vmess://` and the base64 of
/// its UTF-8 bytes.
pub open spec fn vmess_link_of(json: Seq<char>) -> Seq<char> {
    "vmess://"@ + base64_standard(encode_utf8(json))
}

/// The base64 of `json` can be written: its length fits in `usize`.
pub open spec fn encodable(json: Seq<char>) -> bool {
    4 * ((encode_utf8(json).len() + 2) / 3) <= usize::MAX
}

/// The configuration of a protocol for user `u` on server `h`; `None` when the VMess
/// object is too long to encode.
pub open spec fn config_of(p: Protocol, u: Seq<char>, h: Seq<char>) -> Option<(Seq<char>, Seq<char>)> {
    match p {
        Protocol::Vless => Some((vless_link(u, h), clash_of(p, u, h))),
        Protocol::Trojan => Some((trojan_link(u, h), clash_of(p, u, h))),
        Protocol::Vmess => {
            let json = json_object_text(vmess_members(u, h));
            if encodable(json) {
                Some((vmess_link_of(json), clash_of(p, u, h)))
            } else {
                None
            }
        },
    }
}

/// The caption that presents a configuration.
pub open spec fn config_caption(label: Seq<char>, link: Seq<char>, clash: Seq<char>) -> Seq<char> {
    "\u{26A1} <b>Small, Fast &amp; High Performance!</b>\n\n<b>"@ + label + ":</b>\n<code>"@
        + link + "</code>\n\n<b>CLASH META / V2RAY:</b>\n<code>\n"@ + clash + "\n</code>"@
}

/// The VLESS share link.
pub fn make_vless_link(u: &str, h: &str) -> (s: String)
    ensures
        s@ == vless_link(u@, h@),
{
    let mut s = "vless://".to_owned();
    s.append(u);
    s.append("@");
    s.append(h);
    s.append(":443?encryption=none&security=tls&sni=");
    s.append(h);
    s.append("&fp=chrome&type=ws&host=");
    s.append(h);
    s.append("&path=%2Fvless#kita_temenan_aja");
    assert(s@ =~= vless_link(u@, h@));
    s
}

/// The Trojan share link.
pub fn make_trojan_link(u: &str, h: &str) -> (s: String)
    ensures
        s@ == trojan_link(u@, h@),
{
    let mut s = "trojan://".to_owned();
    s.append(u);
    s.append("@");
    s.append(h);
    s.append(":443?security=tls&sni=");
    s.append(h);
    s.append("&type=ws&host=");
    s.append(h);
    s.append("&path=%2Ftrojan#kita_temenan_aja");
    assert(s@ =~= trojan_link(u@, h@));
    s
}

/// A Clash entry.
fn make_clash_entry(kind: &str, key: &str, u: &str, extra: &str, h: &str) -> (s: String)
    ensures
        s@ == clash_entry(kind@, key@, u@, extra@, h@),
{
    let mut s = "- name: \"kita temenan aja\"\n  type: ".to_owned();
    s.append(kind);
    s.append("\n  server: ");
    s.append(h);
    s.append("\n  port: 443\n  ");
    s.append(key);
    s.append(": ");
    s.append(u);
    s.append(extra);
    s.append("\n  network: ws\n  tls: true\n  udp: true\n  sni: \"");
    s.append(h);
    s.append("\"\n  ws-opts:\n    path: \"/");
    s.append(kind);
    s.append("\"\n    headers:\n      host: \"");
    s.append(h);
    s.append("\"");
    assert(s@ =~= clash_entry(kind@, key@, u@, extra@, h@));
    s
}

/// The Clash entry of a protocol.
pub fn make_clash(p: Protocol, u: &str, h: &str) -> (s: String)
    ensures
        s@ == clash_of(p, u@, h@),
{
    proof {
        reveal_strlit("");
    }
    match p {
        Protocol::Vless => make_clash_entry("vless", "uuid", u, "", h),
        Protocol::Trojan => make_clash_entry("trojan", "password", u, "", h),
        Protocol::Vmess => make_clash_entry("vmess", "uuid", u, "\n  alterId: 0\n  cipher: auto", h),
    }
}

/// The members of the VMess share object.
fn make_vmess_members(u: &str, h: &str) -> (m: Vec<(String, String)>)
    ensures
        pairs_view(m@) == vmess_members(u@, h@),
{
    let mut m: Vec<(String, String)> = Vec::new();
    m.push(("v".to_owned(), "2".to_owned()));
    m.push(("ps".to_owned(), "kita temenan aja".to_owned()));
    m.push(("add".to_owned(), h.to_owned()));
    m.push(("port".to_owned(), "443".to_owned()));
    m.push(("id".to_owned(), u.to_owned()));
    m.push(("aid".to_owned(), "0".to_owned()));
    m.push(("scy".to_owned(), "auto".to_owned()));
    m.push(("net".to_owned(), "ws".to_owned()));
    m.push(("type".to_owned(), "none".to_owned()));
    m.push(("host".to_owned(), h.to_owned()));
    m.push(("path".to_owned(), "/vmess".to_owned()));
    m.push(("tls".to_owned(), "tls".to_owned()));
    m.push(("sni".to_owned(), h.to_owned()));
    m.push(("alpn".to_owned(), "".to_owned()));
    assert(pairs_view(m@) =~= vmess_members(u@, h@));
    m
}

/// The VMess share link of a share object written as `json`.
pub fn make_vmess_link(json: &str) -> (s: String)
    requires
        encodable(json@),
    ensures
        s@ == vmess_link_of(json@),
{
    let encoded = encode_base64(json.as_bytes());
    let mut s = "vmess://".to_owned();
    s.append(encoded.as_str());
    s
}

/// Whether the base64 of `json` can be written.
pub fn is_encodable(json: &str) -> (b: bool)
    ensures
        b == encodable(json@),
{
    let bytes = json.as_bytes();
    let n = bytes.len();
    let groups = n / 3 + if n % 3 == 0 {
        0
    } else {
        1
    };
    proof {
        let m = encode_utf8(json@).len() as int;
        assert(n as int == m);
        assert(groups as int == (m + 2) / 3) by (nonlinear_arith)
            requires
                groups as int == m / 3 + (if m % 3 == 0 { 0int } else { 1int }),
                m >= 0,
        ;
        assert((groups <= usize::MAX / 4) == (4 * groups <= usize::MAX)) by (nonlinear_arith);
    }
    groups <= usize::MAX / 4
}

/// The configuration of a protocol for user `u` on server `h`; `None` when the VMess
/// object is too long to encode.
pub fn make_config(p: Protocol, u: &str, h: &str) -> (c: Option<VpnConfig>)
    ensures
        match c {
            Some(c) => config_of(p, u@, h@) == Some((c.link@, c.clash@)),
            None => config_of(p, u@, h@) is None,
        },
{
    let clash = make_clash(p, u, h);
    match p {
        Protocol::Vless => Some(VpnConfig { link: make_vless_link(u, h), clash }),
        Protocol::Trojan => Some(VpnConfig { link: make_trojan_link(u, h), clash }),
        Protocol::Vmess => {
            let members = make_vmess_members(u, h);
            let json = json_object(&members);
            if !is_encodable(json.as_str()) {
                return None;
            }
            Some(VpnConfig { link: make_vmess_link(json.as_str()), clash })
        },
    }
}

/// The caption that presents a configuration.
pub fn make_caption(label: &str, link: &str, clash: &str) -> (s: String)
    ensures
        s@ == config_caption(label@, link@, clash@),
{
    let mut s = "\u{26A1} <b>Small, Fast &amp; High Performance!</b>\n\n<b>".to_owned();
    s.append(label);
    s.append(":</b>\n<code>");
    s.append(link);
    s.append("</code>\n\n<b>CLASH META / V2RAY:</b>\n<code>\n");
    s.append(clash);
    s.append("\n</code>");
    assert(s@ =~= config_caption(label@, link@, clash@));
    s
}

/// A configuration issued to a new user: the user's id, the link, the Clash entry and the
/// caption that presents them.
pub struct IssuedConfig {
    pub uuid: String,
    pub link: String,
    pub clash: String,
    pub caption: String,
}

/// Issues a configuration of a protocol on [`HOST`] to a new user with a random id.
pub fn issue_config(p: Protocol) -> (c: Option<IssuedConfig>)
    ensures
        match c {
            Some(c) => {
                &&& is_v4_uuid_text(c.uuid@)
                &&& config_of(p, c.uuid@, HOST@) == Some((c.link@, c.clash@))
                &&& c.caption@ == config_caption(protocol_label(p)@, c.link@, c.clash@)
            },
            None => p == Protocol::Vmess && exists|u: Seq<char>|
                is_v4_uuid_text(u) && #[trigger] config_of(p, u, HOST@) is None,
        },
{
    let uuid = random_uuid();
    match make_config(p, uuid.as_str(), HOST) {
        Some(cfg) => {
            let caption = make_caption(p.label(), cfg.link.as_str(), cfg.clash.as_str());
            Some(IssuedConfig { uuid, link: cfg.link, clash: cfg.clash, caption })
        },
        None => {
            assert(config_of(p, uuid@, HOST@) is None);
            None
        },
    }
}

/// The parameters of the QR code of `data`: 400 by 400 pixels, a margin of 10.
pub open spec fn qr_params(data: Seq<char>) -> Seq<(Seq<char>, Seq<char>)> {
    seq![("size"@, "400x400"@), ("margin"@, "10"@), ("data"@, data)]
}

proof fn lemma_form_bound_grows(ps: Seq<(Seq<char>, Seq<char>)>, i: int)
    requires
        0 <= i <= ps.len(),
    ensures
        form_bound(ps.take(i)) <= form_bound(ps),
    decreases ps.len() - i,
{
    if i < ps.len() {
        lemma_form_bound_grows(ps, i + 1);
        assert(ps.take(i + 1).drop_last() =~= ps.take(i));
    } else {
        assert(ps.take(i) =~= ps);
    }
}

/// Whether the URL built from `base` and `params` stays within what the url crate indexes.
fn url_fits_check(base: &str, params: &Vec<(String, String)>) -> (b: bool)
    ensures
        b == url_fits(base@, pairs_view(params@)),
{
    let ghost ps = pairs_view(params@);
    if !base.is_ascii() {
        return false;
    }
    let base_len = base.as_bytes().len();
    proof {
        vstd::utf8::is_ascii_chars_encode_utf8(base@);
    }
    let limit: u128 = 0xffff_ffff;
    let mut total: u128 = 3 * (base_len as u128) + 64;
    if total > limit {
        return false;
    }
    let mut i: usize = 0;
    while i < params.len()
        invariant
            i <= params@.len(),
            ps == pairs_view(params@),
            total == 3 * base@.len() + 64 + form_bound(ps.take(i as int)),
            total <= limit,
            limit == u32::MAX,
            vstd::utf8::is_ascii_chars(base@),
        decreases params@.len() - i,
    {
        let kb = params[i].0.as_str().as_bytes().len();
        let vb = params[i].1.as_str().as_bytes().len();
        assert(ps.take(i + 1).drop_last() =~= ps.take(i as int));
        assert(ps[i as int] == (params@[i as int].0@, params@[i as int].1@));
        total = total + 2 + 3 * ((kb as u128) + (vb as u128));
        i = i + 1;
        if total > limit {
            proof {
                lemma_form_bound_grows(ps, i as int);
            }
            return false;
        }
    }
    assert(ps.take(i as int) =~= ps);
    true
}

/// The address of a QR code of `data`; `None` when the address does not parse, or when
/// it would not fit in what the url crate indexes (4 GiB).
pub fn qr_code_url(data: &str) -> (r: Option<String>)
    ensures
        opt_chars(r) == (if url_fits(QR_SERVICE@, qr_params(data@)) {
            url_with_query(QR_SERVICE@, qr_params(data@))
        } else {
            None
        }),
{
    let mut params: Vec<(String, String)> = Vec::new();
    params.push(("size".to_owned(), "400x400".to_owned()));
    params.push(("margin".to_owned(), "10".to_owned()));
    params.push(("data".to_owned(), data.to_owned()));
    assert(pairs_view(params@) =~= qr_params(data@));
    if !url_fits_check(QR_SERVICE, &params) {
        return None;
    }
    url_with_params(QR_SERVICE, &params)
}

/// Each protocol gets a link of its own scheme, naming the user right after it: a
/// VLESS configuration's link begins `vless://` and a Trojan one's `trojan://`, each
/// followed by the user id and `@` and the server; a VMess one's begins `vmess://`.
/// Both always succeed; VMess succeeds when its object can be encoded.
pub proof fn lemma_link_scheme_per_protocol(u: Seq<char>, h: Seq<char>)
    ensures
        config_of(Protocol::Vless, u, h) is Some,
        config_of(Protocol::Trojan, u, h) is Some,
        starts_with((config_of(Protocol::Vless, u, h)->0).0, "vless://"@ + u + "@"@ + h),
        starts_with((config_of(Protocol::Trojan, u, h)->0).0, "trojan://"@ + u + "@"@ + h),
        config_of(Protocol::Vmess, u, h) is Some ==> starts_with(
            (config_of(Protocol::Vmess, u, h)->0).0,
            "vmess://"@,
        ),
        (config_of(Protocol::Vless, u, h)->0).1 == clash_of(Protocol::Vless, u, h),
        (config_of(Protocol::Trojan, u, h)->0).1 == clash_of(Protocol::Trojan, u, h),
{
    let a = "vless://"@ + u + "@"@ + h;
    let l = vless_link(u, h);
    assert(l.subrange(0, a.len() as int) =~= a);
    let b = "trojan://"@ + u + "@"@ + h;
    let m = trojan_link(u, h);
    assert(m.subrange(0, b.len() as int) =~= b);
    let json = json_object_text(vmess_members(u, h));
    let n = vmess_link_of(json);
    assert(n.subrange(0, "vmess://"@.len() as int) =~= "vmess://"@);
}

/// The three schemes differ, so no protocol's link passes for another's.
pub proof fn lemma_schemes_differ()
    ensures
        !starts_with("vless://"@, "trojan://"@),
        !starts_with("trojan://"@, "vless://"@),
        !starts_with("vmess://"@, "vless://"@),
        !starts_with("vless://"@, "vmess://"@),
        !starts_with("vmess://"@, "trojan://"@),
        !starts_with("trojan://"@, "vmess://"@),
{
    reveal_strlit("vless://");
    reveal_strlit("trojan://");
    reveal_strlit("vmess://");
    assert("vless://"@.subrange(0, 8)[1] != "vmess://"@[1]);
    assert("vmess://"@.subrange(0, 8)[1] != "vless://"@[1]);
    assert("trojan://"@.subrange(0, 8)[0] != "vless://"@[0]);
    assert("trojan://"@.subrange(0, 8)[0] != "vmess://"@[0]);
}

} // verus!
