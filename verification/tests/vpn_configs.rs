use base64::Engine;
use sshws::commands::Protocol;
use sshws::vpn::{
    issue_config, make_caption, make_clash, make_config, make_trojan_link, make_vless_link,
    make_vmess_link, qr_code_url, HOST,
};

const U: &str = "123e4567-e89b-42d3-a456-426614174000";

#[test]
fn vless_link() {
    assert_eq!(
        make_vless_link(U, "h.io"),
        "vless://123e4567-e89b-42d3-a456-426614174000@h.io:443?encryption=none&security=tls&sni=h.io&fp=chrome&type=ws&host=h.io&path=%2Fvless#kita_temenan_aja"
    );
}

#[test]
fn trojan_link() {
    assert_eq!(
        make_trojan_link("pw", "h.io"),
        "trojan://pw@h.io:443?security=tls&sni=h.io&type=ws&host=h.io&path=%2Ftrojan#kita_temenan_aja"
    );
}

#[test]
fn clash_entries() {
    assert_eq!(
        make_clash(Protocol::Vless, "u", "h"),
        "- name: \"kita temenan aja\"\n  type: vless\n  server: h\n  port: 443\n  uuid: u\n  network: ws\n  tls: true\n  udp: true\n  sni: \"h\"\n  ws-opts:\n    path: \"/vless\"\n    headers:\n      host: \"h\""
    );
    assert_eq!(
        make_clash(Protocol::Trojan, "u", "h"),
        "- name: \"kita temenan aja\"\n  type: trojan\n  server: h\n  port: 443\n  password: u\n  network: ws\n  tls: true\n  udp: true\n  sni: \"h\"\n  ws-opts:\n    path: \"/trojan\"\n    headers:\n      host: \"h\""
    );
    assert_eq!(
        make_clash(Protocol::Vmess, "u", "h"),
        "- name: \"kita temenan aja\"\n  type: vmess\n  server: h\n  port: 443\n  uuid: u\n  alterId: 0\n  cipher: auto\n  network: ws\n  tls: true\n  udp: true\n  sni: \"h\"\n  ws-opts:\n    path: \"/vmess\"\n    headers:\n      host: \"h\""
    );
}

#[test]
fn vmess_link_is_base64_of_the_object() {
    assert_eq!(make_vmess_link("{}"), "vmess://e30=");
    assert_eq!(make_vmess_link("abc"), "vmess://YWJj");
    assert_eq!(make_vmess_link("ab"), "vmess://YWI=");
    assert_eq!(make_vmess_link(""), "vmess://");
}

#[test]
fn vmess_config_object() {
    let c = make_config(Protocol::Vmess, U, "h.io").unwrap();
    let b64 = c.link.strip_prefix("vmess://").unwrap();
    let json = base64::engine::general_purpose::STANDARD.decode(b64).unwrap();
    let v: serde_json::Value = serde_json::from_slice(&json).unwrap();
    let expect = [
        ("v", "2"),
        ("ps", "kita temenan aja"),
        ("add", "h.io"),
        ("port", "443"),
        ("id", U),
        ("aid", "0"),
        ("scy", "auto"),
        ("net", "ws"),
        ("type", "none"),
        ("host", "h.io"),
        ("path", "/vmess"),
        ("tls", "tls"),
        ("sni", "h.io"),
        ("alpn", ""),
    ];
    let obj = v.as_object().unwrap();
    assert_eq!(obj.len(), expect.len());
    for (k, val) in expect {
        assert_eq!(obj[k].as_str(), Some(val));
    }
}

#[test]
fn caption_presents_the_config() {
    assert_eq!(
        make_caption("VLESS", "L", "C"),
        "\u{26A1} <b>Small, Fast &amp; High Performance!</b>\n\n<b>VLESS:</b>\n<code>L</code>\n\n<b>CLASH META / V2RAY:</b>\n<code>\nC\n</code>"
    );
}

#[test]
fn issued_configs_use_fresh_ids() {
    let a = issue_config(Protocol::Vless).unwrap();
    let b = issue_config(Protocol::Vless).unwrap();
    assert_eq!(a.uuid.len(), 36);
    assert_ne!(a.uuid, b.uuid);
    assert_eq!(a.link, make_vless_link(&a.uuid, HOST));
    assert_eq!(a.clash, make_clash(Protocol::Vless, &a.uuid, HOST));
    assert_eq!(a.caption, make_caption("VLESS", &a.link, &a.clash));
    assert_eq!(a.uuid.chars().nth(14), Some('4'));
}

#[test]
fn qr_code_address() {
    assert_eq!(
        qr_code_url("vless://a@b:443?x=1&y=2#z w").unwrap(),
        "https://api.qrserver.com/v1/create-qr-code/?size=400x400&margin=10&data=vless%3A%2F%2Fa%40b%3A443%3Fx%3D1%26y%3D2%23z+w"
    );
}
