use sshws::socks5::{
    awaited, format_ipv4, socks5_on_bytes, socks5_on_connected, socks5_on_unreachable, socks5_start,
    Socks5Action, Socks5Error, Socks5Stage,
};

fn expect_read(a: &Socks5Action) -> usize {
    match a {
        Socks5Action::Read(n) => *n,
        _ => panic!("expected a read"),
    }
}

#[test]
fn greeting_is_answered_without_auth() {
    let (stage, action) = socks5_start();
    match action {
        Socks5Action::ReplyAndRead { reply, read } => {
            assert_eq!(reply, vec![5u8, 0]);
            assert_eq!(read, 4);
        }
        _ => panic!("expected a reply"),
    }
    assert_eq!(awaited(&stage), Some(4));
}

#[test]
fn ipv4_request_connects_and_tunnels() {
    let (stage, _) = socks5_start();
    let (stage, a) = socks5_on_bytes(stage, &[5, 1, 0, 1], "");
    assert_eq!(expect_read(&a), 4);
    let (stage, a) = socks5_on_bytes(stage, &[127, 0, 0, 1], "");
    assert_eq!(expect_read(&a), 2);
    let (stage, a) = socks5_on_bytes(stage, &[0x1f, 0x90], "");
    match a {
        Socks5Action::Connect { target } => assert_eq!(target, "127.0.0.1:8080"),
        _ => panic!("expected a connect"),
    }
    assert_eq!(awaited(&stage), None);
    let (stage, a) = socks5_on_connected(stage);
    match a {
        Socks5Action::ReplyAndTunnel { reply } => {
            assert_eq!(reply, vec![5u8, 0, 0, 1, 0, 0, 0, 0, 0, 0])
        }
        _ => panic!("expected the success reply"),
    }
    assert!(matches!(stage, Socks5Stage::Tunnel));
}

#[test]
fn domain_request_connects() {
    let (stage, _) = socks5_start();
    let (stage, a) = socks5_on_bytes(stage, &[5, 1, 0, 3], "");
    assert_eq!(expect_read(&a), 1);
    let (stage, a) = socks5_on_bytes(stage, &[9], "");
    assert_eq!(expect_read(&a), 9);
    assert_eq!(awaited(&stage), Some(9));
    let (stage, a) = socks5_on_bytes(stage, b"localhost", "");
    assert_eq!(expect_read(&a), 2);
    let (_, a) = socks5_on_bytes(stage, &[1, 187], "");
    match a {
        Socks5Action::Connect { target } => assert_eq!(target, "localhost:443"),
        _ => panic!("expected a connect"),
    }
}

fn expect_not_allowed(a: Socks5Action) {
    match a {
        Socks5Action::ReplyAndFail { reply, error } => {
            assert_eq!(reply, vec![5u8, 2, 0, 1, 0, 0, 0, 0, 0, 0]);
            assert_eq!(error, Socks5Error::NotAllowed);
            assert_eq!(error.message(), "SOCKS5 target not allowed");
        }
        _ => panic!("expected the ruleset refusal"),
    }
}

#[test]
fn empty_and_invalid_domains_are_not_local() {
    let (stage, _) = socks5_on_bytes(Socks5Stage::DomainLength, &[0], "");
    let (stage, _) = socks5_on_bytes(stage, &[], "");
    match &stage {
        Socks5Stage::Port { address } => assert_eq!(address, ""),
        _ => panic!("expected the port stage"),
    }
    let (stage, a) = socks5_on_bytes(stage, &[0, 80], "");
    assert!(matches!(stage, Socks5Stage::Refused));
    expect_not_allowed(a);
    let (stage, _) = socks5_on_bytes(Socks5Stage::Domain { len: 2 }, &[0xff, b'a'], "");
    match &stage {
        Socks5Stage::Port { address } => assert_eq!(address, "\u{FFFD}a"),
        _ => panic!("expected the port stage"),
    }
}

#[test]
fn remote_targets_are_refused_without_password() {
    for address in ["example.com", "localhost.evil.com", "127.0.0.10", "127.0.0.1.evil.com"] {
        let stage = Socks5Stage::Port { address: address.to_string() };
        let (stage, a) = socks5_on_bytes(stage, &[0, 22], "");
        assert!(matches!(stage, Socks5Stage::Refused));
        expect_not_allowed(a);
    }
    let (_, a) = socks5_on_bytes(Socks5Stage::Ipv4, &[8, 8, 8, 8], "");
    assert_eq!(expect_read(&a), 2);
}

#[test]
fn nothing_is_served_with_a_password() {
    for address in ["127.0.0.1", "localhost", "example.com"] {
        let stage = Socks5Stage::Port { address: address.to_string() };
        let (_, a) = socks5_on_bytes(stage, &[0, 22], "secret");
        expect_not_allowed(a);
    }
}

#[test]
fn unreachable_target_ends_the_negotiation() {
    let stage = Socks5Stage::Port { address: "localhost".to_string() };
    let (stage, _) = socks5_on_bytes(stage, &[0, 22], "");
    let (stage, a) = socks5_on_unreachable(stage);
    assert!(matches!(stage, Socks5Stage::Refused));
    assert!(matches!(a, Socks5Action::Abort));
}

#[test]
fn only_connect_is_served() {
    for cmd in [0u8, 2, 3, 255] {
        let (stage, a) = socks5_on_bytes(Socks5Stage::Header, &[5, cmd, 0, 1], "");
        assert!(matches!(stage, Socks5Stage::Refused));
        match a {
            Socks5Action::Fail(e) => {
                assert_eq!(e, Socks5Error::UnsupportedCommand);
                assert_eq!(e.message(), "Only SOCKS5 CONNECT (0x01) is supported");
            }
            _ => panic!("expected a refusal"),
        }
    }
}

#[test]
fn unknown_address_type_is_refused() {
    let (_, a) = socks5_on_bytes(Socks5Stage::Header, &[5, 1, 0, 4], "");
    match a {
        Socks5Action::Fail(e) => {
            assert_eq!(e, Socks5Error::UnsupportedAddressType(4));
            assert_eq!(e.message(), "Unsupported SOCKS5 address type: 4");
        }
        _ => panic!("expected a refusal"),
    }
}

#[test]
fn dotted_quads() {
    assert_eq!(format_ipv4(&[0, 0, 0, 0]), "0.0.0.0");
    assert_eq!(format_ipv4(&[255, 10, 1, 200]), "255.10.1.200");
}

#[test]
fn port_is_big_endian() {
    let (stage, _) = socks5_on_bytes(Socks5Stage::Ipv4, &[127, 0, 0, 1], "");
    let (_, a) = socks5_on_bytes(stage, &[0xff, 0xff], "");
    match a {
        Socks5Action::Connect { target } => assert_eq!(target, "127.0.0.1:65535"),
        _ => panic!("expected a connect"),
    }
}
