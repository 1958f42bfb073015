use sshws::server::{append_log, dispatch, Dispatch, Server};

#[test]
fn server_keeps_its_settings() {
    let s = Server::new("0.0.0.0", 700, "");
    assert_eq!(s.addr, "0.0.0.0");
    assert_eq!(s.port, 700);
    assert_eq!(s.pass.as_str(), "");
    assert_eq!(s.bind_address(), "0.0.0.0:700");
}

#[test]
fn banner_tells_the_auth_mode() {
    let open = Server::new("127.0.0.1", 80, "");
    assert_eq!(open.auth_line(), "  Auth  : none (local-only mode)");
    let locked = Server::new("127.0.0.1", 80, "pw");
    assert_eq!(locked.auth_line(), "  Auth  : X-Pass header");
    assert_eq!(
        locked.banner(),
        vec![
            "\n:-------RustProxy (SSH-free)-------:".to_string(),
            "  Bind  : 127.0.0.1:80".to_string(),
            "  Auth  : X-Pass header".to_string(),
            ":----------------------------------:\n".to_string(),
        ]
    );
}

#[test]
fn first_packet_sorts_clients() {
    assert_eq!(dispatch(&[]), Dispatch::Close);
    assert_eq!(dispatch(&[5, 1, 0]), Dispatch::Socks5);
    assert_eq!(dispatch(b"GET / HTTP/1.1"), Dispatch::Http);
    assert_eq!(dispatch(&[4]), Dispatch::Http);
}

#[test]
fn log_entries_append() {
    let mut log = "[1.2.3.4:5]".to_string();
    append_log(&mut log, "CONNECT", "example.com:443");
    assert_eq!(log, "[1.2.3.4:5] CONNECT example.com:443");
    append_log(&mut log, "SOCKS5", "x:1");
    assert_eq!(log, "[1.2.3.4:5] CONNECT example.com:443 SOCKS5 x:1");
}
