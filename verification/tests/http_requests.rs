use sshws::http::{
    access_decision, connect_reply, extract_connect_host, find_header, local_target, plan_http,
    plan_http_request, refusal, Verdict, DEFAULT_TARGET, AUTH_REQUIRED, BAD_GATEWAY, FORBIDDEN, RESPONSE,
};

#[test]
fn header_found_on_a_later_line() {
    let h = "GET / HTTP/1.1\r\nHost: a\r\nX-Real-Host: example.com:443\r\n\r\n";
    assert_eq!(find_header(h, "X-Real-Host"), Some("example.com:443".to_string()));
}

#[test]
fn header_name_is_case_sensitive() {
    let h = "GET / HTTP/1.1\r\nx-real-host: example.com:443\r\n\r\n";
    assert_eq!(find_header(h, "X-Real-Host"), None);
}

#[test]
fn header_needs_colon_and_space() {
    assert_eq!(find_header("A\r\nX-Pass:secret\r\n", "X-Pass"), None);
    assert_eq!(find_header("A\r\nX-Pass: \r\n", "X-Pass"), Some(String::new()));
}

#[test]
fn first_matching_header_wins() {
    let h = "X-Pass: one\r\nX-Pass: two\r\n";
    assert_eq!(find_header(h, "X-Pass"), Some("one".to_string()));
}

#[test]
fn header_on_last_line_without_separator() {
    assert_eq!(find_header("GET /\r\nX-Split: 1", "X-Split"), Some("1".to_string()));
}

#[test]
fn header_first_line_law_example() {
    let h = "X-Real-Host: host:9\r\nanything\r\n";
    assert_eq!(find_header(h, "X-Real-Host"), Some("host:9".to_string()));
}

#[test]
fn connect_line_gives_target() {
    let h = "CONNECT example.com:443 HTTP/1.1\r\nHost: example.com\r\n\r\n";
    assert_eq!(extract_connect_host(h), Some("example.com:443".to_string()));
}

#[test]
fn connect_method_any_case_and_spacing() {
    assert_eq!(extract_connect_host("  connect\ta.b:1  HTTP/1.1"), Some("a.b:1".to_string()));
    assert_eq!(extract_connect_host("CoNnEcT x:2"), Some("x:2".to_string()));
}

#[test]
fn non_connect_lines_give_nothing() {
    assert_eq!(extract_connect_host("GET / HTTP/1.1\r\n"), None);
    assert_eq!(extract_connect_host("CONNECT\r\nexample.com:1 x"), None);
    assert_eq!(extract_connect_host(""), None);
    assert_eq!(extract_connect_host("CONNECTED a:1"), None);
}

#[test]
fn no_password_local_target_is_tunnelled() {
    let p = plan_http("GET / HTTP/1.1\r\nX-Real-Host: 127.0.0.1:22\r\n\r\n", "");
    assert_eq!(p.target, "127.0.0.1:22");
    assert_eq!(p.verdict, Verdict::Tunnel);
    assert!(!p.swallow_extra);
}

#[test]
fn no_password_localhost_is_tunnelled() {
    let p = plan_http("CONNECT localhost:22 HTTP/1.1\r\n\r\n", "");
    assert_eq!(p.target, "localhost:22");
    assert_eq!(p.verdict, Verdict::Tunnel);
}

#[test]
fn no_password_remote_target_is_forbidden() {
    let p = plan_http("CONNECT example.com:22 HTTP/1.1\r\n\r\n", "");
    assert_eq!(p.target, "example.com:22");
    assert_eq!(p.verdict, Verdict::Forbidden);
    assert_eq!(refusal(p.verdict), Some(FORBIDDEN));
}

#[test]
fn no_target_falls_back_to_local_ssh() {
    let p = plan_http("GET / HTTP/1.1\r\nUpgrade: websocket\r\n\r\n", "");
    assert_eq!(p.target, "127.0.0.1:111");
    assert_eq!(p.target, DEFAULT_TARGET);
    assert_eq!(p.verdict, Verdict::Tunnel);
}

#[test]
fn empty_real_host_falls_back_to_connect_line() {
    let p = plan_http("CONNECT b.c:5 HTTP/1.1\r\nX-Real-Host: \r\n\r\n", "");
    assert_eq!(p.target, "b.c:5");
}

#[test]
fn real_host_wins_over_connect_line() {
    let p = plan_http("CONNECT b.c:5 HTTP/1.1\r\nX-Real-Host: d.e:6\r\n\r\n", "pw");
    assert_eq!(p.target, "d.e:6");
}

#[test]
fn right_password_tunnels_anywhere() {
    let p = plan_http("GET / HTTP/1.1\r\nX-Real-Host: example.com:22\r\nX-Pass: secret\r\n\r\n", "secret");
    assert_eq!(p.verdict, Verdict::Tunnel);
    assert_eq!(refusal(p.verdict), None);
}

#[test]
fn wrong_or_missing_password_is_refused() {
    let p = plan_http("GET / HTTP/1.1\r\nX-Real-Host: 127.0.0.1:22\r\nX-Pass: nope\r\n\r\n", "secret");
    assert_eq!(p.verdict, Verdict::AuthRequired);
    assert_eq!(refusal(p.verdict), Some(AUTH_REQUIRED));
    let q = plan_http("GET / HTTP/1.1\r\nX-Real-Host: 127.0.0.1:22\r\n\r\n", "secret");
    assert_eq!(q.verdict, Verdict::AuthRequired);
}

#[test]
fn split_header_asks_for_an_extra_read() {
    assert!(plan_http("GET /\r\nX-Split: yes\r\n", "").swallow_extra);
    assert!(!plan_http("GET /\r\nX-Split: \r\n", "").swallow_extra);
}

#[test]
fn request_bytes_are_decoded_lossily() {
    let p = plan_http_request(b"CONNECT \xffhost:7 HTTP/1.1\r\n\r\n", "");
    assert_eq!(p.target, "\u{FFFD}host:7");
    assert_eq!(p.verdict, Verdict::Forbidden);
    let q = plan_http_request(b"CONNECT 127.0.0.1:9 HTTP/1.1\r\n\r\n", "");
    assert_eq!(q.target, "127.0.0.1:9");
    assert_eq!(q.verdict, Verdict::Tunnel);
}

#[test]
fn look_alike_hosts_are_not_local() {
    for t in ["localhost.evil.com:22", "127.0.0.1.evil.com:80", "127.0.0.10:22", "localhostx", "127.0.0.1x:1"] {
        let p = plan_http(&format!("CONNECT {t} HTTP/1.1\r\n\r\n"), "");
        assert_eq!(p.target, t);
        assert_eq!(p.verdict, Verdict::Forbidden, "{t}");
        assert!(!local_target(t));
    }
}

#[test]
fn local_hosts_with_or_without_port() {
    for t in ["127.0.0.1", "localhost", "127.0.0.1:22", "localhost:bad", "localhost:"] {
        assert!(local_target(t), "{t}");
        assert_eq!(access_decision("", "", t), Verdict::Tunnel);
    }
    assert!(!local_target("[::1]:22"));
    assert!(!local_target("x:localhost"));
}

#[test]
fn access_decision_with_password() {
    assert_eq!(access_decision("pw", "pw", "example.com:1"), Verdict::Tunnel);
    assert_eq!(access_decision("", "pw", "127.0.0.1:1"), Verdict::AuthRequired);
    assert_eq!(access_decision("", "", "example.com:1"), Verdict::Forbidden);
}

#[test]
fn replies_after_connecting() {
    assert_eq!(connect_reply(true), RESPONSE);
    assert_eq!(connect_reply(false), BAD_GATEWAY);
    assert_eq!(BAD_GATEWAY, "HTTP/1.1 502 Bad Gateway\r\n\r\n");
}
