use sshws::numbers::decimal_string;
use sshws::target::{connect_address, join_host_port, split_target, DEFAULT_PORT};

#[test]
fn host_and_port_split() {
    assert_eq!(split_target("example.com:8080"), ("example.com".to_string(), 8080));
}

#[test]
fn missing_port_is_443() {
    assert_eq!(split_target("example.com"), ("example.com".to_string(), DEFAULT_PORT));
    assert_eq!(DEFAULT_PORT, 443);
}

#[test]
fn unreadable_port_is_443() {
    assert_eq!(split_target("a:b"), ("a".to_string(), 443));
    assert_eq!(split_target("a:"), ("a".to_string(), 443));
    assert_eq!(split_target("a:70000"), ("a".to_string(), 443));
    assert_eq!(split_target("a:-1"), ("a".to_string(), 443));
    assert_eq!(split_target("a:+"), ("a".to_string(), 443));
}

#[test]
fn port_reads_like_from_str() {
    assert_eq!(split_target("a:+22"), ("a".to_string(), 22));
    assert_eq!(split_target("a:0080"), ("a".to_string(), 80));
    assert_eq!(split_target("a:65535"), ("a".to_string(), 65535));
}

#[test]
fn split_at_last_colon() {
    assert_eq!(split_target("[::1]:22"), ("[::1]".to_string(), 22));
    assert_eq!(split_target("a:b:c"), ("a:b".to_string(), 443));
}

#[test]
fn connect_address_fills_in_port() {
    assert_eq!(connect_address("example.com"), "example.com:443");
    assert_eq!(connect_address("x:bad"), "x:443");
    assert_eq!(connect_address("x:+7"), "x:7");
}

#[test]
fn host_port_round_trip() {
    for (h, p) in [("h", 0u16), ("a:b", 65535), ("", 1), ("[::1]", 22)] {
        let t = join_host_port(h, p);
        assert_eq!(split_target(&t), (h.to_string(), p));
    }
}

#[test]
fn decimals() {
    assert_eq!(decimal_string(0), "0");
    assert_eq!(decimal_string(7), "7");
    assert_eq!(decimal_string(65535), "65535");
    assert_eq!(decimal_string(u64::MAX), "18446744073709551615");
}

#[test]
fn connects_where_asked() {
    assert_eq!(connect_address("example.com:8080"), "example.com:8080");
    assert_eq!(connect_address("127.0.0.1:22"), "127.0.0.1:22");
}
