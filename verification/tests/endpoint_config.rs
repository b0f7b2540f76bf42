use lumen::{bind_host, bind_port, parse_port, DEFAULT_OSC_PORT};

#[test]
fn parse_port_reads_decimal_texts() {
    assert_eq!(parse_port(b"1337"), Some(1337));
    assert_eq!(parse_port(b"0"), Some(0));
    assert_eq!(parse_port(b"070"), Some(70));
    assert_eq!(parse_port(b"65535"), Some(65535));
    assert_eq!(parse_port(b"+80"), Some(80));
}

#[test]
fn parse_port_rejects_what_is_not_a_port() {
    assert_eq!(parse_port(b""), None);
    assert_eq!(parse_port(b"+"), None);
    assert_eq!(parse_port(b"65536"), None);
    assert_eq!(parse_port(b"999999999999999999"), None);
    assert_eq!(parse_port(b"12a"), None);
    assert_eq!(parse_port(b"-1"), None);
    assert_eq!(parse_port(b" 80"), None);
    assert_eq!(parse_port(b"++1"), None);
}

#[test]
fn parse_port_agrees_with_rust_on_sample_texts() {
    for text in ["0", "80", "1337", "65535", "65536", "", "+", "+9000", "4x", "007"] {
        assert_eq!(parse_port(text.as_bytes()), text.parse::<u16>().ok(), "text {:?}", text);
    }
}

#[test]
fn bind_port_defaults_when_unconfigured() {
    assert_eq!(bind_port(None), Some(DEFAULT_OSC_PORT));
    assert_eq!(bind_port(None), Some(1337));
}

#[test]
fn bind_port_reads_the_configured_value() {
    assert_eq!(bind_port(Some("9000")), Some(9000));
    assert_eq!(bind_port(Some("not a port")), None);
}

#[test]
fn bind_host_defaults_to_loopback() {
    assert_eq!(bind_host(None), "127.0.0.1");
    assert_eq!(bind_host(Some("0.0.0.0".to_owned())), "0.0.0.0");
}
