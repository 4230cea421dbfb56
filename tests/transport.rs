use granita::transport::{decode_body, resolve_target, HttpError, DEFAULT_PORT};

#[test]
fn resolve_uses_default_port() {
    let target = resolve_target("http://example.com/test").unwrap();
    assert_eq!(target.host, "example.com");
    assert_eq!(target.port, DEFAULT_PORT);
    assert_eq!(target.port, 80);
    assert_eq!(target.authority, "example.com");
}

#[test]
fn resolve_uses_written_port() {
    let target = resolve_target("http://127.0.0.1:8080/test").unwrap();
    assert_eq!(target.host, "127.0.0.1");
    assert_eq!(target.port, 8080);
    assert_eq!(target.authority, "127.0.0.1:8080");
}

#[test]
fn resolve_rejects_url_without_host() {
    match resolve_target("/test") {
        Err(HttpError::Uri(m)) => assert_eq!(m, "No host"),
        _ => panic!("expected a URI error"),
    }
}

#[test]
fn resolve_rejects_unparsable_url() {
    match resolve_target("") {
        Err(HttpError::Uri(m)) => {
            assert!(!m.is_empty());
            assert_ne!(m, "No host");
        }
        _ => panic!("expected a URI error"),
    }
    assert!(matches!(resolve_target("http://exa mple.com"), Err(HttpError::Uri(_))));
}

#[test]
fn decode_body_reads_utf8() {
    assert_eq!(decode_body(vec![0x6f, 0x6b]).unwrap(), "ok");
    assert_eq!(decode_body(vec![0xc3, 0xa9]).unwrap(), "\u{e9}");
}

#[test]
fn decode_body_rejects_invalid_utf8() {
    assert!(matches!(decode_body(vec![0xff, 0xfe]), Err(HttpError::Utf8(_))));
}

#[test]
fn resolve_keeps_bracketed_ipv6_host() {
    let target = resolve_target("http://[::1]:8080/").unwrap();
    assert_eq!(target.host, "[::1]");
    assert_eq!(target.port, 8080);
    assert_eq!(target.authority, "[::1]:8080");
}
