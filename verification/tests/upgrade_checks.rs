use web_socket_io::upgrade::{accept_upgrade, header_contains, header_eq, sign};

#[test]
fn sign_derives_known_accept_value() {
    // the worked example of the WebSocket handshake
    let accept = sign(b"dGhlIHNhbXBsZSBub25jZQ==");
    assert_eq!(accept, "s3pPLMBiTxaQ9kYGzzhZRbK+xOo=");
}

#[test]
fn sign_depends_on_the_key() {
    assert_ne!(sign(b"one key"), sign(b"another"));
    // base64 of a 20-byte digest: 28 characters with one '=' of padding
    let accept = sign(b"abc");
    assert_eq!(accept.len(), 28);
    assert!(accept.ends_with('='));
}

#[test]
fn header_eq_ignores_ascii_case() {
    assert!(header_eq(b"WebSocket", b"websocket"));
    assert!(header_eq(b"websocket", b"websocket"));
    assert!(!header_eq(b"websockets", b"websocket"));
    assert!(!header_eq(b"13", b"12"));
    assert!(header_eq(b"13", b"13"));
}

#[test]
fn header_contains_finds_token() {
    assert!(header_contains(b"keep-alive, Upgrade", b"upgrade"));
    assert!(header_contains(b"Upgrade", b"upgrade"));
    assert!(!header_contains(b"keep-alive", b"upgrade"));
    // an invalid UTF-8 header never matches
    assert!(!header_contains(&[0xFF, 0xFE], b""));
}

fn good_headers() -> (
    Option<&'static [u8]>,
    Option<&'static [u8]>,
    Option<&'static [u8]>,
    Option<&'static [u8]>,
    Option<&'static [u8]>,
) {
    (
        Some(b"Upgrade"),
        Some(b"websocket"),
        Some(b"13"),
        Some(b"websocket.io-rpc-v0.1"),
        Some(b"dGhlIHNhbXBsZSBub25jZQ=="),
    )
}

#[test]
fn accept_upgrade_happy_path() {
    let (c, u, v, p, k) = good_headers();
    let accept = accept_upgrade(true, c, u, v, p, k).unwrap();
    assert_eq!(accept, "s3pPLMBiTxaQ9kYGzzhZRbK+xOo=");
}

#[test]
fn accept_upgrade_rejects_bad_requests() {
    let (c, u, v, p, k) = good_headers();
    assert!(accept_upgrade(false, c, u, v, p, k).is_none());
    assert!(accept_upgrade(true, None, u, v, p, k).is_none());
    assert!(accept_upgrade(true, Some(b"close"), u, v, p, k).is_none());
    assert!(accept_upgrade(true, c, Some(b"h2c"), v, p, k).is_none());
    assert!(accept_upgrade(true, c, u, Some(b"8"), p, k).is_none());
    assert!(accept_upgrade(true, c, u, v, Some(b"some.other.protocol"), k).is_none());
    assert!(accept_upgrade(true, c, u, v, p, None).is_none());
}
