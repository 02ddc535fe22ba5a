use coco_ws::handshake::{build_handshake, new_handshake};

fn pairs(h: &[(String, String)]) -> Vec<(&str, &str)> {
    h.iter().map(|(n, v)| (n.as_str(), v.as_str())).collect()
}

#[test]
fn handshake_without_token_has_no_auth_header() {
    let req = build_handshake("ws://h/ws".to_string(), "dGhlIHNhbXBsZSBub25jZQ==", None).unwrap();
    assert_eq!(req.url, "ws://h/ws");
    assert_eq!(
        pairs(&req.headers),
        vec![
            ("Connection", "Upgrade"),
            ("Upgrade", "websocket"),
            ("Sec-WebSocket-Version", "13"),
            ("Sec-WebSocket-Key", "dGhlIHNhbXBsZSBub25jZQ=="),
        ]
    );
    assert!(req.headers.iter().all(|(n, _)| n != "X-API-TOKEN"));
}

#[test]
fn handshake_with_token_has_one_auth_header() {
    let req = build_handshake("wss://h/ws".to_string(), "k", Some("tok en-1")).unwrap();
    let auth: Vec<_> = req.headers.iter().filter(|(n, _)| n == "X-API-TOKEN").collect();
    assert_eq!(auth.len(), 1);
    assert_eq!(auth[0].1, "tok en-1");
    assert_eq!(req.headers.len(), 5);
}

#[test]
fn control_character_in_token_is_an_encoding_error() {
    let e = build_handshake("ws://h/ws".to_string(), "k", Some("bad\ntoken")).err().unwrap();
    assert_eq!(e.header, "X-API-TOKEN");
    let e = build_handshake("ws://h/ws".to_string(), "k", Some("del\u{7f}")).err().unwrap();
    assert_eq!(e.header, "X-API-TOKEN");
}

#[test]
fn tab_and_non_ascii_are_valid_values() {
    assert!(build_handshake("ws://h/ws".to_string(), "k", Some("a\tb é")).is_ok());
}

#[test]
fn bad_key_is_an_encoding_error() {
    let e = build_handshake("ws://h/ws".to_string(), "k\r\n", Some("t")).err().unwrap();
    assert_eq!(e.header, "Sec-WebSocket-Key");
}

#[test]
fn each_handshake_gets_a_fresh_key() {
    let a = new_handshake("ws://h/ws".to_string(), None).unwrap();
    let b = new_handshake("ws://h/ws".to_string(), None).unwrap();
    let ka = &a.headers[3];
    let kb = &b.headers[3];
    assert_eq!(ka.0, "Sec-WebSocket-Key");
    assert_eq!(ka.1.len(), 24);
    assert_ne!(ka.1, kb.1);
}

#[test]
fn new_handshake_refuses_bad_token() {
    let e = new_handshake("ws://h/ws".to_string(), Some("x\u{1}")).err().unwrap();
    assert_eq!(e.header, "X-API-TOKEN");
}
