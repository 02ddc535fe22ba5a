use coco_ws::endpoint::{convert_to_websocket, websocket_endpoint, UrlParts};

#[test]
fn https_without_port_gives_wss() {
    assert_eq!(
        convert_to_websocket("https://coco.example.com"),
        Ok("wss://coco.example.com/ws".to_string())
    );
}

#[test]
fn http_with_port_keeps_port() {
    assert_eq!(
        convert_to_websocket("http://localhost:9200"),
        Ok("ws://localhost:9200/ws".to_string())
    );
}

#[test]
fn http_default_port_is_elided() {
    assert_eq!(convert_to_websocket("http://localhost"), Ok("ws://localhost/ws".to_string()));
    assert_eq!(convert_to_websocket("http://localhost:80"), Ok("ws://localhost/ws".to_string()));
}

#[test]
fn https_explicit_default_port_is_elided() {
    assert_eq!(convert_to_websocket("https://h.example:443/"), Ok("wss://h.example/ws".to_string()));
}

#[test]
fn https_other_port_is_kept() {
    assert_eq!(
        convert_to_websocket("https://h.example:8443/api/v1?x=1"),
        Ok("wss://h.example:8443/ws".to_string())
    );
}

#[test]
fn http_on_port_443_keeps_it() {
    assert_eq!(convert_to_websocket("http://h.example:443"), Ok("ws://h.example:443/ws".to_string()));
}

#[test]
fn path_is_replaced() {
    assert_eq!(
        convert_to_websocket("http://127.0.0.1:2900/some/path"),
        Ok("ws://127.0.0.1:2900/ws".to_string())
    );
}

#[test]
fn unparseable_url_is_invalid() {
    let r = convert_to_websocket("not a url");
    let msg = r.unwrap_err();
    assert!(msg.starts_with("Invalid URL: "));
    assert!(msg.len() > "Invalid URL: ".len());
}

#[test]
fn url_without_host_is_refused() {
    assert_eq!(convert_to_websocket("unix:/run/foo.socket"), Err("No host found in URL".to_string()));
}

#[test]
fn parts_with_unknown_scheme_use_ws_default() {
    let parts = UrlParts {
        scheme: "foo".to_string(),
        host: Some("h".to_string()),
        port: None,
        known_port: None,
    };
    assert_eq!(websocket_endpoint(&parts), Ok("ws://h/ws".to_string()));
    let parts = UrlParts {
        scheme: "ftp".to_string(),
        host: Some("h".to_string()),
        port: None,
        known_port: Some(21),
    };
    assert_eq!(websocket_endpoint(&parts), Ok("ws://h:21/ws".to_string()));
}

#[test]
fn large_port_is_written_in_decimal() {
    assert_eq!(
        convert_to_websocket("http://h:65535"),
        Ok("ws://h:65535/ws".to_string())
    );
    assert_eq!(convert_to_websocket("http://h:1"), Ok("ws://h:1/ws".to_string()));
}
