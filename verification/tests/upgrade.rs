use futures_util::future::FutureExt;
use hyper::header::HeaderValue;
use hyper::HeaderMap;
use rustgram_ws::ws::{
    accept_res, accept_value, challenge, eq_ignore_ascii_case, err_res, handshake, header_contains,
    header_eq, sign, text_contains, upgraded_or_call, DefaultOnFailedUpgrade, Error, OnFailedUpgrade, Response,
};
use std::sync::{Arc, Mutex};

fn headers(entries: &[(&'static str, &'static [u8])]) -> HeaderMap {
    let mut headers = HeaderMap::new();
    for (name, value) in entries {
        headers.append(*name, HeaderValue::from_bytes(value).unwrap());
    }
    headers
}

fn request() -> Vec<(&'static str, &'static [u8])> {
    vec![
        ("host", b"example.com"),
        ("connection", b"keep-alive, Upgrade"),
        ("upgrade", b"WebSocket"),
        ("sec-websocket-version", b"13"),
        ("sec-websocket-key", b"dGhlIHNhbXBsZSBub25jZQ=="),
    ]
}

fn request_with(name: &'static str, value: &'static [u8]) -> HeaderMap {
    let mut entries = request();
    entries.retain(|entry| entry.0 != name);
    entries.push((name, value));
    headers(&entries)
}

fn request_without(name: &'static str) -> HeaderMap {
    let mut entries = request();
    entries.retain(|entry| entry.0 != name);
    headers(&entries)
}

fn accepted(result: Result<Response, Response>) -> Response {
    match result {
        Ok(response) => response,
        Err(response) => panic!("refused: {}", response.body),
    }
}

fn refused(result: Result<Response, Response>) -> &'static str {
    match result {
        Ok(_) => panic!("accepted"),
        Err(response) => {
            assert_eq!(response.status, 400);
            assert!(response.headers.is_empty());
            response.body
        }
    }
}

#[test]
fn sign_of_the_sample_nonce() {
    assert_eq!(sign(b"dGhlIHNhbXBsZSBub25jZQ=="), b"s3pPLMBiTxaQ9kYGzzhZRbK+xOo=".to_vec());
    assert_eq!(sign(b"x3JJHMbDL1EzLkh9GBhXDw=="), b"HSmrc0sMlYUkAGmm5OPpG2HaGWk=".to_vec());
}

#[test]
fn parts_of_the_answer() {
    assert_eq!(challenge(b"key"), b"key258EAFA5-E914-47DA-95CA-C5AB0DC85B11".to_vec());
    assert_eq!(accept_value(&[0; 20]), b"AAAAAAAAAAAAAAAAAAAAAAAAAAA=".to_vec());
    assert_eq!(accept_value(&[255; 20]), b"//////////////////////////8=".to_vec());
    let counted: [u8; 20] = [0, 1, 2, 3, 4, 5, 6, 7, 8, 9, 10, 11, 12, 13, 14, 15, 16, 17, 18, 19];
    assert_eq!(accept_value(&counted), b"AAECAwQFBgcICQoLDA0ODxAREhM=".to_vec());
}

#[test]
fn request_is_accepted() {
    let response = accepted(handshake(&headers(&request())));
    assert_eq!(response.status, 101);
    assert_eq!(response.body, "");
    assert_eq!(response.headers.len(), 3);
    assert!(response.headers.get("sec-websocket-protocol").is_none());
    assert_eq!(response.headers.get("connection").unwrap(), "upgrade");
    assert_eq!(response.headers.get("upgrade").unwrap(), "websocket");
    assert_eq!(
        response.headers.get("sec-websocket-accept").unwrap(),
        "s3pPLMBiTxaQ9kYGzzhZRbK+xOo="
    );
}

#[test]
fn requests_are_refused() {
    let connection = "Connection header did not include 'upgrade'";
    let upgrade = "`Upgrade` header did not include 'websocket'";
    let version = "`Sec-WebSocket-Version` header did not include '13'";
    let key = "`Sec-WebSocket-Key` header missing";
    assert_eq!(refused(handshake(&HeaderMap::new())), connection);
    assert_eq!(refused(handshake(&request_without("connection"))), connection);
    assert_eq!(refused(handshake(&request_with("connection", b"keep-alive"))), connection);
    assert_eq!(refused(handshake(&request_with("connection", b"upgrade \xff"))), connection);
    assert_eq!(refused(handshake(&request_without("upgrade"))), upgrade);
    assert_eq!(refused(handshake(&request_with("upgrade", b"websockets"))), upgrade);
    assert_eq!(refused(handshake(&request_without("sec-websocket-version"))), version);
    assert_eq!(refused(handshake(&request_with("sec-websocket-version", b"8"))), version);
    assert_eq!(refused(handshake(&request_without("sec-websocket-key"))), key);
}

#[test]
fn case_has_no_influence() {
    accepted(handshake(&request_with("connection", b"UPGRADE")));
    accepted(handshake(&request_with("connection", b"uPgRaDe")));
    accepted(handshake(&request_with("upgrade", b"WEBSOCKET")));
    accepted(handshake(&request_with("upgrade", b"websocket")));
}

#[test]
fn first_value_counts() {
    let mut entries = request();
    entries.push(("upgrade", b"h2c"));
    accepted(handshake(&headers(&entries)));
    let mut entries = vec![("upgrade", &b"h2c"[..])];
    entries.extend(request());
    assert_eq!(
        refused(handshake(&headers(&entries))),
        "`Upgrade` header did not include 'websocket'"
    );
}

#[test]
fn the_key_can_be_any_value() {
    let response = accepted(handshake(&request_with("sec-websocket-key", b"")));
    assert_eq!(
        response.headers.get("sec-websocket-accept").unwrap().as_bytes(),
        sign(b"").as_slice()
    );
    let response = accepted(handshake(&request_with("sec-websocket-key", b"\xfe\xff")));
    assert_eq!(
        response.headers.get("sec-websocket-accept").unwrap().as_bytes(),
        sign(b"\xfe\xff").as_slice()
    );
}

#[test]
fn header_eq_compares_whole_values() {
    let headers = headers(&[("upgrade", b"WebSocket"), ("x-empty", b""), ("x-raw", b"\xe4")]);
    assert!(header_eq(&headers, "upgrade", "websocket"));
    assert!(header_eq(&headers, "upgrade", "WEBsocket"));
    assert!(header_eq(&headers, "Upgrade", "websocket"));
    assert!(!header_eq(&headers, "upgrade", "websocke"));
    assert!(!header_eq(&headers, "upgrade", "websocket "));
    assert!(!header_eq(&headers, "upgrade", "websocked"));
    assert!(header_eq(&headers, "x-empty", ""));
    assert!(!header_eq(&headers, "x-none", ""));
    assert!(!header_eq(&headers, "no header name", ""));
    assert!(!header_eq(&headers, "x-raw", "\u{e4}"));
}

#[test]
fn header_contains_looks_for_a_part() {
    let headers = headers(&[
        ("connection", b"keep-alive, Upgrade, \xc3\xa4"),
        ("x-raw", b"upgrade\xe4"),
        ("x-empty", b""),
    ]);
    assert!(header_contains(&headers, "connection", "upgrade"));
    assert!(header_contains(&headers, "CONNECTION", "keep"));
    assert!(header_contains(&headers, "connection", "\u{e4}"));
    assert!(header_contains(&headers, "connection", ""));
    assert!(!header_contains(&headers, "connection", "Upgrade"));
    assert!(!header_contains(&headers, "connection", "upgraded"));
    assert!(!header_contains(&headers, "x-raw", "upgrade"));
    assert!(header_contains(&headers, "x-empty", ""));
    assert!(!header_contains(&headers, "x-empty", "u"));
    assert!(!header_contains(&headers, "x-none", ""));
}

#[test]
fn an_equal_value_is_contained() {
    let headers = headers(&[("upgrade", b"WebSocket")]);
    assert!(header_eq(&headers, "upgrade", "websocket"));
    assert!(header_contains(&headers, "upgrade", "websocket"));
}

#[test]
fn responses() {
    let response = err_res("no");
    assert_eq!(response.status, 400);
    assert_eq!(response.body, "no");
    assert!(response.headers.is_empty());
    let response = accept_res(b"answer".to_vec());
    assert_eq!(response.status, 101);
    assert_eq!(response.headers.get("sec-websocket-accept").unwrap(), "answer");
}

fn failed_upgrade() -> Result<hyper::upgrade::Upgraded, hyper::Error> {
    let request = hyper::Request::new(hyper::Body::empty());
    hyper::upgrade::on(request).now_or_never().unwrap()
}

#[test]
fn failed_upgrades_are_reported() {
    let seen: Arc<Mutex<Vec<Error>>> = Arc::new(Mutex::new(Vec::new()));
    let sink = seen.clone();
    let callback = move |error: Error| sink.lock().unwrap().push(error);
    assert!(upgraded_or_call(failed_upgrade(), callback).is_none());
    let seen = seen.lock().unwrap();
    assert_eq!(seen.len(), 1);
    assert!(matches!(seen[0], Error::Upgrade(_)));
}

#[test]
fn failed_upgrades_can_be_ignored() {
    fn ignore<E: OnFailedUpgrade>(callback: E) {
        assert!(upgraded_or_call(failed_upgrade(), callback).is_none());
    }
    ignore(|_error: Error| {});
    ignore(DefaultOnFailedUpgrade::default());
}

#[test]
fn upgraded_connections_are_handed_on() {
    let callback = |_error: Error| panic!("nothing failed");
    assert_eq!(upgraded_or_call(Ok(7), callback), Some(7));
}

#[test]
fn values_are_compared_by_their_bytes() {
    assert!(eq_ignore_ascii_case(b"aZ[\xc4", b"Az[\xc4"));
    assert!(!eq_ignore_ascii_case(b"[", b"{"));
    assert!(!eq_ignore_ascii_case(b"\xc4", b"\xe4"));
    assert!(text_contains(b"a, UPGRADE", "upgrade"));
    assert!(!text_contains(b"a, UPGRADE\xff", "upgrade"));
    assert!(!text_contains(b"upgrad", "upgrade"));
}

#[test]
fn answers_end_with_one_pad() {
    for key in ["", "a", "dGhlIHNhbXBsZSBub25jZQ=="] {
        let answer = sign(key.as_bytes());
        assert_eq!(answer.len(), 28);
        assert_eq!(answer[27], b'=');
        assert_ne!(answer[26], b'=');
    }
}
