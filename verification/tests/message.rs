use rustgram_ws::ws::{CloseFrame, Error, Message, Utf8Error};
use std::borrow::Cow;

fn close(code: u16, reason: &'static str) -> Message {
    Message::Close(Some(CloseFrame { code, reason: Cow::Borrowed(reason) }))
}

#[test]
fn into_data_of_each_kind() {
    assert_eq!(Message::Text("h\u{e9}".to_string()).into_data(), vec![0x68, 0xc3, 0xa9]);
    assert_eq!(Message::Binary(vec![1, 2, 255]).into_data(), vec![1, 2, 255]);
    assert_eq!(Message::Ping(vec![3]).into_data(), vec![3]);
    assert_eq!(Message::Pong(vec![4, 5]).into_data(), vec![4, 5]);
    assert_eq!(Message::Close(None).into_data(), Vec::<u8>::new());
    assert_eq!(close(1000, "bye").into_data(), b"bye".to_vec());
    let owned = Message::Close(Some(CloseFrame { code: 1001, reason: Cow::Owned("gone".to_string()) }));
    assert_eq!(owned.into_data(), b"gone".to_vec());
}

#[test]
fn into_text_of_each_kind() {
    assert_eq!(Message::Text("a\u{1f600}".to_string()).into_text().unwrap(), "a\u{1f600}");
    assert_eq!(Message::Binary(vec![0x68, 0xc3, 0xa9]).into_text().unwrap(), "h\u{e9}");
    assert_eq!(Message::Ping(b"ping".to_vec()).into_text().unwrap(), "ping");
    assert_eq!(Message::Pong(b"pong".to_vec()).into_text().unwrap(), "pong");
    assert_eq!(Message::Close(None).into_text().unwrap(), "");
    assert_eq!(close(1000, "bye").into_text().unwrap(), "bye");
}

#[test]
fn to_text_of_each_kind() {
    assert_eq!(Message::Text("abc".to_string()).to_text().unwrap(), "abc");
    assert_eq!(Message::Binary(vec![0x68, 0xc3, 0xa9]).to_text().unwrap(), "h\u{e9}");
    assert_eq!(Message::Ping(b"ping".to_vec()).to_text().unwrap(), "ping");
    assert_eq!(Message::Pong(b"pong".to_vec()).to_text().unwrap(), "pong");
    assert_eq!(Message::Close(None).to_text().unwrap(), "");
    assert_eq!(close(1000, "bye").to_text().unwrap(), "bye");
    let owned = Message::Close(Some(CloseFrame { code: 1001, reason: Cow::Owned("gone".to_string()) }));
    assert_eq!(owned.to_text().unwrap(), "gone");
}

fn utf8_error(result: Result<String, Error>) -> Utf8Error {
    match result {
        Err(Error::Utf8(e)) => e,
        _ => panic!("a UTF-8 error was expected"),
    }
}

#[test]
fn text_of_invalid_bytes() {
    let e = utf8_error(Message::Binary(vec![0x61, 0x62, 0xff, 0x63]).into_text());
    assert_eq!(e, Utf8Error { valid_up_to: 2, error_len: Some(1) });
    let e = utf8_error(Message::Ping(vec![0x61, 0xe2, 0x82]).into_text());
    assert_eq!(e, Utf8Error { valid_up_to: 1, error_len: None });
    let e = utf8_error(Message::Pong(vec![0xed, 0xa0, 0x80]).into_text());
    assert_eq!(e, Utf8Error { valid_up_to: 0, error_len: Some(1) });

    let message = Message::Binary(vec![0x61, 0x62, 0xff, 0x63]);
    let e = utf8_error(message.to_text().map(|text| text.to_string()));
    assert_eq!(e, Utf8Error { valid_up_to: 2, error_len: Some(1) });
    let message = Message::Pong(vec![0xf0, 0x9f, 0x98]);
    let e = utf8_error(message.to_text().map(|text| text.to_string()));
    assert_eq!(e, Utf8Error { valid_up_to: 0, error_len: None });
}

#[test]
fn text_has_the_bytes_of_the_message() {
    let bytes = "gr\u{fc}\u{df}e".as_bytes().to_vec();
    let text = Message::Binary(bytes.clone()).into_text().unwrap();
    assert_eq!(text.into_bytes(), bytes);
}

#[test]
fn conversions() {
    assert_eq!(Message::from("text".to_string()), Message::Text("text".to_string()));
    assert_eq!(Message::from("text"), Message::Text("text".to_string()));
    assert_eq!(Message::from(&[1u8, 2][..]), Message::Binary(vec![1, 2]));
    assert_eq!(Message::from(vec![1u8, 2]), Message::Binary(vec![1, 2]));
    assert_eq!(Vec::<u8>::from(Message::from("text")), b"text".to_vec());
    assert_eq!(Vec::<u8>::from(Message::from(vec![7u8])), vec![7]);
}

#[test]
fn clone_keeps_the_message() {
    let messages = vec![
        Message::Text("a".to_string()),
        Message::Binary(vec![1]),
        Message::Close(None),
        close(4000, "why"),
        Message::Close(Some(CloseFrame { code: 1001, reason: Cow::Owned("gone".to_string()) })),
    ];
    for message in messages {
        assert_eq!(message.clone(), message);
    }
}

#[test]
fn lengths_of_invalid_sequences() {
    let cases: Vec<(Vec<u8>, usize, Option<usize>)> = vec![
        (vec![0x80], 0, Some(1)),
        (vec![0xc0, 0x80], 0, Some(1)),
        (vec![0xc3, 0x61], 0, Some(1)),
        (vec![0xf5, 0x80, 0x80, 0x80], 0, Some(1)),
        (vec![0xf0, 0x80, 0x80], 0, Some(1)),
        (vec![0xed, 0xa0], 0, Some(1)),
        (vec![0x61, 0xe2, 0x82, 0x61], 1, Some(2)),
        (vec![0xf4, 0x8f, 0x61], 0, Some(2)),
        (vec![0xf0, 0x9f, 0x98, 0x61, 0x61], 0, Some(3)),
        (vec![0x61, 0xc3], 1, None),
        (vec![0xe2], 0, None),
        (vec![0xe2, 0x82], 0, None),
        (vec![0xf0, 0x9f, 0x98], 0, None),
    ];
    for (bytes, valid_up_to, error_len) in cases {
        let expected = Utf8Error { valid_up_to, error_len };
        let message = Message::Binary(bytes);
        assert_eq!(utf8_error(message.to_text().map(|text| text.to_string())), expected);
        assert_eq!(utf8_error(message.into_text()), expected);
    }
}

#[test]
fn both_readings_fail_with_the_same_error() {
    let message = Message::Binary(vec![0xc3, 0xa9, 0x61, 0xc0, 0x61]);
    let borrowed = utf8_error(message.to_text().map(|text| text.to_string()));
    let owned = utf8_error(message.into_text());
    assert_eq!(borrowed, owned);
    assert_eq!(owned, Utf8Error { valid_up_to: 3, error_len: Some(1) });
}
