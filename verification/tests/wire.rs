use rustgram_ws::ws::{next_message, CloseFrame, Error, Message, Next};
use rustgram_ws::TungsteniteMessage;
use std::borrow::Cow;
use tokio_tungstenite::tungstenite::protocol::frame::coding::CloseCode;
use tokio_tungstenite::tungstenite::protocol::frame::Frame;
use tokio_tungstenite::tungstenite::protocol::CloseFrame as TungsteniteCloseFrame;
use tokio_tungstenite::tungstenite::Error as TungsteniteError;

fn close(code: u16) -> Message {
    Message::Close(Some(CloseFrame { code, reason: Cow::Borrowed("why") }))
}

fn tungstenite_close(code: CloseCode) -> TungsteniteMessage {
    TungsteniteMessage::Close(Some(TungsteniteCloseFrame { code, reason: Cow::Borrowed("why") }))
}

#[test]
fn into_tungstenite_of_each_kind() {
    assert_eq!(
        Message::Text("t".to_string()).into_tungstenite(),
        TungsteniteMessage::Text("t".to_string())
    );
    assert_eq!(Message::Binary(vec![1]).into_tungstenite(), TungsteniteMessage::Binary(vec![1]));
    assert_eq!(Message::Ping(vec![2]).into_tungstenite(), TungsteniteMessage::Ping(vec![2]));
    assert_eq!(Message::Pong(vec![3]).into_tungstenite(), TungsteniteMessage::Pong(vec![3]));
    assert_eq!(Message::Close(None).into_tungstenite(), TungsteniteMessage::Close(None));
    assert_eq!(close(1000).into_tungstenite(), tungstenite_close(CloseCode::Normal));
}

#[test]
fn from_tungstenite_of_each_kind() {
    assert_eq!(
        Message::from_tungstenite(TungsteniteMessage::Text("t".to_string())),
        Some(Message::Text("t".to_string()))
    );
    assert_eq!(
        Message::from_tungstenite(TungsteniteMessage::Binary(vec![1])),
        Some(Message::Binary(vec![1]))
    );
    assert_eq!(
        Message::from_tungstenite(TungsteniteMessage::Ping(vec![2])),
        Some(Message::Ping(vec![2]))
    );
    assert_eq!(
        Message::from_tungstenite(TungsteniteMessage::Pong(vec![3])),
        Some(Message::Pong(vec![3]))
    );
    assert_eq!(
        Message::from_tungstenite(TungsteniteMessage::Close(None)),
        Some(Message::Close(None))
    );
    assert_eq!(Message::from_tungstenite(tungstenite_close(CloseCode::Away)), Some(close(1001)));
    assert_eq!(
        Message::from_tungstenite(TungsteniteMessage::Frame(Frame::ping(vec![1]))),
        None
    );
}

#[test]
fn close_codes() {
    let codes = vec![
        (0, CloseCode::Bad(0)),
        (999, CloseCode::Bad(999)),
        (1000, CloseCode::Normal),
        (1001, CloseCode::Away),
        (1002, CloseCode::Protocol),
        (1003, CloseCode::Unsupported),
        (1004, CloseCode::Bad(1004)),
        (1005, CloseCode::Status),
        (1006, CloseCode::Abnormal),
        (1007, CloseCode::Invalid),
        (1008, CloseCode::Policy),
        (1009, CloseCode::Size),
        (1010, CloseCode::Extension),
        (1011, CloseCode::Error),
        (1012, CloseCode::Restart),
        (1013, CloseCode::Again),
        (1014, CloseCode::Bad(1014)),
        (1015, CloseCode::Tls),
        (1016, CloseCode::Reserved(1016)),
        (2999, CloseCode::Reserved(2999)),
        (3000, CloseCode::Iana(3000)),
        (3999, CloseCode::Iana(3999)),
        (4000, CloseCode::Library(4000)),
        (4999, CloseCode::Library(4999)),
        (5000, CloseCode::Bad(5000)),
        (65535, CloseCode::Bad(65535)),
    ];
    for (status, code) in codes {
        assert_eq!(close(status).into_tungstenite(), tungstenite_close(code));
        assert_eq!(Message::from_tungstenite(tungstenite_close(code)), Some(close(status)));
    }
}

#[test]
fn every_status_code_survives() {
    for code in 0..=65535u16 {
        assert_eq!(Message::from_tungstenite(close(code).into_tungstenite()), Some(close(code)));
    }
}

#[test]
fn messages_survive() {
    let messages = vec![
        Message::Text("t".to_string()),
        Message::Binary(vec![]),
        Message::Ping(vec![1]),
        Message::Pong(vec![2]),
        Message::Close(None),
        close(3001),
    ];
    for message in messages {
        assert_eq!(Message::from_tungstenite(message.clone().into_tungstenite()), Some(message));
    }
}

#[test]
fn a_close_code_that_its_status_code_does_not_have_is_replaced() {
    let received = Message::from_tungstenite(tungstenite_close(CloseCode::Bad(1000))).unwrap();
    assert_eq!(received.into_tungstenite(), tungstenite_close(CloseCode::Normal));
}

#[test]
fn next_passes_over_frames() {
    let frame = TungsteniteMessage::Frame(Frame::pong(vec![]));
    assert!(matches!(next_message(Some(Ok(frame))), Next::Again));
    match next_message(Some(Ok(TungsteniteMessage::Text("t".to_string())))) {
        Next::Ready(Some(Ok(message))) => assert_eq!(message, Message::Text("t".to_string())),
        _ => panic!("a message was expected"),
    }
    assert!(matches!(
        next_message(Some(Err(TungsteniteError::ConnectionClosed))),
        Next::Ready(Some(Err(Error::WebSocket(TungsteniteError::ConnectionClosed))))
    ));
    assert!(matches!(next_message(None), Next::Ready(None)));
}

#[test]
fn received_messages_can_be_sent_back() {
    let messages = vec![
        TungsteniteMessage::Text("t".to_string()),
        TungsteniteMessage::Binary(vec![1, 2]),
        TungsteniteMessage::Ping(vec![]),
        TungsteniteMessage::Pong(vec![3]),
        TungsteniteMessage::Close(None),
        tungstenite_close(CloseCode::Policy),
        tungstenite_close(CloseCode::Library(4321)),
    ];
    for message in messages {
        let received = Message::from_tungstenite(message.clone()).unwrap();
        assert_eq!(received.into_tungstenite(), message);
    }
}

#[test]
fn different_messages_stay_different() {
    let messages = vec![
        Message::Text("1".to_string()),
        Message::Binary(vec![0x31]),
        Message::Ping(vec![0x31]),
        Message::Pong(vec![0x31]),
        Message::Close(None),
        close(999),
        close(1004),
    ];
    for (i, a) in messages.iter().enumerate() {
        for (j, b) in messages.iter().enumerate() {
            let same = a.clone().into_tungstenite() == b.clone().into_tungstenite();
            assert_eq!(same, i == j);
        }
    }
}

#[test]
fn the_first_message_behind_frames_is_handed_out() {
    let items = vec![
        TungsteniteMessage::Frame(Frame::ping(vec![1])),
        TungsteniteMessage::Frame(Frame::pong(vec![2])),
        TungsteniteMessage::Binary(vec![3]),
        TungsteniteMessage::Binary(vec![4]),
    ];
    let mut handed_out = Vec::new();
    for item in items {
        if let Next::Ready(Some(Ok(message))) = next_message(Some(Ok(item))) {
            handed_out.push(message);
        }
    }
    assert_eq!(handed_out, vec![Message::Binary(vec![3]), Message::Binary(vec![4])]);
}

#[test]
fn a_run_hands_out_all_but_frames() {
    let items = vec![
        Some(Ok(TungsteniteMessage::Text("a".to_string()))),
        Some(Ok(TungsteniteMessage::Frame(Frame::ping(vec![])))),
        Some(Ok(TungsteniteMessage::Text("a".to_string()))),
        Some(Err(TungsteniteError::Utf8)),
        Some(Ok(TungsteniteMessage::Frame(Frame::pong(vec![])))),
        Some(Ok(TungsteniteMessage::Close(None))),
        None,
    ];
    let mut handed_out = Vec::new();
    for item in items {
        if let Next::Ready(item) = next_message(item) {
            handed_out.push(item);
        }
    }
    assert_eq!(handed_out.len(), 5);
    let a = Message::Text("a".to_string());
    assert!(matches!(&handed_out[0], Some(Ok(message)) if *message == a));
    assert!(matches!(&handed_out[1], Some(Ok(message)) if *message == a));
    assert!(matches!(&handed_out[2], Some(Err(Error::WebSocket(TungsteniteError::Utf8)))));
    assert!(matches!(&handed_out[3], Some(Ok(Message::Close(None)))));
    assert!(matches!(&handed_out[4], None));
}
