//! The messages of `tungstenite`, which carries them over the connection.

use crate::ws::message::{CloseFrame, Message};
use tokio_tungstenite::tungstenite::protocol::frame::coding::CloseCode as TungsteniteCloseCode;
use tokio_tungstenite::tungstenite::protocol::frame::Frame as TungsteniteFrame;
use tokio_tungstenite::tungstenite::protocol::CloseFrame as TungsteniteCloseFrame;
use tokio_tungstenite::tungstenite::Message as TungsteniteMessage;
use vstd::prelude::*;

verus! {

/// Declares the close codes of `tungstenite`; their variants are read from its source.
#[verifier::external_type_specification]
pub struct ExTungsteniteCloseCode(TungsteniteCloseCode);

/// Declares the close command of `tungstenite`; its fields are read from its source.
#[verifier::external_type_specification]
pub struct ExTungsteniteCloseFrame<'t>(TungsteniteCloseFrame<'t>);

/// Declares the raw frame of `tungstenite`, of which nothing is read.
#[verifier::external_type_specification]
#[verifier::external_body]
pub struct ExTungsteniteFrame(TungsteniteFrame);

/// Declares the message of `tungstenite`; its variants are read from its source.
#[verifier::external_type_specification]
pub struct ExTungsteniteMessage(TungsteniteMessage);

/// The close code that `tungstenite` has for a status code.
pub open spec fn close_code(code: u16) -> TungsteniteCloseCode {
    if code == 1000 {
        TungsteniteCloseCode::Normal
    } else if code == 1001 {
        TungsteniteCloseCode::Away
    } else if code == 1002 {
        TungsteniteCloseCode::Protocol
    } else if code == 1003 {
        TungsteniteCloseCode::Unsupported
    } else if code == 1005 {
        TungsteniteCloseCode::Status
    } else if code == 1006 {
        TungsteniteCloseCode::Abnormal
    } else if code == 1007 {
        TungsteniteCloseCode::Invalid
    } else if code == 1008 {
        TungsteniteCloseCode::Policy
    } else if code == 1009 {
        TungsteniteCloseCode::Size
    } else if code == 1010 {
        TungsteniteCloseCode::Extension
    } else if code == 1011 {
        TungsteniteCloseCode::Error
    } else if code == 1012 {
        TungsteniteCloseCode::Restart
    } else if code == 1013 {
        TungsteniteCloseCode::Again
    } else if code == 1015 {
        TungsteniteCloseCode::Tls
    } else if 1016 <= code <= 2999 {
        TungsteniteCloseCode::Reserved(code)
    } else if 3000 <= code <= 3999 {
        TungsteniteCloseCode::Iana(code)
    } else if 4000 <= code <= 4999 {
        TungsteniteCloseCode::Library(code)
    } else {
        TungsteniteCloseCode::Bad(code)
    }
}

/// The status code of a close code of `tungstenite`.
pub open spec fn status_code(code: TungsteniteCloseCode) -> u16 {
    match code {
        TungsteniteCloseCode::Normal => 1000,
        TungsteniteCloseCode::Away => 1001,
        TungsteniteCloseCode::Protocol => 1002,
        TungsteniteCloseCode::Unsupported => 1003,
        TungsteniteCloseCode::Status => 1005,
        TungsteniteCloseCode::Abnormal => 1006,
        TungsteniteCloseCode::Invalid => 1007,
        TungsteniteCloseCode::Policy => 1008,
        TungsteniteCloseCode::Size => 1009,
        TungsteniteCloseCode::Extension => 1010,
        TungsteniteCloseCode::Error => 1011,
        TungsteniteCloseCode::Restart => 1012,
        TungsteniteCloseCode::Again => 1013,
        TungsteniteCloseCode::Tls => 1015,
        TungsteniteCloseCode::Reserved(code) => code,
        TungsteniteCloseCode::Iana(code) => code,
        TungsteniteCloseCode::Library(code) => code,
        TungsteniteCloseCode::Bad(code) => code,
    }
}

/// `tungstenite`'s conversion of a status code to a close code: the codes with a meaning
/// of their own have a variant each, the others go by the range that they are in.
pub assume_specification[ <TungsteniteCloseCode as core::convert::From<u16>>::from ](
    code: u16,
) -> (r: TungsteniteCloseCode)
    ensures
        r == close_code(code),
;

/// `tungstenite`'s conversion of a close code to its status code.
pub assume_specification[ <u16 as core::convert::From<TungsteniteCloseCode>>::from ](
    code: TungsteniteCloseCode,
) -> (r: u16)
    ensures
        r == status_code(code),
;

impl Message {
    /// This message as `tungstenite` has it.
    pub open spec fn as_tungstenite(self) -> TungsteniteMessage {
        match self {
            Message::Text(text) => TungsteniteMessage::Text(text),
            Message::Binary(binary) => TungsteniteMessage::Binary(binary),
            Message::Ping(ping) => TungsteniteMessage::Ping(ping),
            Message::Pong(pong) => TungsteniteMessage::Pong(pong),
            Message::Close(None) => TungsteniteMessage::Close(None),
            Message::Close(Some(close)) => TungsteniteMessage::Close(
                Some(TungsteniteCloseFrame { code: close_code(close.code), reason: close.reason }),
            ),
        }
    }

    /// The message that a message of `tungstenite` stands for; a raw frame stands for none.
    pub open spec fn of_tungstenite(message: TungsteniteMessage) -> Option<Message> {
        match message {
            TungsteniteMessage::Text(text) => Some(Message::Text(text)),
            TungsteniteMessage::Binary(binary) => Some(Message::Binary(binary)),
            TungsteniteMessage::Ping(ping) => Some(Message::Ping(ping)),
            TungsteniteMessage::Pong(pong) => Some(Message::Pong(pong)),
            TungsteniteMessage::Close(None) => Some(Message::Close(None)),
            TungsteniteMessage::Close(Some(close)) => Some(
                Message::Close(
                    Some(CloseFrame { code: status_code(close.code), reason: close.reason }),
                ),
            ),
            TungsteniteMessage::Frame(_) => None,
        }
    }

    /// Convert the message to one that `tungstenite` can send.
    pub fn into_tungstenite(self) -> (r: TungsteniteMessage)
        ensures
            r == self.as_tungstenite(),
    {
        match self {
            Message::Text(text) => TungsteniteMessage::Text(text),
            Message::Binary(binary) => TungsteniteMessage::Binary(binary),
            Message::Ping(ping) => TungsteniteMessage::Ping(ping),
            Message::Pong(pong) => TungsteniteMessage::Pong(pong),
            Message::Close(Some(close)) => TungsteniteMessage::Close(
                Some(
                    TungsteniteCloseFrame {
                        code: TungsteniteCloseCode::from(close.code),
                        reason: close.reason,
                    },
                ),
            ),
            Message::Close(None) => TungsteniteMessage::Close(None),
        }
    }

    /// Convert a message that `tungstenite` received. Raw frames are ignored, as the
    /// [maintainers of tungstenite recommend](https://github.com/snapview/tungstenite-rs/issues/268).
    pub fn from_tungstenite(message: TungsteniteMessage) -> (r: Option<Self>)
        ensures
            r == Message::of_tungstenite(message),
    {
        match message {
            TungsteniteMessage::Text(text) => Some(Message::Text(text)),
            TungsteniteMessage::Binary(binary) => Some(Message::Binary(binary)),
            TungsteniteMessage::Ping(ping) => Some(Message::Ping(ping)),
            TungsteniteMessage::Pong(pong) => Some(Message::Pong(pong)),
            TungsteniteMessage::Close(Some(close)) => Some(
                Message::Close(
                    Some(CloseFrame { code: u16::from(close.code), reason: close.reason }),
                ),
            ),
            TungsteniteMessage::Close(None) => Some(Message::Close(None)),
            TungsteniteMessage::Frame(_) => None,
        }
    }
}

} // verus!
