//! WebSocket messages.

use crate::ws::error::Error;
use crate::ws::text::{str_from_utf8, string_from_utf8};
use std::borrow::Cow;
use vstd::prelude::*;
use vstd::slice::slice_to_vec;
use vstd::utf8::*;

verus! {

/// Status code used to indicate why an endpoint is closing the WebSocket connection.
pub type CloseCode = u16;

/// A struct representing the close command.
#[derive(Debug, Eq, PartialEq)]
pub struct CloseFrame<'t> {
    /// The reason as a code.
    pub code: CloseCode,
    /// The reason as text string.
    pub reason: Cow<'t, str>,
}

impl<'t> Clone for CloseFrame<'t> {
    fn clone(&self) -> (r: Self)
        ensures
            r == *self,
    {
        let reason = match &self.reason {
            Cow::Borrowed(text) => Cow::Borrowed(*text),
            Cow::Owned(text) => Cow::Owned(text.clone()),
        };
        CloseFrame { code: self.code, reason }
    }
}

/// A WebSocket message.
#[derive(Debug, Eq, PartialEq)]
pub enum Message {
    /// A text WebSocket message
    Text(String),
    /// A binary WebSocket message
    Binary(Vec<u8>),
    /// A ping message with the specified payload
    ///
    /// The payload here must have a length less than 125 bytes.
    ///
    /// Ping messages will be automatically responded to by the server, so you do not have to
    /// worry about dealing with them yourself.
    Ping(Vec<u8>),
    /// A pong message with the specified payload
    ///
    /// The payload here must have a length less than 125 bytes.
    ///
    /// Pong messages will be automatically sent to the client if a ping message is received,
    /// so you do not have to worry about constructing them yourself unless you want to
    /// implement a [unidirectional heartbeat](https://tools.ietf.org/html/rfc6455#section-5.5.3).
    Pong(Vec<u8>),
    /// A close message with the optional close frame.
    Close(Option<CloseFrame<'static>>),
}

impl Clone for Message {
    fn clone(&self) -> (r: Self)
        ensures
            match (*self, r) {
                (Message::Text(a), Message::Text(b)) => a == b,
                (Message::Binary(a), Message::Binary(b)) => a@ == b@,
                (Message::Ping(a), Message::Ping(b)) => a@ == b@,
                (Message::Pong(a), Message::Pong(b)) => a@ == b@,
                (Message::Close(a), Message::Close(b)) => a == b,
                _ => false,
            },
    {
        match self {
            Message::Text(text) => Message::Text(text.clone()),
            Message::Binary(data) => Message::Binary(slice_to_vec(data.as_slice())),
            Message::Ping(data) => Message::Ping(slice_to_vec(data.as_slice())),
            Message::Pong(data) => Message::Pong(slice_to_vec(data.as_slice())),
            Message::Close(Some(frame)) => Message::Close(Some(frame.clone())),
            Message::Close(None) => Message::Close(None),
        }
    }
}

/// The text of `reason` as an owned string.
fn owned_reason(reason: Cow<'static, str>) -> (r: String)
    ensures
        r@ == reason@,
{
    match reason {
        Cow::Borrowed(text) => text.to_owned(),
        Cow::Owned(text) => text,
    }
}

impl Message {
    /// The bytes that the message carries: text and the reason of a close command in UTF-8,
    /// other payloads as they are.
    pub open spec fn payload(self) -> Seq<u8> {
        match self {
            Message::Text(text) => encode_utf8(text@),
            Message::Binary(data) => data@,
            Message::Ping(data) => data@,
            Message::Pong(data) => data@,
            Message::Close(None) => Seq::empty(),
            Message::Close(Some(frame)) => encode_utf8(frame.reason@),
        }
    }

    /// Consume the WebSocket and return it as binary data.
    pub fn into_data(self) -> (r: Vec<u8>)
        ensures
            r@ == self.payload(),
    {
        match self {
            Message::Text(string) => string.into_bytes(),
            Message::Binary(data) | Message::Ping(data) | Message::Pong(data) => data,
            Message::Close(None) => Vec::new(),
            Message::Close(Some(frame)) => owned_reason(frame.reason).into_bytes(),
        }
    }

    /// Attempt to consume the WebSocket message and convert it to a String.
    pub fn into_text(self) -> (r: Result<String, Error>)
        ensures
            match r {
                Ok(text) => valid_utf8(self.payload()) && text@ == decode_utf8(self.payload()),
                Err(Error::Utf8(e)) => e.describes(self.payload()),
                Err(_) => false,
            },
    {
        broadcast use {encode_utf8_valid_utf8, encode_utf8_decode_utf8};
        match self {
            Message::Text(string) => Ok(string),
            Message::Binary(data) | Message::Ping(data) | Message::Pong(data) => {
                match string_from_utf8(data) {
                    Ok(string) => Ok(string),
                    Err(e) => Err(Error::Utf8(e)),
                }
            },
            Message::Close(None) => Ok(String::new()),
            Message::Close(Some(frame)) => Ok(owned_reason(frame.reason)),
        }
    }

    /// Attempt to get a &str from the WebSocket message,
    /// this will try to convert binary data to utf8.
    pub fn to_text(&self) -> (r: Result<&str, Error>)
        ensures
            match r {
                Ok(text) => valid_utf8(self.payload()) && text@ == decode_utf8(self.payload()),
                Err(Error::Utf8(e)) => e.describes(self.payload()),
                Err(_) => false,
            },
    {
        broadcast use {encode_utf8_valid_utf8, encode_utf8_decode_utf8};
        match self {
            Message::Text(string) => Ok(string.as_str()),
            Message::Binary(data) | Message::Ping(data) | Message::Pong(data) => {
                match str_from_utf8(data.as_slice()) {
                    Ok(text) => Ok(text),
                    Err(e) => Err(Error::Utf8(e)),
                }
            },
            Message::Close(None) => {
                proof {
                    reveal_strlit("");
                }
                Ok("")
            },
            Message::Close(Some(frame)) => match &frame.reason {
                Cow::Borrowed(text) => Ok(*text),
                Cow::Owned(text) => Ok(text.as_str()),
            },
        }
    }
}

impl From<String> for Message {
    fn from(string: String) -> (r: Self) {
        Message::Text(string)
    }
}

impl vstd::std_specs::convert::FromSpecImpl<String> for Message {
    open spec fn obeys_from_spec() -> bool {
        true
    }

    open spec fn from_spec(string: String) -> Self {
        Message::Text(string)
    }
}

impl<'s> From<&'s str> for Message {
    fn from(string: &'s str) -> (r: Self)
        ensures
            r matches Message::Text(text) && text@ == string@,
    {
        Message::Text(string.to_owned())
    }
}

impl<'s> vstd::std_specs::convert::FromSpecImpl<&'s str> for Message {
    open spec fn obeys_from_spec() -> bool {
        false
    }

    open spec fn from_spec(string: &'s str) -> Self {
        arbitrary()
    }
}

impl<'b> From<&'b [u8]> for Message {
    fn from(data: &'b [u8]) -> (r: Self)
        ensures
            r matches Message::Binary(binary) && binary@ == data@,
    {
        Message::Binary(slice_to_vec(data))
    }
}

impl<'b> vstd::std_specs::convert::FromSpecImpl<&'b [u8]> for Message {
    open spec fn obeys_from_spec() -> bool {
        false
    }

    open spec fn from_spec(data: &'b [u8]) -> Self {
        arbitrary()
    }
}

impl From<Vec<u8>> for Message {
    fn from(data: Vec<u8>) -> (r: Self) {
        Message::Binary(data)
    }
}

impl vstd::std_specs::convert::FromSpecImpl<Vec<u8>> for Message {
    open spec fn obeys_from_spec() -> bool {
        true
    }

    open spec fn from_spec(data: Vec<u8>) -> Self {
        Message::Binary(data)
    }
}

impl From<Message> for Vec<u8> {
    fn from(msg: Message) -> (r: Self)
        ensures
            r@ == msg.payload(),
    {
        msg.into_data()
    }
}

impl vstd::std_specs::convert::FromSpecImpl<Message> for Vec<u8> {
    open spec fn obeys_from_spec() -> bool {
        false
    }

    open spec fn from_spec(msg: Message) -> Self {
        arbitrary()
    }
}

} // verus!
