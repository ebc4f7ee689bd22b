//! What the result of each operation is, said of any call of it: `call_ensures` holds of the
//! arguments and the result of a call.

use crate::ws::accept;
use crate::ws::accept::{accept_value, challenge, sign};
use crate::ws::error::{Error, Utf8Error};
use crate::ws::headers;
use crate::ws::headers::{eq_ignore_ascii_case, header_contains, header_eq, text_contains};
use crate::ws::laws;
use crate::ws::message::{CloseFrame, Message};
use crate::ws::stream::{next_message, Next};
use crate::ws::upgrade::{
    accept_res, err_res, handshake, upgraded_or_call, OnFailedUpgrade, Response,
};
use crate::ws::wire;
use hyper::Error as HyperError;
use hyper::HeaderMap;
use tokio_tungstenite::tungstenite::Error as TungsteniteError;
use tokio_tungstenite::tungstenite::Message as TungsteniteMessage;
use vstd::prelude::*;
use vstd::utf8::*;

verus! {

/// The data of a message is what it holds, whole and unchanged: bytes as they are, text and
/// the reason of a close command in UTF-8.
pub proof fn law_into_data(message: Message, r: Vec<u8>)
    requires
        call_ensures(Message::into_data, (message,), r),
    ensures
        message matches Message::Text(text) ==> r@ == encode_utf8(text@),
        message matches Message::Binary(data) ==> r@ == data@,
        message matches Message::Ping(data) ==> r@ == data@,
        message matches Message::Pong(data) ==> r@ == data@,
        message matches Message::Close(Some(frame)) ==> r@ == encode_utf8(frame.reason@),
        message matches Message::Close(None) ==> r@.len() == 0,
{
}

/// A message converts to its data as `into_data` has it.
pub proof fn law_vec_from_message(message: Message, r: Vec<u8>, data: Vec<u8>)
    requires
        call_ensures(<Vec<u8> as core::convert::From<Message>>::from, (message,), r),
        call_ensures(Message::into_data, (message,), data),
    ensures
        r@ == data@,
{
}

/// The text of a message is its text or its reason; bytes give the text that has them, if
/// there is one, and an error that says where they stop being UTF-8 if there is none.
pub proof fn law_into_text(message: Message, r: Result<String, Error>)
    requires
        call_ensures(Message::into_text, (message,), r),
    ensures
        message matches Message::Text(text) ==> (r matches Ok(t) && t@ == text@),
        message matches Message::Close(Some(frame)) ==> (r matches Ok(t) && t@ == frame.reason@),
        message matches Message::Close(None) ==> (r matches Ok(t) && t@.len() == 0),
        message matches Message::Binary(data) ==> reads_as(data@, text_result(r)),
        message matches Message::Ping(data) ==> reads_as(data@, text_result(r)),
        message matches Message::Pong(data) ==> reads_as(data@, text_result(r)),
{
    broadcast use {encode_utf8_valid_utf8, encode_utf8_decode_utf8, decode_utf8_encode_utf8};

    if let Err(Error::Utf8(e)) = r {
        laws::law_utf8_error_says_where(message.payload(), e);
    }
}

/// A result with the characters in place of the string.
pub open spec fn text_result(r: Result<String, Error>) -> Result<Seq<char>, Error> {
    match r {
        Ok(text) => Ok(text@),
        Err(e) => Err(e),
    }
}

/// A result with the characters in place of the string slice.
pub open spec fn str_result(r: Result<&str, Error>) -> Result<Seq<char>, Error> {
    match r {
        Ok(text) => Ok(text@),
        Err(e) => Err(e),
    }
}

/// Whether `r` is what reading `data` as text is to give: a text whose UTF-8 form is `data`,
/// or, where no text has that form, the place up to which `data` is UTF-8.
pub open spec fn reads_as(data: Seq<u8>, r: Result<Seq<char>, Error>) -> bool {
    match r {
        Ok(text) => encode_utf8(text) == data,
        Err(Error::Utf8(e)) => {
            &&& forall|text: Seq<char>| #[trigger] encode_utf8(text) != data
            &&& e.valid_up_to < data.len()
            &&& valid_utf8(data.take(e.valid_up_to as int))
            &&& forall|end: int|
                e.valid_up_to < end <= data.len() ==> !valid_utf8(#[trigger] data.take(end))
            &&& e.error_len is None <==> laws::begins_some_char(data.skip(e.valid_up_to as int))
            &&& e.error_len matches Some(len) ==> {
                let rest = data.skip(e.valid_up_to as int);
                &&& 1 <= len <= rest.len()
                &&& len == 1 || laws::begins_some_char(rest.take(len as int))
                &&& forall|more: int|
                    len < more <= rest.len() ==> !laws::begins_some_char(#[trigger] rest.take(more))
            }
        },
        Err(_) => false,
    }
}

/// The text of a message is its text or its reason; bytes give the text that has them, if
/// there is one, and an error that says where they stop being UTF-8 if there is none.
pub proof fn law_to_text(message: &Message, r: Result<&str, Error>)
    requires
        call_ensures(Message::to_text, (message,), r),
    ensures
        message matches Message::Text(text) ==> (r matches Ok(t) && t@ == text@),
        message matches Message::Close(Some(frame)) ==> (r matches Ok(t) && t@ == frame.reason@),
        message matches Message::Close(None) ==> (r matches Ok(t) && t@.len() == 0),
        message matches Message::Binary(data) ==> reads_as(data@, str_result(r)),
        message matches Message::Ping(data) ==> reads_as(data@, str_result(r)),
        message matches Message::Pong(data) ==> reads_as(data@, str_result(r)),
{
    broadcast use {encode_utf8_valid_utf8, encode_utf8_decode_utf8, decode_utf8_encode_utf8};

    if let Err(Error::Utf8(e)) = r {
        laws::law_utf8_error_says_where(message.payload(), e);
    }
}

/// The two readings of a message as text give the same text or the same error, and a text
/// has the data of the message.
pub proof fn law_readings_agree(
    message: Message,
    borrowed: Result<&str, Error>,
    owned: Result<String, Error>,
    data: Vec<u8>,
)
    requires
        call_ensures(Message::to_text, (&message,), borrowed),
        call_ensures(Message::into_text, (message,), owned),
        call_ensures(Message::into_data, (message,), data),
    ensures
        borrowed matches Ok(a) ==> (owned matches Ok(b) && a@ == b@ && encode_utf8(a@) == data@),
        borrowed matches Err(a) ==> (owned matches Err(b) && a == b),
{
    if valid_utf8(message.payload()) {
        decode_utf8_encode_utf8(message.payload());
    }
    if let (Err(Error::Utf8(a)), Err(Error::Utf8(b))) = (borrowed, owned) {
        laws::law_utf8_error_is_determined(message.payload(), a, b);
    }
}

/// A string becomes a text message, and reads back as it was.
pub proof fn law_message_from_string(string: String, r: Message, text: Result<String, Error>)
    requires
        call_ensures(<Message as core::convert::From<String>>::from, (string,), r),
        call_ensures(Message::into_text, (r,), text),
    ensures
        r == Message::Text(string),
        text matches Ok(t) && t@ == string@,
{
    law_into_text(r, text);
}

/// A string slice becomes a text message, and reads back as it was.
pub proof fn law_message_from_str(string: &str, r: Message, text: Result<String, Error>)
    requires
        call_ensures(<Message as core::convert::From<&str>>::from, (string,), r),
        call_ensures(Message::into_text, (r,), text),
    ensures
        r matches Message::Text(s) && s@ == string@,
        text matches Ok(t) && t@ == string@,
{
    law_into_text(r, text);
}

/// Bytes become a binary message, and read back as they were.
pub proof fn law_message_from_vec(bytes: Vec<u8>, r: Message, data: Vec<u8>)
    requires
        call_ensures(<Message as core::convert::From<Vec<u8>>>::from, (bytes,), r),
        call_ensures(Message::into_data, (r,), data),
    ensures
        r == Message::Binary(bytes),
        data@ == bytes@,
{
}

/// Bytes become a binary message, and read back as they were.
pub proof fn law_message_from_slice(bytes: &[u8], r: Message, data: Vec<u8>)
    requires
        call_ensures(<Message as core::convert::From<&[u8]>>::from, (bytes,), r),
        call_ensures(Message::into_data, (r,), data),
    ensures
        r matches Message::Binary(b) && b@ == bytes@,
        data@ == bytes@,
{
}

/// A clone is of the same kind and holds the same.
pub proof fn law_message_clone(message: &Message, r: Message)
    requires
        call_ensures(<Message as core::clone::Clone>::clone, (message,), r),
    ensures
        message matches Message::Text(a) ==> (r matches Message::Text(b) && a == b),
        message matches Message::Binary(a) ==> (r matches Message::Binary(b) && a@ == b@),
        message matches Message::Ping(a) ==> (r matches Message::Ping(b) && a@ == b@),
        message matches Message::Pong(a) ==> (r matches Message::Pong(b) && a@ == b@),
        message matches Message::Close(a) ==> (r matches Message::Close(b) && a == b),
{
}

/// A message is sent as one of the same kind with the same content; a close command keeps its
/// reason and has the close code of its status code.
pub proof fn law_into_tungstenite(message: Message, r: TungsteniteMessage)
    requires
        call_ensures(Message::into_tungstenite, (message,), r),
    ensures
        message matches Message::Text(a) ==> r == TungsteniteMessage::Text(a),
        message matches Message::Binary(a) ==> r == TungsteniteMessage::Binary(a),
        message matches Message::Ping(a) ==> r == TungsteniteMessage::Ping(a),
        message matches Message::Pong(a) ==> r == TungsteniteMessage::Pong(a),
        message == Message::Close(None) ==> r == TungsteniteMessage::Close(None),
        message matches Message::Close(Some(a)) ==> {
            &&& r matches TungsteniteMessage::Close(Some(b))
            &&& b.code == wire::close_code(a.code)
            &&& wire::status_code(b.code) == a.code
            &&& b.reason == a.reason
        },
{
}

/// A message is received as one of the same kind with the same content, unless it is a raw
/// frame; a close command keeps its reason and has the status code of its close code.
pub proof fn law_from_tungstenite(message: TungsteniteMessage, r: Option<Message>)
    requires
        call_ensures(Message::from_tungstenite, (message,), r),
    ensures
        message matches TungsteniteMessage::Text(a) ==> r == Some(Message::Text(a)),
        message matches TungsteniteMessage::Binary(a) ==> r == Some(Message::Binary(a)),
        message matches TungsteniteMessage::Ping(a) ==> r == Some(Message::Ping(a)),
        message matches TungsteniteMessage::Pong(a) ==> r == Some(Message::Pong(a)),
        message == TungsteniteMessage::Close(None) ==> r == Some(Message::Close(None)),
        message matches TungsteniteMessage::Close(Some(a)) ==> r == Some(
            Message::Close(
                Some(CloseFrame { code: wire::status_code(a.code), reason: a.reason }),
            ),
        ),
        message is Frame ==> r is None,
{
}

/// What is sent and received is what it was.
pub proof fn law_send_and_receive(
    message: Message,
    sent: TungsteniteMessage,
    received: Option<Message>,
)
    requires
        call_ensures(Message::into_tungstenite, (message,), sent),
        call_ensures(Message::from_tungstenite, (sent,), received),
    ensures
        received == Some(message),
{
}

/// A received message is handed out as it was received, an error as an error, and the end of
/// the connection, and nothing else, as the end. Only raw frames are passed over.
pub proof fn law_next_message(
    item: Option<Result<TungsteniteMessage, TungsteniteError>>,
    r: Next,
    received: Option<Message>,
)
    requires
        call_ensures(next_message, (item,), r),
        item matches Some(Ok(message)) ==> call_ensures(
            Message::from_tungstenite,
            (message,),
            received,
        ),
    ensures
        item matches Some(Ok(TungsteniteMessage::Text(a))) ==> r == Next::Ready(
            Some(Ok(Message::Text(a))),
        ),
        item matches Some(Ok(TungsteniteMessage::Binary(a))) ==> r == Next::Ready(
            Some(Ok(Message::Binary(a))),
        ),
        item matches Some(Ok(TungsteniteMessage::Ping(a))) ==> r == Next::Ready(
            Some(Ok(Message::Ping(a))),
        ),
        item matches Some(Ok(TungsteniteMessage::Pong(a))) ==> r == Next::Ready(
            Some(Ok(Message::Pong(a))),
        ),
        item matches Some(Ok(TungsteniteMessage::Close(_))) ==> received is Some,
        item is Some && item->0 is Ok && received is Some ==> r == Next::Ready(
            Some(Ok(received->0)),
        ),
        item matches Some(Err(error)) ==> r == Next::Ready(Some(Err(Error::WebSocket(error)))),
        item is None <==> r == Next::Ready(None),
        r is Again <==> (item matches Some(Ok(message)) && message is Frame),
{
}

/// What is hashed is the key, unchanged, and behind it the fixed text.
pub proof fn law_challenge(key: &[u8], r: Vec<u8>)
    requires
        call_ensures(challenge, (key,), r),
    ensures
        r@ == key@ + encode_utf8("258EAFA5-E914-47DA-95CA-C5AB0DC85B11"@),
        r@.take(key@.len() as int) == key@,
{
    laws::law_challenge_is_key_and_guid(key@, key@);
}

/// Different keys have different challenges.
pub proof fn law_challenges_stay_apart(a: &[u8], b: &[u8], x: Vec<u8>, y: Vec<u8>)
    requires
        call_ensures(challenge, (a,), x),
        call_ensures(challenge, (b,), y),
        x@ == y@,
    ensures
        a@ == b@,
{
    laws::law_challenge_is_key_and_guid(a@, b@);
}

/// The answer made of a hash is its base64 form: 28 characters, four digits for each three
/// bytes, and for the last two bytes three digits and a pad.
pub proof fn law_accept_value(digest: &[u8; 20], r: Vec<u8>)
    requires
        call_ensures(accept_value, (digest,), r),
    ensures
        r@.len() == 28,
        forall|group: int|
            0 <= group < 6 ==> laws::are_base64_digits(
                r@,
                4 * group,
                digest@[3 * group] * 0x10000 + #[trigger] digest@[3 * group + 1] * 0x100
                    + digest@[3 * group + 2],
            ),
        laws::are_three_base64_digits(r@, 24, digest@[18] * 0x400 + digest@[19] * 4),
        r@[27] == 0x3d,
{
    laws::law_accept_value_is_base64(digest@);
}

/// The answer to a key is what `accept_value` makes of the SHA-1 hash of what `challenge`
/// makes of the key.
pub proof fn law_sign(key: &[u8], r: Vec<u8>, data: Vec<u8>, digest: &[u8; 20], answer: Vec<u8>)
    requires
        call_ensures(sign, (key,), r),
        call_ensures(challenge, (key,), data),
        digest@ == accept::sha1_of(data@),
        call_ensures(accept_value, (digest,), answer),
    ensures
        r@ == answer@,
        digest@ == accept::sha1_of(
            key@ + encode_utf8("258EAFA5-E914-47DA-95CA-C5AB0DC85B11"@),
        ),
{
}

/// A refusal has status 400, the reason as its body, and no headers.
pub proof fn law_err_res(body: &'static str, r: Response)
    requires
        call_ensures(err_res, (body,), r),
    ensures
        is_refusal(r, body@),
{
    laws::law_responses(r, Seq::empty(), body@);
}

/// Whether a response is a refusal with this reason.
pub open spec fn is_refusal(r: Response, reason: Seq<char>) -> bool {
    &&& r.status == 400
    &&& r.body@ == reason
    &&& forall|name: Seq<char>| !(#[trigger] headers::header_entries(r.headers).contains_key(name))
}

/// Whether a response switches to the WebSocket protocol, with this answer and nothing more.
pub open spec fn is_switch(r: Response, answer: Seq<u8>) -> bool {
    let entries = headers::header_entries(r.headers);
    &&& r.status == 101
    &&& r.body@.len() == 0
    &&& forall|name: Seq<char>| #[trigger]
        entries.contains_key(name) <==> name == "connection"@ || name == "upgrade"@ || name
            == "sec-websocket-accept"@
    &&& entries["connection"@] == seq![encode_utf8("upgrade"@)]
    &&& entries["upgrade"@] == seq![encode_utf8("websocket"@)]
    &&& entries["sec-websocket-accept"@] == seq![answer]
}

/// An accepting response has status 101, no body, and three headers, among them the answer as
/// it was given.
pub proof fn law_accept_res(answer: Vec<u8>, r: Response)
    requires
        call_ensures(accept_res, (answer,), r),
    ensures
        is_switch(r, answer@),
{
    laws::law_accept_headers(answer@);
    laws::law_responses(r, answer@, Seq::empty());
}

/// Bytes compare as equal if they agree one by one but for the case of ASCII letters.
pub proof fn law_eq_ignore_ascii_case(a: &[u8], b: &[u8], r: bool)
    requires
        call_ensures(eq_ignore_ascii_case, (a, b), r),
    ensures
        r <==> laws::same_letters(a@, b@),
{
    laws::law_equal_values(Some(a@), b@);
}

/// A value contains a text if it is UTF-8 and the text stands in it once its letters are in
/// lower case.
pub proof fn law_text_contains(header: &[u8], value: &str, r: bool)
    requires
        call_ensures(text_contains, (header, value), r),
    ensures
        r <==> valid_utf8(header@) && exists|start: int|
            laws::stands_at(encode_utf8(value@), header@, start),
{
    laws::law_contained_values(Some(header@), encode_utf8(value@));
}

/// Whether a header has a value.
pub open spec fn has_value(entries: Map<Seq<char>, Seq<Seq<u8>>>, name: Seq<char>) -> bool {
    entries.contains_key(name) && entries[name].len() > 0
}

/// Whether a header has a value and the first one is `value`, but for the case of letters.
pub open spec fn has_equal(
    entries: Map<Seq<char>, Seq<Seq<u8>>>,
    name: Seq<char>,
    value: Seq<char>,
) -> bool {
    has_value(entries, name) && laws::same_letters(entries[name][0], encode_utf8(value))
}

/// Whether a header has a value and the first one is UTF-8 with `value` in it, once its
/// letters are in lower case.
pub open spec fn has_part(
    entries: Map<Seq<char>, Seq<Seq<u8>>>,
    name: Seq<char>,
    value: Seq<char>,
) -> bool {
    &&& has_value(entries, name)
    &&& valid_utf8(entries[name][0])
    &&& exists|start: int| laws::stands_at(encode_utf8(value), entries[name][0], start)
}

/// A header equals a text if its first value does; the case of letters, in the name too, does
/// not count.
pub proof fn law_header_eq(headers: &HeaderMap, key: &str, value: &str, r: bool, name: Seq<char>)
    requires
        call_ensures(header_eq, (headers, key, value), r),
        laws::is_lower_text_of(key@, name),
    ensures
        r <==> has_equal(headers::header_entries(*headers), name, value@),
{
    let entries = headers::header_entries(*headers);
    laws::law_lower_chars(key@, name);
    laws::law_first_value(entries, name, entries[name][0]);
    laws::law_equal_values(headers::first_value(entries, name), encode_utf8(value@));
}

/// A header contains a text if its first value does; the case of letters in the header, in
/// its name too, does not count.
pub proof fn law_header_contains(
    headers: &HeaderMap,
    key: &str,
    value: &str,
    r: bool,
    name: Seq<char>,
)
    requires
        call_ensures(header_contains, (headers, key, value), r),
        laws::is_lower_text_of(key@, name),
    ensures
        r <==> has_part(headers::header_entries(*headers), name, value@),
{
    let entries = headers::header_entries(*headers);
    laws::law_lower_chars(key@, name);
    laws::law_first_value(entries, name, entries[name][0]);
    laws::law_contained_values(headers::first_value(entries, name), encode_utf8(value@));
}

/// A request is answered by what its headers say: the first thing that is missing is the
/// reason of the refusal, and if nothing is, the response switches to the WebSocket protocol
/// with the answer that `sign` gives to the key.
pub proof fn law_handshake(
    headers: &HeaderMap,
    r: Result<Response, Response>,
    key: &[u8],
    answer: Vec<u8>,
)
    requires
        call_ensures(handshake, (headers,), r),
        has_value(headers::header_entries(*headers), "sec-websocket-key"@) ==> key@
            == headers::header_entries(*headers)["sec-websocket-key"@][0],
        call_ensures(sign, (key,), answer),
    ensures
        ({
            let entries = headers::header_entries(*headers);
            let connection = has_part(entries, "connection"@, "upgrade"@);
            let protocol = has_equal(entries, "upgrade"@, "websocket"@);
            let version = has_equal(entries, "sec-websocket-version"@, "13"@);
            let with_key = has_value(entries, "sec-websocket-key"@);
            &&& !connection ==> (r matches Err(e) && is_refusal(
                e,
                "Connection header did not include 'upgrade'"@,
            ))
            &&& connection && !protocol ==> (r matches Err(e) && is_refusal(
                e,
                "`Upgrade` header did not include 'websocket'"@,
            ))
            &&& connection && protocol && !version ==> (r matches Err(e) && is_refusal(
                e,
                "`Sec-WebSocket-Version` header did not include '13'"@,
            ))
            &&& connection && protocol && version && !with_key ==> (r matches Err(e)
                && is_refusal(e, "`Sec-WebSocket-Key` header missing"@))
            &&& connection && protocol && version && with_key ==> (r matches Ok(response)
                && is_switch(response, answer@))
        }),
{
    let entries = headers::header_entries(*headers);
    laws::law_first_value(entries, "connection"@, entries["connection"@][0]);
    laws::law_first_value(entries, "upgrade"@, entries["upgrade"@][0]);
    laws::law_first_value(
        entries,
        "sec-websocket-version"@,
        entries["sec-websocket-version"@][0],
    );
    laws::law_first_value(entries, "sec-websocket-key"@, entries["sec-websocket-key"@][0]);
    laws::law_contained_values(
        headers::first_value(entries, "connection"@),
        encode_utf8("upgrade"@),
    );
    laws::law_equal_values(
        headers::first_value(entries, "upgrade"@),
        encode_utf8("websocket"@),
    );
    laws::law_equal_values(
        headers::first_value(entries, "sec-websocket-version"@),
        encode_utf8("13"@),
    );
    laws::law_refusal_reasons(entries);
    match r {
        Ok(response) => {
            laws::law_accept_headers(answer@);
            laws::law_responses(response, answer@, Seq::empty());
        },
        Err(response) => {
            laws::law_responses(response, Seq::empty(), response.body@);
        },
    }
}

/// A UTF-8 error is kept as it is.
pub proof fn law_error_from_utf8_error(error: Utf8Error, r: Error)
    requires
        call_ensures(<Error as core::convert::From<Utf8Error>>::from, (error,), r),
    ensures
        r == Error::Utf8(error),
{
}

/// An error of the connection is kept as it is.
pub proof fn law_error_from_tungstenite_error(error: TungsteniteError, r: Error)
    requires
        call_ensures(<Error as core::convert::From<TungsteniteError>>::from, (error,), r),
    ensures
        r == Error::WebSocket(error),
{
}

/// An error of an upgrade is kept as it is.
pub proof fn law_error_from_hyper_error(error: HyperError, r: Error)
    requires
        call_ensures(<Error as core::convert::From<HyperError>>::from, (error,), r),
    ensures
        r == Error::Upgrade(error),
{
}

/// A clone of a close command has its code and its reason.
pub proof fn law_close_frame_clone(frame: &CloseFrame<'static>, r: CloseFrame<'static>)
    requires
        call_ensures(<CloseFrame<'static> as core::clone::Clone>::clone, (frame,), r),
    ensures
        r.code == frame.code,
        r.reason == frame.reason,
{
}

/// An upgraded connection is handed on; a failed upgrade gives none, and the callback is
/// called with the error.
pub proof fn law_upgraded_or_call<U, E: OnFailedUpgrade>(
    upgrade: Result<U, HyperError>,
    on_failed_upgrade: E,
    r: Option<U>,
)
    requires
        call_ensures(upgraded_or_call::<U, E>, (upgrade, on_failed_upgrade), r),
    ensures
        upgrade matches Ok(upgraded) ==> r == Some(upgraded),
        upgrade matches Err(error) ==> r is None && on_failed_upgrade.called(
            Error::Upgrade(error),
        ),
{
}

} // verus!
