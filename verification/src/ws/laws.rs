//! What holds of the library as a whole.

use crate::ws::accept;
use crate::ws::error;
use crate::ws::error::{Error, Utf8Error};
use crate::ws::headers;
use crate::ws::message::Message;
use crate::ws::stream;
use crate::ws::stream::Next;
use crate::ws::upgrade;
use crate::ws::upgrade::{OnFailedUpgrade, Response};
use crate::ws::wire;
use tokio_tungstenite::tungstenite::protocol::frame::coding::CloseCode as TungsteniteCloseCode;
use tokio_tungstenite::tungstenite::Error as TungsteniteError;
use tokio_tungstenite::tungstenite::Message as TungsteniteMessage;
use vstd::prelude::*;
use vstd::utf8::*;

verus! {

/// A status code survives the way through the close codes of `tungstenite`.
pub proof fn law_close_code_round_trip(code: u16)
    ensures
        wire::status_code(wire::close_code(code)) == code,
{
}

/// A message that is sent and comes back unchanged is received as it was.
pub proof fn law_message_round_trip(message: Message)
    ensures
        Message::of_tungstenite(message.as_tungstenite()) == Some(message),
{
}

/// A message that is received can be sent back unchanged, if the close code in it is the one
/// that its status code has.
pub proof fn law_received_message_round_trip(message: TungsteniteMessage)
    requires
        message !is Frame,
        message matches TungsteniteMessage::Close(Some(frame)) ==> frame.code == wire::close_code(
            wire::status_code(frame.code),
        ),
    ensures
        Message::of_tungstenite(message) matches Some(m) && m.as_tungstenite() == message,
{
}

/// Raw frames, and nothing else, are ignored.
pub proof fn law_only_frames_are_ignored(message: TungsteniteMessage)
    ensures
        Message::of_tungstenite(message) is None <==> message is Frame,
{
}

/// Two messages that look the same to `tungstenite` are the same.
pub proof fn law_messages_stay_apart(a: Message, b: Message)
    requires
        a.as_tungstenite() == b.as_tungstenite(),
    ensures
        a == b,
{
    law_message_round_trip(a);
    law_message_round_trip(b);
}

/// Text and the reason of a close command read back as they were written; only binary
/// messages, pings and pongs can fail to be text.
pub proof fn law_text_reads_back(message: Message)
    ensures
        message matches Message::Text(text) ==> valid_utf8(message.payload()) && decode_utf8(
            message.payload(),
        ) == text@,
        message matches Message::Close(Some(frame)) ==> valid_utf8(message.payload())
            && decode_utf8(message.payload()) == frame.reason@,
        message matches Message::Close(None) ==> valid_utf8(message.payload()) && decode_utf8(
            message.payload(),
        ) == Seq::<char>::empty(),
        !valid_utf8(message.payload()) ==> message is Binary || message is Ping || message is Pong,
{
    broadcast use {encode_utf8_valid_utf8, encode_utf8_decode_utf8};

}

/// Where a message can be read as text, the text has the bytes of the message.
pub proof fn law_text_has_the_bytes(message: Message)
    requires
        valid_utf8(message.payload()),
    ensures
        encode_utf8(decode_utf8(message.payload())) == message.payload(),
{
    decode_utf8_encode_utf8(message.payload());
}

/// Bytes fail to be UTF-8 in one way only, so all readings of a message as text fail with the
/// same error.
pub proof fn law_utf8_error_is_determined(bytes: Seq<u8>, a: Utf8Error, b: Utf8Error)
    requires
        a.describes(bytes),
        b.describes(bytes),
    ensures
        a == b,
{
    if a.valid_up_to < b.valid_up_to {
        assert(!valid_utf8(bytes.take(b.valid_up_to as int)));
    }
    if b.valid_up_to < a.valid_up_to {
        assert(!valid_utf8(bytes.take(a.valid_up_to as int)));
    }
    let rest = bytes.skip(a.valid_up_to as int);
    if let (Some(m), Some(n)) = (a.error_len, b.error_len) {
        if m < n {
            assert(!error::is_cut_off(rest.take(n as int)));
        }
        if n < m {
            assert(!error::is_cut_off(rest.take(m as int)));
        }
    }
}

/// Raw frames are passed over: what is handed out is the first answer of the connection that
/// is no raw frame.
pub proof fn law_first_message_is_handed_out(
    items: Seq<Option<Result<TungsteniteMessage, TungsteniteError>>>,
    first: int,
)
    requires
        0 <= first < items.len(),
        forall|i: int|
            0 <= i < first ==> (#[trigger] items[i] matches Some(Ok(message)) && message is Frame),
        !(items[first] matches Some(Ok(message)) && message is Frame),
    ensures
        stream::next_over(items) == stream::next_after(items[first]),
        stream::next_over(items) is Ready,
    decreases first,
{
    if first > 0 {
        assert(items[0] matches Some(Ok(message)) && message is Frame);
        assert forall|i: int| 0 <= i < first - 1 implies (
        #[trigger] items.drop_first()[i] matches Some(Ok(message)) && message is Frame) by {
            assert(items.drop_first()[i] == items[i + 1]);
        }
        law_first_message_is_handed_out(items.drop_first(), first - 1);
    }
}

/// Nothing is handed out while the connection answers with raw frames only.
pub proof fn law_frames_are_not_handed_out(
    items: Seq<Option<Result<TungsteniteMessage, TungsteniteError>>>,
)
    requires
        forall|i: int|
            0 <= i < items.len() ==> (#[trigger] items[i] matches Some(Ok(message))
                && message is Frame),
    ensures
        stream::next_over(items) is Again,
    decreases items.len(),
{
    if items.len() > 0 {
        assert(items[0] matches Some(Ok(message)) && message is Frame);
        assert forall|i: int| 0 <= i < items.drop_first().len() implies (
        #[trigger] items.drop_first()[i] matches Some(Ok(message)) && message is Frame) by {
            assert(items.drop_first()[i] == items[i + 1]);
        }
        law_frames_are_not_handed_out(items.drop_first());
    }
}

/// Whether an answer of the connection is a raw frame.
pub open spec fn is_frame(item: Option<Result<TungsteniteMessage, TungsteniteError>>) -> bool {
    item matches Some(Ok(message)) && message is Frame
}

/// A receiver that asks on until the end gets all answers of the connection but the raw
/// frames, each once and in their order.
pub proof fn law_run_hands_out_all_but_frames(
    items: Seq<Option<Result<TungsteniteMessage, TungsteniteError>>>,
)
    ensures
        stream::run_over(items) == items.filter(|item| !is_frame(item)).map_values(
            |item| stream::next_after(item)->Ready_0,
        ),
        stream::run_over(items).len() == items.filter(|item| !is_frame(item)).len(),
        forall|i: int|
            0 <= i < stream::run_over(items).len() ==> same_answer(
                items.filter(|item| !is_frame(item))[i],
                #[trigger] stream::run_over(items)[i],
            ),
    decreases items.len(),
{
    let kept = |item: Option<Result<TungsteniteMessage, TungsteniteError>>| !is_frame(item);
    let given = |item: Option<Result<TungsteniteMessage, TungsteniteError>>|
        stream::next_after(item)->Ready_0;
    reveal_with_fuel(Seq::filter, 2);
    if items.len() == 0 {
        assert(stream::run_over(items) =~= items.filter(kept).map_values(given));
    } else {
        let first = seq![items[0]];
        let rest = items.drop_first();
        law_run_hands_out_all_but_frames(rest);
        assert(items =~= first + rest);
        Seq::filter_distributes_over_add(first, rest, kept);
        assert(first.drop_last() =~= Seq::empty());
        if is_frame(items[0]) {
            assert(first.filter(kept) =~= Seq::empty());
            assert(items.filter(kept) =~= rest.filter(kept));
            assert(stream::next_over(items) == stream::next_over(rest));
            assert(stream::left_over(items) == stream::left_over(rest));
            assert(stream::run_over(items) == stream::run_over(rest));
        } else {
            assert(first.filter(kept) =~= first);
            assert(stream::run_over(items) =~= seq![given(items[0])] + stream::run_over(rest));
            assert(items.filter(kept).map_values(given) =~= seq![given(items[0])] + rest.filter(
                kept,
            ).map_values(given));
        }
    }
}

/// The answer to a key is 28 characters long and ends with exactly one `=`.
pub proof fn law_accept_value_has_one_pad(digest: Seq<u8>)
    requires
        digest.len() == 20,
    ensures
        accept::accept_of(digest).len() == 28,
        accept::accept_of(digest)[27] == 0x3d,
        accept::accept_of(digest)[26] != 0x3d,
{
    accept::lemma_base64_is_printable(digest);
    is_ascii_chars_encode_utf8(accept::base64_of(digest));
    assert(0 <= accept::base64_digit(digest, 26) < 64);
    assert(accept::base64_of(digest)[27] == '=');
    assert(accept::base64_of(digest)[26] != '=');
}

/// A request is upgraded if and only if it asks for the WebSocket protocol in version 13
/// and brings a key.
pub proof fn law_upgrade_conditions(entries: Map<Seq<char>, Seq<Seq<u8>>>)
    ensures
        upgrade::refusal(entries) is None <==> {
            &&& headers::value_contains(
                headers::first_value(entries, "connection"@),
                encode_utf8("upgrade"@),
            )
            &&& headers::value_eq(
                headers::first_value(entries, "upgrade"@),
                encode_utf8("websocket"@),
            )
            &&& headers::value_eq(
                headers::first_value(entries, "sec-websocket-version"@),
                encode_utf8("13"@),
            )
            &&& headers::first_value(entries, "sec-websocket-key"@) is Some
        },
{
}

/// Whether two optional values are the same up to the case of ASCII letters.
pub open spec fn same_but_for_case(a: Option<Seq<u8>>, b: Option<Seq<u8>>) -> bool {
    match (a, b) {
        (Some(x), Some(y)) => headers::lower_bytes(x) == headers::lower_bytes(y),
        (None, None) => true,
        _ => false,
    }
}

/// The case of the letters in the headers of a request, and any value of a header but the
/// first, have no influence on the decision.
pub proof fn law_decision_ignores_case(
    a: Map<Seq<char>, Seq<Seq<u8>>>,
    b: Map<Seq<char>, Seq<Seq<u8>>>,
)
    requires
        same_but_for_case(
            headers::first_value(a, "connection"@),
            headers::first_value(b, "connection"@),
        ),
        same_but_for_case(
            headers::first_value(a, "upgrade"@),
            headers::first_value(b, "upgrade"@),
        ),
        same_but_for_case(
            headers::first_value(a, "sec-websocket-version"@),
            headers::first_value(b, "sec-websocket-version"@),
        ),
        headers::first_value(a, "sec-websocket-key"@) is Some <==> headers::first_value(
            b,
            "sec-websocket-key"@,
        ) is Some,
    ensures
        upgrade::refusal(a) == upgrade::refusal(b),
{
    if let (Some(x), Some(y)) = (
        headers::first_value(a, "connection"@),
        headers::first_value(b, "connection"@),
    ) {
        lemma_lower_keeps_utf8(x);
        lemma_lower_keeps_utf8(y);
    }
}

/// A header that equals a text in lower case also contains it.
pub proof fn law_equal_values_contain(value: Option<Seq<u8>>, text: Seq<char>)
    requires
        headers::value_eq(value, encode_utf8(text)),
        headers::lower_bytes(encode_utf8(text)) == encode_utf8(text),
    ensures
        headers::value_contains(value, encode_utf8(text)),
{
    let v = value->0;
    let part = encode_utf8(text);
    encode_utf8_valid_utf8(text);
    lemma_lower_keeps_utf8(v);
    assert(headers::lower_bytes(v).subrange(0, part.len() as int) =~= part);
    assert(headers::occurs_at(part, headers::lower_bytes(v), 0));
}

/// The answer to an accepted request names no subprotocol.
pub proof fn law_no_subprotocol_is_chosen(accept: Seq<u8>)
    ensures
        headers::first_value(
            upgrade::accept_entries(accept),
            "sec-websocket-protocol"@,
        ) is None,
{
    reveal_strlit("connection");
    reveal_strlit("upgrade");
    reveal_strlit("sec-websocket-accept");
    reveal_strlit("sec-websocket-protocol");
    assert("sec-websocket-protocol"@.len() != "connection"@.len());
    assert("sec-websocket-protocol"@.len() != "upgrade"@.len());
    assert("sec-websocket-protocol"@.len() != "sec-websocket-accept"@.len());
}

/// Whether `wire` and `message` are of the same kind and hold the same: the same text, the
/// same bytes, or the same status code and reason.
pub open spec fn same_message(wire: TungsteniteMessage, message: Message) -> bool {
    match (wire, message) {
        (TungsteniteMessage::Text(a), Message::Text(b)) => a == b,
        (TungsteniteMessage::Binary(a), Message::Binary(b)) => a == b,
        (TungsteniteMessage::Ping(a), Message::Ping(b)) => a == b,
        (TungsteniteMessage::Pong(a), Message::Pong(b)) => a == b,
        (TungsteniteMessage::Close(None), Message::Close(None)) => true,
        (TungsteniteMessage::Close(Some(a)), Message::Close(Some(b))) => {
            &&& wire::status_code(a.code) == b.code
            &&& a.reason == b.reason
        },
        _ => false,
    }
}

/// Whether `out` is what a receiver is to get of the answer `item`: the same message, the
/// same error, or the end of the connection.
pub open spec fn same_answer(
    item: Option<Result<TungsteniteMessage, TungsteniteError>>,
    out: Option<Result<Message, Error>>,
) -> bool {
    match (item, out) {
        (Some(Ok(wire)), Some(Ok(message))) => same_message(wire, message),
        (Some(Err(a)), Some(Err(Error::WebSocket(b)))) => a == b,
        (None, None) => true,
        _ => false,
    }
}

/// What is sent is of the kind of the message and holds what it holds.
pub proof fn law_sending_keeps_kind_and_content(message: Message)
    ensures
        same_message(message.as_tungstenite(), message),
        message matches Message::Close(Some(frame)) ==> (message.as_tungstenite()
            matches TungsteniteMessage::Close(Some(sent)) && sent.code == wire::close_code(frame.code)),
{
}

/// What is received is of the kind of what was sent and holds what it holds.
pub proof fn law_receiving_keeps_kind_and_content(message: TungsteniteMessage)
    requires
        message !is Frame,
    ensures
        Message::of_tungstenite(message) matches Some(m) && same_message(message, m),
{
}

/// Each status code has the close code that is named for it, or that of its range.
pub proof fn law_close_codes(code: u16)
    ensures
        wire::close_code(code) is Normal <==> code == 1000,
        wire::close_code(code) is Away <==> code == 1001,
        wire::close_code(code) is Protocol <==> code == 1002,
        wire::close_code(code) is Unsupported <==> code == 1003,
        wire::close_code(code) is Status <==> code == 1005,
        wire::close_code(code) is Abnormal <==> code == 1006,
        wire::close_code(code) is Invalid <==> code == 1007,
        wire::close_code(code) is Policy <==> code == 1008,
        wire::close_code(code) is Size <==> code == 1009,
        wire::close_code(code) is Extension <==> code == 1010,
        wire::close_code(code) is Error <==> code == 1011,
        wire::close_code(code) is Restart <==> code == 1012,
        wire::close_code(code) is Again <==> code == 1013,
        wire::close_code(code) is Tls <==> code == 1015,
        wire::close_code(code) is Reserved <==> 1016 <= code < 3000,
        wire::close_code(code) is Iana <==> 3000 <= code < 4000,
        wire::close_code(code) is Library <==> 4000 <= code < 5000,
        wire::close_code(code) is Bad <==> code < 1000 || code == 1004 || code == 1014 || code
            >= 5000,
{
}

/// A close code that holds a number stands for that number, whatever its range.
pub proof fn law_numbered_close_codes(number: u16)
    ensures
        wire::status_code(TungsteniteCloseCode::Reserved(number)) == number,
        wire::status_code(TungsteniteCloseCode::Iana(number)) == number,
        wire::status_code(TungsteniteCloseCode::Library(number)) == number,
        wire::status_code(TungsteniteCloseCode::Bad(number)) == number,
{
}

/// The bytes of a binary message, a ping or a pong are its data, whole and unchanged, and
/// those of text are its characters in UTF-8.
pub proof fn law_payload_is_the_content(message: Message)
    ensures
        message matches Message::Text(text) ==> message.payload() == encode_utf8(text@),
        message matches Message::Binary(data) ==> message.payload() == data@,
        message matches Message::Ping(data) ==> message.payload() == data@,
        message matches Message::Pong(data) ==> message.payload() == data@,
        message matches Message::Close(Some(frame)) ==> message.payload() == encode_utf8(
            frame.reason@,
        ),
        message matches Message::Close(None) ==> message.payload().len() == 0,
{
}

/// A received message is handed out as it is, an error as an error, and only the end of the
/// connection as the end. Only raw frames are passed over.
pub proof fn law_answers_are_handed_out(
    item: Option<Result<TungsteniteMessage, TungsteniteError>>,
)
    ensures
        stream::next_after(item) is Again <==> is_frame(item),
        stream::next_after(item) matches Next::Ready(out) ==> same_answer(item, out),
        stream::next_after(item) == Next::Ready(None) <==> item is None,
        item matches Some(Ok(message)) ==> (message !is Frame ==> stream::next_after(item)
            == Next::Ready(Some(Ok(Message::of_tungstenite(message)->0)))),
{
}

/// What is hashed is the key as it came, and behind it the fixed text and nothing else. So
/// different keys have different challenges.
pub proof fn law_challenge_is_key_and_guid(key: Seq<u8>, other: Seq<u8>)
    ensures
        accept::challenge_of(key).take(key.len() as int) == key,
        accept::challenge_of(key).skip(key.len() as int) == encode_utf8(
            "258EAFA5-E914-47DA-95CA-C5AB0DC85B11"@,
        ),
        accept::challenge_of(key) == accept::challenge_of(other) ==> key == other,
{
    let guid = encode_utf8("258EAFA5-E914-47DA-95CA-C5AB0DC85B11"@);
    assert(accept::challenge_of(key).take(key.len() as int) =~= key);
    assert(accept::challenge_of(key).skip(key.len() as int) =~= guid);
    assert(accept::challenge_of(other).take(other.len() as int) =~= other);
    if accept::challenge_of(key) == accept::challenge_of(other) {
        assert(accept::challenge_of(key).len() == key.len() + guid.len());
        assert(accept::challenge_of(other).len() == other.len() + guid.len());
    }
}

/// The headers of an accepting response are three, each with one value: the key's answer as
/// it is, and the two that name the protocol.
pub proof fn law_accept_headers(accept: Seq<u8>)
    ensures
        forall|name: Seq<char>| #[trigger]
            upgrade::accept_entries(accept).contains_key(name) <==> name == "connection"@ || name
                == "upgrade"@ || name == "sec-websocket-accept"@,
        upgrade::accept_entries(accept)["connection"@] == seq![encode_utf8("upgrade"@)],
        upgrade::accept_entries(accept)["upgrade"@] == seq![encode_utf8("websocket"@)],
        upgrade::accept_entries(accept)["sec-websocket-accept"@] == seq![accept],
        headers::first_value(upgrade::accept_entries(accept), "sec-websocket-accept"@) == Some(
            accept,
        ),
        headers::first_value(upgrade::accept_entries(accept), "connection"@) == Some(
            encode_utf8("upgrade"@),
        ),
        headers::first_value(upgrade::accept_entries(accept), "upgrade"@) == Some(
            encode_utf8("websocket"@),
        ),
{
    reveal_strlit("connection");
    reveal_strlit("upgrade");
    reveal_strlit("sec-websocket-accept");
    assert("connection"@.len() != "upgrade"@.len());
    assert("connection"@.len() != "sec-websocket-accept"@.len());
    assert("upgrade"@.len() != "sec-websocket-accept"@.len());
}

/// A response accepts with status 101, the three headers and no body, and refuses with
/// status 400, no headers and the reason as the body.
pub proof fn law_responses(response: Response, accept: Seq<u8>, reason: Seq<char>)
    ensures
        response.accepts(accept) <==> {
            &&& response.status == 101
            &&& headers::header_entries(response.headers) == upgrade::accept_entries(accept)
            &&& response.body@.len() == 0
        },
        response.refuses(reason) <==> {
            &&& response.status == 400
            &&& forall|name: Seq<char>| !(#[trigger] headers::header_entries(
                response.headers,
            ).contains_key(name))
            &&& response.body@ == reason
        },
{
    if response.body@.len() == 0 {
        assert(response.body@ =~= Seq::<char>::empty());
    }
    if forall|name: Seq<char>| !(#[trigger] headers::header_entries(
        response.headers,
    ).contains_key(name)) {
        assert(headers::header_entries(response.headers)
            =~= Map::<Seq<char>, Seq<Seq<u8>>>::empty());
    }
}

/// The first value of a header is the one at the beginning of its values.
pub proof fn law_first_value(
    entries: Map<Seq<char>, Seq<Seq<u8>>>,
    name: Seq<char>,
    value: Seq<u8>,
)
    ensures
        headers::first_value(entries, name) == Some(value) <==> entries.contains_key(name)
            && entries[name].len() > 0 && entries[name][0] == value,
        headers::first_value(entries, name) is None <==> !(entries.contains_key(name)
            && entries[name].len() > 0),
        entries.contains_key(name) ==> headers::header_values(entries, name) == entries[name],
        !entries.contains_key(name) ==> headers::header_values(entries, name).len() == 0,
{
}

/// Whether `lower` is `byte`, but with an ASCII capital in lower case.
pub open spec fn is_lower_of(byte: u8, lower: u8) -> bool {
    if 0x41 <= byte <= 0x5a {
        lower == byte + 0x20
    } else {
        lower == byte
    }
}

/// Whether two bytes are the same but for the case of an ASCII letter.
pub open spec fn same_letter(a: u8, b: u8) -> bool {
    a == b || (0x41 <= a <= 0x5a && b == a + 0x20) || (0x41 <= b <= 0x5a && a == b + 0x20)
}

/// Whether two byte strings are the same but for the case of ASCII letters.
pub open spec fn same_letters(a: Seq<u8>, b: Seq<u8>) -> bool {
    a.len() == b.len() && forall|i: int| 0 <= i < a.len() ==> same_letter(#[trigger] a[i], b[i])
}

/// Whether `part` stands in `whole` from `start` on, once the letters there are in lower case.
pub open spec fn stands_at(part: Seq<u8>, whole: Seq<u8>, start: int) -> bool {
    &&& 0 <= start
    &&& start + part.len() <= whole.len()
    &&& forall|i: int| 0 <= i < part.len() ==> is_lower_of(whole[start + i], #[trigger] part[i])
}

/// Values are equal if they agree byte by byte but for the case of letters.
pub proof fn law_equal_values(value: Option<Seq<u8>>, expected: Seq<u8>)
    ensures
        headers::value_eq(value, expected) <==> (value matches Some(v) && same_letters(
            v,
            expected,
        )),
{
    if let Some(v) = value {
        if headers::value_eq(value, expected) {
            assert(headers::lower_bytes(v).len() == headers::lower_bytes(expected).len());
            assert forall|i: int| 0 <= i < v.len() implies same_letter(
                #[trigger] v[i],
                expected[i],
            ) by {
                assert(headers::lower_bytes(v)[i] == headers::lower_bytes(expected)[i]);
            }
        }
        if same_letters(v, expected) {
            assert(headers::lower_bytes(v) =~= headers::lower_bytes(expected));
        }
    }
}

/// A value contains a text if it is UTF-8 and the text stands somewhere in it, once its
/// letters are in lower case.
pub proof fn law_contained_values(value: Option<Seq<u8>>, part: Seq<u8>)
    ensures
        headers::value_contains(value, part) <==> (value matches Some(v) && valid_utf8(v) && (
        exists|start: int| stands_at(part, v, start))),
{
    if let Some(v) = value {
        let lower = headers::lower_bytes(v);
        if headers::value_contains(value, part) {
            let start = choose|start: int| headers::occurs_at(part, lower, start);
            assert forall|i: int| 0 <= i < part.len() implies is_lower_of(
                v[start + i],
                #[trigger] part[i],
            ) by {
                assert(lower.subrange(start, start + part.len())[i] == part[i]);
            }
            assert(stands_at(part, v, start));
        }
        if valid_utf8(v) && exists|start: int| stands_at(part, v, start) {
            let start = choose|start: int| stands_at(part, v, start);
            assert(lower.subrange(start, start + part.len()) =~= part);
            assert(headers::occurs_at(part, lower, start));
        }
    }
}

/// Bytes occur in others if something before them and something after them makes up the whole.
pub proof fn law_occurs_in(part: Seq<u8>, whole: Seq<u8>)
    ensures
        headers::occurs_in(part, whole) <==> exists|before: Seq<u8>, after: Seq<u8>|
            whole == #[trigger] (before + part + after),
{
    if headers::occurs_in(part, whole) {
        let start = choose|start: int| headers::occurs_at(part, whole, start);
        let before = whole.take(start);
        let after = whole.skip(start + part.len());
        assert(whole.subrange(start, start + part.len()) =~= part);
        assert(whole =~= before + part + after) by {
            assert forall|i: int| 0 <= i < whole.len() implies whole[i] == (before + part
                + after)[i] by {
                if start <= i < start + part.len() {
                    assert(whole.subrange(start, start + part.len())[i - start] == whole[i]);
                }
            }
        }
    }
    if exists|before: Seq<u8>, after: Seq<u8>| whole == #[trigger] (before + part + after) {
        let (before, after) = choose|before: Seq<u8>, after: Seq<u8>|
            whole == #[trigger] (before + part + after);
        assert(whole.subrange(before.len() as int, (before.len() + part.len()) as int) =~= part);
        assert(headers::occurs_at(part, whole, before.len() as int));
    }
}

/// Bytes in lower case are as many as before, each in lower case.
pub proof fn law_lower_bytes(bytes: Seq<u8>)
    ensures
        headers::lower_bytes(bytes).len() == bytes.len(),
        forall|i: int|
            0 <= i < bytes.len() ==> is_lower_of(
                bytes[i],
                #[trigger] headers::lower_bytes(bytes)[i],
            ),
{
}

/// Whether `lower` is `c`, but with an ASCII capital in lower case.
pub open spec fn is_lower_char_of(c: char, lower: char) -> bool {
    if 'A' <= c <= 'Z' {
        lower as int == c as int + 32
    } else {
        lower == c
    }
}

/// Whether `lower` is `text`, but with the ASCII capitals in lower case.
pub open spec fn is_lower_text_of(text: Seq<char>, lower: Seq<char>) -> bool {
    text.len() == lower.len() && forall|i: int|
        0 <= i < text.len() ==> is_lower_char_of(#[trigger] text[i], lower[i])
}

/// Text in lower case has as many characters as before, each in lower case.
pub proof fn law_lower_chars(text: Seq<char>, lower: Seq<char>)
    ensures
        headers::lower_chars(text) == lower <==> is_lower_text_of(text, lower),
{
    if is_lower_text_of(text, lower) {
        assert(headers::lower_chars(text) =~= lower);
    }
    if headers::lower_chars(text) == lower {
        assert forall|i: int| 0 <= i < text.len() implies is_lower_char_of(
            #[trigger] text[i],
            lower[i],
        ) by {
            assert(headers::lower_chars(text)[i] == headers::lower_char(text[i]));
        }
    }
}

/// Each reason to refuse a request comes exactly if what it names is wrong and what is looked
/// at before it is right.
pub proof fn law_refusal_reasons(entries: Map<Seq<char>, Seq<Seq<u8>>>)
    ensures
        ({
            let connection = headers::value_contains(
                headers::first_value(entries, "connection"@),
                encode_utf8("upgrade"@),
            );
            let protocol = headers::value_eq(
                headers::first_value(entries, "upgrade"@),
                encode_utf8("websocket"@),
            );
            let version = headers::value_eq(
                headers::first_value(entries, "sec-websocket-version"@),
                encode_utf8("13"@),
            );
            let key = headers::first_value(entries, "sec-websocket-key"@) is Some;
            &&& !connection ==> upgrade::refusal(entries) == Some(
                "Connection header did not include 'upgrade'"@,
            )
            &&& connection && !protocol ==> upgrade::refusal(entries) == Some(
                "`Upgrade` header did not include 'websocket'"@,
            )
            &&& connection && protocol && !version ==> upgrade::refusal(entries) == Some(
                "`Sec-WebSocket-Version` header did not include '13'"@,
            )
            &&& connection && protocol && version && !key ==> upgrade::refusal(entries) == Some(
                "`Sec-WebSocket-Key` header missing"@,
            )
            &&& connection && protocol && version && key ==> upgrade::refusal(entries) is None
        }),
{
}

/// The hash that answers a request is that of its key with the fixed text behind it.
pub proof fn law_answer_digest(entries: Map<Seq<char>, Seq<Seq<u8>>>)
    requires
        entries.contains_key("sec-websocket-key"@),
        entries["sec-websocket-key"@].len() > 0,
    ensures
        upgrade::answer_digest(entries) == accept::sha1_of(
            entries["sec-websocket-key"@][0] + encode_utf8(
                "258EAFA5-E914-47DA-95CA-C5AB0DC85B11"@,
            ),
        ),
{
}

/// Whether `byte` is the base64 digit for the number `value`.
pub open spec fn is_base64_digit(byte: u8, value: int) -> bool {
    ||| 0 <= value < 26 && byte == 0x41 + value
    ||| 26 <= value < 52 && byte == 0x61 + (value - 26)
    ||| 52 <= value < 62 && byte == 0x30 + (value - 52)
    ||| value == 62 && byte == 0x2b
    ||| value == 63 && byte == 0x2f
}

/// Whether four base64 digits from `start` on are those of the number `value`.
pub open spec fn are_base64_digits(text: Seq<u8>, start: int, value: int) -> bool {
    exists|a: int, b: int, c: int, d: int|
        {
            &&& #[trigger] is_base64_digit(text[start], a)
            &&& #[trigger] is_base64_digit(text[start + 1], b)
            &&& #[trigger] is_base64_digit(text[start + 2], c)
            &&& #[trigger] is_base64_digit(text[start + 3], d)
            &&& value == a * 0x40000 + b * 0x1000 + c * 0x40 + d
        }
}

/// Whether three base64 digits from `start` on are those of the number `value`.
pub open spec fn are_three_base64_digits(text: Seq<u8>, start: int, value: int) -> bool {
    exists|a: int, b: int, c: int|
        {
            &&& #[trigger] is_base64_digit(text[start], a)
            &&& #[trigger] is_base64_digit(text[start + 1], b)
            &&& #[trigger] is_base64_digit(text[start + 2], c)
            &&& value == a * 0x1000 + b * 0x40 + c
        }
}

/// The answer holds the hash in base64: four digits for three bytes, most significant first,
/// and for the last two bytes three digits and a pad.
pub proof fn law_accept_value_is_base64(digest: Seq<u8>)
    requires
        digest.len() == 20,
    ensures
        accept::accept_of(digest).len() == 28,
        forall|group: int|
            0 <= group < 6 ==> are_base64_digits(
                accept::accept_of(digest),
                4 * group,
                digest[3 * group] * 0x10000 + #[trigger] digest[3 * group + 1] * 0x100 + digest[3
                    * group + 2],
            ),
        are_three_base64_digits(
            accept::accept_of(digest),
            24,
            digest[18] * 0x400 + digest[19] * 4,
        ),
        accept::accept_of(digest)[27] == 0x3d,
{
    let text = accept::accept_of(digest);
    law_accept_value_has_one_pad(digest);
    accept::lemma_base64_is_printable(digest);
    is_ascii_chars_encode_utf8(accept::base64_of(digest));
    assert forall|i: int| 0 <= i < 27 implies is_base64_digit(
        #[trigger] text[i],
        accept::base64_digit(digest, i),
    ) by {
        assert(0 <= accept::base64_digit(digest, i) < 64);
        assert(accept::base64_of(digest)[i] == accept::base64_char(
            accept::base64_digit(digest, i),
        ));
    }
    assert forall|group: int| 0 <= group < 6 implies are_base64_digits(
        text,
        4 * group,
        digest[3 * group] * 0x10000 + #[trigger] digest[3 * group + 1] * 0x100 + digest[3 * group
            + 2],
    ) by {
        let a = accept::base64_digit(digest, 4 * group);
        let b = accept::base64_digit(digest, 4 * group + 1);
        let c = accept::base64_digit(digest, 4 * group + 2);
        let d = accept::base64_digit(digest, 4 * group + 3);
        assert(is_base64_digit(text[4 * group], a));
        assert(is_base64_digit(text[4 * group + 1], b));
        assert(is_base64_digit(text[4 * group + 2], c));
        assert(is_base64_digit(text[4 * group + 3], d));
    }
    let a = accept::base64_digit(digest, 24);
    let b = accept::base64_digit(digest, 25);
    let c = accept::base64_digit(digest, 26);
    let start: int = 24;
    assert(is_base64_digit(text[start], a));
    assert(is_base64_digit(text[start + 1], b));
    assert(is_base64_digit(text[start + 2], c));
    assert(digest[18] * 0x400 + digest[19] * 4 == a * 0x1000 + b * 0x40 + c);
    assert(are_three_base64_digits(text, start, digest[18] * 0x400 + digest[19] * 4));
}

/// Whether `bytes` are the beginning, but not the whole, of one character in UTF-8.
pub open spec fn begins_some_char(bytes: Seq<u8>) -> bool {
    exists|c: char|
        {
            &&& 0 < bytes.len() < #[trigger] encode_utf8(seq![c]).len()
            &&& encode_utf8(seq![c]).take(bytes.len() as int) == bytes
        }
}

/// Bytes are a character that is cut off if one more character in UTF-8 begins with them.
pub proof fn law_cut_off(bytes: Seq<u8>)
    ensures
        error::is_cut_off(bytes) <==> begins_some_char(bytes),
{
    assert forall|c: char| #[trigger] encode_utf8(seq![c]) == encode_scalar(c as u32) by {
        assert(seq![c].drop_first() =~= Seq::<char>::empty());
        reveal_with_fuel(encode_utf8, 2);
        assert(encode_utf8(seq![c]) =~= encode_scalar(c as u32));
    }
    if error::is_cut_off(bytes) {
        let c = choose|c: char| error::begins_char(bytes, c);
        assert(0 < bytes.len() < encode_utf8(seq![c]).len());
    }
    if begins_some_char(bytes) {
        let c = choose|c: char|
            {
                &&& 0 < bytes.len() < #[trigger] encode_utf8(seq![c]).len()
                &&& encode_utf8(seq![c]).take(bytes.len() as int) == bytes
            };
        assert(error::begins_char(bytes, c));
    }
}

/// A UTF-8 error names the longest prefix that is UTF-8, and behind it a character that is
/// cut off or the longest sequence that can still begin one, of at least one byte.
pub proof fn law_utf8_error_says_where(bytes: Seq<u8>, e: Utf8Error)
    requires
        e.describes(bytes),
    ensures
        ({
            let rest = bytes.skip(e.valid_up_to as int);
            &&& e.valid_up_to < bytes.len()
            &&& valid_utf8(bytes.take(e.valid_up_to as int))
            &&& forall|end: int|
                e.valid_up_to < end <= bytes.len() ==> !valid_utf8(#[trigger] bytes.take(end))
            &&& e.error_len is None <==> begins_some_char(rest)
            &&& e.error_len matches Some(len) ==> {
                &&& 1 <= len <= rest.len()
                &&& len == 1 || begins_some_char(rest.take(len as int))
                &&& forall|more: int|
                    len < more <= rest.len() ==> !begins_some_char(#[trigger] rest.take(more))
            }
        }),
{
    let rest = bytes.skip(e.valid_up_to as int);
    law_cut_off(rest);
    if let Some(len) = e.error_len {
        law_cut_off(rest.take(len as int));
        assert forall|more: int| len < more <= rest.len() implies !begins_some_char(
            #[trigger] rest.take(more),
        ) by {
            law_cut_off(rest.take(more));
        }
    }
}

/// Bytes can be the value of a header if none of them is a control character but the tab.
pub proof fn law_header_value_bytes(value: Seq<u8>)
    ensures
        headers::is_header_value(value) <==> forall|i: int|
            0 <= i < value.len() ==> #[trigger] value[i] == 9 || 32 <= value[i] < 127 || value[i]
                > 127,
{
}

/// A function or closure serves as a callback for a failed upgrade: it can be called with the
/// errors that it takes, and to have called it is to have run it.
pub proof fn law_functions_are_callbacks<F: FnOnce(Error) + Send + 'static>(f: F, error: Error)
    ensures
        f.can_call(error) <==> call_requires(f, (error,)),
        f.called(error) <==> call_ensures(f, (error,), ()),
{
}

/// Putting ASCII letters in lower case keeps UTF-8 what it is, and makes nothing UTF-8.
proof fn lemma_lower_keeps_utf8(bytes: Seq<u8>)
    ensures
        valid_utf8(headers::lower_bytes(bytes)) == valid_utf8(bytes),
    decreases bytes.len(),
{
    let lower = headers::lower_bytes(bytes);
    if bytes.len() > 0 {
        assert forall|i: int| 0 <= i < bytes.len() implies lower[i] == headers::lower_byte(
            #[trigger] bytes[i],
        ) by {}
        assert(forall|b: u8| (#[trigger] (b & 0x7f)) <= 0x7f) by (bit_vector);
        assert(valid_first_scalar(lower) == valid_first_scalar(bytes));
        if valid_first_scalar(bytes) {
            let rest = pop_first_scalar(bytes);
            assert(pop_first_scalar(lower) =~= headers::lower_bytes(rest));
            lemma_lower_keeps_utf8(rest);
        }
    }
}

} // verus!
