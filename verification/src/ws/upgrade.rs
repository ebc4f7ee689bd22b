//! The upgrade of an HTTP connection to a WebSocket connection.

use crate::ws::accept;
use crate::ws::accept::sign;
use crate::ws::error::Error;
use crate::ws::headers;
use crate::ws::headers::{append_header, get_header, header_contains, header_eq};
use hyper::Error as HyperError;
use hyper::HeaderMap;
use vstd::prelude::*;
use vstd::slice::slice_to_vec;
use vstd::utf8::*;

verus! {

/// The status of a response that accepts the upgrade.
pub const SWITCHING_PROTOCOLS: u16 = 101;

/// The status of a response that refuses the upgrade.
pub const BAD_REQUEST: u16 = 400;

/// A response to a request for an upgrade.
#[derive(Debug)]
pub struct Response {
    /// The status code.
    pub status: u16,
    /// The headers.
    pub headers: HeaderMap,
    /// The body.
    pub body: &'static str,
}

impl Response {
    /// Whether the response says no, and `reason` why.
    pub open spec fn refuses(self, reason: Seq<char>) -> bool {
        &&& self.status == BAD_REQUEST
        &&& headers::header_entries(self.headers) == Map::<Seq<char>, Seq<Seq<u8>>>::empty()
        &&& self.body@ == reason
    }

    /// Whether the response switches to the WebSocket protocol, with `accept` as the answer
    /// to the key of the client.
    pub open spec fn accepts(self, accept: Seq<u8>) -> bool {
        &&& self.status == SWITCHING_PROTOCOLS
        &&& headers::header_entries(self.headers) == accept_entries(accept)
        &&& self.body@ == Seq::<char>::empty()
    }
}

/// The headers of a response that switches to the WebSocket protocol.
pub open spec fn accept_entries(accept: Seq<u8>) -> Map<Seq<char>, Seq<Seq<u8>>> {
    map![
        "connection"@ => seq![encode_utf8("upgrade"@)],
        "upgrade"@ => seq![encode_utf8("websocket"@)],
        "sec-websocket-accept"@ => seq![accept],
    ]
}

/// Why a request with these headers cannot be upgraded; `None` if it can.
pub open spec fn refusal(entries: Map<Seq<char>, Seq<Seq<u8>>>) -> Option<Seq<char>> {
    if !headers::value_contains(
        headers::first_value(entries, "connection"@),
        encode_utf8("upgrade"@),
    ) {
        Some("Connection header did not include 'upgrade'"@)
    } else if !headers::value_eq(
        headers::first_value(entries, "upgrade"@),
        encode_utf8("websocket"@),
    ) {
        Some("`Upgrade` header did not include 'websocket'"@)
    } else if !headers::value_eq(
        headers::first_value(entries, "sec-websocket-version"@),
        encode_utf8("13"@),
    ) {
        Some("`Sec-WebSocket-Version` header did not include '13'"@)
    } else if headers::first_value(entries, "sec-websocket-key"@) is None {
        Some("`Sec-WebSocket-Key` header missing"@)
    } else {
        None
    }
}

/// The response that refuses the upgrade, with `body` as the reason.
pub fn err_res(body: &'static str) -> (r: Response)
    ensures
        r.refuses(body@),
{
    Response { status: BAD_REQUEST, headers: HeaderMap::new(), body }
}

/// The response that switches to the WebSocket protocol, with `accept` as the answer to the
/// key of the client.
pub fn accept_res(accept: Vec<u8>) -> (r: Response)
    requires
        headers::is_header_value(accept@),
    ensures
        r.accepts(accept@),
{
    let mut headers = HeaderMap::new();
    let upgrade = slice_to_vec("upgrade".as_bytes());
    let websocket = slice_to_vec("websocket".as_bytes());
    proof {
        reveal_strlit("connection");
        reveal_strlit("upgrade");
        reveal_strlit("websocket");
        reveal_strlit("sec-websocket-accept");
        reveal_strlit("");
        is_ascii_chars_encode_utf8("upgrade"@);
        is_ascii_chars_encode_utf8("websocket"@);
    }
    append_header(&mut headers, "connection", upgrade);
    append_header(&mut headers, "upgrade", websocket);
    append_header(&mut headers, "sec-websocket-accept", accept);
    assert(headers::header_entries(headers) =~= accept_entries(accept@));
    assert(""@ =~= Seq::<char>::empty());
    Response { status: SWITCHING_PROTOCOLS, headers, body: "" }
}

/// The hash with which a request with these headers is answered.
pub open spec fn answer_digest(entries: Map<Seq<char>, Seq<Seq<u8>>>) -> Seq<u8> {
    accept::sha1_of(accept::challenge_of(headers::first_value(entries, "sec-websocket-key"@)->0))
}

/// Decide on a request for an upgrade by its headers.
pub fn handshake(headers: &HeaderMap) -> (r: Result<Response, Response>)
    ensures
        match refusal(headers::header_entries(*headers)) {
            Some(reason) => r matches Err(response) && response.refuses(reason),
            None => {
                &&& r matches Ok(response)
                &&& response.accepts(
                    accept::accept_of(answer_digest(headers::header_entries(*headers))),
                )
                &&& answer_digest(headers::header_entries(*headers)).len() == 20
            },
        },
{
    proof {
        lemma_lower_names();
    }
    if !header_contains(headers, "connection", "upgrade") {
        return Err(err_res("Connection header did not include 'upgrade'"));
    }
    if !header_eq(headers, "upgrade", "websocket") {
        return Err(err_res("`Upgrade` header did not include 'websocket'"));
    }
    if !header_eq(headers, "sec-websocket-version", "13") {
        return Err(err_res("`Sec-WebSocket-Version` header did not include '13'"));
    }
    match get_header(headers, "sec-websocket-key") {
        Some(key) => Ok(accept_res(sign(key))),
        None => Err(err_res("`Sec-WebSocket-Key` header missing")),
    }
}

/// The names of the headers that a request is judged by are in lower case.
proof fn lemma_lower_names()
    ensures
        headers::lower_chars("connection"@) == "connection"@,
        headers::lower_chars("upgrade"@) == "upgrade"@,
        headers::lower_chars("sec-websocket-version"@) == "sec-websocket-version"@,
        headers::lower_chars("sec-websocket-key"@) == "sec-websocket-key"@,
{
    reveal_strlit("connection");
    reveal_strlit("upgrade");
    reveal_strlit("sec-websocket-version");
    reveal_strlit("sec-websocket-key");
    assert(headers::lower_chars("connection"@) =~= "connection"@);
    assert(headers::lower_chars("upgrade"@) =~= "upgrade"@);
    assert(headers::lower_chars("sec-websocket-version"@) =~= "sec-websocket-version"@);
    assert(headers::lower_chars("sec-websocket-key"@) =~= "sec-websocket-key"@);
}

/// What to do when a connection upgrade fails.
pub trait OnFailedUpgrade: Send + 'static {
    /// Whether the callback can be called with `error`.
    spec fn can_call(&self, error: Error) -> bool;

    /// Whether what `error` asks of the callback has been done.
    spec fn called(&self, error: Error) -> bool;

    /// Call the callback.
    fn call(self, error: Error)
        requires
            self.can_call(error),
        ensures
            self.called(error),
    ;
}

impl<F> OnFailedUpgrade for F where F: FnOnce(Error) + Send + 'static {
    open spec fn can_call(&self, error: Error) -> bool {
        call_requires(*self, (error,))
    }

    open spec fn called(&self, error: Error) -> bool {
        call_ensures(*self, (error,), ())
    }

    fn call(self, error: Error) {
        self(error)
    }
}

/// Ignores that an upgrade failed.
#[non_exhaustive]
#[derive(Debug)]
pub struct DefaultOnFailedUpgrade;

impl Default for DefaultOnFailedUpgrade {
    fn default() -> (r: Self)
        ensures
            r == DefaultOnFailedUpgrade,
    {
        DefaultOnFailedUpgrade
    }
}

impl OnFailedUpgrade for DefaultOnFailedUpgrade {
    open spec fn can_call(&self, error: Error) -> bool {
        true
    }

    open spec fn called(&self, error: Error) -> bool {
        true
    }

    #[inline]
    fn call(self, _error: Error) {
    }
}

/// The upgraded connection, if there is one. Otherwise the callback is told why not.
pub fn upgraded_or_call<U, E: OnFailedUpgrade>(
    upgrade: Result<U, HyperError>,
    on_failed_upgrade: E,
) -> (r: Option<U>)
    requires
        upgrade matches Err(e) ==> on_failed_upgrade.can_call(Error::Upgrade(e)),
    ensures
        match upgrade {
            Ok(upgraded) => r == Some(upgraded),
            Err(e) => r is None && on_failed_upgrade.called(Error::Upgrade(e)),
        },
{
    match upgrade {
        Ok(upgraded) => Some(upgraded),
        Err(e) => {
            on_failed_upgrade.call(Error::from(e));
            None
        },
    }
}

} // verus!
