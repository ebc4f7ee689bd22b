//! The errors of this library.

use hyper::Error as HyperError;
use tokio_tungstenite::tungstenite::Error as TungsteniteError;
use vstd::prelude::*;
use vstd::utf8::*;

verus! {

/// Declares `tungstenite::Error`, which is only carried along.
#[verifier::external_type_specification]
#[verifier::external_body]
pub struct ExTungsteniteError(TungsteniteError);

/// Declares `hyper::Error`, which is only carried along.
#[verifier::external_type_specification]
#[verifier::external_body]
pub struct ExHyperError(HyperError);

/// Where a byte string stops being UTF-8.
#[derive(Debug, Clone, Copy, PartialEq, Eq, Structural)]
pub struct Utf8Error {
    /// The length of the longest prefix that is UTF-8.
    pub valid_up_to: usize,
    /// The length of the invalid sequence that follows that prefix, or `None` where the
    /// input ended in the middle of a character.
    pub error_len: Option<usize>,
}

/// Whether `bytes` are the beginning, but not the whole, of the encoding of `c`.
pub open spec fn begins_char(bytes: Seq<u8>, c: char) -> bool {
    let encoded = encode_scalar(c as u32);
    &&& 0 < bytes.len() < encoded.len()
    &&& encoded.take(bytes.len() as int) == bytes
}

/// Whether `bytes` are a character that is cut off.
pub open spec fn is_cut_off(bytes: Seq<u8>) -> bool {
    exists|c: char| begins_char(bytes, c)
}

impl Utf8Error {
    /// Whether this is what decoding `bytes` as UTF-8 runs into. A prefix of `bytes` is
    /// UTF-8 and no longer one is. Either what follows is a character that is cut off, or it
    /// begins with an invalid sequence: as many bytes as could have been the beginning of a
    /// character, and one byte where none could.
    pub open spec fn describes(self, bytes: Seq<u8>) -> bool {
        let rest = bytes.skip(self.valid_up_to as int);
        &&& !valid_utf8(bytes)
        &&& self.valid_up_to < bytes.len()
        &&& valid_utf8(bytes.take(self.valid_up_to as int))
        &&& forall|end: int|
            self.valid_up_to < end <= bytes.len() ==> !valid_utf8(#[trigger] bytes.take(end))
        &&& match self.error_len {
            None => is_cut_off(rest),
            Some(len) => {
                &&& !is_cut_off(rest)
                &&& 1 <= len <= 3
                &&& len <= rest.len()
                &&& len > 1 ==> is_cut_off(rest.take(len as int))
                &&& forall|more: int|
                    len < more <= rest.len() ==> !is_cut_off(#[trigger] rest.take(more))
            },
        }
    }
}

/// What can go wrong with a message, a connection or an upgrade.
#[derive(Debug)]
pub enum Error {
    /// The payload of a message is not UTF-8.
    Utf8(Utf8Error),
    /// The WebSocket connection failed.
    WebSocket(TungsteniteError),
    /// The connection could not be upgraded.
    Upgrade(HyperError),
}

impl From<Utf8Error> for Error {
    fn from(error: Utf8Error) -> (r: Self) {
        Error::Utf8(error)
    }
}

impl vstd::std_specs::convert::FromSpecImpl<Utf8Error> for Error {
    open spec fn obeys_from_spec() -> bool {
        true
    }

    open spec fn from_spec(error: Utf8Error) -> Self {
        Error::Utf8(error)
    }
}

impl From<TungsteniteError> for Error {
    fn from(error: TungsteniteError) -> (r: Self) {
        Error::WebSocket(error)
    }
}

impl vstd::std_specs::convert::FromSpecImpl<TungsteniteError> for Error {
    open spec fn obeys_from_spec() -> bool {
        true
    }

    open spec fn from_spec(error: TungsteniteError) -> Self {
        Error::WebSocket(error)
    }
}

impl From<HyperError> for Error {
    fn from(error: HyperError) -> (r: Self) {
        Error::Upgrade(error)
    }
}

impl vstd::std_specs::convert::FromSpecImpl<HyperError> for Error {
    open spec fn obeys_from_spec() -> bool {
        true
    }

    open spec fn from_spec(error: HyperError) -> Self {
        Error::Upgrade(error)
    }
}

} // verus!
