//! Decoding of UTF-8 text.

use crate::ws::error::Utf8Error;
use vstd::prelude::*;
use vstd::utf8::*;

verus! {

/// `String::into_bytes`: the bytes of a string are its characters in UTF-8.
pub assume_specification[ String::into_bytes ](s: String) -> (bytes: Vec<u8>)
    ensures
        bytes@ == encode_utf8(s@),
;

/// `std::str::from_utf8`: succeeds on UTF-8 only, with the text that the bytes encode. The
/// error says how much of the input is UTF-8 (`Utf8Error::valid_up_to`), and whether the
/// input ends in the middle of a character or how long the invalid sequence is that follows
/// (`Utf8Error::error_len`).
#[verifier::external_body]
pub(crate) fn str_from_utf8(bytes: &[u8]) -> (r: Result<&str, Utf8Error>)
    ensures
        match r {
            Ok(s) => valid_utf8(bytes@) && s@ == decode_utf8(bytes@),
            Err(e) => e.describes(bytes@),
        },
{
    match std::str::from_utf8(bytes) {
        Ok(s) => Ok(s),
        Err(e) => Err(Utf8Error { valid_up_to: e.valid_up_to(), error_len: e.error_len() }),
    }
}

/// `String::from_utf8`: decodes as `std::str::from_utf8` does, with the same error, and
/// takes the bytes over without copying them.
#[verifier::external_body]
pub(crate) fn string_from_utf8(bytes: Vec<u8>) -> (r: Result<String, Utf8Error>)
    ensures
        match r {
            Ok(s) => valid_utf8(bytes@) && s@ == decode_utf8(bytes@),
            Err(e) => e.describes(bytes@),
        },
{
    match String::from_utf8(bytes) {
        Ok(s) => Ok(s),
        Err(e) => {
            let e = e.utf8_error();
            Err(Utf8Error { valid_up_to: e.valid_up_to(), error_len: e.error_len() })
        },
    }
}

} // verus!
