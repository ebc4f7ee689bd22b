//! The value of the `Sec-WebSocket-Accept` header.

use crate::ws::headers;
use base64::engine::Engine;
use sha1::{Digest, Sha1};
use vstd::prelude::*;
use vstd::slice::slice_to_vec;
use vstd::utf8::*;

verus! {

/// What a server adds to the key of a client before hashing it, so that only a server that
/// speaks the WebSocket protocol gives the right answer.
pub const ACCEPT_GUID: &'static str = "258EAFA5-E914-47DA-95CA-C5AB0DC85B11";

/// The SHA-1 hash of `data`.
pub uninterp spec fn sha1_of(data: Seq<u8>) -> Seq<u8>;

/// `Sha1::digest`: the hash is a function of the data. It is defined for data of less than
/// 2^64 bits, which is more than a machine can hold.
#[verifier::external_body]
fn sha1_digest(data: &[u8]) -> (r: [u8; 20])
    ensures
        r@ == sha1_of(data@),
{
    Sha1::digest(data).into()
}

/// The byte at `index`, or zero past the end.
pub open spec fn byte_or_zero(data: Seq<u8>, index: int) -> int {
    if index < data.len() {
        data[index] as int
    } else {
        0
    }
}

/// The number that the `index`th group of six bits of `data` makes up; three bytes give
/// four such groups.
pub open spec fn base64_digit(data: Seq<u8>, index: int) -> int {
    let first = byte_or_zero(data, 3 * (index / 4));
    let second = byte_or_zero(data, 3 * (index / 4) + 1);
    let third = byte_or_zero(data, 3 * (index / 4) + 2);
    if index % 4 == 0 {
        first / 4
    } else if index % 4 == 1 {
        first % 4 * 16 + second / 16
    } else if index % 4 == 2 {
        second % 16 * 4 + third / 64
    } else {
        third % 64
    }
}

/// The character of the standard alphabet for a number below 64.
pub open spec fn base64_char(digit: int) -> char {
    if digit < 26 {
        ('A' as int + digit) as char
    } else if digit < 52 {
        ('a' as int + (digit - 26)) as char
    } else if digit < 62 {
        ('0' as int + (digit - 52)) as char
    } else if digit == 62 {
        '+'
    } else {
        '/'
    }
}

/// `data` in base64 with the standard alphabet: a character for each group of six bits that
/// holds a bit of `data`, then `=` up to a multiple of four characters.
pub open spec fn base64_of(data: Seq<u8>) -> Seq<char> {
    Seq::new(
        (4 * ((data.len() + 2) / 3)) as nat,
        |i: int|
            if 6 * i < 8 * data.len() {
                base64_char(base64_digit(data, i))
            } else {
                '='
            },
    )
}

/// `Engine::encode` of `base64::engine::general_purpose::STANDARD`: base64 with the standard
/// alphabet and with padding, as RFC 4648 has it. Where the length of the text exceeds what
/// can be allocated, `encode` panics.
#[verifier::external_body]
fn base64_encode(data: &[u8]) -> (r: String)
    requires
        data@.len() <= 0x1000_0000,
    ensures
        r@ == base64_of(data@),
{
    base64::engine::general_purpose::STANDARD.encode(data)
}

/// What is hashed to answer the key `key` of a client.
pub open spec fn challenge_of(key: Seq<u8>) -> Seq<u8> {
    key + encode_utf8(ACCEPT_GUID@)
}

/// The `Sec-WebSocket-Accept` value for the hash `digest`.
pub open spec fn accept_of(digest: Seq<u8>) -> Seq<u8> {
    encode_utf8(base64_of(digest))
}

/// The bytes to hash in answer to the key of a client.
pub fn challenge(key: &[u8]) -> (r: Vec<u8>)
    ensures
        r@ == challenge_of(key@),
{
    let mut data = slice_to_vec(key);
    data.extend_from_slice(ACCEPT_GUID.as_bytes());
    assert(data@ =~= challenge_of(key@));
    data
}

/// The `Sec-WebSocket-Accept` value for a hash.
pub fn accept_value(digest: &[u8; 20]) -> (r: Vec<u8>)
    ensures
        r@ == accept_of(digest@),
        r@.len() == 28,
        headers::is_header_value(r@),
{
    let text = base64_encode(digest.as_slice());
    proof {
        lemma_base64_is_printable(digest@);
        is_ascii_chars_encode_utf8(text@);
    }
    text.into_bytes()
}

/// The `Sec-WebSocket-Accept` value with which a server answers the `Sec-WebSocket-Key`
/// value `key`.
pub fn sign(key: &[u8]) -> (r: Vec<u8>)
    ensures
        r@ == accept_of(sha1_of(challenge_of(key@))),
        sha1_of(challenge_of(key@)).len() == 20,
        r@.len() == 28,
        headers::is_header_value(r@),
{
    let data = challenge(key);
    accept_value(&sha1_digest(data.as_slice()))
}

/// Base64 is made of printable ASCII characters.
pub(crate) proof fn lemma_base64_is_printable(data: Seq<u8>)
    ensures
        forall|i: int| 0 <= i < base64_of(data).len() ==> ' ' < #[trigger] base64_of(data)[i] <= '~',
        is_ascii_chars(base64_of(data)),
{
    assert forall|i: int| 0 <= i < base64_of(data).len() implies ' ' < #[trigger] base64_of(
        data,
    )[i] <= '~' by {
        assert(0 <= base64_digit(data, i) < 64);
    }
}

} // verus!
