//! Reading and writing the headers of a request and a response.

use crate::ws::text::str_from_utf8;
use bytes::Bytes;
use hyper::header::HeaderValue;
use hyper::HeaderMap;
use vstd::prelude::*;
use vstd::utf8::*;

verus! {

/// Declares the value of a header, which is only stored in a `HeaderMap`.
#[verifier::external_type_specification]
#[verifier::external_body]
pub struct ExHeaderValue(HeaderValue);

/// Declares the collection of headers.
#[verifier::external_type_specification]
#[verifier::external_body]
#[verifier::reject_recursive_types(T)]
pub struct ExHeaderMap<T>(HeaderMap<T>);

/// What a `HeaderMap` holds: for each header name, in lower case, the values in the order
/// in which they were added.
pub uninterp spec fn header_entries(headers: HeaderMap) -> Map<Seq<char>, Seq<Seq<u8>>>;

/// The values of the header `name`.
pub open spec fn header_values(
    entries: Map<Seq<char>, Seq<Seq<u8>>>,
    name: Seq<char>,
) -> Seq<Seq<u8>> {
    if entries.contains_key(name) {
        entries[name]
    } else {
        Seq::empty()
    }
}

/// The first value of the header `name`.
pub open spec fn first_value(
    entries: Map<Seq<char>, Seq<Seq<u8>>>,
    name: Seq<char>,
) -> Option<Seq<u8>> {
    if header_values(entries, name).len() > 0 {
        Some(header_values(entries, name)[0])
    } else {
        None
    }
}

/// The lower-case form of an ASCII letter; any other character is its own.
pub open spec fn lower_char(c: char) -> char {
    if 'A' <= c <= 'Z' {
        (c as u8 + 32) as char
    } else {
        c
    }
}

/// Text with its ASCII letters in lower case.
pub open spec fn lower_chars(text: Seq<char>) -> Seq<char> {
    text.map_values(|c: char| lower_char(c))
}

/// The lower-case form of an ASCII letter; any other byte is its own.
pub open spec fn lower_byte(byte: u8) -> u8 {
    if 0x41 <= byte <= 0x5a {
        (byte + 0x20) as u8
    } else {
        byte
    }
}

/// Bytes with the ASCII letters among them in lower case.
pub open spec fn lower_bytes(bytes: Seq<u8>) -> Seq<u8> {
    bytes.map_values(|byte: u8| lower_byte(byte))
}

/// Whether `part` occurs in `whole` as a run of consecutive bytes.
pub open spec fn occurs_in(part: Seq<u8>, whole: Seq<u8>) -> bool {
    exists|start: int| occurs_at(part, whole, start)
}

/// Whether `part` occurs in `whole` from the index `start` on.
pub open spec fn occurs_at(part: Seq<u8>, whole: Seq<u8>, start: int) -> bool {
    &&& 0 <= start <= whole.len() - part.len()
    &&& whole.subrange(start, start + part.len()) == part
}

/// Whether there is a value, and it equals `expected` up to the case of ASCII letters.
pub open spec fn value_eq(value: Option<Seq<u8>>, expected: Seq<u8>) -> bool {
    value matches Some(v) && lower_bytes(v) == lower_bytes(expected)
}

/// Whether there is a value, it is UTF-8, and `part` occurs in its lower-case form.
pub open spec fn value_contains(value: Option<Seq<u8>>, part: Seq<u8>) -> bool {
    value matches Some(v) && valid_utf8(v) && occurs_in(part, lower_bytes(v))
}

/// Whether `name` is made of lower-case ASCII letters, digits and hyphens, at least one and at
/// most 64 of them. Such a text is a header name.
pub open spec fn is_header_name(name: Seq<char>) -> bool {
    &&& 0 < name.len() <= 64
    &&& forall|i: int|
        0 <= i < name.len() ==> 'a' <= #[trigger] name[i] <= 'z' || '0' <= name[i] <= '9'
            || name[i] == '-'
}

/// Whether bytes can be the value of a header: no control characters but the tab.
pub open spec fn is_header_value(value: Seq<u8>) -> bool {
    forall|i: int| 0 <= i < value.len() ==> #[trigger] value[i] >= 32 && value[i] != 127
        || value[i] == 9
}

/// `HeaderMap::new`: the new map is empty.
pub assume_specification[ HeaderMap::new ]() -> (r: HeaderMap)
    ensures
        (header_entries(r) == Map::<Seq<char>, Seq<Seq<u8>>>::empty()),
;

/// `HeaderMap::get`, with the value as its bytes (`HeaderValue::as_bytes`): the first value
/// of the header, whose name is looked up without regard to the case of its letters. Text
/// that is no header name is the name of no header.
#[verifier::external_body]
pub(crate) fn get_header<'a>(headers: &'a HeaderMap, name: &str) -> (r: Option<&'a [u8]>)
    ensures
        match r {
            Some(value) => first_value(header_entries(*headers), lower_chars(name@)) == Some(value@),
            None => first_value(header_entries(*headers), lower_chars(name@)) is None,
        },
{
    match headers.get(name) {
        Some(value) => Some(value.as_bytes()),
        None => None,
    }
}

/// `HeaderMap::append`, with the value made of its bytes (`HeaderValue::from_maybe_shared`):
/// the value comes after those that the header has, and the other headers stay as they are.
/// The map refuses to grow without bound, so it is given less than it can surely hold; the
/// bytes are such that a header value can be made of them.
#[verifier::external_body]
pub(crate) fn append_header(headers: &mut HeaderMap, name: &'static str, value: Vec<u8>)
    requires
        is_header_name(name@),
        is_header_value(value@),
        header_entries(*old(headers)).dom().finite(),
        header_entries(*old(headers)).dom().len() < 4096,
    ensures
        header_entries(*final(headers)) == header_entries(*old(headers)).insert(
            name@,
            header_values(header_entries(*old(headers)), name@).push(value@),
        ),
{
    let value = HeaderValue::from_maybe_shared(Bytes::from(value));
    headers.append(name, value.expect("the bytes of a header value"));
}

/// Convert an ASCII letter to lower case.
fn to_lower(byte: u8) -> (r: u8)
    ensures
        r == lower_byte(byte),
{
    if 0x41 <= byte && byte <= 0x5a {
        byte + 0x20
    } else {
        byte
    }
}

/// Compare without regard to the case of ASCII letters.
pub fn eq_ignore_ascii_case(a: &[u8], b: &[u8]) -> (r: bool)
    ensures
        r == (lower_bytes(a@) == lower_bytes(b@)),
{
    if a.len() != b.len() {
        assert(lower_bytes(a@).len() != lower_bytes(b@).len());
        return false;
    }
    for i in 0..a.len()
        invariant
            a@.len() == b@.len(),
            forall|j: int| 0 <= j < i ==> lower_byte(#[trigger] a@[j]) == lower_byte(b@[j]),
    {
        if to_lower(a[i]) != to_lower(b[i]) {
            assert(lower_bytes(a@)[i as int] != lower_bytes(b@)[i as int]);
            return false;
        }
    }
    assert(lower_bytes(a@) =~= lower_bytes(b@));
    true
}

/// Convert the ASCII letters to lower case.
fn to_ascii_lowercase(bytes: &[u8]) -> (r: Vec<u8>)
    ensures
        r@ == lower_bytes(bytes@),
{
    let mut lower: Vec<u8> = Vec::new();
    for i in 0..bytes.len()
        invariant
            lower@ =~= lower_bytes(bytes@.take(i as int)),
    {
        lower.push(to_lower(bytes[i]));
        assert(bytes@.take(i + 1) =~= bytes@.take(i as int).push(bytes@[i as int]));
    }
    assert(bytes@.take(bytes@.len() as int) =~= bytes@);
    lower
}

/// Whether `part` occurs in `whole` from the index `start` on.
fn starts_at(part: &[u8], whole: &[u8], start: usize) -> (r: bool)
    requires
        start + part@.len() <= whole@.len(),
    ensures
        r == occurs_at(part@, whole@, start as int),
{
    let len = whole.len();
    for i in 0..part.len()
        invariant
            start + part@.len() <= whole@.len() == len,
            forall|j: int| 0 <= j < i ==> whole@[start + j] == #[trigger] part@[j],
    {
        if whole[start + i] != part[i] {
            assert(whole@.subrange(start as int, start + part@.len())[i as int] != part@[i as int]);
            return false;
        }
    }
    assert(whole@.subrange(start as int, start + part@.len()) =~= part@);
    true
}

/// Whether `part` occurs in `whole`.
fn contains(whole: &[u8], part: &[u8]) -> (r: bool)
    ensures
        r == occurs_in(part@, whole@),
{
    if part.len() > whole.len() {
        return false;
    }
    let last = whole.len() - part.len();
    let mut start: usize = 0;
    while start < last
        invariant
            start <= last == whole@.len() - part@.len(),
            forall|j: int| 0 <= j < start ==> !#[trigger] occurs_at(part@, whole@, j),
        decreases last - start,
    {
        if starts_at(part, whole, start) {
            return true;
        }
        start = start + 1;
    }
    starts_at(part, whole, last)
}

/// Whether `header` is UTF-8 and contains `value` once its ASCII letters are in lower case.
pub fn text_contains(header: &[u8], value: &str) -> (r: bool)
    ensures
        r == value_contains(Some(header@), encode_utf8(value@)),
{
    if str_from_utf8(header).is_ok() {
        let lower = to_ascii_lowercase(header);
        contains(lower.as_slice(), value.as_bytes())
    } else {
        false
    }
}

/// Whether the header `key` has the value `value`, without regard to the case of ASCII
/// letters. Of several values the first one counts.
pub fn header_eq(headers: &HeaderMap, key: &str, value: &str) -> (r: bool)
    ensures
        r == value_eq(
            first_value(header_entries(*headers), lower_chars(key@)),
            encode_utf8(value@),
        ),
{
    if let Some(header) = get_header(headers, key) {
        eq_ignore_ascii_case(header, value.as_bytes())
    } else {
        false
    }
}

/// Whether the header `key` is UTF-8 and contains `value` once its ASCII letters are in
/// lower case. Of several values the first one counts.
pub fn header_contains(headers: &HeaderMap, key: &str, value: &str) -> (r: bool)
    ensures
        r == value_contains(
            first_value(header_entries(*headers), lower_chars(key@)),
            encode_utf8(value@),
        ),
{
    let header = if let Some(header) = get_header(headers, key) {
        header
    } else {
        return false;
    };
    text_contains(header, value)
}

} // verus!
