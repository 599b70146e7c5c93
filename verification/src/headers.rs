//! The headers of a response, kept in the `http` crate's `HeaderMap`, and
//! what the middleware reads from them and writes to them.

use crate::decimal::{
    decimal, is_digit, lemma_decimal_value, lemma_parse_decimal, parse_length, read_length,
    starts_with,
};
use http::{HeaderMap, HeaderValue};
use vstd::prelude::*;
use vstd::string::StringSliceAdditionalSpecFns;

verus! {

/// `http::HeaderMap`, the headers of a message. What a map of header values
/// holds is [`header_entries`].
#[verifier::external_type_specification]
#[verifier::external_body]
#[verifier::reject_recursive_types(T)]
pub struct ExHeaderMap<T>(http::HeaderMap<T>);

/// `http::HeaderValue`, the value of one header. Its bytes are
/// [`header_value_bytes`].
#[verifier::external_type_specification]
#[verifier::external_body]
pub struct ExHeaderValue(http::HeaderValue);

/// What a header map holds: for each header name that occurs, in lower case,
/// the values stored under it, first to last.
pub uninterp spec fn header_entries(map: HeaderMap<HeaderValue>) -> Map<Seq<char>, Seq<Seq<u8>>>;

/// The bytes of a header value.
pub uninterp spec fn header_value_bytes(value: HeaderValue) -> Seq<u8>;

pub const CONTENT_ENCODING: &'static str = "content-encoding";

pub const CONTENT_LENGTH: &'static str = "content-length";

pub const CONTENT_TYPE: &'static str = "content-type";

/// Whether `c` may stand in a name that these functions look up: a lower-case
/// letter, a digit or a hyphen.
pub open spec fn is_name_char(c: char) -> bool {
    ('a' <= c <= 'z') || ('0' <= c <= '9') || c == '-'
}

/// Whether `name` is a header name as the map stores it: one to sixty-four
/// characters, each a lower-case letter, a digit or a hyphen.
pub open spec fn is_stored_name(name: Seq<char>) -> bool {
    &&& 1 <= name.len() <= 64
    &&& forall|i: int| 0 <= i < name.len() ==> is_name_char(#[trigger] name[i])
}

/// Whether `b` is a tab or a printable ASCII character.
pub open spec fn is_visible(b: u8) -> bool {
    (32 <= b < 127) || b == 9
}

/// Whether a header value can be read as text: all its bytes are visible.
pub open spec fn is_text(bytes: Seq<u8>) -> bool {
    forall|i: int| 0 <= i < bytes.len() ==> is_visible(#[trigger] bytes[i])
}

/// The entries of a map that holds no header.
pub open spec fn no_entries() -> Map<Seq<char>, Seq<Seq<u8>>> {
    Map::empty()
}

/// The number of names below which every header map takes one more. A map
/// refuses to grow at 32,768 slots, and it asks to grow there only when it
/// holds a fifth of that or more.
pub const ROOM: usize = 6554;

/// Whether a map holds so few names that it takes one more: fewer than
/// [`ROOM`].
pub open spec fn has_room(entries: Map<Seq<char>, Seq<Seq<u8>>>) -> bool {
    entries.dom().finite() && entries.dom().len() < ROOM
}

/// The first value stored under `name`, if there is one.
pub open spec fn first_of(entries: Map<Seq<char>, Seq<Seq<u8>>>, name: Seq<char>) -> Option<
    Seq<u8>,
> {
    if entries.contains_key(name) {
        Some(entries[name][0])
    } else {
        None
    }
}

/// Whether the response body is encoded, so that appending to it would
/// corrupt it.
pub open spec fn encoded(entries: Map<Seq<char>, Seq<Seq<u8>>>) -> bool {
    entries.contains_key(CONTENT_ENCODING@)
}

/// The body length that the headers declare: the first `Content-Length`
/// value, where it is text that reads as a length.
pub open spec fn declared_length(entries: Map<Seq<char>, Seq<Seq<u8>>>) -> Option<usize> {
    match first_of(entries, CONTENT_LENGTH@) {
        Some(bytes) => if is_text(bytes) {
            parse_length(bytes)
        } else {
            None
        },
        None => None,
    }
}

/// Whether the first `Content-Type` value is text that begins with `prefix`.
pub open spec fn content_type_begins(entries: Map<Seq<char>, Seq<Seq<u8>>>, prefix: Seq<u8>) -> bool {
    match first_of(entries, CONTENT_TYPE@) {
        Some(bytes) => is_text(bytes) && prefix.is_prefix_of(bytes),
        None => false,
    }
}

/// The entries after the declared length has been set to `length`: one
/// `Content-Length` value, the decimal digits of `length`.
pub open spec fn with_length(entries: Map<Seq<char>, Seq<Seq<u8>>>, length: usize) -> Map<
    Seq<char>,
    Seq<Seq<u8>>,
> {
    entries.insert(CONTENT_LENGTH@, seq![decimal(length as nat)])
}

/// `HeaderMap::new`: a map without entries.
#[verifier::external_body]
pub(crate) fn empty_map() -> (headers: HeaderMap<HeaderValue>)
    ensures
        header_entries(headers) == no_entries(),
{
    HeaderMap::new()
}

/// `HeaderMap::get` with the name as a string: the first value stored under
/// the name, or `None` where that name has none.
#[verifier::external_body]
pub(crate) fn first_value<'a>(map: &'a HeaderMap<HeaderValue>, name: &str) -> (value: Option<
    &'a HeaderValue,
>)
    requires
        is_stored_name(name@),
    ensures
        value is Some <==> header_entries(*map).contains_key(name@),
        value matches Some(v) ==> header_value_bytes(*v) == header_entries(*map)[name@][0],
{
    map.get(name)
}

/// `HeaderMap::try_insert` with a static name: on success the value is the
/// only one under that name and the other names keep theirs; on failure the
/// map holds what it held. The map refuses a value only where it cannot
/// grow: its table doubles up to 32,768 slots, and at that size it asks for
/// more only with 6,554 names or more (five times the names reach the
/// slots), or with 24,576 (three quarters of the slots). A map with room
/// always takes the value.
#[verifier::external_body]
pub(crate) fn store_value(
    map: &mut HeaderMap<HeaderValue>,
    name: &'static str,
    value: HeaderValue,
) -> (stored: bool)
    requires
        is_stored_name(name@),
    ensures
        stored ==> header_entries(*final(map)) == header_entries(*old(map)).insert(
            name@,
            seq![header_value_bytes(value)],
        ),
        !stored ==> header_entries(*final(map)) == header_entries(*old(map)),
        has_room(header_entries(*old(map))) ==> stored,
{
    map.try_insert(name, value).is_ok()
}

/// `HeaderValue::to_str`: the value as text, where all its bytes are visible.
#[verifier::external_body]
pub(crate) fn value_text<'a>(value: &'a HeaderValue) -> (text: Option<&'a str>)
    ensures
        text is Some <==> is_text(header_value_bytes(*value)),
        text matches Some(t) ==> t.spec_bytes() == header_value_bytes(*value),
{
    value.to_str().ok()
}

/// `HeaderValue::from` on a `usize`: the number's decimal digits.
#[verifier::external_body]
pub(crate) fn value_of_length(length: usize) -> (value: HeaderValue)
    ensures
        header_value_bytes(value) == decimal(length as nat),
{
    HeaderValue::from(length)
}

/// `HeaderValue::from_static`: the bytes of the text, which must all be
/// visible.
#[verifier::external_body]
pub(crate) fn value_of_text(text: &'static str) -> (value: HeaderValue)
    requires
        is_text(text.spec_bytes()),
    ensures
        header_value_bytes(value) == text.spec_bytes(),
{
    HeaderValue::from_static(text)
}

/// A map that holds no header has room.
pub proof fn lemma_no_entries_has_room()
    ensures
        has_room(no_entries()),
{
    assert(no_entries().dom() =~= Set::<Seq<char>>::empty());
}

/// The three header names that the middleware looks up are names as the map
/// stores them.
pub proof fn lemma_names_stored()
    ensures
        is_stored_name(CONTENT_ENCODING@),
        is_stored_name(CONTENT_LENGTH@),
        is_stored_name(CONTENT_TYPE@),
{
    reveal_strlit("content-encoding");
    reveal_strlit("content-length");
    reveal_strlit("content-type");
}

/// Headers whose length was set to `length` declare that length, and are
/// encoded exactly if they were before.
pub proof fn lemma_with_length_declares(entries: Map<Seq<char>, Seq<Seq<u8>>>, length: usize)
    ensures
        declared_length(with_length(entries, length)) == Some(length),
        encoded(with_length(entries, length)) == encoded(entries),
{
    let digits = decimal(length as nat);
    lemma_decimal_value(length as nat);
    lemma_parse_decimal(length);
    assert(is_text(digits)) by {
        assert forall|i: int| 0 <= i < digits.len() implies is_visible(#[trigger] digits[i]) by {
            assert(is_digit(digits[i]));
        }
    }
    assert(seq![digits][0] == digits);
    reveal_strlit("content-encoding");
    reveal_strlit("content-length");
    assert(CONTENT_ENCODING@ != CONTENT_LENGTH@) by {
        assert(CONTENT_ENCODING@.len() != CONTENT_LENGTH@.len());
    }
}

/// Whether the headers name a content encoding.
pub fn is_encoded(headers: &HeaderMap<HeaderValue>) -> (found: bool)
    ensures
        found == encoded(header_entries(*headers)),
{
    proof {
        lemma_names_stored();
    }
    first_value(headers, CONTENT_ENCODING).is_some()
}

/// Reads the body length that the headers declare.
pub fn read_declared_length(headers: &HeaderMap<HeaderValue>) -> (length: Option<usize>)
    ensures
        length == declared_length(header_entries(*headers)),
{
    proof {
        lemma_names_stored();
    }
    match first_value(headers, CONTENT_LENGTH) {
        Some(value) => match value_text(value) {
            Some(text) => read_length(text.as_bytes()),
            None => None,
        },
        None => None,
    }
}

/// Whether the content type that the headers give begins with `prefix`.
pub fn content_type_starts_with(headers: &HeaderMap<HeaderValue>, prefix: &str) -> (found: bool)
    ensures
        found == content_type_begins(header_entries(*headers), prefix.spec_bytes()),
{
    proof {
        lemma_names_stored();
    }
    match first_value(headers, CONTENT_TYPE) {
        Some(value) => match value_text(value) {
            Some(text) => starts_with(text.as_bytes(), prefix.as_bytes()),
            None => false,
        },
        None => false,
    }
}

} // verus!
