use crate::decimal::{decimal_i32, decimal_u128, parse_i32, parse_u128};
use reqwest::header::{HeaderMap, HeaderValue};
use vstd::prelude::*;
use vstd::string::*;

verus! {

/// `reqwest::header::HeaderMap`, taken as it is: nothing inside it is read
/// but through the functions below.
#[verifier::external_type_specification]
#[verifier::external_body]
#[verifier::reject_recursive_types(T)]
pub struct ExHeaderMap<T>(HeaderMap<T>);

/// `reqwest::header::HeaderValue`, taken as it is.
#[verifier::external_type_specification]
#[verifier::external_body]
pub struct ExHeaderValue(HeaderValue);

/// What a header map holds, as far as this library reads it: for each field
/// name, written in lower case, the bytes of the first value stored under it.
pub uninterp spec fn header_fields(headers: HeaderMap) -> Map<Seq<char>, Seq<u8>>;

/// The bytes that a header value carries.
pub uninterp spec fn header_value_bytes(value: HeaderValue) -> Seq<u8>;

/// Whether `c` may stand in a field name made of letters, digits and hyphens.
pub open spec fn is_name_char(c: char) -> bool {
    ('a' <= c && c <= 'z') || ('A' <= c && c <= 'Z') || ('0' <= c && c <= '9') || c == '-'
}

/// A field name of one to sixty-four letters, digits and hyphens. Every such
/// name is a legal header name.
pub open spec fn is_plain_name(name: Seq<char>) -> bool {
    &&& 1 <= name.len() <= 64
    &&& forall|i: int| 0 <= i < name.len() ==> is_name_char(#[trigger] name[i])
}

/// `c` with an ASCII capital turned into its small letter.
pub open spec fn lower_char(c: char) -> char {
    if 'A' <= c && c <= 'Z' {
        ((c as u8) + 32) as char
    } else {
        c
    }
}

/// `name` in ASCII lower case: the form under which a header map files it.
pub open spec fn lower_name(name: Seq<char>) -> Seq<char> {
    Seq::new(name.len(), |i: int| lower_char(name[i]))
}

/// Whether a byte is printable ASCII, a space or a tab.
pub open spec fn is_visible_byte(b: u8) -> bool {
    (32 <= b && b < 127) || b == 9
}

/// Whether every byte is printable ASCII, a space or a tab.
pub open spec fn is_visible_text(bytes: Seq<u8>) -> bool {
    forall|i: int| 0 <= i < bytes.len() ==> is_visible_byte(#[trigger] bytes[i])
}

/// Whether a byte may stand in a header value: anything but a control
/// character other than tab.
pub open spec fn is_value_byte(b: u8) -> bool {
    (32 <= b && b != 127) || b == 9
}

/// Whether every byte may stand in a header value.
pub open spec fn is_value_text(bytes: Seq<u8>) -> bool {
    forall|i: int| 0 <= i < bytes.len() ==> is_value_byte(#[trigger] bytes[i])
}

/// ASCII bytes read as characters, one for one.
pub open spec fn bytes_as_chars(bytes: Seq<u8>) -> Seq<char> {
    Seq::new(bytes.len(), |i: int| bytes[i] as char)
}

/// Whether the map holds fewer than 4096 names. Such a map always takes one
/// more: it refuses to grow only far beyond that.
pub open spec fn has_room(headers: HeaderMap) -> bool {
    header_fields(headers).dom().finite() && header_fields(headers).len() < 4096
}

/// The contents of a map without any field.
pub open spec fn no_fields() -> Map<Seq<char>, Seq<u8>> {
    Map::empty()
}

/// Calls `HeaderMap::new`. Trusted: the new map holds no field.
#[verifier::external_body]
pub(crate) fn new_header_map() -> (fresh: HeaderMap)
    ensures
        header_fields(fresh) == no_fields(),
{
    HeaderMap::new()
}

/// Calls `HeaderMap::insert`. Trusted: afterwards the lower-case form of
/// `name` maps to the bytes of `value`, whatever stood there before, and no
/// other field has changed. The call is kept away from names that the map
/// rejects and from maps too full to grow.
#[verifier::external_body]
pub(crate) fn insert_header(headers: &mut HeaderMap, name: &'static str, value: HeaderValue)
    requires
        is_plain_name(name@),
        has_room(*old(headers)),
    ensures
        header_fields(*final(headers)) == header_fields(*old(headers)).insert(
            lower_name(name@),
            header_value_bytes(value),
        ),
{
    headers.insert(name, value);
}

/// Calls `HeaderMap::get`. Trusted: the lookup goes by the lower-case form of
/// `name` and hands out the first value stored under it, or nothing where the
/// map has no such field.
#[verifier::external_body]
pub(crate) fn get_header<'a>(headers: &'a HeaderMap, name: &str) -> (value: Option<
    &'a HeaderValue,
>)
    ensures
        match value {
            Some(v) => header_fields(*headers).contains_key(lower_name(name@))
                && header_value_bytes(*v) == header_fields(*headers)[lower_name(name@)],
            None => !header_fields(*headers).contains_key(lower_name(name@)),
        },
{
    headers.get(name)
}

/// Calls `HeaderValue::to_str`. Trusted: it succeeds exactly on values made of
/// printable ASCII, spaces and tabs, and then yields those bytes as text.
#[verifier::external_body]
pub(crate) fn header_value_to_string(value: &HeaderValue) -> (text: Option<String>)
    ensures
        match text {
            Some(s) => is_visible_text(header_value_bytes(*value)) && s@ == bytes_as_chars(
                header_value_bytes(*value),
            ),
            None => !is_visible_text(header_value_bytes(*value)),
        },
{
    match value.to_str() {
        Ok(s) => Some(s.to_string()),
        Err(_) => None,
    }
}

/// Calls `HeaderValue::from_str`. Trusted: it succeeds exactly on text whose
/// UTF-8 bytes hold no control character but tab, and the value then carries
/// those bytes.
#[verifier::external_body]
pub(crate) fn header_value_from_str(text: &str) -> (value: Option<HeaderValue>)
    ensures
        match value {
            Some(v) => is_value_text(text.spec_bytes()) && header_value_bytes(v)
                == text.spec_bytes(),
            None => !is_value_text(text.spec_bytes()),
        },
{
    match HeaderValue::from_str(text) {
        Ok(v) => Some(v),
        Err(_) => None,
    }
}

/// The text of the field `key`, where the map has it and its first value is
/// printable.
pub open spec fn spec_header_text(fields: Map<Seq<char>, Seq<u8>>, key: Seq<char>) -> Option<
    Seq<char>,
> {
    if fields.contains_key(key) && is_visible_text(fields[key]) {
        Some(bytes_as_chars(fields[key]))
    } else {
        None
    }
}

/// The `i32` that the field `key` reports; zero where the field is missing or
/// its value is no `i32` in base ten.
pub open spec fn spec_header_i32(fields: Map<Seq<char>, Seq<u8>>, key: Seq<char>) -> i32 {
    match spec_header_text(fields, key) {
        Some(text) => match decimal_i32(text) {
            Some(n) => n,
            None => 0,
        },
        None => 0,
    }
}

/// The `u128` that the field `key` reports; zero where the field is missing or
/// its value is no `u128` in base ten.
pub open spec fn spec_header_u128(fields: Map<Seq<char>, Seq<u8>>, key: Seq<char>) -> u128 {
    match spec_header_text(fields, key) {
        Some(text) => match decimal_u128(text) {
            Some(n) => n,
            None => 0,
        },
        None => 0,
    }
}

/// Reads the field `name` as text.
pub fn header_text(headers: &HeaderMap, name: &str) -> (text: Option<String>)
    ensures
        text.is_some() == spec_header_text(header_fields(*headers), lower_name(name@)).is_some(),
        text matches Some(s) ==> Some(s@) == spec_header_text(
            header_fields(*headers),
            lower_name(name@),
        ),
{
    match get_header(headers, name) {
        Some(value) => header_value_to_string(value),
        None => None,
    }
}

/// Reads the field `name` as an `i32`, taking zero for a field that is
/// missing or unreadable.
pub fn header_i32(headers: &HeaderMap, name: &str) -> (n: i32)
    ensures
        n == spec_header_i32(header_fields(*headers), lower_name(name@)),
{
    match header_text(headers, name) {
        Some(text) => match parse_i32(text.as_str()) {
            Some(n) => n,
            None => 0,
        },
        None => 0,
    }
}

/// Reads the field `name` as a `u128`, taking zero for a field that is
/// missing or unreadable.
pub fn header_u128(headers: &HeaderMap, name: &str) -> (n: u128)
    ensures
        n == spec_header_u128(header_fields(*headers), lower_name(name@)),
{
    match header_text(headers, name) {
        Some(text) => match parse_u128(text.as_str()) {
            Some(n) => n,
            None => 0,
        },
        None => 0,
    }
}

} // verus!
