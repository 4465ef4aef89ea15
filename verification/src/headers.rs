//! HTTP header grammar and the prepared header map.
//!
//! A header name is a non-empty RFC 7230 token of at most 65535 bytes; a
//! header value may hold any bytes except controls other than horizontal tab
//! and except DEL. These are exactly the inputs that `http::HeaderName::from_bytes`
//! and `http::HeaderValue::from_str` accept, so validation here decides, once
//! and at setup time, whether the header map can be built at all.

use vstd::prelude::*;
use vstd::string::StringSliceAdditionalSpecFns;

verus! {

/// The UTF-8 bytes of a string value.
pub open spec fn bytes_of(s: Seq<char>) -> Seq<u8> {
    vstd::utf8::encode_utf8(s)
}

/// A header name may be at most this many bytes long.
pub const MAX_HEADER_NAME_LEN: usize = 0xffff;

/// A byte allowed in a header name: an RFC 7230 `tchar`, that is a letter,
/// a digit, or one of `! # $ % & ' * + - . ^ _ ` | ~` (here by byte value).
pub open spec fn is_header_name_byte(b: u8) -> bool {
    ||| (97 <= b && b <= 122)  // a-z
    ||| (65 <= b && b <= 90)  // A-Z
    ||| (48 <= b && b <= 57)  // 0-9
    ||| b == 33 || b == 35 || b == 36 || b == 37 || b == 38 || b == 39
    ||| b == 42 || b == 43 || b == 45 || b == 46
    ||| b == 94 || b == 95 || b == 96 || b == 124 || b == 126
}

/// A valid header name: a non-empty token of bounded length.
pub open spec fn valid_header_name(s: Seq<u8>) -> bool {
    &&& 1 <= s.len() <= MAX_HEADER_NAME_LEN
    &&& forall|i: int| 0 <= i < s.len() ==> is_header_name_byte(#[trigger] s[i])
}

/// A byte allowed in a header value: anything but a control character
/// (horizontal tab excepted) and DEL.
pub open spec fn is_header_value_byte(b: u8) -> bool {
    b == 9 || (32 <= b && b != 127)
}

/// A valid header value; the empty value is valid.
pub open spec fn valid_header_value(s: Seq<u8>) -> bool {
    forall|i: int| 0 <= i < s.len() ==> is_header_value_byte(#[trigger] s[i])
}

/// The ASCII-lowercase of one byte.
pub open spec fn lower_byte(b: u8) -> u8 {
    if 65 <= b && b <= 90 {
        (b + 32) as u8
    } else {
        b
    }
}

/// The ASCII-lowercase of a byte string; header names compare by it.
pub open spec fn lower_bytes(s: Seq<u8>) -> Seq<u8> {
    s.map_values(|b: u8| lower_byte(b))
}

fn header_name_byte_ok(b: u8) -> (r: bool)
    ensures
        r == is_header_name_byte(b),
{
    (97 <= b && b <= 122) || (65 <= b && b <= 90) || (48 <= b && b <= 57) || b == 33
        || b == 35 || b == 36 || b == 37 || b == 38 || b == 39 || b == 42 || b == 43
        || b == 45 || b == 46 || b == 94 || b == 95 || b == 96 || b == 124 || b == 126
}

fn header_value_byte_ok(b: u8) -> (r: bool)
    ensures
        r == is_header_value_byte(b),
{
    b == 9 || (32 <= b && b != 127)
}

/// Whether a string is a valid header name.
pub fn header_name_is_valid(s: &str) -> (r: bool)
    ensures
        r == valid_header_name(bytes_of(s@)),
{
    let b = s.as_bytes();
    assert(b@ == bytes_of(s@));
    if b.len() == 0 || b.len() > MAX_HEADER_NAME_LEN {
        return false;
    }
    let mut i: usize = 0;
    while i < b.len()
        invariant
            b@ == bytes_of(s@),
            1 <= b@.len() <= MAX_HEADER_NAME_LEN,
            0 <= i <= b@.len(),
            forall|j: int| 0 <= j < i ==> is_header_name_byte(#[trigger] b@[j]),
        decreases b@.len() - i,
    {
        if !header_name_byte_ok(b[i]) {
            assert(!is_header_name_byte(b@[i as int]));
            return false;
        }
        i += 1;
    }
    true
}

/// Whether a string is a valid header value.
pub fn header_value_is_valid(s: &str) -> (r: bool)
    ensures
        r == valid_header_value(bytes_of(s@)),
{
    let b = s.as_bytes();
    assert(b@ == bytes_of(s@));
    let mut i: usize = 0;
    while i < b.len()
        invariant
            b@ == bytes_of(s@),
            0 <= i <= b@.len(),
            forall|j: int| 0 <= j < i ==> is_header_value_byte(#[trigger] b@[j]),
        decreases b@.len() - i,
    {
        if !header_value_byte_ok(b[i]) {
            assert(!is_header_value_byte(b@[i as int]));
            return false;
        }
        i += 1;
    }
    true
}

#[verifier::external_type_specification]
#[verifier::external_body]
pub struct ExHeaderValue(http::HeaderValue);

#[verifier::external_type_specification]
#[verifier::external_body]
#[verifier::reject_recursive_types(T)]
pub struct ExHeaderMap<T>(http::HeaderMap<T>);

/// What a header map holds: each value, keyed by the ASCII-lowercase bytes of
/// its name, as `http::HeaderMap` keys names case-insensitively.
pub uninterp spec fn header_map_entries(m: http::HeaderMap) -> Map<Seq<u8>, Seq<u8>>;

/// The contents of a header map with nothing in it.
pub open spec fn no_entries() -> Map<Seq<u8>, Seq<u8>> {
    Map::empty()
}

/// Relies on `http::HeaderMap::new`: a freshly created map holds no entries.
#[verifier::external_body]
pub(crate) fn header_map_new() -> (r: http::HeaderMap)
    ensures
        header_map_entries(r) == no_entries(),
{
    http::HeaderMap::new()
}

/// How many headers a prepared map may hold. `http::HeaderMap` caps its raw
/// index table at 32768 slots and refuses to grow past that; it doubles the
/// table when stored names reach three quarters of the slots, and its
/// adaptive-hashing protection may force a doubling already once they exceed
/// a fifth of the slots. Below 3276 stored names the table therefore never
/// exceeds 16384 slots and every doubling stays within the cap; this constant
/// stays conservatively under that.
pub const MAX_PREPARED_HEADERS: usize = 3072;

/// Relies on `http::HeaderMap::insert`, which stores the value under the name
/// and drops every value the name held before; on `http::HeaderName::from_bytes`,
/// which accepts exactly the names `valid_header_name` admits and stores them
/// lowercased; and on `http::HeaderValue::from_str`, which accepts exactly the
/// values `valid_header_value` admits. `insert` panics when the map can no
/// longer grow; the bound on how many names it already holds keeps every
/// growth path within the map's capacity (see `MAX_PREPARED_HEADERS`).
#[verifier::external_body]
pub(crate) fn header_map_insert(m: &mut http::HeaderMap, name: &str, value: &str)
    requires
        valid_header_name(name.spec_bytes()),
        valid_header_value(value.spec_bytes()),
        header_map_entries(*old(m)).dom().len() < MAX_PREPARED_HEADERS,
    ensures
        header_map_entries(*final(m)) == header_map_entries(*old(m)).insert(
            lower_bytes(name.spec_bytes()),
            value.spec_bytes(),
        ),
{
    let n = http::header::HeaderName::from_bytes(name.as_bytes()).unwrap();
    let v = http::header::HeaderValue::from_str(value).unwrap();
    m.insert(n, v);
}

/// Relies on `http::HeaderMap`'s `Clone`, which copies the map entry for entry.
#[verifier::external_body]
pub(crate) fn header_map_clone(m: &http::HeaderMap) -> (r: http::HeaderMap)
    ensures
        header_map_entries(r) == header_map_entries(*m),
{
    m.clone()
}

} // verus!
