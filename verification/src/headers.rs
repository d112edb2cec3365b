//! Request headers, kept in a `reqwest::header::HeaderMap`.
//!
//! The map is an outside collection. Its contents are named
//! [`header_values`]; what the operations used here do to them is stated
//! as the map's source shows it, and believed.

use std::str::FromStr;
use vstd::prelude::*;
use vstd::string::StringSliceAdditionalSpecFns;

verus! {

/// `reqwest::header::HeaderMap`.
#[verifier::external_type_specification]
#[verifier::external_body]
#[verifier::reject_recursive_types(T)]
pub struct ExHeaderMap<T>(reqwest::header::HeaderMap<T>);

/// `reqwest::header::HeaderValue`.
#[verifier::external_type_specification]
#[verifier::external_body]
pub struct ExHeaderValue(reqwest::header::HeaderValue);

/// What a header map holds: for each header name in it, in its canonical
/// lowercase form, the bytes of the first value under that name.
pub uninterp spec fn header_values(map: reqwest::header::HeaderMap) -> Map<Seq<char>, Seq<u8>>;

/// A character that a header name may hold: an ASCII letter, a digit, or
/// one of ``!#$%&'*+-.^_`|~``.
pub open spec fn is_header_name_char(c: char) -> bool {
    ||| 'a' <= c <= 'z'
    ||| 'A' <= c <= 'Z'
    ||| '0' <= c <= '9'
    ||| c == '!'
    ||| c == '#'
    ||| c == '$'
    ||| c == '%'
    ||| c == '&'
    ||| c == '\''
    ||| c == '*'
    ||| c == '+'
    ||| c == '-'
    ||| c == '.'
    ||| c == '^'
    ||| c == '_'
    ||| c == '`'
    ||| c == '|'
    ||| c == '~'
}

/// The canonical form of a header name, as `HeaderName::from_str` gives it.
/// A header name has 1 to 65535 characters, each one that a header name may
/// hold; its canonical form is the name with each capital letter replaced by
/// its small letter. No other text is a header name.
pub open spec fn canonical_header_name(name: Seq<char>) -> Option<Seq<char>> {
    if 1 <= name.len() <= 65535 && (forall|i: int|
        0 <= i < name.len() ==> is_header_name_char(#[trigger] name[i])) {
        Some(crate::text::ascii_lowercase(name))
    } else {
        None
    }
}

/// The contents of a map that holds nothing.
pub open spec fn no_headers() -> Map<Seq<char>, Seq<u8>> {
    Map::empty()
}

/// `count` is the number of names under which the contents hold a value.
pub open spec fn counts_names(contents: Map<Seq<char>, Seq<u8>>, count: usize) -> bool {
    contents.dom().finite() && count == contents.dom().len()
}

/// The contents leave room for a further name.
pub open spec fn has_room(contents: Map<Seq<char>, Seq<u8>>) -> bool {
    contents.dom().finite() && contents.dom().len() < HEADER_ROOM
}

/// A map with fewer names than this takes a further one.
///
/// The map refuses a name only when its table would have to grow beyond
/// 32768 slots. The table grows when three quarters of it are in use, and,
/// after a run of collisions, when a fifth of it is. The earlier of the
/// two at the largest table is a fifth of 32768 slots, which 6554 names
/// reach and 6553 do not.
pub const HEADER_ROOM: usize = 6554;

/// A text of 1 to 64 characters, each a lowercase ASCII letter or a
/// hyphen. Such a text is a header name and its own canonical form.
pub open spec fn is_plain_header_name(name: Seq<char>) -> bool {
    &&& 1 <= name.len() <= 64
    &&& forall|i: int| 0 <= i < name.len() ==> ('a' <= #[trigger] name[i] <= 'z') || name[i] == '-'
}

/// A plain header name is a header name and its own canonical form.
pub proof fn lemma_plain_header_name(name: Seq<char>)
    requires
        is_plain_header_name(name),
    ensures
        canonical_header_name(name) == Some(name),
{
    assert forall|i: int| 0 <= i < name.len() implies is_header_name_char(#[trigger] name[i]) by {
        assert(('a' <= name[i] <= 'z') || name[i] == '-');
    }
    assert(crate::text::ascii_lowercase(name) =~= name) by {
        assert forall|i: int| 0 <= i < name.len() implies crate::text::ascii_lower_char(
            #[trigger] name[i],
        ) == name[i] by {
            assert(('a' <= name[i] <= 'z') || name[i] == '-');
        }
    }
}

/// A header value is valid if none of its characters is a control
/// character other than the tab: `HeaderValue::from_str` refuses the bytes
/// below 32 but for 9, and the byte 127.
pub open spec fn valid_header_value(value: Seq<char>) -> bool {
    forall|i: int|
        0 <= i < value.len() ==> (#[trigger] value[i]) == '\t' || (value[i] as u32 >= 32
            && value[i] as u32 != 127)
}

/// Whether a text is a valid header value.
pub fn is_valid_header_value(value: &str) -> (r: bool)
    ensures
        r == valid_header_value(value@),
{
    let cs = crate::text::chars_of(value);
    let mut i: usize = 0;
    while i < cs.len()
        invariant
            i <= cs.len(),
            cs@ == value@,
            forall|j: int|
                0 <= j < i ==> (#[trigger] cs@[j]) == '\t' || (cs@[j] as u32 >= 32 && cs@[j] as u32
                    != 127),
        decreases cs.len() - i,
    {
        let c = cs[i];
        if !(c == '\t' || (c as u32 >= 32 && c as u32 != 127)) {
            return false;
        }
        i += 1;
    }
    true
}

/// Calls `HeaderMap::new`: a map that holds nothing.
#[verifier::external_body]
pub(crate) fn new_header_map() -> (r: reqwest::header::HeaderMap)
    ensures
        header_values(r) == no_headers(),
{
    reqwest::header::HeaderMap::new()
}

/// Calls `HeaderName::from_str` and hands out the name as text: the
/// canonical form of a header name, nothing for any other text.
#[verifier::external_body]
pub(crate) fn parse_header_name(name: &str) -> (r: Option<String>)
    ensures
        r is Some <==> canonical_header_name(name@) is Some,
        r matches Some(n) ==> canonical_header_name(name@) == Some(n@),
{
    match reqwest::header::HeaderName::from_str(name) {
        Ok(n) => Some(n.as_str().to_string()),
        Err(_) => None,
    }
}

/// Calls `HeaderMap::keys_len`: the number of names in the map.
#[verifier::external_body]
pub(crate) fn header_name_count(map: &reqwest::header::HeaderMap) -> (r: usize)
    ensures
        counts_names(header_values(*map), r),
{
    map.keys_len()
}

/// Calls `HeaderMap::contains_key` with the name as text: whether the map
/// holds a value under the name. A text that is no header name is not in
/// any map.
#[verifier::external_body]
pub(crate) fn header_present(map: &reqwest::header::HeaderMap, name: &str) -> (r: bool)
    ensures
        r == (canonical_header_name(name@) is Some && header_values(*map).dom().contains(
            canonical_header_name(name@)->0,
        )),
{
    map.contains_key(name)
}

/// Calls `HeaderMap::try_insert` with the name and the value parsed by
/// `HeaderName::from_str` and `HeaderValue::from_str`. Where it returns
/// true, the value stands alone under the name and the rest of the map is as
/// before. Where it returns false, the map holds what it held. It returns
/// true for a valid name and value if the map has room.
#[verifier::external_body]
pub(crate) fn try_insert_header(map: &mut reqwest::header::HeaderMap, name: &str, value: &str)
    -> (r: bool)
    ensures
        r ==> canonical_header_name(name@) is Some && valid_header_value(value@),
        r ==> header_values(*final(map)) == header_values(*old(map)).insert(
            canonical_header_name(name@)->0,
            value.spec_bytes(),
        ),
        !r ==> header_values(*final(map)) == header_values(*old(map)),
        canonical_header_name(name@) is Some && valid_header_value(value@) && has_room(
            header_values(*old(map)),
        ) ==> r,
{
    let parsed_name = reqwest::header::HeaderName::from_str(name);
    let parsed_value = reqwest::header::HeaderValue::from_str(value);
    match (parsed_name, parsed_value) {
        (Ok(n), Ok(v)) => map.try_insert(n, v).is_ok(),
        _ => false,
    }
}

/// What a header value holds: its bytes, as `HeaderValue::as_bytes` hands
/// them out.
pub uninterp spec fn header_value_bytes(value: reqwest::header::HeaderValue) -> Seq<u8>;

/// Every byte is a visible ASCII character, a space or a tab: it is 9, or
/// at least 32 and below 127.
pub open spec fn is_visible_ascii(bytes: Seq<u8>) -> bool {
    forall|i: int| 0 <= i < bytes.len() ==> (#[trigger] bytes[i]) == 9 || 32 <= bytes[i] < 127
}

/// The text that ASCII bytes write: one character for each byte.
pub open spec fn ascii_text(bytes: Seq<u8>) -> Seq<char> {
    Seq::new(bytes.len(), |i: int| bytes[i] as char)
}

/// Calls `HeaderValue::to_str`: the value as text, where every byte of it
/// is a visible ASCII character, a space or a tab; nothing otherwise.
#[verifier::external_body]
pub(crate) fn header_value_text(value: &reqwest::header::HeaderValue) -> (r: Option<&str>)
    ensures
        r is Some <==> is_visible_ascii(header_value_bytes(*value)),
        r matches Some(text) ==> text@ == ascii_text(header_value_bytes(*value)),
{
    value.to_str().ok()
}

/// Whether a map has room for a further name.
pub fn has_header_room(map: &reqwest::header::HeaderMap) -> (r: bool)
    ensures
        r == has_room(header_values(*map)),
{
    header_name_count(map) < HEADER_ROOM
}

/// How setting a header ended.
#[derive(Debug, Clone, Copy, PartialEq, Eq, Structural)]
pub enum SetOutcome {
    /// The value stands under the name.
    Stored,
    /// The name is no header name.
    InvalidName,
    /// The value is no header value.
    InvalidValue,
    /// The map has no room.
    Full,
}

/// What setting a header does, by its outcome.
pub open spec fn set_header_spec(
    before: Map<Seq<char>, Seq<u8>>,
    after: Map<Seq<char>, Seq<u8>>,
    name: &str,
    value: &str,
    outcome: SetOutcome,
) -> bool {
    match outcome {
        SetOutcome::Stored => {
            &&& canonical_header_name(name@) is Some
            &&& valid_header_value(value@)
            &&& after == before.insert(canonical_header_name(name@)->0, value.spec_bytes())
        },
        SetOutcome::InvalidName => canonical_header_name(name@) is None && after == before,
        SetOutcome::InvalidValue => canonical_header_name(name@) is Some && !valid_header_value(
            value@,
        ) && after == before,
        SetOutcome::Full => {
            &&& canonical_header_name(name@) is Some
            &&& valid_header_value(value@)
            &&& after == before
            &&& !has_room(before)
        },
    }
}

/// Sets a header: the value replaces what stood under the name. The name
/// is checked first, then the value. Nothing changes unless the outcome is
/// `Stored`, and a map with fewer than [`HEADER_ROOM`] names is never full.
pub fn set_header(map: &mut reqwest::header::HeaderMap, name: &str, value: &str) -> (r:
    SetOutcome)
    ensures
        set_header_spec(header_values(*old(map)), header_values(*final(map)), name, value, r),
        is_plain_header_name(name@) ==> r != SetOutcome::InvalidName && canonical_header_name(
            name@,
        ) == Some(name@),
{
    proof {
        if is_plain_header_name(name@) {
            lemma_plain_header_name(name@);
        }
    }
    if parse_header_name(name).is_none() {
        return SetOutcome::InvalidName;
    }
    if !is_valid_header_value(value) {
        return SetOutcome::InvalidValue;
    }
    if try_insert_header(map, name, value) {
        SetOutcome::Stored
    } else {
        SetOutcome::Full
    }
}

} // verus!
