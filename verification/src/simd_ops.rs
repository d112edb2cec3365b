//! Operations on byte buffers: copying, pattern search, and the two
//! searches that reading an HTTP response head needs.

use crate::text::{
    chars_of, contains_seq, first_occurrence, lemma_spec_find_is, occurs_at, parse_unsigned,
    spec_find, spec_parse_unsigned, str_from_utf8, trim_range, trimmed,
};
use vstd::prelude::*;
use vstd::slice::slice_subrange;
use vstd::string::StringSliceAdditionalSpecFns;

verus! {

/// Copies `src` into `dst`. Both have the same length.
pub fn fast_memcpy(src: &[u8], dst: &mut [u8])
    requires
        src.len() == old(dst).len(),
    ensures
        final(dst)@ == src@,
{
    let mut i: usize = 0;
    while i < src.len()
        invariant
            src.len() == dst.len(),
            i <= src.len(),
            dst@.take(i as int) =~= src@.take(i as int),
        decreases src.len() - i,
    {
        dst[i] = src[i];
        i += 1;
    }
    assert(dst@.take(i as int) =~= dst@);
    assert(src@.take(i as int) =~= src@);
}

fn bytes_match_at(hay: &[u8], needle: &[u8], at: usize) -> (r: bool)
    requires
        at + needle.len() <= hay.len(),
    ensures
        r == occurs_at(hay@, needle@, at as int),
{
    let mut k: usize = 0;
    while k < needle.len()
        invariant
            at + needle.len() <= hay.len(),
            k <= needle.len(),
            hay@.subrange(at as int, at + k) =~= needle@.take(k as int),
        decreases needle.len() - k,
    {
        if hay[at + k] != needle[k] {
            assert(hay@.subrange(at as int, at + needle.len())[k as int] != needle@[k as int]);
            return false;
        }
        assert(hay@.subrange(at as int, at + k + 1) =~= hay@.subrange(at as int, at + k).push(
            hay@[at + k],
        ));
        assert(needle@.take(k + 1) =~= needle@.take(k as int).push(needle@[k as int]));
        k += 1;
    }
    assert(needle@.take(k as int) =~= needle@);
    true
}

/// Position of the first occurrence of a needle that is not empty.
pub fn find_pattern_scalar(haystack: &[u8], needle: &[u8]) -> (r: Option<usize>)
    requires
        needle.len() > 0,
    ensures
        match r {
            Some(i) => first_occurrence(haystack@, needle@, i as int),
            None => !contains_seq(haystack@, needle@),
        },
        r matches Some(i) ==> spec_find(haystack@, needle@) == Some(i as int),
        r is None ==> spec_find(haystack@, needle@) is None,
{
    if needle.len() > haystack.len() {
        return None;
    }
    let last: usize = haystack.len() - needle.len();
    let mut i: usize = 0;
    while i < last
        invariant
            last == haystack.len() - needle.len(),
            0 < needle.len() <= haystack.len(),
            i <= last,
            forall|j: int| 0 <= j < i ==> !occurs_at(haystack@, needle@, j),
        decreases last - i,
    {
        if bytes_match_at(haystack, needle, i) {
            proof {
                lemma_spec_find_is(haystack@, needle@, i as int);
            }
            return Some(i);
        }
        i += 1;
    }
    if bytes_match_at(haystack, needle, last) {
        proof {
            lemma_spec_find_is(haystack@, needle@, last as int);
        }
        Some(last)
    } else {
        None
    }
}

/// Position of the first occurrence of `needle` in `haystack`. Nothing is
/// found of an empty needle, nor of one longer than the haystack.
pub fn find_pattern_simd(haystack: &[u8], needle: &[u8]) -> (r: Option<usize>)
    ensures
        match r {
            Some(i) => needle.len() > 0 && first_occurrence(haystack@, needle@, i as int),
            None => needle.len() == 0 || !contains_seq(haystack@, needle@),
        },
        r matches Some(i) ==> spec_find(haystack@, needle@) == Some(i as int),
        r is None ==> spec_find(haystack@, needle@) is None,
{
    if needle.len() == 0 || needle.len() > haystack.len() {
        return None;
    }
    find_pattern_scalar(haystack, needle)
}

/// Where the head of an HTTP message ends: the position of the first empty
/// line, that is of the first two line breaks in a row.
pub fn find_header_end(data: &[u8]) -> (r: Option<usize>)
    ensures
        r matches Some(i) ==> spec_find(data@, "\r\n\r\n".spec_bytes()) == Some(i as int),
        r is None ==> spec_find(data@, "\r\n\r\n".spec_bytes()) is None,
{
    find_pattern_simd(data, "\r\n\r\n".as_bytes())
}

/// The bytes between the first occurrence of `pattern` and the first line
/// break after it; none where the pattern does not occur or no line break
/// follows.
pub open spec fn spec_field_value(headers: Seq<u8>, pattern: Seq<u8>) -> Option<Seq<u8>> {
    match spec_find(headers, pattern) {
        Some(pos) => {
            let rest = headers.skip(pos + pattern.len());
            match spec_find(rest, "\r\n".spec_bytes()) {
                Some(end) => Some(rest.take(end)),
                None => None,
            }
        },
        None => None,
    }
}

/// The length that the bytes of a field value write: they must be UTF-8
/// and, with the whitespace at both ends taken away, a number.
pub open spec fn spec_length_value(value: Seq<u8>) -> Option<nat> {
    if vstd::utf8::valid_utf8(value) {
        spec_parse_unsigned(trimmed(vstd::utf8::decode_utf8(value)), usize::MAX as nat)
    } else {
        None
    }
}

/// The content length that a message head gives. The field name is looked
/// for in three spellings, in this order: `Content-Length:`,
/// `content-length:`, `CONTENT-LENGTH:`. The first spelling that occurs with
/// a line break after it decides, whether or not its value is a number.
pub open spec fn spec_content_length(headers: Seq<u8>) -> Option<nat> {
    match spec_field_value(headers, "Content-Length:".spec_bytes()) {
        Some(v) => spec_length_value(v),
        None => match spec_field_value(headers, "content-length:".spec_bytes()) {
            Some(v) => spec_length_value(v),
            None => match spec_field_value(headers, "CONTENT-LENGTH:".spec_bytes()) {
                Some(v) => spec_length_value(v),
                None => None,
            },
        },
    }
}

fn field_value<'a>(headers: &'a [u8], pattern: &[u8]) -> (r: Option<&'a [u8]>)
    ensures
        r is Some <==> spec_field_value(headers@, pattern@) is Some,
        r matches Some(v) ==> spec_field_value(headers@, pattern@) == Some(v@),
{
    match find_pattern_simd(headers, pattern) {
        Some(pos) => {
            let total = headers.len();
            assert(occurs_at(headers@, pattern@, pos as int));
            assert(pos + pattern@.len() <= total);
            let after = pos + pattern.len();
            let rest = slice_subrange(headers, after, total);
            assert(rest@ =~= headers@.skip(pos + pattern.len()));
            match find_pattern_simd(rest, "\r\n".as_bytes()) {
                Some(end) => {
                    let value = slice_subrange(rest, 0, end);
                    assert(value@ =~= rest@.take(end as int));
                    Some(value)
                },
                None => None,
            }
        },
        None => None,
    }
}

fn length_value(value: &[u8]) -> (r: Option<usize>)
    ensures
        r is Some <==> spec_length_value(value@) is Some,
        r matches Some(n) ==> spec_length_value(value@) == Some(n as nat),
{
    match str_from_utf8(value) {
        Some(s) => {
            let cs = chars_of(s);
            let (from, to) = trim_range(cs.as_slice());
            let t = slice_subrange(cs.as_slice(), from, to);
            match parse_unsigned(t, usize::MAX as u64) {
                Some(v) => Some(v as usize),
                None => None,
            }
        },
        None => None,
    }
}

/// The content length that a message head gives, if it gives one.
pub fn extract_content_length(headers: &[u8]) -> (r: Option<usize>)
    ensures
        r is Some <==> spec_content_length(headers@) is Some,
        r matches Some(n) ==> spec_content_length(headers@) == Some(n as nat),
{
    if let Some(v) = field_value(headers, "Content-Length:".as_bytes()) {
        return length_value(v);
    }
    if let Some(v) = field_value(headers, "content-length:".as_bytes()) {
        return length_value(v);
    }
    if let Some(v) = field_value(headers, "CONTENT-LENGTH:".as_bytes()) {
        return length_value(v);
    }
    None
}

/// A growable byte buffer.
pub struct SIMDBuffer {
    data: Vec<u8>,
    capacity: usize,
}

impl View for SIMDBuffer {
    type V = Seq<u8>;

    closed spec fn view(&self) -> Seq<u8> {
        self.data@
    }
}

impl SIMDBuffer {
    /// The capacity that the buffer was made with.
    pub closed spec fn spec_capacity(&self) -> usize {
        self.capacity
    }

    /// An empty buffer.
    pub fn new() -> (r: Self)
        ensures
            r@ == Seq::<u8>::empty(),
            r.spec_capacity() == 0,
    {
        Self { data: Vec::new(), capacity: 0 }
    }

    /// An empty buffer with room for `capacity` bytes.
    pub fn with_capacity(capacity: usize) -> (r: Self)
        ensures
            r@ == Seq::<u8>::empty(),
            r.spec_capacity() == capacity,
    {
        Self { data: Vec::with_capacity(capacity), capacity }
    }

    /// Appends `src` to the contents.
    pub fn append(&mut self, src: &[u8])
        ensures
            final(self)@ == old(self)@ + src@,
            final(self).spec_capacity() == old(self).spec_capacity(),
    {
        self.data.extend_from_slice(src);
    }

    /// Get immutable slice
    pub fn as_slice(&self) -> (r: &[u8])
        ensures
            r@ == self@,
    {
        self.data.as_slice()
    }

    /// Get mutable slice. What is written through it becomes the contents.
    pub fn as_mut_slice(&mut self) -> (r: &mut [u8])
        ensures
            r@ == old(self)@,
            final(self)@ == final(r)@,
            final(self).spec_capacity() == old(self).spec_capacity(),
    {
        self.data.as_mut_slice()
    }

    /// Clear buffer for reuse
    pub fn clear(&mut self)
        ensures
            final(self)@ == Seq::<u8>::empty(),
            final(self).spec_capacity() == old(self).spec_capacity(),
    {
        self.data.clear();
    }

    /// Get length
    pub fn len(&self) -> (r: usize)
        ensures
            r == self@.len(),
    {
        self.data.len()
    }

    /// Check if empty
    pub fn is_empty(&self) -> (r: bool)
        ensures
            r == (self@.len() == 0),
    {
        self.data.len() == 0
    }
}

impl Default for SIMDBuffer {
    fn default() -> (r: Self)
        ensures
            r@ == Seq::<u8>::empty(),
            r.spec_capacity() == 0,
    {
        Self::new()
    }
}

} // verus!
