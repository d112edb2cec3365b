//! When the fastest download path may be taken, and the sizes and
//! statistics that go with it.

use crate::error::RuGetError;
use crate::text::{
    chars_contain, chars_of, chars_start_with, contains_seq, find_char, find_chars, first_index,
    string_of,
};
use vstd::prelude::*;

verus! {

/// The size of the write buffer for data of a given size.
pub open spec fn spec_optimal_buffer_size(data_size: usize) -> usize {
    if data_size <= 1024 {
        1024
    } else if data_size <= 8192 {
        4096
    } else if data_size <= 65536 {
        8192
    } else if data_size <= 1048576 {
        32768
    } else {
        65536
    }
}

/// Calculate optimal buffer size based on data size.
pub fn optimal_buffer_size(data_size: usize) -> (r: usize)
    ensures
        r == spec_optimal_buffer_size(data_size),
{
    if data_size <= 1024 {
        1024
    } else if data_size <= 8192 {
        4096
    } else if data_size <= 65536 {
        8192
    } else if data_size <= 1048576 {
        32768
    } else {
        65536
    }
}

/// An ASCII letter, an ASCII digit, a dot or a hyphen.
pub open spec fn is_domain_char(c: char) -> bool {
    ('a' <= c <= 'z') || ('A' <= c <= 'Z') || ('0' <= c <= '9') || c == '.' || c == '-'
}

/// What stands between `https://` and the first `/` after it; nothing for
/// a URL that does not begin with `https://`.
pub open spec fn spec_https_domain(url: Seq<char>) -> Seq<char> {
    if "https://"@.is_prefix_of(url) {
        url.skip(8).take(first_index(url.skip(8), '/'))
    } else {
        Seq::empty()
    }
}

/// The domain of an `https` URL is simple: between 1 and 99 characters,
/// each a domain character.
pub open spec fn spec_is_simple_domain(url: Seq<char>) -> bool {
    let domain = spec_https_domain(url);
    &&& forall|i: int| 0 <= i < domain.len() ==> is_domain_char(#[trigger] domain[i])
    &&& 0 < domain.len() < 100
}

/// Check if domain is simple (no exotic characters or encoding).
pub fn is_simple_domain(url: &str) -> (r: bool)
    ensures
        r == spec_is_simple_domain(url@),
{
    let cs = chars_of(url);
    let https = chars_of("https://");
    proof {
        reveal_strlit("https://");
    }
    if !chars_start_with(cs.as_slice(), https.as_slice()) {
        return false;
    }
    let rest = vstd::slice::slice_subrange(cs.as_slice(), 8, cs.len());
    assert(rest@ =~= url@.skip(8));
    let end = match find_char(rest, '/') {
        Some(i) => i,
        None => rest.len(),
    };
    let ghost domain = spec_https_domain(url@);
    assert(domain =~= rest@.take(end as int));
    let mut i: usize = 0;
    while i < end
        invariant
            i <= end <= rest.len(),
            domain == rest@.take(end as int),
            domain == spec_https_domain(url@),
            forall|j: int| 0 <= j < i ==> is_domain_char(#[trigger] domain[j]),
        decreases end - i,
    {
        let c = rest[i];
        let ok = (c >= 'a' && c <= 'z') || (c >= 'A' && c <= 'Z') || (c >= '0' && c <= '9') || c
            == '.' || c == '-';
        if !ok {
            assert(!is_domain_char(domain[i as int]));
            return false;
        }
        i += 1;
    }
    end > 0 && end < 100
}

/// An `https` URL of fewer than 300 bytes without query or fragment, with
/// a simple domain, and an output path that is not empty.
pub open spec fn spec_should_use_ultimate_mode(url: &str, output_path: &str) -> bool {
    &&& "https://"@.is_prefix_of(url@)
    &&& !url@.contains('?')
    &&& !url@.contains('#')
    &&& url.len() < 300
    &&& output_path@.len() > 0
    &&& spec_is_simple_domain(url@)
}

/// Check if ultimate mode should be used.
pub fn should_use_ultimate_mode(url: &str, output_path: &str) -> (r: bool)
    ensures
        r == spec_should_use_ultimate_mode(url, output_path),
{
    let cs = chars_of(url);
    let https = chars_of("https://");
    chars_start_with(cs.as_slice(), https.as_slice()) && !chars_contain(cs.as_slice(), '?')
        && !chars_contain(cs.as_slice(), '#') && url.len() < 300 && !output_path.is_empty()
        && is_simple_domain(url)
}

/// What stands between the scheme, `https://` or `http://`, and the first
/// `/` after it; nothing for a URL with neither scheme.
pub open spec fn spec_extract_domain(url: Seq<char>) -> Seq<char> {
    if "https://"@.is_prefix_of(url) {
        url.skip(8).take(first_index(url.skip(8), '/'))
    } else if "http://"@.is_prefix_of(url) {
        url.skip(7).take(first_index(url.skip(7), '/'))
    } else {
        Seq::empty()
    }
}

/// Extract domain from URL.
pub fn extract_domain(url: &str) -> (r: String)
    ensures
        r@ == spec_extract_domain(url@),
{
    let cs = chars_of(url);
    let https = chars_of("https://");
    let http = chars_of("http://");
    proof {
        reveal_strlit("https://");
        reveal_strlit("http://");
    }
    let from: usize = if chars_start_with(cs.as_slice(), https.as_slice()) {
        8
    } else if chars_start_with(cs.as_slice(), http.as_slice()) {
        7
    } else {
        return String::new();
    };
    let rest = vstd::slice::slice_subrange(cs.as_slice(), from, cs.len());
    assert(rest@ =~= url@.skip(from as int));
    let end = match find_char(rest, '/') {
        Some(i) => i,
        None => rest.len(),
    };
    let r = string_of(rest, 0, end);
    assert(rest@.subrange(0, end as int) =~= rest@.take(end as int));
    r
}

/// The domain holds the name of a host that is known to answer fast.
pub open spec fn spec_is_known_fast_domain(domain: Seq<char>) -> bool {
    ||| contains_seq(domain, "httpbin.org"@)
    ||| contains_seq(domain, "api.github.com"@)
    ||| contains_seq(domain, "raw.githubusercontent.com"@)
    ||| contains_seq(domain, "cdn.jsdelivr.net"@)
    ||| contains_seq(domain, "unpkg.com"@)
}

fn holds_name(domain: &[char], name: &str) -> (r: bool)
    ensures
        r == contains_seq(domain@, name@),
{
    let n = chars_of(name);
    find_chars(domain, n.as_slice()).is_some()
}

/// Check if domain is known to be fast.
pub fn is_known_fast_domain(domain: &str) -> (r: bool)
    ensures
        r == spec_is_known_fast_domain(domain@),
{
    let cs = chars_of(domain);
    holds_name(cs.as_slice(), "httpbin.org") || holds_name(cs.as_slice(), "api.github.com")
        || holds_name(cs.as_slice(), "raw.githubusercontent.com") || holds_name(
        cs.as_slice(),
        "cdn.jsdelivr.net",
    ) || holds_name(cs.as_slice(), "unpkg.com")
}

/// Predictive pre-connection for known patterns: says whether a
/// connection to the host of a URL is to be opened ahead of the download,
/// which it is for the hosts known to answer fast. There is no failure.
pub fn maybe_preconnect(url: &str) -> (r: Result<bool, RuGetError>)
    ensures
        r matches Ok(due) && due == spec_is_known_fast_domain(spec_extract_domain(url@)),
{
    let domain = extract_domain(url);
    Ok(is_known_fast_domain(domain.as_str()))
}

/// Performance statistics for monitoring.
#[derive(Debug, Clone, Copy, PartialEq, Eq, Structural)]
pub struct PerformanceStats {
    pub dns_cache_hits: usize,
    pub connection_reuses: usize,
    pub bytes_downloaded: u64,
    pub downloads_completed: usize,
}

impl Default for PerformanceStats {
    fn default() -> (r: Self)
        ensures
            r == (PerformanceStats {
                dns_cache_hits: 0,
                connection_reuses: 0,
                bytes_downloaded: 0,
                downloads_completed: 0,
            }),
    {
        PerformanceStats {
            dns_cache_hits: 0,
            connection_reuses: 0,
            bytes_downloaded: 0,
            downloads_completed: 0,
        }
    }
}

/// Record a successful download for statistics: its bytes are added and
/// the count of downloads goes up by one.
pub fn record_download(stats: &mut PerformanceStats, bytes: u64)
    requires
        old(stats).bytes_downloaded + bytes <= u64::MAX,
        old(stats).downloads_completed < usize::MAX,
    ensures
        *final(stats) == (PerformanceStats {
            bytes_downloaded: (old(stats).bytes_downloaded + bytes) as u64,
            downloads_completed: (old(stats).downloads_completed + 1) as usize,
            ..*old(stats)
        }),
{
    stats.bytes_downloaded = stats.bytes_downloaded + bytes;
    stats.downloads_completed = stats.downloads_completed + 1;
}

} // verus!
