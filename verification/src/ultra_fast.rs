//! When the lightest download path may be taken.

use crate::text::{chars_contain, chars_of, chars_start_with};
use vstd::prelude::*;

verus! {

/// An `https` URL of fewer than 200 bytes without a query, and an output
/// path that is not empty.
pub open spec fn spec_can_use_ultra_fast(url: &str, output_path: &str) -> bool {
    &&& "https://"@.is_prefix_of(url@)
    &&& output_path@.len() > 0
    &&& !url@.contains('?')
    &&& url.len() < 200
}

/// Check if we can use ultra-fast mode.
pub fn can_use_ultra_fast(url: &str, output_path: &str) -> (r: bool)
    ensures
        r == spec_can_use_ultra_fast(url, output_path),
{
    let cs = chars_of(url);
    let https = chars_of("https://");
    chars_start_with(cs.as_slice(), https.as_slice()) && !output_path.is_empty() && !chars_contain(
        cs.as_slice(),
        '?',
    ) && url.len() < 200
}

} // verus!
