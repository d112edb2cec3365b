//! The fast path for simple downloads: when it is taken, and which of its
//! clients fetches.

use crate::cli::Args;
use crate::error::{ErrorCode, ErrorKind, RuGetError};
use crate::text::{chars_of, chars_start_with};
use crate::ultimate_fast::{should_use_ultimate_mode, spec_should_use_ultimate_mode};
use crate::ultra_fast::{can_use_ultra_fast, spec_can_use_ultra_fast};
use vstd::prelude::*;

verus! {

/// The URL begins with `http://` or `https://`.
pub open spec fn spec_is_simple_http_url(url: Seq<char>) -> bool {
    "http://"@.is_prefix_of(url) || "https://"@.is_prefix_of(url)
}

/// Check if URL is suitable for fast path.
pub fn is_simple_http_url(url: &str) -> (r: bool)
    ensures
        r == spec_is_simple_http_url(url@),
{
    let cs = chars_of(url);
    let http = chars_of("http://");
    let https = chars_of("https://");
    chars_start_with(cs.as_slice(), http.as_slice()) || chars_start_with(
        cs.as_slice(),
        https.as_slice(),
    )
}

/// A single URL from the command line, with no resume, no verbose output,
/// no custom headers and at most one job.
pub open spec fn spec_should_use_fast_path(args: Args) -> bool {
    &&& args.urls@.len() == 1
    &&& args.input is None
    &&& !args.resume
    &&& !args.verbose
    &&& args.headers@.len() == 0
    &&& args.jobs <= 1
}

/// Determine if we should use fast path based on arguments.
pub fn should_use_fast_path(args: &Args) -> (r: bool)
    ensures
        r == spec_should_use_fast_path(*args),
{
    args.urls.len() == 1 && args.input.is_none() && !args.resume && !args.verbose
        && args.headers.len() == 0 && args.jobs <= 1
}

/// How the fast path fetches a URL.
#[derive(Debug, Clone, Copy, PartialEq, Eq, Structural)]
pub enum FastRoute {
    /// The pooled client, into a file.
    Ultimate,
    /// The lightest client, into a file.
    UltraFast,
    /// The plain client, into a file.
    Minimal,
    /// The plain client, onto standard output.
    Stdout,
}

/// The route for a simple URL: without an output path, standard output;
/// with one, the first of the pooled, the lightest and the plain client
/// that takes the URL.
pub open spec fn spec_fast_route(url: &str, output_path: Option<&str>) -> FastRoute {
    match output_path {
        Some(path) => if spec_should_use_ultimate_mode(url, path) {
            FastRoute::Ultimate
        } else if spec_can_use_ultra_fast(url, path) {
            FastRoute::UltraFast
        } else {
            FastRoute::Minimal
        },
        None => FastRoute::Stdout,
    }
}

/// Picks the route of the fast path. A URL that is neither `http` nor
/// `https` has none.
pub fn fast_route(url: &str, output_path: Option<&str>) -> (r: Result<FastRoute, RuGetError>)
    ensures
        r is Ok <==> spec_is_simple_http_url(url@),
        r matches Ok(route) ==> route == spec_fast_route(url, output_path),
        r matches Err(e) ==> e.is_plain(
            ErrorCode::E400,
            ErrorKind::Network,
            "Network error: "@ + "Fast path only supports simple HTTP/HTTPS URLs"@,
        ),
{
    if !is_simple_http_url(url) {
        return Err(
            RuGetError::network(
                String::from_str("Fast path only supports simple HTTP/HTTPS URLs"),
            ),
        );
    }
    match output_path {
        Some(path) => {
            if should_use_ultimate_mode(url, path) {
                Ok(FastRoute::Ultimate)
            } else if can_use_ultra_fast(url, path) {
                Ok(FastRoute::UltraFast)
            } else {
                Ok(FastRoute::Minimal)
            }
        },
        None => Ok(FastRoute::Stdout),
    }
}

} // verus!
