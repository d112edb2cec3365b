//! URL parsing and message framing for the plain HTTP/1.1 client.

use crate::error::{ErrorCode, ErrorKind, RuGetError};
use crate::text::{
    chars_of, chars_start_with, find_char, find_chars, first_index, parse_unsigned, spec_find,
    spec_parse_unsigned, string_from_utf8_lossy, string_of, utf8_lossy,
};
use vstd::string::StrSliceExecFns;
use vstd::utf8::encode_utf8;
use vstd::prelude::*;

verus! {

/// The parts of an `http` or `https` URL.
#[derive(Debug)]
pub struct ParsedUrl {
    pub scheme: String,
    pub host: String,
    pub port: Option<u16>,
    pub path: String,
}

/// What parsing a URL gives, as plain text.
pub enum UrlParse {
    Parsed { scheme: Seq<char>, host: Seq<char>, port: Option<u16>, path: Seq<char> },
    UnsupportedScheme,
    InvalidPort,
}

impl ParsedUrl {
    /// The parts as plain text.
    pub open spec fn spec_parts(self) -> UrlParse {
        UrlParse::Parsed {
            scheme: self.scheme@,
            host: self.host@,
            port: self.port,
            path: self.path@,
        }
    }
}

/// Parses what follows the scheme. The host and port end at the first `/`,
/// and the path is that `/` and all after it, or `/` alone. In host and port
/// the first `:` parts the two; the port is a number of at most 65535.
pub open spec fn spec_parse_http_url(rest: Seq<char>, scheme: Seq<char>) -> UrlParse {
    let slash = first_index(rest, '/');
    let host_port = rest.take(slash);
    let path = if slash < rest.len() {
        rest.skip(slash)
    } else {
        seq!['/']
    };
    if host_port.contains(':') {
        let colon = first_index(host_port, ':');
        match spec_parse_unsigned(host_port.skip(colon + 1), 65535) {
            Some(port) => UrlParse::Parsed {
                scheme,
                host: host_port.take(colon),
                port: Some(port as u16),
                path,
            },
            None => UrlParse::InvalidPort,
        }
    } else {
        UrlParse::Parsed { scheme, host: host_port, port: None, path }
    }
}

/// Parses a URL that begins with `http://` or `https://`.
pub open spec fn spec_parse_url(url: Seq<char>) -> UrlParse {
    if "http://"@.is_prefix_of(url) {
        spec_parse_http_url(url.skip(7), "http"@)
    } else if "https://"@.is_prefix_of(url) {
        spec_parse_http_url(url.skip(8), "https"@)
    } else {
        UrlParse::UnsupportedScheme
    }
}

/// The result of a parse is what the plain-text parse says: the parts, or
/// the parse error of the failure.
pub open spec fn parse_result_is(r: Result<ParsedUrl, RuGetError>, expected: UrlParse) -> bool {
    match expected {
        UrlParse::Parsed { .. } => r is Ok && r->Ok_0.spec_parts() == expected,
        UrlParse::UnsupportedScheme => r is Err && r->Err_0.is_plain(
            ErrorCode::E501,
            ErrorKind::Parse,
            "Parse error: "@ + "Unsupported URL scheme"@,
        ),
        UrlParse::InvalidPort => r is Err && r->Err_0.is_plain(
            ErrorCode::E501,
            ErrorKind::Parse,
            "Parse error: "@ + "Invalid port number"@,
        ),
    }
}

/// Parses the characters `url[from..]`, which follow the scheme.
fn parse_after_scheme(url: &[char], from: usize, scheme: &str) -> (r: Result<
    ParsedUrl,
    RuGetError,
>)
    requires
        from <= url.len(),
    ensures
        parse_result_is(r, spec_parse_http_url(url@.skip(from as int), scheme@)),
{
    let rest = vstd::slice::slice_subrange(url, from, url.len());
    assert(rest@ =~= url@.skip(from as int));
    let slash = match find_char(rest, '/') {
        Some(i) => i,
        None => rest.len(),
    };
    let path = if slash < rest.len() {
        let p = string_of(rest, slash, rest.len());
        assert(rest@.subrange(slash as int, rest@.len() as int) =~= rest@.skip(slash as int));
        p
    } else {
        proof {
            reveal_strlit("/");
            assert("/"@ =~= seq!['/']);
        }
        String::from_str("/")
    };
    let host_port = vstd::slice::slice_subrange(rest, 0, slash);
    assert(host_port@ =~= rest@.take(slash as int));
    match find_char(host_port, ':') {
        Some(colon) => {
            let digits = vstd::slice::slice_subrange(host_port, colon + 1, host_port.len());
            assert(digits@ =~= host_port@.skip(colon + 1));
            match parse_unsigned(digits, 65535) {
                Some(port) => {
                    let host = string_of(host_port, 0, colon);
                    assert(host_port@.subrange(0, colon as int) =~= host_port@.take(colon as int));
                    Ok(
                        ParsedUrl {
                            scheme: String::from_str(scheme),
                            host,
                            port: Some(port as u16),
                            path,
                        },
                    )
                },
                None => Err(RuGetError::parse(String::from_str("Invalid port number"))),
            }
        },
        None => {
            let host = string_of(host_port, 0, slash);
            assert(host_port@.subrange(0, slash as int) =~= host_port@);
            Ok(ParsedUrl { scheme: String::from_str(scheme), host, port: None, path })
        },
    }
}

/// Parses what follows the scheme of a URL.
pub fn parse_http_url(url: &str, scheme: &str) -> (r: Result<ParsedUrl, RuGetError>)
    ensures
        parse_result_is(r, spec_parse_http_url(url@, scheme@)),
{
    let cs = chars_of(url);
    assert(cs@.skip(0) =~= cs@);
    parse_after_scheme(cs.as_slice(), 0, scheme)
}

/// Parses a URL: just enough for plain `http` and `https` URLs.
pub fn parse_url(url: &str) -> (r: Result<ParsedUrl, RuGetError>)
    ensures
        parse_result_is(r, spec_parse_url(url@)),
{
    let cs = chars_of(url);
    let http = chars_of("http://");
    let https = chars_of("https://");
    proof {
        reveal_strlit("http://");
        reveal_strlit("https://");
    }
    if chars_start_with(cs.as_slice(), http.as_slice()) {
        parse_after_scheme(cs.as_slice(), 7, "http")
    } else if chars_start_with(cs.as_slice(), https.as_slice()) {
        parse_after_scheme(cs.as_slice(), 8, "https")
    } else {
        Err(RuGetError::parse(String::from_str("Unsupported URL scheme")))
    }
}

/// The request for a resource, with the connection closed after the
/// response.
pub open spec fn spec_request_text(path: Seq<char>, host: Seq<char>) -> Seq<char> {
    "GET "@ + path + " HTTP/1.1\r\nHost: "@ + host
        + "\r\nConnection: close\r\nUser-Agent: RuGet/1.0\r\n\r\n"@
}

/// The text of the request for a parsed URL.
pub fn request_text(url: &ParsedUrl) -> (r: String)
    ensures
        r@ == spec_request_text(url.path@, url.host@),
{
    let mut s = String::from_str("GET ");
    s.append(url.path.as_str());
    s.append(" HTTP/1.1\r\nHost: ");
    s.append(url.host.as_str());
    s.append("\r\nConnection: close\r\nUser-Agent: RuGet/1.0\r\n\r\n");
    s
}

/// What a raw response holds.
pub enum ResponseParse {
    /// The body of a response with status 200.
    Body(Seq<u8>),
    /// No empty line parts a head from a body.
    Invalid,
    /// The status is not 200.
    Failed,
}

/// Reads a raw HTTP response. The bytes are taken as text, invalid
/// sequences replaced. The head ends at the first empty line; it must begin
/// with `HTTP/1.1 200` or `HTTP/1.0 200`. The body is what follows the empty
/// line, as bytes again.
pub open spec fn spec_parse_response(response: Seq<u8>) -> ResponseParse {
    let text = utf8_lossy(response);
    match spec_find(text, "\r\n\r\n"@) {
        Some(end) => {
            let head = text.take(end);
            if "HTTP/1.1 200"@.is_prefix_of(head) || "HTTP/1.0 200"@.is_prefix_of(head) {
                ResponseParse::Body(encode_utf8(text.skip(end + 4)))
            } else {
                ResponseParse::Failed
            }
        },
        None => ResponseParse::Invalid,
    }
}

/// The result of reading a response is what the plain reading says: the
/// body, or the network error of the failure.
pub open spec fn response_result_is(r: Result<Vec<u8>, RuGetError>, expected: ResponseParse)
    -> bool {
    match expected {
        ResponseParse::Body(body) => r is Ok && r->Ok_0@ == body,
        ResponseParse::Invalid => r is Err && r->Err_0.is_plain(
            ErrorCode::E400,
            ErrorKind::Network,
            "Network error: "@ + "Invalid HTTP response"@,
        ),
        ResponseParse::Failed => r is Err && r->Err_0.is_plain(
            ErrorCode::E400,
            ErrorKind::Network,
            "Network error: "@ + "HTTP request failed"@,
        ),
    }
}

/// Reads the body out of a raw HTTP response with status 200.
pub fn parse_response(response: &[u8]) -> (r: Result<Vec<u8>, RuGetError>)
    ensures
        response_result_is(r, spec_parse_response(response@)),
{
    let text = string_from_utf8_lossy(response);
    let cs = chars_of(text.as_str());
    let sep = chars_of("\r\n\r\n");
    proof {
        reveal_strlit("\r\n\r\n");
    }
    match find_chars(cs.as_slice(), sep.as_slice()) {
        Some(end) => {
            let total = cs.len();
            proof {
                crate::text::lemma_spec_find_is(cs@, sep@, end as int);
                assert(crate::text::occurs_at(cs@, sep@, end as int));
                assert(sep@.len() == 4);
                assert(end + 4 <= total);
            }
            let head = vstd::slice::slice_subrange(cs.as_slice(), 0, end);
            assert(head@ =~= cs@.take(end as int));
            let ok11 = chars_of("HTTP/1.1 200");
            let ok10 = chars_of("HTTP/1.0 200");
            if chars_start_with(head, ok11.as_slice()) || chars_start_with(head, ok10.as_slice()) {
                let body = string_of(cs.as_slice(), end + 4, cs.len());
                assert(cs@.subrange(end + 4, cs@.len() as int) =~= cs@.skip(end + 4));
                Ok(body.as_str().as_bytes_vec())
            } else {
                Err(RuGetError::network(String::from_str("HTTP request failed")))
            }
        },
        None => Err(RuGetError::network(String::from_str("Invalid HTTP response"))),
    }
}

} // verus!
