//! URL parsing for the pooled HTTP client.

use crate::error::{ErrorCode, ErrorKind, RuGetError};
use crate::text::{
    chars_of, chars_start_with, contains_seq, decimal, find_char, find_chars, first_index,
    last_index, lowercase, parse_hex, parse_unsigned, push_decimal, rfind_char, spec_parse_hex,
    spec_parse_unsigned, string_of, to_lowercase, trim_range, trimmed,
};
use vstd::prelude::*;

verus! {

/// The parts of an `http` or `https` URL.
#[derive(Debug, Clone)]
pub struct ParsedUrl {
    pub scheme: String,
    pub host: String,
    pub port: Option<u16>,
    pub path: String,
}

/// What parsing a URL gives, as plain text.
pub enum UrlParse {
    Parsed { scheme: Seq<char>, host: Seq<char>, port: Option<u16>, path: Seq<char> },
    UnsupportedScheme,
    InvalidPort,
}

impl ParsedUrl {
    /// The parts as plain text.
    pub open spec fn spec_parts(self) -> UrlParse {
        UrlParse::Parsed {
            scheme: self.scheme@,
            host: self.host@,
            port: self.port,
            path: self.path@,
        }
    }

    /// The host, and after a colon the port where there is one.
    pub open spec fn spec_host_with_port(self) -> Seq<char> {
        match self.port {
            Some(port) => self.host@ + ":"@ + decimal(port as nat),
            None => self.host@,
        }
    }

    /// The host, and after a colon the port where there is one.
    pub fn host_with_port(&self) -> (r: String)
        ensures
            r@ == self.spec_host_with_port(),
    {
        let mut s = String::from_str(self.host.as_str());
        match self.port {
            Some(port) => {
                s.append(":");
                push_decimal(&mut s, port as u64);
            },
            None => {},
        }
        s
    }
}

/// Parses a URL. After the scheme, `https://` or `http://`, host and
/// port end at the first `/`; the path is that `/` and all after it, or `/`
/// alone. In host and port the last `:` parts the two; the port is a number
/// of at most 65535.
pub open spec fn spec_parse_url_fast(url: Seq<char>) -> UrlParse {
    if "https://"@.is_prefix_of(url) {
        spec_parse_rest(url.skip(8), "https"@)
    } else if "http://"@.is_prefix_of(url) {
        spec_parse_rest(url.skip(7), "http"@)
    } else {
        UrlParse::UnsupportedScheme
    }
}

/// Parses what follows the scheme.
pub open spec fn spec_parse_rest(rest: Seq<char>, scheme: Seq<char>) -> UrlParse {
    let slash = first_index(rest, '/');
    let host_port = rest.take(slash);
    let path = if slash < rest.len() {
        rest.skip(slash)
    } else {
        seq!['/']
    };
    let colon = last_index(host_port, ':');
    if colon >= 0 {
        match spec_parse_unsigned(host_port.skip(colon + 1), 65535) {
            Some(port) => UrlParse::Parsed {
                scheme,
                host: host_port.take(colon),
                port: Some(port as u16),
                path,
            },
            None => UrlParse::InvalidPort,
        }
    } else {
        UrlParse::Parsed { scheme, host: host_port, port: None, path }
    }
}

/// The result of a parse is what the plain-text parse says: the parts, or
/// the parse error of the failure.
pub open spec fn parse_result_is(r: Result<ParsedUrl, RuGetError>, expected: UrlParse) -> bool {
    match expected {
        UrlParse::Parsed { .. } => r is Ok && r->Ok_0.spec_parts() == expected,
        UrlParse::UnsupportedScheme => r is Err && r->Err_0.is_plain(
            ErrorCode::E501,
            ErrorKind::Parse,
            "Parse error: "@ + "Unsupported URL scheme"@,
        ),
        UrlParse::InvalidPort => r is Err && r->Err_0.is_plain(
            ErrorCode::E501,
            ErrorKind::Parse,
            "Parse error: "@ + "Invalid port"@,
        ),
    }
}

fn parse_rest(url: &[char], from: usize, scheme: &str) -> (r: Result<ParsedUrl, RuGetError>)
    requires
        from <= url.len(),
    ensures
        parse_result_is(r, spec_parse_rest(url@.skip(from as int), scheme@)),
{
    let rest = vstd::slice::slice_subrange(url, from, url.len());
    assert(rest@ =~= url@.skip(from as int));
    let slash = match find_char(rest, '/') {
        Some(i) => i,
        None => rest.len(),
    };
    let path = if slash < rest.len() {
        let p = string_of(rest, slash, rest.len());
        assert(rest@.subrange(slash as int, rest@.len() as int) =~= rest@.skip(slash as int));
        p
    } else {
        proof {
            reveal_strlit("/");
            assert("/"@ =~= seq!['/']);
        }
        String::from_str("/")
    };
    let host_port = vstd::slice::slice_subrange(rest, 0, slash);
    assert(host_port@ =~= rest@.take(slash as int));
    match rfind_char(host_port, ':') {
        Some(colon) => {
            let digits = vstd::slice::slice_subrange(host_port, colon + 1, host_port.len());
            assert(digits@ =~= host_port@.skip(colon + 1));
            match parse_unsigned(digits, 65535) {
                Some(port) => {
                    let host = string_of(host_port, 0, colon);
                    assert(host_port@.subrange(0, colon as int) =~= host_port@.take(colon as int));
                    Ok(
                        ParsedUrl {
                            scheme: String::from_str(scheme),
                            host,
                            port: Some(port as u16),
                            path,
                        },
                    )
                },
                None => Err(RuGetError::parse(String::from_str("Invalid port"))),
            }
        },
        None => {
            let host = string_of(host_port, 0, slash);
            assert(host_port@.subrange(0, slash as int) =~= host_port@);
            Ok(ParsedUrl { scheme: String::from_str(scheme), host, port: None, path })
        },
    }
}

/// Parses an `http` or `https` URL into scheme, host, port and path.
pub fn parse_url_fast(url: &str) -> (r: Result<ParsedUrl, RuGetError>)
    ensures
        parse_result_is(r, spec_parse_url_fast(url@)),
{
    let cs = chars_of(url);
    let http = chars_of("http://");
    let https = chars_of("https://");
    proof {
        reveal_strlit("http://");
        reveal_strlit("https://");
    }
    if chars_start_with(cs.as_slice(), https.as_slice()) {
        parse_rest(cs.as_slice(), 8, "https")
    } else if chars_start_with(cs.as_slice(), http.as_slice()) {
        parse_rest(cs.as_slice(), 7, "http")
    } else {
        Err(RuGetError::parse(String::from_str("Unsupported URL scheme")))
    }
}

/// A status line is taken for success if `200` or `206` occurs in it.
pub open spec fn spec_status_line_ok(line: Seq<char>) -> bool {
    contains_seq(line, "200"@) || contains_seq(line, "206"@)
}

/// Whether the status line of a response reports success.
pub fn status_line_ok(line: &str) -> (r: bool)
    ensures
        r == spec_status_line_ok(line@),
{
    let cs = chars_of(line);
    let ok = chars_of("200");
    let partial = chars_of("206");
    find_chars(cs.as_slice(), ok.as_slice()).is_some() || find_chars(
        cs.as_slice(),
        partial.as_slice(),
    ).is_some()
}

/// What the header lines of a response have said of its body so far.
#[derive(Debug, Clone, Copy, PartialEq, Eq, Structural)]
pub struct ResponseHead {
    pub content_length: Option<usize>,
    pub chunked: bool,
}

/// How the body of a response is read.
#[derive(Debug, Clone, Copy, PartialEq, Eq, Structural)]
pub enum BodyMode {
    /// In chunks, each after a line with its size.
    Chunked,
    /// This many bytes.
    Fixed(usize),
    /// Until the connection closes.
    UntilClose,
}

/// A line ends the head if it is empty once trimmed.
pub open spec fn spec_ends_head(line: Seq<char>) -> bool {
    trimmed(line).len() == 0
}

/// What stands between the first and the second colon of a line, or after
/// the first where there is no second. None for a line without a colon.
pub open spec fn spec_second_piece(line: Seq<char>) -> Option<Seq<char>> {
    if line.contains(':') {
        let rest = line.skip(first_index(line, ':') + 1);
        Some(rest.take(first_index(rest, ':')))
    } else {
        None
    }
}

/// What is known of the body after one more header line. A line that in
/// lowercase begins with `content-length:` sets the length to the number in
/// its second piece, trimmed, or to none if that is no number. Any other
/// line that in lowercase holds `transfer-encoding: chunked` marks the body
/// as chunked.
pub open spec fn spec_scan_header_line(head: ResponseHead, line: Seq<char>) -> ResponseHead {
    let lower = lowercase(line);
    if "content-length:"@.is_prefix_of(lower) {
        match spec_second_piece(line) {
            Some(piece) => ResponseHead {
                content_length: match spec_parse_unsigned(trimmed(piece), usize::MAX as nat) {
                    Some(n) => Some(n as usize),
                    None => None,
                },
                chunked: head.chunked,
            },
            None => head,
        }
    } else if contains_seq(lower, "transfer-encoding: chunked"@) {
        ResponseHead { content_length: head.content_length, chunked: true }
    } else {
        head
    }
}

impl ResponseHead {
    /// Nothing is known yet.
    pub fn new() -> (r: Self)
        ensures
            r == (ResponseHead { content_length: None, chunked: false }),
    {
        ResponseHead { content_length: None, chunked: false }
    }

    /// How the body is read: chunked if a header said so; else by the
    /// length if one was given; else until the connection closes.
    pub open spec fn spec_body_mode(self) -> BodyMode {
        if self.chunked {
            BodyMode::Chunked
        } else if self.content_length is Some {
            BodyMode::Fixed(self.content_length->0)
        } else {
            BodyMode::UntilClose
        }
    }

    pub fn body_mode(&self) -> (r: BodyMode)
        ensures
            r == self.spec_body_mode(),
    {
        if self.chunked {
            BodyMode::Chunked
        } else {
            match self.content_length {
                Some(n) => BodyMode::Fixed(n),
                None => BodyMode::UntilClose,
            }
        }
    }

    /// Takes one header line into account.
    pub fn scan_line(&mut self, line: &str)
        ensures
            *final(self) == spec_scan_header_line(*old(self), line@),
    {
        let lower = to_lowercase(line);
        let lower_chars = chars_of(lower.as_str());
        let name = chars_of("content-length:");
        if chars_start_with(lower_chars.as_slice(), name.as_slice()) {
            let cs = chars_of(line);
            match find_char(cs.as_slice(), ':') {
                Some(colon) => {
                    let rest = vstd::slice::slice_subrange(cs.as_slice(), colon + 1, cs.len());
                    assert(rest@ =~= line@.skip(colon + 1));
                    let end = match find_char(rest, ':') {
                        Some(i) => i,
                        None => rest.len(),
                    };
                    let piece = vstd::slice::slice_subrange(rest, 0, end);
                    assert(piece@ =~= rest@.take(end as int));
                    let (a, b) = trim_range(piece);
                    let t = vstd::slice::slice_subrange(piece, a, b);
                    self.content_length = match parse_unsigned(t, usize::MAX as u64) {
                        Some(n) => Some(n as usize),
                        None => None,
                    };
                },
                None => {},
            }
        } else {
            let marker = chars_of("transfer-encoding: chunked");
            if find_chars(lower_chars.as_slice(), marker.as_slice()).is_some() {
                self.chunked = true;
            }
        }
    }
}

/// Whether a line ends the head of a response.
pub fn ends_head(line: &str) -> (r: bool)
    ensures
        r == spec_ends_head(line@),
{
    let cs = chars_of(line);
    let (a, b) = trim_range(cs.as_slice());
    a == b
}

/// The size that the size line of a chunk gives: the line, trimmed, as a
/// hexadecimal number. A line that is no such number is a network error.
pub fn parse_chunk_size(line: &str) -> (r: Result<usize, RuGetError>)
    ensures
        r is Ok <==> spec_parse_hex(trimmed(line@), usize::MAX as nat) is Some,
        r matches Ok(n) ==> spec_parse_hex(trimmed(line@), usize::MAX as nat) == Some(n as nat),
        r matches Err(e) ==> e.is_plain(
            ErrorCode::E400,
            ErrorKind::Network,
            "Network error: "@ + "Invalid chunk size"@,
        ),
{
    let cs = chars_of(line);
    let (a, b) = trim_range(cs.as_slice());
    let t = vstd::slice::slice_subrange(cs.as_slice(), a, b);
    match parse_hex(t, usize::MAX as u64) {
        Some(n) => Ok(n as usize),
        None => Err(RuGetError::network(String::from_str("Invalid chunk size"))),
    }
}

} // verus!
