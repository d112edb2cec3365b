//! File names for downloads: the name that a response suggests and the
//! name that the URL gives when it suggests none.

use crate::error::{ErrorCode, ErrorKind, RuGetError};
use crate::fetch::ByteRange;
use crate::headers::{
    ascii_text, canonical_header_name, has_header_room, has_room, header_present,
    header_value_bytes, header_value_text, header_values, is_plain_header_name,
    is_visible_ascii, lemma_plain_header_name, new_header_map, no_headers, set_header,
    valid_header_value, SetOutcome, HEADER_ROOM,
};
use crate::text::{
    chars_eq, chars_of, concat2, concat3, decimal, find_char, first_index, last_index,
    rfind_char, string_of, trim_range, trimmed,
};
use base64::Engine;
use vstd::prelude::*;
use vstd::string::StringSliceAdditionalSpecFns;
use vstd::utf8::encode_utf8;

verus! {

/// The name given to a download whose URL offers none.
pub open spec fn default_filename() -> Seq<char> {
    "download.bin"@
}

/// Endings that are taken for the end of a host name, not for a file
/// extension.
pub open spec fn common_domains() -> Seq<Seq<char>> {
    seq![
        "com"@, "org"@, "net"@, "edu"@, "gov"@, "mil"@, "int"@, "co"@,
        "uk"@, "ca"@, "au"@, "de"@, "fr"@, "jp"@, "cn"@, "ru"@,
        "br"@, "in"@, "it"@, "es"@, "nl"@, "se"@, "no"@, "fi"@,
        "dk"@, "pl"@, "be"@, "ch"@, "at"@, "cz"@, "hu"@, "ie"@,
        "pt"@, "gr"@, "bg"@, "ro"@, "hr"@, "si"@, "sk"@, "lt"@,
        "lv"@, "ee"@, "is"@, "mt"@, "cy"@, "lu"@, "mc"@, "li"@,
        "ad"@, "sm"@, "va"@, "tv"@, "cc"@, "tk"@, "ml"@, "ga"@,
        "cf"@, "biz"@, "info"@, "name"@, "pro"@, "aero"@, "coop"@, "museum"@,
    ]
}

fn common_domain_list() -> (v: Vec<&'static str>)
    ensures
        v@.len() == common_domains().len(),
        forall|i: int| 0 <= i < v@.len() ==> (#[trigger] v@[i])@ == common_domains()[i],
{
    vec![
        "com", "org", "net", "edu", "gov", "mil", "int", "co",
        "uk", "ca", "au", "de", "fr", "jp", "cn", "ru",
        "br", "in", "it", "es", "nl", "se", "no", "fi",
        "dk", "pl", "be", "ch", "at", "cz", "hu", "ie",
        "pt", "gr", "bg", "ro", "hr", "si", "sk", "lt",
        "lv", "ee", "is", "mt", "cy", "lu", "mc", "li",
        "ad", "sm", "va", "tv", "cc", "tk", "ml", "ga",
        "cf", "biz", "info", "name", "pro", "aero", "coop", "museum",
    ]
}

/// Whether `char::is_alphanumeric` holds of a character that is not
/// ASCII: whether it has the Unicode property `Alphabetic` or is in one of
/// the number categories.
pub uninterp spec fn unicode_alphanumeric(c: char) -> bool;

/// Whether a character is alphanumeric, as `char::is_alphanumeric` has
/// it: an ASCII character if it is a letter or a digit; any other by the
/// Unicode rules.
pub open spec fn is_alphanumeric(c: char) -> bool {
    if (c as u32) < 128 {
        ('a' <= c <= 'z') || ('A' <= c <= 'Z') || ('0' <= c <= '9')
    } else {
        unicode_alphanumeric(c)
    }
}

/// Calls `char::is_alphanumeric`.
#[verifier::external_body]
fn char_is_alphanumeric(c: char) -> (r: bool)
    ensures
        r == is_alphanumeric(c),
        (c as u32) >= 128 ==> r == unicode_alphanumeric(c),
{
    c.is_alphanumeric()
}

/// Number of bytes that a character takes in UTF-8.
pub open spec fn char_utf8_len(c: char) -> nat {
    if (c as u32) < 0x80 {
        1
    } else if (c as u32) < 0x800 {
        2
    } else if (c as u32) < 0x10000 {
        3
    } else {
        4
    }
}

/// Number of bytes that a text takes in UTF-8.
pub open spec fn utf8_len(s: Seq<char>) -> nat
    decreases s.len(),
{
    if s.len() == 0 {
        0
    } else {
        utf8_len(s.drop_last()) + char_utf8_len(s.last())
    }
}

/// What follows the last `/` of the URL, or the whole URL where it has
/// none; the default name where that is empty.
pub open spec fn spec_last_segment(url: Seq<char>) -> Seq<char> {
    let segment = url.skip(last_index(url, '/') + 1);
    if segment.len() == 0 {
        default_filename()
    } else {
        segment
    }
}

/// What follows the last `.` of a segment that has one.
pub open spec fn spec_extension(segment: Seq<char>) -> Seq<char> {
    segment.skip(last_index(segment, '.') + 1)
}

/// A segment reads as a file name if it has a dot and what follows the
/// last dot takes 1 to 5 bytes, is alphanumeric throughout and is none of
/// the common domain endings.
pub open spec fn spec_is_filename(segment: Seq<char>) -> bool {
    let ext = spec_extension(segment);
    &&& segment.contains('.')
    &&& 1 <= utf8_len(ext) <= 5
    &&& forall|i: int| 0 <= i < ext.len() ==> is_alphanumeric(#[trigger] ext[i])
    &&& !common_domains().contains(ext)
}

/// The file name that a URL gives: its last segment where that reads as a
/// file name, the default name otherwise.
pub open spec fn spec_fallback_filename(url: Seq<char>) -> Seq<char> {
    if spec_is_filename(spec_last_segment(url)) {
        spec_last_segment(url)
    } else {
        default_filename()
    }
}

fn is_common_domain(ext: &[char]) -> (r: bool)
    ensures
        r == common_domains().contains(ext@),
{
    let list = common_domain_list();
    let mut i: usize = 0;
    while i < list.len()
        invariant
            i <= list.len(),
            list@.len() == common_domains().len(),
            forall|j: int| 0 <= j < list@.len() ==> (#[trigger] list@[j])@ == common_domains()[j],
            forall|j: int| 0 <= j < i ==> common_domains()[j] != ext@,
        decreases list.len() - i,
    {
        let entry = chars_of(list[i]);
        if chars_eq(entry.as_slice(), ext) {
            assert(common_domains()[i as int] == ext@);
            return true;
        }
        i += 1;
    }
    false
}

/// Whether `s` takes between 1 and 5 bytes in UTF-8.
fn takes_one_to_five_bytes(s: &[char]) -> (r: bool)
    ensures
        r == (1 <= utf8_len(s@) <= 5),
{
    if s.len() == 0 {
        return false;
    }
    if s.len() > 5 {
        proof {
            lemma_utf8_len_at_least(s@);
        }
        return false;
    }
    let mut total: usize = 0;
    let mut i: usize = 0;
    proof {
        assert(s@.take(0) =~= Seq::<char>::empty());
    }
    while i < s.len()
        invariant
            i <= s.len() <= 5,
            total == utf8_len(s@.take(i as int)),
            i <= total <= 4 * i,
        decreases s.len() - i,
    {
        let c = s[i];
        proof {
            assert(s@.take(i + 1).drop_last() =~= s@.take(i as int));
            assert(s@.take(i + 1).last() == c);
        }
        let n: usize = if (c as u32) < 0x80 {
            1
        } else if (c as u32) < 0x800 {
            2
        } else if (c as u32) < 0x10000 {
            3
        } else {
            4
        };
        total = total + n;
        i += 1;
    }
    proof {
        assert(s@.take(i as int) =~= s@);
    }
    total <= 5
}

/// A text takes at least one byte per character.
pub proof fn lemma_utf8_len_at_least(s: Seq<char>)
    ensures
        utf8_len(s) >= s.len(),
    decreases s.len(),
{
    if s.len() > 0 {
        lemma_utf8_len_at_least(s.drop_last());
    }
}

fn all_alphanumeric(s: &[char]) -> (r: bool)
    ensures
        r == (forall|i: int| 0 <= i < s@.len() ==> is_alphanumeric(#[trigger] s@[i])),
{
    let mut i: usize = 0;
    while i < s.len()
        invariant
            i <= s.len(),
            forall|j: int| 0 <= j < i ==> is_alphanumeric(#[trigger] s@[j]),
        decreases s.len() - i,
    {
        if !char_is_alphanumeric(s[i]) {
            return false;
        }
        i += 1;
    }
    true
}

fn is_filename(segment: &[char]) -> (r: bool)
    ensures
        r == spec_is_filename(segment@),
{
    match rfind_char(segment, '.') {
        Some(dot) => {
            let ext = vstd::slice::slice_subrange(segment, dot + 1, segment.len());
            assert(ext@ =~= spec_extension(segment@));
            takes_one_to_five_bytes(ext) && all_alphanumeric(ext) && !is_common_domain(ext)
        },
        None => false,
    }
}

/// Get fallback filename from URL.
pub fn get_fallback_filename(url: &str) -> (r: String)
    ensures
        r@ == spec_fallback_filename(url@),
{
    let cs = chars_of(url);
    let start: usize = match rfind_char(cs.as_slice(), '/') {
        Some(i) => i + 1,
        None => 0,
    };
    let tail = vstd::slice::slice_subrange(cs.as_slice(), start, cs.len());
    assert(tail@ =~= url@.skip(last_index(url@, '/') + 1));
    if tail.len() == 0 {
        return String::from_str("download.bin");
    }
    if is_filename(tail) {
        let r = string_of(tail, 0, tail.len());
        assert(tail@.subrange(0, tail@.len() as int) =~= tail@);
        r
    } else {
        String::from_str("download.bin")
    }
}

/// The name under which a download is stored: the one that the response
/// suggests, or the one that the URL gives.
pub fn final_filename(suggested: Option<String>, url: &str) -> (r: String)
    ensures
        r@ == (match suggested {
            Some(name) => name@,
            None => spec_fallback_filename(url@),
        }),
{
    match suggested {
        Some(name) => name,
        None => get_fallback_filename(url),
    }
}

/// The two sides of a header argument: what stands before its first
/// colon and what stands after it, both trimmed. None for an argument
/// without a colon.
pub open spec fn spec_header_parts(arg: Seq<char>) -> Option<(Seq<char>, Seq<char>)> {
    if arg.contains(':') {
        let colon = first_index(arg, ':');
        Some((trimmed(arg.take(colon)), trimmed(arg.skip(colon + 1))))
    } else {
        None
    }
}

/// The contents of the map after one header argument. An argument with a
/// valid name and a valid value sets the header; any other is passed over.
pub open spec fn spec_add_header_arg(before: Map<Seq<char>, Seq<u8>>, arg: Seq<char>) -> Map<
    Seq<char>,
    Seq<u8>,
> {
    match spec_header_parts(arg) {
        Some((name, value)) => if canonical_header_name(name) is Some && valid_header_value(
            value,
        ) {
            before.insert(canonical_header_name(name)->0, encode_utf8(value))
        } else {
            before
        },
        None => before,
    }
}

/// The contents of the map that header arguments build, taken in order: a
/// later argument replaces an earlier one of the same name.
pub open spec fn spec_build_headers(args: Seq<Seq<char>>) -> Map<Seq<char>, Seq<u8>>
    decreases args.len(),
{
    if args.len() == 0 {
        no_headers()
    } else {
        spec_add_header_arg(spec_build_headers(args.drop_last()), args.last())
    }
}

/// The warning for a header argument, if it earns one: for a name that is
/// no header name, and for a value that is no header value under a name that
/// is one.
pub open spec fn spec_header_warning(arg: Seq<char>) -> Option<Seq<char>> {
    match spec_header_parts(arg) {
        Some((name, value)) => if canonical_header_name(name) is None {
            Some("Invalid header name: "@ + name)
        } else if !valid_header_value(value) {
            Some("Invalid header value: "@ + value)
        } else {
            None
        },
        None => None,
    }
}

/// The warnings for header arguments, in order.
pub open spec fn spec_header_warnings(args: Seq<Seq<char>>) -> Seq<Seq<char>>
    decreases args.len(),
{
    if args.len() == 0 {
        Seq::empty()
    } else {
        match spec_header_warning(args.last()) {
            Some(w) => spec_header_warnings(args.drop_last()).push(w),
            None => spec_header_warnings(args.drop_last()),
        }
    }
}

/// The texts of strings.
pub open spec fn texts(strings: Seq<String>) -> Seq<Seq<char>> {
    strings.map_values(|s: String| s@)
}

/// The headers of a request and the warnings that building them gave.
#[derive(Debug)]
pub struct BuiltHeaders {
    pub headers: reqwest::header::HeaderMap,
    pub warnings: Vec<String>,
    /// The index of the argument at which the map had no room left, if
    /// there was one. That argument and those after it were not taken.
    pub refused_at: Option<usize>,
}

/// How many of `count` arguments were taken: all of them, or those before
/// the one that was refused.
pub open spec fn taken_count(refused_at: Option<usize>, count: int) -> int {
    match refused_at {
        Some(i) => i as int,
        None => count,
    }
}

/// Build HTTP headers from command line arguments, each of the form
/// `name: value`. Arguments without a colon are passed over in silence;
/// those with an invalid name or value are passed over with a warning.
///
/// The arguments are taken in order until the map refuses one for want of
/// room, which it does not while it holds fewer than [`HEADER_ROOM`] names;
/// so up to that many arguments are all taken.
pub fn build_headers(header_args: &[String]) -> (r: BuiltHeaders)
    ensures
        0 <= taken_count(r.refused_at, header_args.len() as int) <= header_args.len(),
        header_values(r.headers) == spec_build_headers(
            texts(header_args@).take(taken_count(r.refused_at, header_args.len() as int)),
        ),
        texts(r.warnings@) == spec_header_warnings(
            texts(header_args@).take(taken_count(r.refused_at, header_args.len() as int)),
        ),
        r.refused_at matches Some(i) ==> i < header_args.len() && !has_room(
            spec_build_headers(texts(header_args@).take(i as int)),
        ) && spec_header_parts(header_args@[i as int]@) is Some && spec_header_warning(
            header_args@[i as int]@,
        ) is None,
        header_args.len() <= HEADER_ROOM ==> r.refused_at is None,
        header_values(r.headers).dom().finite(),
        header_values(r.headers).dom().len() <= taken_count(
            r.refused_at,
            header_args.len() as int,
        ),
{
    let mut headers = new_header_map();
    let mut warnings: Vec<String> = Vec::new();
    let ghost args = texts(header_args@);
    let mut i: usize = 0;
    proof {
        assert(args.take(0) =~= Seq::<Seq<char>>::empty());
        assert(texts(warnings@) =~= Seq::<Seq<char>>::empty());
    }
    while i < header_args.len()
        invariant
            i <= header_args.len(),
            args == texts(header_args@),
            header_values(headers) == spec_build_headers(args.take(i as int)),
            texts(warnings@) == spec_header_warnings(args.take(i as int)),
            header_values(headers).dom().finite(),
            header_values(headers).dom().len() <= i,
        decreases header_args.len() - i,
    {
        let arg = header_args[i].as_str();
        let ghost before = header_values(headers);
        let ghost warned = texts(warnings@);
        proof {
            assert(args.take(i + 1).drop_last() =~= args.take(i as int));
            assert(args.take(i + 1).last() == arg@);
            assert(args[i as int] == header_args@[i as int]@);
        }
        let cs = chars_of(arg);
        match find_char(cs.as_slice(), ':') {
            Some(colon) => {
                let left = vstd::slice::slice_subrange(cs.as_slice(), 0, colon);
                let right = vstd::slice::slice_subrange(cs.as_slice(), colon + 1, cs.len());
                assert(left@ =~= arg@.take(colon as int));
                assert(right@ =~= arg@.skip(colon + 1));
                let (a, b) = trim_range(left);
                let (c, d) = trim_range(right);
                let name = string_of(left, a, b);
                let value = string_of(right, c, d);
                assert(spec_header_parts(arg@) == Some((name@, value@)));
                match set_header(&mut headers, name.as_str(), value.as_str()) {
                    SetOutcome::Stored => {},
                    SetOutcome::InvalidName => {
                        warnings.push(concat2("Invalid header name: ", name.as_str()));
                    },
                    SetOutcome::InvalidValue => {
                        warnings.push(concat2("Invalid header value: ", value.as_str()));
                    },
                    SetOutcome::Full => {
                        assert(!has_room(before));
                        assert(i >= HEADER_ROOM);
                        return BuiltHeaders { headers, warnings, refused_at: Some(i) };
                    },
                }
                proof {
                    match spec_header_warning(arg@) {
                        Some(w) => {
                            assert(texts(warnings@) =~= warned.push(w));
                        },
                        None => {
                            assert(texts(warnings@) =~= warned);
                        },
                    }
                }
            },
            None => {
                assert(spec_header_parts(arg@) is None);
                assert(texts(warnings@) =~= warned);
            },
        }
        i += 1;
    }
    BuiltHeaders { headers, warnings, refused_at: None }
}

/// The value of a `Range` header is a valid header value.
pub proof fn lemma_range_value_valid(range: ByteRange)
    requires
        range.spec_header_value() is Some,
    ensures
        valid_header_value(range.spec_header_value()->0),
{
    reveal_strlit("bytes=");
    reveal_strlit("-");
    let v = range.spec_header_value()->0;
    match range {
        ByteRange::Whole => {},
        ByteRange::From(start) => {
            crate::text::lemma_decimal_digits(start as nat);
            let d = decimal(start as nat);
            assert forall|i: int| 0 <= i < v.len() implies (#[trigger] v[i]) == '\t' || (v[i] as u32
                >= 32 && v[i] as u32 != 127) by {
                if 6 <= i < 6 + d.len() {
                    assert(v[i] == d[i - 6]);
                    assert(crate::text::is_digit(d[i - 6]));
                }
            }
        },
        ByteRange::Between(start, end) => {
            crate::text::lemma_decimal_digits(start as nat);
            crate::text::lemma_decimal_digits(end as nat);
            let d = decimal(start as nat);
            let e = decimal(end as nat);
            assert forall|i: int| 0 <= i < v.len() implies (#[trigger] v[i]) == '\t' || (v[i] as u32
                >= 32 && v[i] as u32 != 127) by {
                if 6 <= i < 6 + d.len() {
                    assert(v[i] == d[i - 6]);
                    assert(crate::text::is_digit(d[i - 6]));
                } else if i >= 7 + d.len() {
                    assert(v[i] == e[i - 7 - d.len()]);
                    assert(crate::text::is_digit(e[i - 7 - d.len()]));
                }
            }
        },
    }
}

/// `range` and `authorization` are header names in canonical form.
pub proof fn lemma_plain_header_names()
    ensures
        is_plain_header_name("range"@),
        is_plain_header_name("authorization"@),
{
    reveal_strlit("range");
    reveal_strlit("authorization");
}

/// Sets the `Range` header for the bytes that a request asks for; a
/// request for the whole resource gets none. Returns whether the request is
/// in order: whether no header was due or the map took it, which it does if
/// it has room.
pub fn set_range_header(headers: &mut reqwest::header::HeaderMap, range: ByteRange) -> (r: bool)
    ensures
        range.spec_header_value() is None ==> r && header_values(*final(headers))
            == header_values(*old(headers)),
        range.spec_header_value() is Some && r ==> header_values(*final(headers))
            == header_values(*old(headers)).insert(
            "range"@,
            encode_utf8(range.spec_header_value()->0),
        ),
        !r ==> header_values(*final(headers)) == header_values(*old(headers)),
        has_room(header_values(*old(headers))) ==> r,
{
    match range.header_value() {
        Some(value) => {
            proof {
                lemma_range_value_valid(range);
                lemma_plain_header_names();
            }
            match set_header(headers, "range", value.as_str()) {
                SetOutcome::Stored => true,
                _ => false,
            }
        },
        None => true,
    }
}

/// The host of a URL as `Url::parse` and `Url::host_str` give it: nothing
/// for a text that is no URL; for a URL its host, if it has one.
pub uninterp spec fn url_host_of(url: Seq<char>) -> Option<Option<Seq<char>>>;

/// The text of an optional string.
pub open spec fn text_of(s: Option<String>) -> Option<Seq<char>> {
    match s {
        Some(t) => Some(t@),
        None => None,
    }
}

/// Calls `reqwest::Url::parse` and, on the URL, `host_str`.
#[verifier::external_body]
fn url_host(url: &str) -> (r: Result<Option<String>, url::ParseError>)
    ensures
        r is Ok <==> url_host_of(url@) is Some,
        r matches Ok(host) ==> url_host_of(url@) == Some(text_of(host)),
{
    match reqwest::Url::parse(url) {
        Ok(parsed) => match parsed.host_str() {
            Some(host) => Ok(Some(host.to_string())),
            None => Ok(None),
        },
        Err(e) => Err(e),
    }
}

/// The host under which credentials for a URL are looked up. A text that
/// is no URL gives a parse error that names it.
pub fn netrc_host(url: &str) -> (r: Result<Option<String>, RuGetError>)
    ensures
        r is Ok <==> url_host_of(url@) is Some,
        r matches Ok(host) ==> url_host_of(url@) == Some(text_of(host)),
        r matches Err(e) ==> e.code == ErrorCode::E501 && e.kind == ErrorKind::Parse
            && e.source is Some && e.message@ == "parsing URL for netrc auth: "@ + url@ + ": "@ + (
        "URL parse error: "@ + e.source->0@),
{
    match url_host(url) {
        Ok(host) => Ok(host),
        Err(e) => {
            let base = RuGetError::from(e);
            let context = concat2("parsing URL for netrc auth: ", url);
            Err(base.with_context(context.as_str()))
        },
    }
}

/// One `machine` entry of a credentials file.
#[derive(Debug)]
pub struct NetrcEntry {
    pub host: String,
    pub login: String,
    pub password: Option<String>,
}

/// An entry as plain text: host, login, password.
pub open spec fn entry_text(e: NetrcEntry) -> (Seq<char>, Seq<char>, Option<Seq<char>>) {
    (e.host@, e.login@, text_of(e.password))
}

/// Entries as plain text.
pub open spec fn entries_text(entries: Seq<NetrcEntry>) -> Seq<
    (Seq<char>, Seq<char>, Option<Seq<char>>),
> {
    entries.map_values(|e: NetrcEntry| entry_text(e))
}

/// The `machine` entries that `Netrc::parse` reads from the contents of a
/// credentials file, in their order, each as host, login and password;
/// nothing for contents that it does not parse.
pub uninterp spec fn netrc_hosts(contents: Seq<u8>) -> Option<
    Seq<(Seq<char>, Seq<char>, Option<Seq<char>>)>,
>;

/// Every byte is an ASCII character.
pub open spec fn is_ascii_bytes(bytes: Seq<u8>) -> bool {
    forall|i: int| 0 <= i < bytes.len() ==> #[trigger] bytes[i] < 128
}

/// Whether every byte is an ASCII character.
pub fn all_ascii(bytes: &[u8]) -> (r: bool)
    ensures
        r == is_ascii_bytes(bytes@),
{
    let mut i: usize = 0;
    while i < bytes.len()
        invariant
            i <= bytes.len(),
            forall|j: int| 0 <= j < i ==> #[trigger] bytes@[j] < 128,
        decreases bytes.len() - i,
    {
        if bytes[i] >= 128 {
            return false;
        }
        i += 1;
    }
    true
}

/// Calls `Netrc::parse` on the contents and hands out the `machine`
/// entries. The contents are ASCII: the parser counts characters where it
/// should count bytes, and stops short on others.
#[verifier::external_body]
fn parse_netrc(contents: &[u8]) -> (r: Option<Vec<NetrcEntry>>)
    requires
        is_ascii_bytes(contents@),
    ensures
        r is Some <==> netrc_hosts(contents@) is Some,
        r matches Some(entries) ==> netrc_hosts(contents@) == Some(entries_text(entries@)),
{
    match netrc::Netrc::parse(contents) {
        Ok(parsed) => Some(
            parsed.hosts.into_iter().map(
                |(host, machine)| NetrcEntry {
                    host,
                    login: machine.login,
                    password: machine.password,
                },
            ).collect(),
        ),
        Err(_) => None,
    }
}

/// The credentials for a host: those of the first entry for the host, if
/// it has a login and a password and neither is empty.
pub open spec fn spec_find_credentials(
    entries: Seq<(Seq<char>, Seq<char>, Option<Seq<char>>)>,
    host: Seq<char>,
) -> Option<(Seq<char>, Seq<char>)>
    decreases entries.len(),
{
    if entries.len() == 0 {
        None
    } else if entries[0].0 == host {
        if entries[0].1.len() > 0 && entries[0].2 is Some && entries[0].2->0.len() > 0 {
            Some((entries[0].1, entries[0].2->0))
        } else {
            None
        }
    } else {
        spec_find_credentials(entries.skip(1), host)
    }
}

/// Looks up the credentials for a host: user name and password.
pub fn find_credentials(entries: &[NetrcEntry], host: &str) -> (r: Option<(String, String)>)
    ensures
        r is Some <==> spec_find_credentials(entries_text(entries@), host@) is Some,
        r matches Some(c) ==> spec_find_credentials(entries_text(entries@), host@) == Some(
            (c.0@, c.1@),
        ),
{
    let ghost all = entries_text(entries@);
    let host_chars = chars_of(host);
    let mut i: usize = 0;
    proof {
        assert(all.skip(0) =~= all);
    }
    while i < entries.len()
        invariant
            i <= entries.len(),
            all == entries_text(entries@),
            host_chars@ == host@,
            spec_find_credentials(all, host@) == spec_find_credentials(all.skip(i as int), host@),
        decreases entries.len() - i,
    {
        let entry = &entries[i];
        proof {
            assert(all.skip(i as int)[0] == entry_text(*entry));
            assert(all.skip(i as int).skip(1) =~= all.skip(i + 1));
        }
        let entry_host = chars_of(entry.host.as_str());
        if chars_eq(entry_host.as_slice(), host_chars.as_slice()) {
            if entry.login.as_str().is_empty() {
                return None;
            }
            return match &entry.password {
                Some(password) => if password.as_str().is_empty() {
                    None
                } else {
                    Some((entry.login.clone(), password.clone()))
                },
                None => None,
            };
        }
        i += 1;
    }
    None
}

/// What the standard base64 engine with padding makes of bytes.
pub uninterp spec fn base64_of(bytes: Seq<u8>) -> Seq<char>;

/// A character of the standard base64 alphabet, or the padding character.
pub open spec fn is_base64_char(c: char) -> bool {
    ('A' <= c <= 'Z') || ('a' <= c <= 'z') || ('0' <= c <= '9') || c == '+' || c == '/' || c == '='
}

/// Every character is of the base64 alphabet or the padding character.
pub open spec fn is_base64_text(s: Seq<char>) -> bool {
    forall|i: int| 0 <= i < s.len() ==> is_base64_char(#[trigger] s[i])
}

/// The longest input handed to the base64 engine, in bytes: 2^30.
pub const BASE64_INPUT_MAX: usize = 0x4000_0000;

/// Calls `base64::engine::general_purpose::STANDARD.encode`. The input is
/// short enough for the length of the result to fit. The result is made of
/// the 64 characters of the standard alphabet and `=`.
#[verifier::external_body]
fn base64_encode(input: &str) -> (r: String)
    requires
        input.len() <= BASE64_INPUT_MAX,
    ensures
        r@ == base64_of(input.spec_bytes()),
        is_base64_text(r@),
{
    base64::engine::general_purpose::STANDARD.encode(input)
}

/// The value of the `Authorization` header for a user name and a
/// password: `Basic` and the base64 form of the two with a colon between.
pub open spec fn spec_basic_auth(login: Seq<char>, password: Seq<char>) -> Seq<char> {
    "Basic "@ + base64_of(encode_utf8(login + ":"@ + password))
}

/// The value of the `Authorization` header for a user name and a
/// password. None where the two take more than [`BASE64_INPUT_MAX`] bytes.
pub fn basic_auth_value(login: &str, password: &str) -> (r: Option<String>)
    ensures
        r matches Some(v) ==> v@ == spec_basic_auth(login@, password@) && valid_header_value(v@),
        r is None <==> credentials_too_long(login@, password@),
{
    let pair = concat3(login, ":", password);
    if pair.as_str().len() > BASE64_INPUT_MAX {
        return None;
    }
    let encoded = base64_encode(pair.as_str());
    let value = concat2("Basic ", encoded.as_str());
    proof {
        reveal_strlit("Basic ");
        assert forall|i: int| 0 <= i < value@.len() implies (#[trigger] value@[i]) == '\t' || (
        value@[i] as u32 >= 32 && value@[i] as u32 != 127) by {
            if i >= 6 {
                assert(value@[i] == encoded@[i - 6]);
                assert(is_base64_char(encoded@[i - 6]));
            }
        }
    }
    Some(value)
}

/// A user name, a colon and a password take more bytes than the base64
/// engine is handed.
pub open spec fn credentials_too_long(login: Seq<char>, password: Seq<char>) -> bool {
    encode_utf8(login + ":"@ + password).len() as usize > BASE64_INPUT_MAX
}

/// The credentials that the contents of a credentials file hold for a
/// host. No contents hold none, nor do contents that are not ASCII, which
/// are not read, nor contents that do not parse.
pub open spec fn spec_credentials(contents: Option<Seq<u8>>, host: Seq<char>) -> Option<
    (Seq<char>, Seq<char>),
> {
    match contents {
        Some(c) => if is_ascii_bytes(c) {
            match netrc_hosts(c) {
                Some(entries) => spec_find_credentials(entries, host),
                None => None,
            }
        } else {
            None
        },
        None => None,
    }
}

/// The bytes of optional contents.
pub open spec fn bytes_of(contents: Option<&[u8]>) -> Option<Seq<u8>> {
    match contents {
        Some(c) => Some(c@),
        None => None,
    }
}

/// Looks up the credentials for a host in the contents of a credentials
/// file, if there is one.
pub fn lookup_credentials(contents: Option<&[u8]>, host: &str) -> (r: Option<(String, String)>)
    ensures
        r is Some <==> spec_credentials(bytes_of(contents), host@) is Some,
        r matches Some(c) ==> spec_credentials(bytes_of(contents), host@) == Some((c.0@, c.1@)),
{
    match contents {
        Some(c) => if all_ascii(c) {
            match parse_netrc(c) {
                Some(entries) => find_credentials(entries.as_slice(), host),
                None => None,
            }
        } else {
            None
        },
        None => None,
    }
}

/// How adding credentials to the headers of a request ended.
#[derive(Debug, Clone, Copy, PartialEq, Eq, Structural)]
pub enum AuthOutcome {
    /// The `Authorization` header was set from the credentials.
    Added,
    /// The headers hold an `Authorization` header already. It stays.
    KeptUserHeader,
    /// The URL has no host: nothing is looked up.
    NoHost,
    /// There are no credentials for the host.
    NoCredentials,
    /// There are credentials, but no header was made of them: they are too
    /// long, or the map has no room.
    NotAdded,
}

/// The `Authorization` header that the contents of a credentials file
/// give for a host: none without credentials for the host, and none for
/// credentials that are too long.
pub open spec fn spec_netrc_auth(netrc: Option<Seq<u8>>, host: Seq<char>) -> Option<Seq<char>> {
    match spec_credentials(netrc, host) {
        Some(c) => if credentials_too_long(c.0, c.1) {
            None
        } else {
            Some(spec_basic_auth(c.0, c.1))
        },
        None => None,
    }
}

/// What adding credentials for a URL does, by its outcome: which
/// outcome is due, and what the headers hold afterwards.
pub open spec fn netrc_auth_spec(
    before: Map<Seq<char>, Seq<u8>>,
    after: Map<Seq<char>, Seq<u8>>,
    host: Option<Seq<char>>,
    netrc: Option<Seq<u8>>,
    outcome: AuthOutcome,
) -> bool {
    match outcome {
        AuthOutcome::NoHost => host is None && after == before,
        AuthOutcome::KeptUserHeader => host is Some && before.dom().contains("authorization"@)
            && after == before,
        AuthOutcome::NoCredentials => {
            &&& host is Some
            &&& !before.dom().contains("authorization"@)
            &&& spec_credentials(netrc, host->0) is None
            &&& after == before
        },
        AuthOutcome::Added => {
            &&& host is Some
            &&& !before.dom().contains("authorization"@)
            &&& spec_netrc_auth(netrc, host->0) is Some
            &&& after == before.insert(
                "authorization"@,
                encode_utf8(spec_netrc_auth(netrc, host->0)->0),
            )
        },
        AuthOutcome::NotAdded => {
            &&& host is Some
            &&& !before.dom().contains("authorization"@)
            &&& spec_credentials(netrc, host->0) is Some
            &&& spec_netrc_auth(netrc, host->0) is None || !has_room(before)
            &&& after == before
        },
    }
}

/// The header is owed: there is a host, the headers hold no
/// `Authorization` yet, the file gives a header for the host, and the map
/// has room.
pub open spec fn netrc_auth_owed(
    before: Map<Seq<char>, Seq<u8>>,
    host: Option<Seq<char>>,
    netrc: Option<Seq<u8>>,
) -> bool {
    &&& host is Some
    &&& !before.dom().contains("authorization"@)
    &&& spec_netrc_auth(netrc, host->0) is Some
    &&& has_room(before)
}

/// Adds Basic authentication for a host to the headers of a request,
/// from the contents of a credentials file. An `Authorization` header that
/// is there already has priority and stays. Otherwise the credentials of
/// the host, if the file has any, are added as a Basic `Authorization`
/// header, provided that they are not too long and that the map has room.
/// Nothing changes unless the outcome is `Added`.
pub fn apply_netrc_auth(
    headers: &mut reqwest::header::HeaderMap,
    host: &str,
    netrc: Option<&[u8]>,
) -> (r: AuthOutcome)
    ensures
        netrc_auth_spec(
            header_values(*old(headers)),
            header_values(*final(headers)),
            Some(host@),
            bytes_of(netrc),
            r,
        ),
        netrc_auth_owed(header_values(*old(headers)), Some(host@), bytes_of(netrc)) ==> r
            == AuthOutcome::Added,
{
    proof {
        lemma_plain_header_names();
        lemma_plain_header_name("authorization"@);
    }
    if header_present(headers, "authorization") {
        return AuthOutcome::KeptUserHeader;
    }
    match lookup_credentials(netrc, host) {
        Some(c) => match basic_auth_value(c.0.as_str(), c.1.as_str()) {
            Some(value) => match set_header(headers, "authorization", value.as_str()) {
                SetOutcome::Stored => AuthOutcome::Added,
                _ => AuthOutcome::NotAdded,
            },
            None => AuthOutcome::NotAdded,
        },
        None => AuthOutcome::NoCredentials,
    }
}

/// Add netrc authentication to headers if available: looks up the host
/// of the URL in the contents of the credentials file and sets the
/// `Authorization` header from what it finds.
///
/// A text that is no URL is an error, and a URL without a host gets no
/// header. An `Authorization` header that is there already has priority and
/// stays. Otherwise the credentials of the host, if the file has any, are
/// added as a Basic `Authorization` header, provided that they are not too
/// long and that the map has room.
pub fn add_netrc_auth(headers: &mut reqwest::header::HeaderMap, url: &str, netrc: Option<&[u8]>)
    -> (r: Result<AuthOutcome, RuGetError>)
    ensures
        r is Ok <==> url_host_of(url@) is Some,
        r matches Err(e) ==> e.code == ErrorCode::E501 && e.kind == ErrorKind::Parse
            && e.source is Some && e.message@ == "parsing URL for netrc auth: "@ + url@ + ": "@ + (
        "URL parse error: "@ + e.source->0@),
        r is Err ==> header_values(*final(headers)) == header_values(*old(headers)),
        r matches Ok(outcome) ==> netrc_auth_spec(
            header_values(*old(headers)),
            header_values(*final(headers)),
            url_host_of(url@)->0,
            bytes_of(netrc),
            outcome,
        ),
        r matches Ok(outcome) ==> netrc_auth_owed(
            header_values(*old(headers)),
            url_host_of(url@)->0,
            bytes_of(netrc),
        ) ==> outcome == AuthOutcome::Added,
{
    match netrc_host(url) {
        Ok(Some(host)) => Ok(apply_netrc_auth(headers, host.as_str(), netrc)),
        Ok(None) => Ok(AuthOutcome::NoHost),
        Err(e) => Err(e),
    }
}

/// The headers of a request, what building them gave, and whether they
/// are complete.
#[derive(Debug)]
pub struct RequestHeaders {
    pub headers: reqwest::header::HeaderMap,
    /// The warnings for the custom header arguments.
    pub warnings: Vec<String>,
    /// How adding the credentials ended.
    pub auth: AuthOutcome,
    /// Whether every header that was due has been set: whether the map
    /// had room for each.
    pub complete: bool,
}

/// The headers of a request: the custom headers; then the credentials of
/// the host from the credentials file, unless the custom headers hold an
/// `Authorization` header already; then the `Range` header for the bytes
/// asked for.
pub open spec fn spec_request_headers(
    args: Seq<Seq<char>>,
    host: Option<Seq<char>>,
    netrc: Option<Seq<u8>>,
    range: ByteRange,
) -> Map<Seq<char>, Seq<u8>> {
    let custom = spec_build_headers(args);
    let with_auth = if host is Some && !custom.dom().contains("authorization"@) && spec_netrc_auth(
        netrc,
        host->0,
    ) is Some {
        custom.insert("authorization"@, encode_utf8(spec_netrc_auth(netrc, host->0)->0))
    } else {
        custom
    };
    match range.spec_header_value() {
        Some(value) => with_auth.insert("range"@, encode_utf8(value)),
        None => with_auth,
    }
}

/// Builds the headers of a request for a URL: the custom headers, the
/// credentials of the URL's host where the custom headers set no
/// `Authorization`, and the `Range` header for the bytes asked for.
///
/// A text that is no URL is an error. Otherwise the headers are complete
/// unless the map refused one for want of room, which it does not for up to
/// [`HEADER_ROOM`] headers in all.
pub fn request_headers(header_args: &[String], url: &str, netrc: Option<&[u8]>, range: ByteRange)
    -> (r: Result<RequestHeaders, RuGetError>)
    ensures
        r is Ok <==> url_host_of(url@) is Some,
        r matches Err(e) ==> e.code == ErrorCode::E501 && e.kind == ErrorKind::Parse
            && e.source is Some && e.message@ == "parsing URL for netrc auth: "@ + url@ + ": "@ + (
        "URL parse error: "@ + e.source->0@),
        r matches Ok(h) ==> h.complete ==> header_values(h.headers) == spec_request_headers(
            texts(header_args@),
            url_host_of(url@)->0,
            bytes_of(netrc),
            range,
        ) && texts(h.warnings@) == spec_header_warnings(texts(header_args@)),
        r matches Ok(h) ==> (h.auth == AuthOutcome::NoHost <==> url_host_of(url@)->0 is None),
        r matches Ok(h) ==> header_args.len() + 2 <= HEADER_ROOM ==> h.complete,
{
    let built = build_headers(header_args);
    let all_taken = built.refused_at.is_none();
    let mut headers = built.headers;
    let ghost custom = header_values(headers);
    let room_for_auth = has_header_room(&headers);
    let auth = match add_netrc_auth(&mut headers, url, netrc) {
        Ok(outcome) => outcome,
        Err(e) => {
            return Err(e);
        },
    };
    let ghost with_auth = header_values(headers);
    let auth_settled = match auth {
        AuthOutcome::NotAdded => room_for_auth,
        _ => true,
    };
    let range_settled = set_range_header(&mut headers, range);
    proof {
        if all_taken {
            assert(texts(header_args@).take(header_args@.len() as int) =~= texts(header_args@));
        }
        if header_args.len() + 2 <= HEADER_ROOM {
            assert(has_room(custom));
            assert(with_auth.dom().finite() && with_auth.dom().len() <= custom.dom().len() + 1) by {
                if auth == AuthOutcome::Added {
                    assert(with_auth.dom() =~= custom.dom().insert("authorization"@));
                }
            }
            assert(has_room(with_auth));
        }
    }
    Ok(
        RequestHeaders {
            headers,
            warnings: built.warnings,
            auth,
            complete: all_taken && auth_settled && range_settled,
        },
    )
}

/// What the regular expression `pattern` captures in its first group on
/// the leftmost match in `text`, as the `regex` crate finds it. Nothing where
/// the pattern is no regular expression, where it does not match, and where
/// the group takes no part in the match.
pub uninterp spec fn regex_first_group(pattern: Seq<char>, text: Seq<char>) -> Option<Seq<char>>;

/// Calls `Regex::new`, `Regex::captures` and `Captures::get(1)`.
#[verifier::external_body]
fn first_group(pattern: &str, text: &str) -> (r: Option<String>)
    ensures
        text_of(r) == regex_first_group(pattern@, text@),
{
    match regex::Regex::new(pattern) {
        Ok(re) => match re.captures(text) {
            Some(caps) => match caps.get(1) {
                Some(m) => Some(m.as_str().to_string()),
                None => None,
            },
            None => None,
        },
        Err(_) => None,
    }
}

/// The pattern that finds the file name in a `Content-Disposition`
/// header: `filename=`, an optional quote, and the run of characters up to
/// the next quote, which is the name.
pub open spec fn disposition_pattern() -> Seq<char> {
    "filename=\"?([^\"]+)\"?"@
}

/// The file name in the text of a `Content-Disposition` header, if it
/// names one.
pub fn filename_in_disposition(value: &str) -> (r: Option<String>)
    ensures
        text_of(r) == regex_first_group(disposition_pattern(), value@),
{
    first_group("filename=\"?([^\"]+)\"?", value)
}

/// The bytes of a header, if there is one.
pub open spec fn header_bytes(header: Option<&reqwest::header::HeaderValue>) -> Option<Seq<u8>> {
    match header {
        Some(value) => Some(header_value_bytes(*value)),
        None => None,
    }
}

/// The file name that a `Content-Disposition` header gives, by the bytes
/// of its value: none for a header that is absent and for a value that is
/// not visible ASCII text; for any other what the pattern finds in its text.
pub open spec fn spec_disposition_filename(header: Option<Seq<u8>>) -> Option<Seq<char>> {
    match header {
        Some(bytes) => if is_visible_ascii(bytes) {
            regex_first_group(disposition_pattern(), ascii_text(bytes))
        } else {
            None
        },
        None => None,
    }
}

/// Extract filename from Content-Disposition header. A header that is
/// absent, or whose value is not visible ASCII text, gives none; for any
/// other [`filename_in_disposition`] decides on its text.
pub fn extract_filename_from_disposition(header: Option<&reqwest::header::HeaderValue>) -> (r:
    Option<String>)
    ensures
        text_of(r) == spec_disposition_filename(header_bytes(header)),
{
    match header {
        Some(value) => match header_value_text(value) {
            Some(text) => filename_in_disposition(text),
            None => None,
        },
        None => None,
    }
}

} // verus!
