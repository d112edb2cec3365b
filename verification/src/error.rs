//! The error type of the library: a stable code, a broad kind and a message.

use crate::text::{concat2, concat3, decimal, push_decimal};
use vstd::prelude::*;
use vstd::std_specs::convert::FromSpecImpl;

verus! {

/// Broad class of a failure.
#[derive(Debug, Clone, Copy, PartialEq, Eq, Structural)]
pub enum ErrorKind {
    Io,
    Http,
    Config,
    Parse,
    Network,
    FileSystem,
    Authentication,
}

impl ErrorKind {
    /// The variant's name.
    pub open spec fn spec_name(self) -> Seq<char> {
        match self {
            ErrorKind::Io => "Io"@,
            ErrorKind::Http => "Http"@,
            ErrorKind::Config => "Config"@,
            ErrorKind::Parse => "Parse"@,
            ErrorKind::Network => "Network"@,
            ErrorKind::FileSystem => "FileSystem"@,
            ErrorKind::Authentication => "Authentication"@,
        }
    }

    /// The variant's name, as debug output writes it.
    pub fn name(&self) -> (r: &'static str)
        ensures
            r@ == self.spec_name(),
    {
        match self {
            ErrorKind::Io => "Io",
            ErrorKind::Http => "Http",
            ErrorKind::Config => "Config",
            ErrorKind::Parse => "Parse",
            ErrorKind::Network => "Network",
            ErrorKind::FileSystem => "FileSystem",
            ErrorKind::Authentication => "Authentication",
        }
    }
}

/// Stable error codes. The hundreds digit gives the class.
#[derive(Debug, Clone, Copy, PartialEq, Eq, Structural)]
pub enum ErrorCode {
    // E1xx: I/O errors
    /// General I/O error
    E100,
    /// File not found
    E101,
    /// Permission denied
    E102,
    /// Directory creation failed
    E103,
    /// File write error
    E104,
    /// File read error
    E105,
    // E2xx: HTTP errors
    /// HTTP request failed
    E200,
    /// Connection timeout
    E201,
    /// HTTP client error
    E202,
    /// HTTP server error
    E203,
    /// Invalid URL
    E204,
    /// SSL/TLS error
    E205,
    // E3xx: Configuration errors
    /// Configuration error
    E300,
    /// Config file not found
    E301,
    /// Invalid config format
    E302,
    /// Missing required config
    E303,
    /// Invalid config value
    E304,
    // E4xx: Network errors
    /// Network error
    E400,
    /// DNS resolution failed
    E401,
    /// Network unreachable
    E402,
    /// Connection refused
    E403,
    /// Request timeout
    E404,
    // E5xx: Internal errors
    /// Internal error
    E500,
    /// Parse error
    E501,
    /// Authentication error
    E502,
    /// File system error
    E503,
    /// Data corruption
    E504,
    /// Resource exhausted
    E505,
}

impl ErrorCode {
    /// The number behind the letter `E`.
    pub open spec fn spec_number(self) -> nat {
        match self {
            ErrorCode::E100 => 100,
            ErrorCode::E101 => 101,
            ErrorCode::E102 => 102,
            ErrorCode::E103 => 103,
            ErrorCode::E104 => 104,
            ErrorCode::E105 => 105,
            ErrorCode::E200 => 200,
            ErrorCode::E201 => 201,
            ErrorCode::E202 => 202,
            ErrorCode::E203 => 203,
            ErrorCode::E204 => 204,
            ErrorCode::E205 => 205,
            ErrorCode::E300 => 300,
            ErrorCode::E301 => 301,
            ErrorCode::E302 => 302,
            ErrorCode::E303 => 303,
            ErrorCode::E304 => 304,
            ErrorCode::E400 => 400,
            ErrorCode::E401 => 401,
            ErrorCode::E402 => 402,
            ErrorCode::E403 => 403,
            ErrorCode::E404 => 404,
            ErrorCode::E500 => 500,
            ErrorCode::E501 => 501,
            ErrorCode::E502 => 502,
            ErrorCode::E503 => 503,
            ErrorCode::E504 => 504,
            ErrorCode::E505 => 505,
        }
    }

    /// The concise message of the code.
    pub open spec fn spec_message(self) -> Seq<char> {
        match self {
            ErrorCode::E100 => "General I/O error"@,
            ErrorCode::E101 => "File not found"@,
            ErrorCode::E102 => "Permission denied"@,
            ErrorCode::E103 => "Directory creation failed"@,
            ErrorCode::E104 => "File write error"@,
            ErrorCode::E105 => "File read error"@,
            ErrorCode::E200 => "HTTP request failed"@,
            ErrorCode::E201 => "Connection timeout"@,
            ErrorCode::E202 => "HTTP client error"@,
            ErrorCode::E203 => "HTTP server error"@,
            ErrorCode::E204 => "Invalid URL"@,
            ErrorCode::E205 => "SSL/TLS error"@,
            ErrorCode::E300 => "Configuration error"@,
            ErrorCode::E301 => "Config file not found"@,
            ErrorCode::E302 => "Invalid config format"@,
            ErrorCode::E303 => "Missing required config"@,
            ErrorCode::E304 => "Invalid config value"@,
            ErrorCode::E400 => "Network error"@,
            ErrorCode::E401 => "DNS resolution failed"@,
            ErrorCode::E402 => "Network unreachable"@,
            ErrorCode::E403 => "Connection refused"@,
            ErrorCode::E404 => "Request timeout"@,
            ErrorCode::E500 => "Internal error"@,
            ErrorCode::E501 => "Parse error"@,
            ErrorCode::E502 => "Authentication error"@,
            ErrorCode::E503 => "File system error"@,
            ErrorCode::E504 => "Data corruption"@,
            ErrorCode::E505 => "Resource exhausted"@,
        }
    }

    /// The troubleshooting hint of the code.
    pub open spec fn spec_hint(self) -> Seq<char> {
        match self {
            ErrorCode::E100 => "Check file permissions and disk space"@,
            ErrorCode::E101 => "Verify the file path exists"@,
            ErrorCode::E102 => "Run with appropriate permissions or check file ownership"@,
            ErrorCode::E103 => "Check parent directory permissions and disk space"@,
            ErrorCode::E104 => "Ensure sufficient disk space and write permissions"@,
            ErrorCode::E105 => "Check file exists and has read permissions"@,
            ErrorCode::E200 => "Check URL validity and server status"@,
            ErrorCode::E201 => "Check internet connection or use --timeout option"@,
            ErrorCode::E202 => "Verify URL and request parameters"@,
            ErrorCode::E203 => "Server is experiencing issues, try again later"@,
            ErrorCode::E204 => "Check URL format and protocol"@,
            ErrorCode::E205 => "Check SSL certificate or use --insecure flag"@,
            ErrorCode::E300 => "Check configuration file syntax"@,
            ErrorCode::E301 => "Create config file or specify path with --config"@,
            ErrorCode::E302 => "Validate TOML syntax in config file"@,
            ErrorCode::E303 => "Add required configuration values"@,
            ErrorCode::E304 => "Check config value format and constraints"@,
            ErrorCode::E400 => "Check internet connection and network settings"@,
            ErrorCode::E401 => "Check DNS settings or use IP address"@,
            ErrorCode::E402 => "Check network connectivity and routing"@,
            ErrorCode::E403 => "Check if service is running and accessible"@,
            ErrorCode::E404 => "Check internet connection or use --max-retries option"@,
            ErrorCode::E500 => "Report this issue with debug information"@,
            ErrorCode::E501 => "Check input format and syntax"@,
            ErrorCode::E502 => "Check credentials and authentication method"@,
            ErrorCode::E503 => "Check file system permissions and disk space"@,
            ErrorCode::E504 => "Verify file integrity and re-download if needed"@,
            ErrorCode::E505 => "Free up system resources or increase limits"@,
        }
    }

    /// The code as text: the letter `E` and the number.
    pub open spec fn spec_text(self) -> Seq<char> {
        seq!['E'] + decimal(self.spec_number())
    }

    /// The number behind the letter `E`, between 100 and 505.
    pub fn number(&self) -> (r: u16)
        ensures
            r == self.spec_number(),
            100 <= r <= 505,
    {
        match self {
            ErrorCode::E100 => 100,
            ErrorCode::E101 => 101,
            ErrorCode::E102 => 102,
            ErrorCode::E103 => 103,
            ErrorCode::E104 => 104,
            ErrorCode::E105 => 105,
            ErrorCode::E200 => 200,
            ErrorCode::E201 => 201,
            ErrorCode::E202 => 202,
            ErrorCode::E203 => 203,
            ErrorCode::E204 => 204,
            ErrorCode::E205 => 205,
            ErrorCode::E300 => 300,
            ErrorCode::E301 => 301,
            ErrorCode::E302 => 302,
            ErrorCode::E303 => 303,
            ErrorCode::E304 => 304,
            ErrorCode::E400 => 400,
            ErrorCode::E401 => 401,
            ErrorCode::E402 => 402,
            ErrorCode::E403 => 403,
            ErrorCode::E404 => 404,
            ErrorCode::E500 => 500,
            ErrorCode::E501 => 501,
            ErrorCode::E502 => 502,
            ErrorCode::E503 => 503,
            ErrorCode::E504 => 504,
            ErrorCode::E505 => 505,
        }
    }

    /// Returns a concise human-readable message for the error code.
    pub fn message(&self) -> (r: &'static str)
        ensures
            r@ == self.spec_message(),
    {
        match self {
            ErrorCode::E100 => "General I/O error",
            ErrorCode::E101 => "File not found",
            ErrorCode::E102 => "Permission denied",
            ErrorCode::E103 => "Directory creation failed",
            ErrorCode::E104 => "File write error",
            ErrorCode::E105 => "File read error",
            ErrorCode::E200 => "HTTP request failed",
            ErrorCode::E201 => "Connection timeout",
            ErrorCode::E202 => "HTTP client error",
            ErrorCode::E203 => "HTTP server error",
            ErrorCode::E204 => "Invalid URL",
            ErrorCode::E205 => "SSL/TLS error",
            ErrorCode::E300 => "Configuration error",
            ErrorCode::E301 => "Config file not found",
            ErrorCode::E302 => "Invalid config format",
            ErrorCode::E303 => "Missing required config",
            ErrorCode::E304 => "Invalid config value",
            ErrorCode::E400 => "Network error",
            ErrorCode::E401 => "DNS resolution failed",
            ErrorCode::E402 => "Network unreachable",
            ErrorCode::E403 => "Connection refused",
            ErrorCode::E404 => "Request timeout",
            ErrorCode::E500 => "Internal error",
            ErrorCode::E501 => "Parse error",
            ErrorCode::E502 => "Authentication error",
            ErrorCode::E503 => "File system error",
            ErrorCode::E504 => "Data corruption",
            ErrorCode::E505 => "Resource exhausted",
        }
    }

    /// Returns a troubleshooting hint for the error code.
    pub fn hint(&self) -> (r: &'static str)
        ensures
            r@ == self.spec_hint(),
    {
        match self {
            ErrorCode::E100 => "Check file permissions and disk space",
            ErrorCode::E101 => "Verify the file path exists",
            ErrorCode::E102 => "Run with appropriate permissions or check file ownership",
            ErrorCode::E103 => "Check parent directory permissions and disk space",
            ErrorCode::E104 => "Ensure sufficient disk space and write permissions",
            ErrorCode::E105 => "Check file exists and has read permissions",
            ErrorCode::E200 => "Check URL validity and server status",
            ErrorCode::E201 => "Check internet connection or use --timeout option",
            ErrorCode::E202 => "Verify URL and request parameters",
            ErrorCode::E203 => "Server is experiencing issues, try again later",
            ErrorCode::E204 => "Check URL format and protocol",
            ErrorCode::E205 => "Check SSL certificate or use --insecure flag",
            ErrorCode::E300 => "Check configuration file syntax",
            ErrorCode::E301 => "Create config file or specify path with --config",
            ErrorCode::E302 => "Validate TOML syntax in config file",
            ErrorCode::E303 => "Add required configuration values",
            ErrorCode::E304 => "Check config value format and constraints",
            ErrorCode::E400 => "Check internet connection and network settings",
            ErrorCode::E401 => "Check DNS settings or use IP address",
            ErrorCode::E402 => "Check network connectivity and routing",
            ErrorCode::E403 => "Check if service is running and accessible",
            ErrorCode::E404 => "Check internet connection or use --max-retries option",
            ErrorCode::E500 => "Report this issue with debug information",
            ErrorCode::E501 => "Check input format and syntax",
            ErrorCode::E502 => "Check credentials and authentication method",
            ErrorCode::E503 => "Check file system permissions and disk space",
            ErrorCode::E504 => "Verify file integrity and re-download if needed",
            ErrorCode::E505 => "Free up system resources or increase limits",
        }
    }

    /// The code as text, such as `E203`.
    pub fn to_string(&self) -> (r: String)
        ensures
            r@ == self.spec_text(),
            r@.len() == 4,
    {
        let mut s = String::from_str("E");
        proof {
            reveal_strlit("E");
            assert("E"@ =~= seq!['E']);
        }
        push_decimal(&mut s, self.number() as u64);
        proof {
            lemma_three_digits(self.spec_number());
        }
        s
    }
}

/// An error of the library.
#[derive(Debug)]
pub struct RuGetError {
    pub code: ErrorCode,
    pub kind: ErrorKind,
    pub message: String,
    /// The text of the underlying error, where there is one.
    pub source: Option<String>,
}

/// Former name of [`RuGetError`].
pub type RuGetErrorLegacy = RuGetError;

/// Former name of [`ErrorCode`].
pub type ErrorCodeLegacy = ErrorCode;

/// Former name of [`ErrorKind`].
pub type ErrorKindLegacy = ErrorKind;

impl RuGetError {
    /// The error has the given code, kind and message, and no source.
    pub open spec fn is_plain(self, code: ErrorCode, kind: ErrorKind, message: Seq<char>) -> bool {
        &&& self.code == code
        &&& self.kind == kind
        &&& self.message@ == message
        &&& self.source is None
    }

    /// The error wraps an underlying error: its source is that error's text,
    /// and its message is `prefix` followed by that text.
    pub open spec fn wraps(self, code: ErrorCode, kind: ErrorKind, prefix: Seq<char>) -> bool {
        &&& self.code == code
        &&& self.kind == kind
        &&& self.source is Some
        &&& self.message@ == prefix + self.source->0@
    }

    /// What `to_string` writes: the code, a colon, a space and the message.
    pub open spec fn spec_text(self) -> Seq<char> {
        self.code.spec_text() + ": "@ + self.message@
    }

    pub fn new(code: ErrorCode, kind: ErrorKind, message: String) -> (r: Self)
        ensures
            r.is_plain(code, kind, message@),
            r.message == message,
    {
        RuGetError { code, kind, message, source: None }
    }

    /// An error that keeps the text of the error it came from.
    pub fn with_source(code: ErrorCode, kind: ErrorKind, message: String, source: String) -> (r:
        Self)
        ensures
            r.code == code,
            r.kind == kind,
            r.message == message,
            r.source == Some(source),
    {
        RuGetError { code, kind, message, source: Some(source) }
    }

    /// An I/O error: code `E100`, message `I/O error: ` and the error's text.
    pub fn io(err: std::io::Error) -> (r: Self)
        ensures
            r.wraps(ErrorCode::E100, ErrorKind::Io, "I/O error: "@),
    {
        let text = err.to_string();
        RuGetError {
            code: ErrorCode::E100,
            kind: ErrorKind::Io,
            message: concat2("I/O error: ", text.as_str()),
            source: Some(text),
        }
    }

    /// An HTTP error: code `E200`, message `HTTP error: ` and the error's text.
    pub fn http(err: reqwest::Error) -> (r: Self)
        ensures
            r.wraps(ErrorCode::E200, ErrorKind::Http, "HTTP error: "@),
    {
        let text = err.to_string();
        RuGetError {
            code: ErrorCode::E200,
            kind: ErrorKind::Http,
            message: concat2("HTTP error: ", text.as_str()),
            source: Some(text),
        }
    }

    pub fn config(msg: String) -> (r: Self)
        ensures
            r.is_plain(ErrorCode::E300, ErrorKind::Config, "Configuration error: "@ + msg@),
    {
        Self::new(
            ErrorCode::E300,
            ErrorKind::Config,
            concat2("Configuration error: ", msg.as_str()),
        )
    }

    pub fn parse(msg: String) -> (r: Self)
        ensures
            r.is_plain(ErrorCode::E501, ErrorKind::Parse, "Parse error: "@ + msg@),
    {
        Self::new(ErrorCode::E501, ErrorKind::Parse, concat2("Parse error: ", msg.as_str()))
    }

    pub fn network(msg: String) -> (r: Self)
        ensures
            r.is_plain(ErrorCode::E400, ErrorKind::Network, "Network error: "@ + msg@),
    {
        Self::new(ErrorCode::E400, ErrorKind::Network, concat2("Network error: ", msg.as_str()))
    }

    pub fn file_system(msg: String) -> (r: Self)
        ensures
            r.is_plain(ErrorCode::E503, ErrorKind::FileSystem, "File system error: "@ + msg@),
    {
        Self::new(
            ErrorCode::E503,
            ErrorKind::FileSystem,
            concat2("File system error: ", msg.as_str()),
        )
    }

    pub fn authentication(msg: String) -> (r: Self)
        ensures
            r.is_plain(
                ErrorCode::E502,
                ErrorKind::Authentication,
                "Authentication error: "@ + msg@,
            ),
    {
        Self::new(
            ErrorCode::E502,
            ErrorKind::Authentication,
            concat2("Authentication error: ", msg.as_str()),
        )
    }

    /// Add context to an existing error: the context, a colon and a space go
    /// before the message; code, kind and source stay.
    pub fn with_context(self, context: &str) -> (r: Self)
        ensures
            r.code == self.code,
            r.kind == self.kind,
            r.source == self.source,
            r.message@ == context@ + ": "@ + self.message@,
    {
        RuGetError {
            code: self.code,
            kind: self.kind,
            message: concat3(context, ": ", self.message.as_str()),
            source: self.source,
        }
    }

    /// The code, a colon, a space and the message.
    pub fn to_string(&self) -> (r: String)
        ensures
            r@ == self.spec_text(),
    {
        let code = self.code.to_string();
        concat3(code.as_str(), ": ", self.message.as_str())
    }

    /// An internal error with the message as it is.
    pub fn legacy_new(message: String) -> (r: Self)
        ensures
            r.is_plain(ErrorCode::E500, ErrorKind::Parse, message@),
    {
        Self::new(ErrorCode::E500, ErrorKind::Parse, message)
    }

    /// An I/O error with the message as it is.
    pub fn legacy_io_error(message: String) -> (r: Self)
        ensures
            r.is_plain(ErrorCode::E100, ErrorKind::Io, message@),
    {
        Self::new(ErrorCode::E100, ErrorKind::Io, message)
    }

    /// An HTTP error with the message as it is.
    pub fn legacy_http_error(message: String) -> (r: Self)
        ensures
            r.is_plain(ErrorCode::E200, ErrorKind::Http, message@),
    {
        Self::new(ErrorCode::E200, ErrorKind::Http, message)
    }
}

/// `std::io::Error`, carried through as it is.
#[verifier::external_type_specification]
#[verifier::external_body]
pub struct ExIoError(std::io::Error);

/// `reqwest::Error`, carried through as it is.
#[verifier::external_type_specification]
#[verifier::external_body]
pub struct ExReqwestError(reqwest::Error);

impl From<std::io::Error> for RuGetError {
    fn from(err: std::io::Error) -> (r: Self)
        ensures
            r.wraps(ErrorCode::E100, ErrorKind::Io, "I/O error: "@),
    {
        RuGetError::io(err)
    }
}

impl FromSpecImpl<std::io::Error> for RuGetError {
    open spec fn obeys_from_spec() -> bool {
        false
    }

    open spec fn from_spec(v: std::io::Error) -> Self {
        arbitrary()
    }
}

impl From<reqwest::Error> for RuGetError {
    fn from(err: reqwest::Error) -> (r: Self)
        ensures
            r.wraps(ErrorCode::E200, ErrorKind::Http, "HTTP error: "@),
    {
        RuGetError::http(err)
    }
}

impl FromSpecImpl<reqwest::Error> for RuGetError {
    open spec fn obeys_from_spec() -> bool {
        false
    }

    open spec fn from_spec(v: reqwest::Error) -> Self {
        arbitrary()
    }
}

impl From<String> for RuGetError {
    fn from(msg: String) -> (r: Self)
        ensures
            r.is_plain(ErrorCode::E500, ErrorKind::Parse, msg@),
    {
        Self::new(ErrorCode::E500, ErrorKind::Parse, msg)
    }
}

impl FromSpecImpl<String> for RuGetError {
    open spec fn obeys_from_spec() -> bool {
        true
    }

    open spec fn from_spec(v: String) -> Self {
        RuGetError { code: ErrorCode::E500, kind: ErrorKind::Parse, message: v, source: None }
    }
}

impl From<&str> for RuGetError {
    fn from(msg: &str) -> (r: Self)
        ensures
            r.is_plain(ErrorCode::E500, ErrorKind::Parse, msg@),
    {
        Self::new(ErrorCode::E500, ErrorKind::Parse, String::from_str(msg))
    }
}

impl FromSpecImpl<&str> for RuGetError {
    open spec fn obeys_from_spec() -> bool {
        false
    }

    open spec fn from_spec(v: &str) -> Self {
        arbitrary()
    }
}

impl From<toml::de::Error> for RuGetError {
    fn from(err: toml::de::Error) -> (r: Self)
        ensures
            r.wraps(ErrorCode::E300, ErrorKind::Config, "Configuration error: "@),
    {
        let text = err.to_string();
        RuGetError {
            code: ErrorCode::E300,
            kind: ErrorKind::Config,
            message: concat2("Configuration error: ", text.as_str()),
            source: Some(text),
        }
    }
}

impl FromSpecImpl<toml::de::Error> for RuGetError {
    open spec fn obeys_from_spec() -> bool {
        false
    }

    open spec fn from_spec(v: toml::de::Error) -> Self {
        arbitrary()
    }
}

impl From<reqwest::header::InvalidHeaderValue> for RuGetError {
    fn from(err: reqwest::header::InvalidHeaderValue) -> (r: Self)
        ensures
            r.wraps(ErrorCode::E501, ErrorKind::Parse, "Invalid header value: "@),
    {
        let text = err.to_string();
        RuGetError {
            code: ErrorCode::E501,
            kind: ErrorKind::Parse,
            message: concat2("Invalid header value: ", text.as_str()),
            source: Some(text),
        }
    }
}

impl FromSpecImpl<reqwest::header::InvalidHeaderValue> for RuGetError {
    open spec fn obeys_from_spec() -> bool {
        false
    }

    open spec fn from_spec(v: reqwest::header::InvalidHeaderValue) -> Self {
        arbitrary()
    }
}

impl From<url::ParseError> for RuGetError {
    fn from(err: url::ParseError) -> (r: Self)
        ensures
            r.wraps(ErrorCode::E501, ErrorKind::Parse, "URL parse error: "@),
    {
        let text = err.to_string();
        RuGetError {
            code: ErrorCode::E501,
            kind: ErrorKind::Parse,
            message: concat2("URL parse error: ", text.as_str()),
            source: Some(text),
        }
    }
}

impl FromSpecImpl<url::ParseError> for RuGetError {
    open spec fn obeys_from_spec() -> bool {
        false
    }

    open spec fn from_spec(v: url::ParseError) -> Self {
        arbitrary()
    }
}

/// Adding context that is at hand as a text.
pub trait AnyhowContextExt<T> {
    /// Leaves `Ok` as it is. Turns the error of an `Err` into a
    /// [`RuGetError`] and puts the context before its message.
    fn context_anyhow(self, context: &str) -> Result<T, RuGetError>;
}

impl<T, E> AnyhowContextExt<T> for Result<T, E> where E: Into<RuGetError> {
    fn context_anyhow(self, context: &str) -> (r: Result<T, RuGetError>)
        ensures
            self matches Ok(v) ==> r == Ok::<T, RuGetError>(v),
            self matches Err(e) ==> r matches Err(x) && exists|base: RuGetError|
                {
                    &&& call_ensures(<E as Into<RuGetError>>::into, (e,), base)
                    &&& x.code == base.code
                    &&& x.kind == base.kind
                    &&& x.source == base.source
                    &&& x.message@ == context@ + ": "@ + base.message@
                },
    {
        match self {
            Ok(v) => Ok(v),
            Err(e) => {
                let base: RuGetError = e.into();
                Err(base.with_context(context))
            },
        }
    }
}

/// `toml::de::Error`, carried through as it is.
#[verifier::external_type_specification]
#[verifier::external_body]
pub struct ExTomlError(toml::de::Error);

/// `reqwest::header::InvalidHeaderValue`, carried through as it is.
#[verifier::external_type_specification]
#[verifier::external_body]
pub struct ExInvalidHeaderValue(reqwest::header::InvalidHeaderValue);

/// `url::ParseError`, carried through as it is.
#[verifier::external_type_specification]
#[verifier::external_body]
pub struct ExUrlParseError(url::ParseError);

/// Adding context to the error of a `Result`.
pub trait WithContext<T> {
    /// Leaves `Ok` as it is. Turns the error of an `Err` into a
    /// [`RuGetError`] and puts the text that `f` returns before its message.
    fn with_context<F>(self, f: F) -> Result<T, RuGetError> where F: FnOnce() -> String
        requires
            f.requires(()),
    ;
}

impl<T, E> WithContext<T> for Result<T, E> where E: Into<RuGetError> {
    fn with_context<F>(self, f: F) -> (r: Result<T, RuGetError>) where F: FnOnce() -> String
        ensures
            self matches Ok(v) ==> r == Ok::<T, RuGetError>(v),
            self matches Err(e) ==> r matches Err(x) && exists|base: RuGetError, context: String|
                {
                    &&& call_ensures(<E as Into<RuGetError>>::into, (e,), base)
                    &&& f.ensures((), context)
                    &&& x.code == base.code
                    &&& x.kind == base.kind
                    &&& x.source == base.source
                    &&& x.message@ == context@ + ": "@ + base.message@
                },
    {
        match self {
            Ok(v) => Ok(v),
            Err(e) => {
                let base: RuGetError = e.into();
                let context = f();
                let x = base.with_context(context.as_str());
                Err(x)
            },
        }
    }
}

/// A number of three digits takes three characters.
pub proof fn lemma_three_digits(n: nat)
    requires
        100 <= n <= 999,
    ensures
        decimal(n).len() == 3,
{
    reveal_with_fuel(decimal, 4);
}

} // verus!
