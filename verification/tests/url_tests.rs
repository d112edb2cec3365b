use ruget::error::ErrorCode;
use ruget::minimal_http::{parse_http_url, parse_url, request_text};
use ruget::native_http::{parse_url_fast, ParsedUrl};

#[test]
fn test_parse_url() {
    let url = parse_url("http://example.com/path").unwrap();
    assert_eq!(url.scheme, "http");
    assert_eq!(url.host, "example.com");
    assert_eq!(url.port, None);
    assert_eq!(url.path, "/path");

    let url = parse_url("https://example.com:8080/").unwrap();
    assert_eq!(url.scheme, "https");
    assert_eq!(url.host, "example.com");
    assert_eq!(url.port, Some(8080));
    assert_eq!(url.path, "/");
}

#[test]
fn parse_url_errors() {
    let err = parse_url("ftp://example.com").unwrap_err();
    assert_eq!(err.code, ErrorCode::E501);
    assert_eq!(err.message, "Parse error: Unsupported URL scheme");
    let err = parse_url("http://example.com:99999/").unwrap_err();
    assert_eq!(err.message, "Parse error: Invalid port number");
    let err = parse_url("http://example.com:/").unwrap_err();
    assert_eq!(err.message, "Parse error: Invalid port number");
    let err = parse_url("http://example.com:80x/").unwrap_err();
    assert_eq!(err.message, "Parse error: Invalid port number");
}

#[test]
fn parse_url_edges() {
    let url = parse_url("http://example.com").unwrap();
    assert_eq!(url.host, "example.com");
    assert_eq!(url.path, "/");
    let url = parse_url("http://example.com:65535/a/b?c=d").unwrap();
    assert_eq!(url.port, Some(65535));
    assert_eq!(url.path, "/a/b?c=d");
    let url = parse_url("http://example.com:+80/").unwrap();
    assert_eq!(url.port, Some(80));
    let url = parse_url("http://h/p:q").unwrap();
    assert_eq!(url.host, "h");
    assert_eq!(url.port, None);
    assert_eq!(url.path, "/p:q");
    let url = parse_http_url("a:1:2/x", "http");
    assert!(url.is_err());
}

#[test]
fn request_text_names_path_and_host() {
    let url = parse_url("http://example.com/file").unwrap();
    assert_eq!(
        request_text(&url),
        "GET /file HTTP/1.1\r\nHost: example.com\r\nConnection: close\r\nUser-Agent: RuGet/1.0\r\n\r\n"
    );
}

#[test]
fn test_parse_url_fast() {
    let url = parse_url_fast("https://example.com:8080/path/to/file").unwrap();
    assert_eq!(url.scheme, "https");
    assert_eq!(url.host, "example.com");
    assert_eq!(url.port, Some(8080));
    assert_eq!(url.path, "/path/to/file");

    let url = parse_url_fast("http://example.com/").unwrap();
    assert_eq!(url.scheme, "http");
    assert_eq!(url.host, "example.com");
    assert_eq!(url.port, None);
    assert_eq!(url.path, "/");
}

#[test]
fn parse_url_fast_takes_the_last_colon() {
    let url = parse_url_fast("http://a:b:81/x").unwrap();
    assert_eq!(url.host, "a:b");
    assert_eq!(url.port, Some(81));
    let err = parse_url_fast("gopher://example.com").unwrap_err();
    assert_eq!(err.message, "Parse error: Unsupported URL scheme");
    let err = parse_url_fast("https://example.com:port/").unwrap_err();
    assert_eq!(err.message, "Parse error: Invalid port");
    let url = parse_url_fast("https://example.com").unwrap();
    assert_eq!(url.path, "/");
}

#[test]
fn test_host_with_port() {
    let url = ParsedUrl {
        scheme: "https".to_string(),
        host: "example.com".to_string(),
        port: Some(8080),
        path: "/".to_string(),
    };
    assert_eq!(url.host_with_port(), "example.com:8080");

    let url = ParsedUrl {
        scheme: "https".to_string(),
        host: "example.com".to_string(),
        port: None,
        path: "/".to_string(),
    };
    assert_eq!(url.host_with_port(), "example.com");
}
