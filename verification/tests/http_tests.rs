use reqwest::header::{HeaderMap, HeaderValue};
use ruget::fetch::ByteRange;
use ruget::headers::{has_header_room, is_valid_header_value, set_header, SetOutcome, HEADER_ROOM};
use ruget::http::{
    add_netrc_auth, all_ascii, apply_netrc_auth, basic_auth_value, build_headers,
    extract_filename_from_disposition, filename_in_disposition, final_filename, find_credentials,
    get_fallback_filename, lookup_credentials, netrc_host, request_headers, set_range_header,
    AuthOutcome, NetrcEntry,
};

#[test]
fn test_fallback_filename() {
    assert_eq!(get_fallback_filename("https://example.com/file.txt"), "file.txt");
    assert_eq!(get_fallback_filename("https://example.com/"), "download.bin");
    assert_eq!(get_fallback_filename("https://example.com"), "download.bin");
}

#[test]
fn fallback_filename_edges() {
    assert_eq!(get_fallback_filename("https://example.com/archive.tar.gz"), "archive.tar.gz");
    assert_eq!(get_fallback_filename("https://example.com/noext"), "download.bin");
    assert_eq!(get_fallback_filename("https://example.com/a.toolong"), "download.bin");
    assert_eq!(get_fallback_filename("https://example.com/a.t-t"), "download.bin");
    assert_eq!(get_fallback_filename("https://example.com/a."), "download.bin");
    assert_eq!(get_fallback_filename("https://example.org"), "download.bin");
    assert_eq!(get_fallback_filename("https://example.com/x.museum"), "download.bin");
    assert_eq!(get_fallback_filename("plain.txt"), "plain.txt");
    assert_eq!(get_fallback_filename(""), "download.bin");
    assert_eq!(get_fallback_filename("https://example.com/a.abcde"), "a.abcde");
    // the extension is measured in bytes
    assert_eq!(get_fallback_filename("https://example.com/a.ééé"), "download.bin");
    assert_eq!(get_fallback_filename("https://example.com/a.éé"), "a.éé");
    assert_eq!(get_fallback_filename("https://example.com/f.txt?x=1"), "download.bin");
}

#[test]
fn test_extract_filename_from_disposition() {
    let header = HeaderValue::from_static(r#"attachment; filename="test.txt""#);
    assert_eq!(extract_filename_from_disposition(Some(&header)), Some("test.txt".to_string()));

    let header = HeaderValue::from_static(r#"attachment; filename=test.txt"#);
    assert_eq!(extract_filename_from_disposition(Some(&header)), Some("test.txt".to_string()));
}

#[test]
fn disposition_without_a_name_gives_none() {
    assert_eq!(extract_filename_from_disposition(None), None);
    let header = HeaderValue::from_static("inline");
    assert_eq!(extract_filename_from_disposition(Some(&header)), None);
    let opaque = HeaderValue::from_bytes(b"attachment; filename=\xff.txt").unwrap();
    assert_eq!(extract_filename_from_disposition(Some(&opaque)), None);
    assert_eq!(filename_in_disposition("filename=\"\""), None);
    assert_eq!(filename_in_disposition("x; filename=\"a b.txt\"; y"), Some("a b.txt".to_string()));
    assert_eq!(final_filename(Some("s.bin".to_string()), "https://h/f.txt"), "s.bin");
    assert_eq!(final_filename(None, "https://h/f.txt"), "f.txt");
}

#[test]
fn disposition_is_read_as_text_exactly_when_it_is_visible_ascii() {
    for byte in 0u8..=255 {
        let mut bytes = b"attachment; filename=a".to_vec();
        bytes.push(byte);
        bytes.extend_from_slice(b"z.txt");
        let value = match HeaderValue::from_bytes(&bytes) {
            Ok(value) => value,
            Err(_) => continue,
        };
        let visible = byte == 9 || (32..127).contains(&byte);
        let found = extract_filename_from_disposition(Some(&value));
        if !visible {
            assert_eq!(found, None, "byte {}", byte);
        } else if byte == b'"' {
            assert_eq!(found, Some("a".to_string()));
        } else {
            let text = String::from_utf8(bytes.clone()).unwrap();
            let name = text.strip_prefix("attachment; filename=").unwrap().to_string();
            assert_eq!(found, Some(name.clone()), "byte {}", byte);
            assert_eq!(filename_in_disposition(&text), Some(name));
        }
    }
}

fn strings(items: &[&str]) -> Vec<String> {
    items.iter().map(|s| s.to_string()).collect()
}

#[test]
fn headers_are_built_from_valid_arguments() {
    let args = strings(&[
        "User-Agent: RuGet/1.0",
        "no colon here",
        "Bad Name: x",
        "X-Bad: a\u{7f}b",
        "  Accept :  */*  ",
        "user-agent: second",
        "X-Time: 12:30",
    ]);
    let built = build_headers(&args);
    assert_eq!(built.headers.len(), 3);
    assert_eq!(built.headers.get("user-agent").unwrap(), "second");
    assert_eq!(built.headers.get("accept").unwrap(), "*/*");
    assert_eq!(built.headers.get("x-time").unwrap(), "12:30");
    assert_eq!(
        built.warnings,
        strings(&["Invalid header name: Bad Name", "Invalid header value: a\u{7f}b"])
    );
    assert_eq!(built.refused_at, None);
    let none = build_headers(&[]);
    assert!(none.headers.is_empty());
    assert!(none.warnings.is_empty());
    assert_eq!(none.refused_at, None);
}

#[test]
fn as_many_arguments_as_the_map_has_room_for_are_all_taken() {
    let mut args: Vec<String> = (0..HEADER_ROOM).map(|i| format!("x-{}: {}", i, i)).collect();
    args.push("bad name: x".to_string());
    args.push("x-0: again".to_string());
    let built = build_headers(&args[..HEADER_ROOM]);
    assert_eq!(built.refused_at, None);
    assert_eq!(built.headers.keys_len(), HEADER_ROOM);
    let built = build_headers(&args);
    assert_eq!(built.refused_at, None);
    assert_eq!(built.headers.keys_len(), HEADER_ROOM);
    assert_eq!(built.headers.get("x-0").unwrap(), "again");
    assert_eq!(built.headers.get("x-6553").unwrap(), "6553");
    assert_eq!(built.warnings, strings(&["Invalid header name: bad name"]));
}

#[test]
fn set_header_checks_name_then_value() {
    let mut map = HeaderMap::new();
    assert_eq!(set_header(&mut map, "X-One", "1"), SetOutcome::Stored);
    assert_eq!(set_header(&mut map, "x-one", "2"), SetOutcome::Stored);
    assert_eq!(map.len(), 1);
    assert_eq!(map.get("x-one").unwrap(), "2");
    assert_eq!(set_header(&mut map, "bad name", "\n"), SetOutcome::InvalidName);
    assert_eq!(set_header(&mut map, "", "v"), SetOutcome::InvalidName);
    assert_eq!(set_header(&mut map, "x-two", "a\nb"), SetOutcome::InvalidValue);
    assert_eq!(set_header(&mut map, "x-utf8", "héllo\tworld"), SetOutcome::Stored);
    assert_eq!(map.get("x-utf8").unwrap().as_bytes(), "héllo\tworld".as_bytes());
    assert_eq!(map.len(), 2);
    assert!(is_valid_header_value(""));
    assert!(is_valid_header_value("a\tb ~"));
    assert!(!is_valid_header_value("a\u{0}"));
    assert!(!is_valid_header_value("\u{1f}"));
    assert!(!is_valid_header_value("\u{7f}"));
    assert!(is_valid_header_value("\u{80}"));
}

#[test]
fn a_map_has_room_below_the_limit_of_names() {
    let mut map = HeaderMap::new();
    assert!(has_header_room(&map));
    for i in 0..HEADER_ROOM {
        assert!(has_header_room(&map));
        assert_eq!(set_header(&mut map, &format!("x-{}", i), "v"), SetOutcome::Stored);
    }
    assert_eq!(map.keys_len(), HEADER_ROOM);
    assert!(!has_header_room(&map));
    assert_eq!(set_header(&mut map, "x-0", "w"), SetOutcome::Stored);
    assert_eq!(map.keys_len(), HEADER_ROOM);
}

#[test]
fn header_values_are_valid_exactly_when_the_map_takes_them() {
    for code in 0u32..300 {
        let c = char::from_u32(code).unwrap();
        let text = format!("a{}b", c);
        assert_eq!(is_valid_header_value(&text), HeaderValue::from_str(&text).is_ok());
    }
}

#[test]
fn range_header_is_set_for_partial_requests() {
    let mut map = HeaderMap::new();
    assert!(set_range_header(&mut map, ByteRange::Whole));
    assert!(map.is_empty());
    assert!(set_range_header(&mut map, ByteRange::Between(250, 499)));
    assert_eq!(map.get("range").unwrap(), "bytes=250-499");
    assert!(set_range_header(&mut map, ByteRange::From(400)));
    assert_eq!(map.get("range").unwrap(), "bytes=400-");
    assert_eq!(map.len(), 1);
}

const NETRC: &[u8] = b"machine example.com login alice password s3cret\nmachine empty.com login bob\nmachine example.com login other password pw\nmachine nologin.com password x\n";

#[test]
fn credentials_are_those_of_the_first_entry_for_the_host() {
    assert_eq!(
        lookup_credentials(Some(NETRC), "example.com"),
        Some(("alice".to_string(), "s3cret".to_string()))
    );
    assert_eq!(lookup_credentials(Some(NETRC), "empty.com"), None);
    assert_eq!(lookup_credentials(Some(NETRC), "nologin.com"), None);
    assert_eq!(lookup_credentials(Some(NETRC), "unknown.com"), None);
    assert_eq!(lookup_credentials(None, "example.com"), None);
    assert_eq!(lookup_credentials(Some(b"bogus entry"), "example.com"), None);
    // contents that are not ASCII are not read
    let wide = "machine example.com login a\u{e9} password s3cret\n".as_bytes();
    assert_eq!(lookup_credentials(Some(wide), "example.com"), None);
    assert_eq!(lookup_credentials(Some(b"machine example.com login a\xff password p"), "example.com"), None);
    assert!(all_ascii(b"plain text\n"));
    assert!(all_ascii(b""));
    assert!(!all_ascii(wide));
    let entries = vec![
        NetrcEntry { host: "h".to_string(), login: "u".to_string(), password: Some("".to_string()) },
        NetrcEntry { host: "h".to_string(), login: "u".to_string(), password: Some("p".to_string()) },
        NetrcEntry { host: "g".to_string(), login: "v".to_string(), password: Some("q".to_string()) },
    ];
    assert_eq!(find_credentials(&entries, "h"), None);
    assert_eq!(find_credentials(&entries, "g"), Some(("v".to_string(), "q".to_string())));
    assert_eq!(find_credentials(&[], "g"), None);
}

#[test]
fn basic_auth_is_base64_of_login_and_password() {
    assert_eq!(basic_auth_value("alice", "s3cret"), Some("Basic YWxpY2U6czNjcmV0".to_string()));
    assert_eq!(basic_auth_value("a", "b"), Some("Basic YTpi".to_string()));
}

#[test]
fn netrc_auth_is_added_unless_the_user_set_one() {
    let mut map = HeaderMap::new();
    let outcome = add_netrc_auth(&mut map, "https://example.com/file", Some(NETRC)).unwrap();
    assert_eq!(outcome, AuthOutcome::Added);
    assert_eq!(map.get("authorization").unwrap(), "Basic YWxpY2U6czNjcmV0");

    let mut user = HeaderMap::new();
    user.insert("authorization", HeaderValue::from_static("Bearer token"));
    let outcome = add_netrc_auth(&mut user, "https://example.com/file", Some(NETRC)).unwrap();
    assert_eq!(outcome, AuthOutcome::KeptUserHeader);
    assert_eq!(user.get("authorization").unwrap(), "Bearer token");

    let mut other = HeaderMap::new();
    let outcome = add_netrc_auth(&mut other, "https://unknown.com/file", Some(NETRC)).unwrap();
    assert_eq!(outcome, AuthOutcome::NoCredentials);
    assert!(other.is_empty());
    assert_eq!(
        add_netrc_auth(&mut other, "https://example.com/file", None).unwrap(),
        AuthOutcome::NoCredentials
    );
    assert_eq!(
        add_netrc_auth(&mut other, "data:text/plain,x", Some(NETRC)).unwrap(),
        AuthOutcome::NoHost
    );
    assert!(other.is_empty());
    assert_eq!(apply_netrc_auth(&mut other, "example.com", Some(NETRC)), AuthOutcome::Added);
}

#[test]
fn a_text_that_is_no_url_is_a_parse_error() {
    let mut map = HeaderMap::new();
    let err = add_netrc_auth(&mut map, "not a url", Some(NETRC)).unwrap_err();
    assert_eq!(err.code, ruget::error::ErrorCode::E501);
    assert!(err.message.starts_with("parsing URL for netrc auth: not a url: URL parse error: "));
    assert!(map.is_empty());
    assert_eq!(netrc_host("https://Example.COM:8443/x").unwrap(), Some("example.com".to_string()));
    assert_eq!(netrc_host("unix:/run/foo.socket").unwrap(), None);
    assert!(netrc_host("").is_err());
}

#[test]
fn request_headers_are_custom_headers_then_credentials_then_range() {
    let args = strings(&["Accept: */*", "bad name: x"]);
    let built =
        request_headers(&args, "https://example.com/f", Some(NETRC), ByteRange::Between(0, 249))
            .unwrap();
    assert!(built.complete);
    assert_eq!(built.auth, AuthOutcome::Added);
    assert_eq!(built.warnings, strings(&["Invalid header name: bad name"]));
    assert_eq!(built.headers.len(), 3);
    assert_eq!(built.headers.get("accept").unwrap(), "*/*");
    assert_eq!(built.headers.get("authorization").unwrap(), "Basic YWxpY2U6czNjcmV0");
    assert_eq!(built.headers.get("range").unwrap(), "bytes=0-249");

    let args = strings(&["Authorization: Bearer t", "Range: bytes=5-"]);
    let built =
        request_headers(&args, "https://example.com/f", Some(NETRC), ByteRange::From(400)).unwrap();
    assert!(built.complete);
    assert_eq!(built.auth, AuthOutcome::KeptUserHeader);
    assert_eq!(built.headers.get("authorization").unwrap(), "Bearer t");
    assert_eq!(built.headers.get("range").unwrap(), "bytes=400-");
    assert_eq!(built.headers.len(), 2);

    let built = request_headers(&[], "data:text/plain,x", Some(NETRC), ByteRange::Whole).unwrap();
    assert!(built.complete);
    assert_eq!(built.auth, AuthOutcome::NoHost);
    assert!(built.headers.is_empty());
    let built = request_headers(&[], "https://other.com/", None, ByteRange::Whole).unwrap();
    assert_eq!(built.auth, AuthOutcome::NoCredentials);
    assert!(built.headers.is_empty());

    let err = request_headers(&args, "no url", Some(NETRC), ByteRange::Whole).unwrap_err();
    assert_eq!(err.code, ruget::error::ErrorCode::E501);
    assert!(err.message.starts_with("parsing URL for netrc auth: no url: URL parse error: "));
}
