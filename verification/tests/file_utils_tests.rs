use ruget::file_utils::{download_cmd, parse_url_lines};

#[test]
fn test_download_cmd_ruget() {
    let cmd = download_cmd("ruget", "https://example.com/file.txt", "output.txt").unwrap();
    assert_eq!(
        cmd,
        "\"$RUGET_BIN\" \"https://example.com/file.txt\" --output \"output.txt\" --quiet"
    );
}

#[test]
fn test_download_cmd_curl() {
    let cmd = download_cmd("curl", "https://example.com/file.txt", "output.txt").unwrap();
    assert_eq!(cmd, "\"$CURL_BIN\" -s -o \"output.txt\" \"https://example.com/file.txt\"");
}

#[test]
fn test_download_cmd_wget() {
    let cmd = download_cmd("wget", "https://example.com/file.txt", "output.txt").unwrap();
    assert_eq!(cmd, "\"$WGET_BIN\" -q -O \"output.txt\" \"https://example.com/file.txt\"");
}

#[test]
fn test_download_cmd_unknown_tool() {
    let result = download_cmd("unknown", "https://example.com/file.txt", "output.txt");
    assert!(result.is_err());
    assert!(result.unwrap_err().to_string().contains("Unknown tool 'unknown'"));
}

#[test]
fn download_cmd_unknown_tool_is_a_parse_error() {
    let err = download_cmd("aria2", "u", "f").unwrap_err();
    assert_eq!(err.code, ruget::error::ErrorCode::E501);
    assert_eq!(
        err.to_string(),
        "E501: Parse error: Unknown tool 'aria2'. Supported tools: ruget, curl, wget"
    );
}

#[test]
fn test_download_cmd_with_special_characters() {
    let cmd =
        download_cmd("curl", "https://example.com/file with spaces.txt", "output file.txt").unwrap();
    assert_eq!(
        cmd,
        "\"$CURL_BIN\" -s -o \"output file.txt\" \"https://example.com/file with spaces.txt\""
    );
}

#[test]
fn test_load_urls_from_file() {
    let contents = "https://example.com/file1.txt\n# This is a comment\n\nhttps://example.com/file2.txt\n  https://example.com/file3.txt  \n";
    let urls = parse_url_lines(contents);
    assert_eq!(urls.len(), 3);
    assert_eq!(urls[0], "https://example.com/file1.txt");
    assert_eq!(urls[1], "https://example.com/file2.txt");
    assert_eq!(urls[2], "https://example.com/file3.txt");
}

#[test]
fn url_lines_handle_carriage_returns_and_a_last_line_without_break() {
    let urls = parse_url_lines("a\r\n\t# note\r\nb");
    assert_eq!(urls, vec!["a".to_string(), "b".to_string()]);
    assert!(parse_url_lines("").is_empty());
    assert!(parse_url_lines("\n\n   \n").is_empty());
}
