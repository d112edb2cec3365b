use ruget::file_utils::parse_url_lines;
use ruget::http::get_fallback_filename;
use ruget::minimal_http::parse_url;
use ruget::native_http::parse_url_fast;
use ruget::simd_ops::{extract_content_length, find_pattern_simd};
use ruget::ultimate_fast::{extract_domain, is_simple_domain};

fn combos(pieces: &[&str], depth: usize) -> Vec<String> {
    let mut out = vec![String::new()];
    for _ in 0..depth {
        let mut next = Vec::new();
        for prefix in &out {
            for p in pieces {
                next.push(format!("{}{}", prefix, p));
            }
        }
        out.extend(next);
        out.sort();
        out.dedup();
    }
    out
}

fn fallback_by_std(url: &str) -> String {
    let last_segment = url.split('/').last().filter(|s| !s.is_empty()).unwrap_or("download.bin");
    if last_segment.contains('.') {
        if let Some(dot_pos) = last_segment.rfind('.') {
            let extension = &last_segment[dot_pos + 1..];
            if extension.len() >= 1
                && extension.len() <= 5
                && extension.chars().all(|c| c.is_alphanumeric())
            {
                let common = [
                    "com", "org", "net", "edu", "gov", "mil", "int", "co", "uk", "ca", "au", "de",
                    "fr", "jp", "cn", "ru", "br", "in", "it", "es", "nl", "se", "no", "fi", "dk",
                    "pl", "be", "ch", "at", "cz", "hu", "ie", "pt", "gr", "bg", "ro", "hr", "si",
                    "sk", "lt", "lv", "ee", "is", "mt", "cy", "lu", "mc", "li", "ad", "sm", "va",
                    "tv", "cc", "tk", "ml", "ga", "cf", "biz", "info", "name", "pro", "aero",
                    "coop", "museum",
                ];
                if !common.contains(&extension) {
                    return last_segment.to_string();
                }
            }
        }
    }
    "download.bin".to_string()
}

#[test]
fn fallback_filename_agrees_with_the_direct_formulation() {
    let pieces = ["/", ".", "a", "com", "txt", "é", "-", "museum", "abcdef", "1", "?"];
    for url in combos(&pieces, 4) {
        assert_eq!(get_fallback_filename(&url), fallback_by_std(&url), "{:?}", url);
    }
}

fn parts_by_splitn(url: &str) -> Option<(String, String, Option<u16>, String)> {
    let (scheme, rest) = if url.starts_with("http://") {
        ("http", &url[7..])
    } else if url.starts_with("https://") {
        ("https", &url[8..])
    } else {
        return None;
    };
    let parts: Vec<&str> = rest.splitn(2, '/').collect();
    let host_port = parts[0];
    let path = if parts.len() > 1 { format!("/{}", parts[1]) } else { "/".to_string() };
    let (host, port) = if host_port.contains(':') {
        let hp: Vec<&str> = host_port.splitn(2, ':').collect();
        (hp[0].to_string(), Some(hp[1].parse::<u16>().ok()?))
    } else {
        (host_port.to_string(), None)
    };
    Some((scheme.to_string(), host, port, path))
}

fn parts_by_find(url: &str) -> Option<(String, String, Option<u16>, String)> {
    let (scheme, rest) = if url.starts_with("https://") {
        ("https", &url[8..])
    } else if url.starts_with("http://") {
        ("http", &url[7..])
    } else {
        return None;
    };
    let (host_port, path) = match rest.find('/') {
        Some(pos) => (&rest[..pos], &rest[pos..]),
        None => (rest, "/"),
    };
    let (host, port) = match host_port.rfind(':') {
        Some(pos) => (&host_port[..pos], Some(host_port[pos + 1..].parse::<u16>().ok()?)),
        None => (host_port, None),
    };
    Some((scheme.to_string(), host.to_string(), port, path.to_string()))
}

#[test]
fn url_parsing_agrees_with_the_direct_formulation() {
    let pieces = [":", "/", "h", "80", "65536", "+1", "é", "x.y"];
    for scheme in ["http://", "https://", "ftp://", "http:/", ""] {
        for rest in combos(&pieces, 4) {
            let url = format!("{}{}", scheme, rest);
            let got = parse_url(&url).ok().map(|u| (u.scheme, u.host, u.port, u.path));
            assert_eq!(got, parts_by_splitn(&url), "{:?}", url);
            let got = parse_url_fast(&url).ok().map(|u| (u.scheme, u.host, u.port, u.path));
            assert_eq!(got, parts_by_find(&url), "{:?}", url);
        }
    }
}

#[test]
fn url_lines_agree_with_the_direct_formulation() {
    let pieces = ["\n", "\r\n", "\r", " ", "#", "a", "b c", "\t", "\u{a0}"];
    for text in combos(&pieces, 4) {
        let expected: Vec<String> = text
            .lines()
            .map(str::trim)
            .filter(|line| !line.is_empty() && !line.starts_with('#'))
            .map(str::to_string)
            .collect();
        assert_eq!(parse_url_lines(&text), expected, "{:?}", text);
    }
}

fn find_by_windows(haystack: &[u8], needle: &[u8]) -> Option<usize> {
    if needle.is_empty() || needle.len() > haystack.len() {
        return None;
    }
    haystack.windows(needle.len()).position(|w| w == needle)
}

fn content_length_by_std(headers: &[u8]) -> Option<usize> {
    let patterns: [&[u8]; 3] = [b"Content-Length:", b"content-length:", b"CONTENT-LENGTH:"];
    for pattern in &patterns {
        if let Some(pos) = find_by_windows(headers, pattern) {
            let after_colon = pos + pattern.len();
            if let Some(line_end) = find_by_windows(&headers[after_colon..], b"\r\n") {
                let value_slice = &headers[after_colon..after_colon + line_end];
                let value_str = std::str::from_utf8(value_slice).ok()?.trim();
                return value_str.parse().ok();
            }
        }
    }
    None
}

#[test]
fn content_length_agrees_with_the_direct_formulation() {
    let pieces = [
        "Content-Length:", "content-length:", "CONTENT-LENGTH:", " 12", "x", "\r\n", "\n", " ",
        "+", "\u{a0}",
    ];
    for text in combos(&pieces, 4) {
        let bytes = text.as_bytes();
        assert_eq!(extract_content_length(bytes), content_length_by_std(bytes), "{:?}", text);
        assert_eq!(find_pattern_simd(bytes, b"\r\n"), find_by_windows(bytes, b"\r\n"));
    }
    let broken = b"Content-Length: \xff1\r\ncontent-length: 5\r\n";
    assert_eq!(extract_content_length(broken), content_length_by_std(broken));
}

#[test]
fn domains_agree_with_the_direct_formulation() {
    let pieces = ["/", ".", "a", "-", "é", "_", "Z9", ":"];
    for scheme in ["https://", "http://", "ftp://", ""] {
        for rest in combos(&pieces, 4) {
            let url = format!("{}{}", scheme, rest);
            let domain_part =
                url.strip_prefix("https://").and_then(|s| s.split('/').next()).unwrap_or("");
            let simple = domain_part
                .chars()
                .all(|c| c.is_ascii_alphanumeric() || c == '.' || c == '-')
                && !domain_part.is_empty()
                && domain_part.len() < 100;
            assert_eq!(is_simple_domain(&url), simple, "{:?}", url);
            let domain = url
                .strip_prefix("https://")
                .or_else(|| url.strip_prefix("http://"))
                .and_then(|s| s.split('/').next())
                .unwrap_or("")
                .to_string();
            assert_eq!(extract_domain(&url), domain, "{:?}", url);
        }
    }
}
