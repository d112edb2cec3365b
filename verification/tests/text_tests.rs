use ruget::init::{
    already_exists_message, config_path, created_message, home_not_set_error, netrc_path,
    write_failed_error,
};
use ruget::retry::classify_transient;
use ruget::text::{
    chars_contain, chars_eq, chars_match_at, chars_of, chars_start_with, concat2, concat3,
    decimal_string, find_char, find_chars, parse_hex, parse_unsigned, push_decimal, rfind_char,
    str_eq, string_of, trim_range,
};

fn chars(s: &str) -> Vec<char> {
    s.chars().collect()
}

#[test]
fn characters_of_a_string() {
    assert_eq!(chars_of("héllo"), chars("héllo"));
    assert!(chars_of("").is_empty());
    assert!(chars_eq(&chars("abc"), &chars("abc")));
    assert!(!chars_eq(&chars("abc"), &chars("abd")));
    assert!(!chars_eq(&chars("abc"), &chars("ab")));
    assert!(str_eq("", ""));
    assert!(str_eq("ruget", "ruget"));
    assert!(!str_eq("ruget", "Ruget"));
}

#[test]
fn searching_characters() {
    let hay = chars("banana");
    assert_eq!(find_chars(&hay, &chars("ana")), Some(1));
    assert_eq!(find_chars(&hay, &chars("nab")), None);
    assert_eq!(find_chars(&hay, &chars("")), Some(0));
    assert_eq!(find_chars(&hay, &chars("banana")), Some(0));
    assert_eq!(find_chars(&hay, &chars("bananas")), None);
    assert_eq!(find_chars(&hay, &chars("a")), Some(1));
    assert_eq!(find_chars(&chars(""), &chars("")), Some(0));
    assert!(chars_match_at(&hay, &chars("nan"), 2));
    assert!(!chars_match_at(&hay, &chars("nan"), 3));
    assert!(!chars_match_at(&hay, &chars("na"), 5));
    assert!(chars_match_at(&hay, &chars(""), 6));
    assert!(!chars_match_at(&hay, &chars(""), 7));
    assert!(chars_start_with(&hay, &chars("ban")));
    assert!(chars_start_with(&hay, &chars("")));
    assert!(!chars_start_with(&hay, &chars("an")));
    assert!(chars_contain(&hay, 'n'));
    assert!(!chars_contain(&hay, 'x'));
    assert_eq!(find_char(&hay, 'a'), Some(1));
    assert_eq!(rfind_char(&hay, 'a'), Some(5));
    assert_eq!(find_char(&hay, 'x'), None);
    assert_eq!(rfind_char(&hay, 'x'), None);
    assert_eq!(rfind_char(&hay, 'b'), Some(0));
}

#[test]
fn decimal_notation() {
    assert_eq!(decimal_string(0), "0");
    assert_eq!(decimal_string(7), "7");
    assert_eq!(decimal_string(10), "10");
    assert_eq!(decimal_string(1003), "1003");
    assert_eq!(decimal_string(u64::MAX), "18446744073709551615");
    let mut s = String::from("n=");
    push_decimal(&mut s, 42);
    assert_eq!(s, "n=42");
    assert_eq!(concat2("ab", "cd"), "abcd");
    assert_eq!(concat3("a", "", "c"), "ac");
    assert_eq!(string_of(&chars("hello"), 1, 3), "el");
    assert_eq!(string_of(&chars("hello"), 2, 2), "");
}

#[test]
fn trimming() {
    let s = chars("  \t a b \r\n");
    assert_eq!(trim_range(&s), (4, 7));
    let all = chars(" \u{a0}\u{3000} ");
    let (from, to) = trim_range(&all);
    assert_eq!(from, to);
    assert_eq!(trim_range(&chars("")), (0, 0));
    assert_eq!(trim_range(&chars("x")), (0, 1));
}

#[test]
fn parsing_numbers() {
    assert_eq!(parse_unsigned(&chars("0"), 10), Some(0));
    assert_eq!(parse_unsigned(&chars("007"), 10), Some(7));
    assert_eq!(parse_unsigned(&chars("10"), 10), Some(10));
    assert_eq!(parse_unsigned(&chars("11"), 10), None);
    assert_eq!(parse_unsigned(&chars("+5"), 10), Some(5));
    assert_eq!(parse_unsigned(&chars("++5"), 10), None);
    assert_eq!(parse_unsigned(&chars("5+"), 10), None);
    assert_eq!(parse_unsigned(&chars(""), 10), None);
    assert_eq!(parse_unsigned(&chars("+"), 10), None);
    assert_eq!(parse_unsigned(&chars("-5"), 10), None);
    assert_eq!(parse_unsigned(&chars(" 5"), 10), None);
    assert_eq!(parse_unsigned(&chars("٣"), 10), None);
    assert_eq!(parse_unsigned(&chars("18446744073709551615"), u64::MAX), Some(u64::MAX));
    assert_eq!(parse_unsigned(&chars("18446744073709551616"), u64::MAX), None);
    assert_eq!(parse_unsigned(&chars("65535"), 65535), Some(65535));
    assert_eq!(parse_unsigned(&chars("65536"), 65535), None);
    assert_eq!(parse_unsigned(&chars("5"), 0), None);
    assert_eq!(parse_unsigned(&chars("0"), 0), Some(0));
    assert_eq!(parse_hex(&chars("ff"), 255), Some(255));
    assert_eq!(parse_hex(&chars("100"), 255), None);
    assert_eq!(parse_hex(&chars("aBcD"), 0xffff), Some(0xabcd));
    assert_eq!(parse_hex(&chars("ffffffffffffffff"), u64::MAX), Some(u64::MAX));
    assert_eq!(parse_hex(&chars("10000000000000000"), u64::MAX), None);
    assert_eq!(parse_hex(&chars("g"), u64::MAX), None);
    assert_eq!(parse_hex(&chars(""), u64::MAX), None);
}

#[test]
fn configuration_file_paths_and_messages() {
    assert_eq!(config_path("/home/u"), "/home/u/.rugetrc");
    assert_eq!(netrc_path("/home/u"), "/home/u/.netrc");
    let e = home_not_set_error();
    assert_eq!(e.code, ruget::error::ErrorCode::E300);
    assert_eq!(e.message, "Configuration error: HOME environment variable not set");
    let e = write_failed_error("/p/.rugetrc", "denied");
    assert_eq!(
        e.message,
        "Configuration error: Failed to write config file /p/.rugetrc: denied"
    );
    assert_eq!(
        already_exists_message("/p/.rugetrc"),
        "Configuration file already exists at /p/.rugetrc"
    );
    assert_eq!(created_message("/p/.rugetrc"), "Created configuration template at /p/.rugetrc");
}

fn samples() -> Vec<String> {
    let pieces = [
        "", " ", "\t", "\r\n", "\u{a0}", "\u{3000}", "\u{85}", "0", "7", "42", "+", "-", "+9",
        "007", "18446744073709551615", "18446744073709551616", "a", "F", "g", "é", "x y",
        "\u{200b}", "１２",
    ];
    let mut out = Vec::new();
    for a in pieces {
        for b in pieces {
            for c in ["", " ", "1"] {
                out.push(format!("{}{}{}", a, b, c));
            }
        }
    }
    out
}

#[test]
fn trimming_agrees_with_the_standard_library() {
    for s in samples() {
        let cs = chars(&s);
        let (from, to) = trim_range(&cs);
        assert_eq!(string_of(&cs, from, to), s.trim(), "{:?}", s);
    }
}

#[test]
fn parsing_agrees_with_the_standard_library() {
    for s in samples() {
        let cs = chars(&s);
        assert_eq!(parse_unsigned(&cs, u64::MAX), s.parse::<u64>().ok(), "{:?}", s);
        assert_eq!(
            parse_unsigned(&cs, 65535),
            s.parse::<u16>().ok().map(|v| v as u64),
            "{:?}",
            s
        );
        assert_eq!(parse_hex(&cs, u64::MAX), u64::from_str_radix(&s, 16).ok(), "{:?}", s);
        assert_eq!(
            parse_hex(&cs, 255),
            u8::from_str_radix(&s, 16).ok().map(|v| v as u64),
            "{:?}",
            s
        );
    }
}

#[test]
fn searching_agrees_with_the_standard_library() {
    let hays = ["", "a", "ab", "aab", "abab", "banana", "é/é.é", "a/b/c", "..", "x.y.z"];
    let needles = ["", "a", "b", "ab", "ba", "ana", "é", "/", "."];
    for hay in hays {
        let h = chars(hay);
        for needle in needles {
            let n = chars(needle);
            let expected = hay.find(needle).map(|byte| hay[..byte].chars().count());
            assert_eq!(find_chars(&h, &n), expected, "{:?} in {:?}", needle, hay);
            assert_eq!(chars_start_with(&h, &n), hay.starts_with(needle));
        }
        for c in ['a', '/', '.', 'é', 'z'] {
            assert_eq!(find_char(&h, c), h.iter().position(|x| *x == c));
            assert_eq!(rfind_char(&h, c), h.iter().rposition(|x| *x == c));
            assert_eq!(chars_contain(&h, c), hay.contains(c));
        }
    }
}

#[test]
fn whitespace_agrees_with_the_standard_library_on_every_character() {
    for code in 0u32..=0x10ffff {
        if let Some(c) = char::from_u32(code) {
            assert_eq!(ruget::text::char_is_whitespace(c), c.is_whitespace(), "U+{:04X}", code);
        }
    }
}

#[test]
fn lowercase_of_ascii_text_replaces_capital_letters_only() {
    for code in 0u32..128 {
        let c = char::from_u32(code).unwrap();
        let text = format!("{}BROKEN Pipe{}", c, c);
        assert!(classify_transient(false, false, None, Some(&text)), "{:?}", text);
        let close = format!("BROKEN{}PIPE", c);
        assert_eq!(classify_transient(false, false, None, Some(&close)), c == ' ', "{:?}", close);
    }
    // the Kelvin sign is no ASCII character; its lowercase form is the letter k
    assert!(classify_transient(false, false, None, Some("BRO\u{212a}EN PIPE")));
    assert_eq!(ruget::config::level_named("DEBUG"), Some(ruget::cli::LogLevel::Debug));
    assert_eq!(ruget::config::level_named("D\u{c9}BUG"), None);
}

#[test]
fn ascii_characters_are_alphanumeric_if_letters_or_digits() {
    for code in 0u32..128 {
        let c = char::from_u32(code).unwrap();
        if c == '/' || c == '.' {
            continue;
        }
        let url = format!("https://example.com/file.q{}", c);
        let expected = if c.is_ascii_alphanumeric() {
            format!("file.q{}", c)
        } else {
            "download.bin".to_string()
        };
        assert_eq!(ruget::http::get_fallback_filename(&url), expected, "{:?}", url);
    }
    assert_eq!(ruget::http::get_fallback_filename("https://h/f.\u{663}"), "f.\u{663}");
    assert_eq!(ruget::http::get_fallback_filename("https://h/f.\u{2014}"), "download.bin");
}
