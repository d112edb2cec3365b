use reqwest::header::{HeaderMap, HeaderName};
use ruget::fetch::status_label;
use ruget::headers::{set_header, SetOutcome};
use ruget::http::basic_auth_value;
use std::str::FromStr;

#[test]
fn plain_header_names_are_their_own_canonical_form() {
    let alphabet: Vec<char> = "abcdefghijklmnopqrstuvwxyz-".chars().collect();
    for len in 1..=64usize {
        for shift in 0..alphabet.len() {
            let name: String = (0..len).map(|i| alphabet[(i * 7 + shift) % alphabet.len()]).collect();
            let parsed = HeaderName::from_str(&name).unwrap();
            assert_eq!(parsed.as_str(), name);
            let mut map = HeaderMap::new();
            assert_eq!(set_header(&mut map, &name, "v"), SetOutcome::Stored);
            assert!(map.contains_key(name.as_str()));
        }
    }
    for name in ["authorization", "range", "accept-ranges", "content-length"] {
        assert_eq!(HeaderName::from_str(name).unwrap().as_str(), name);
    }
}

#[test]
fn a_status_has_a_text_exactly_between_100_and_999() {
    for code in 0..=u16::MAX {
        let label = status_label(code);
        if (100..=999).contains(&code) {
            assert!(label.starts_with(&format!("{} ", code)), "{}", label);
        } else {
            assert_eq!(label, code.to_string());
        }
    }
}

#[test]
fn basic_auth_values_are_made_of_the_base64_alphabet() {
    let mut seed: u32 = 12345;
    for len in 0..200usize {
        let login: String = (0..len)
            .map(|_| {
                seed = seed.wrapping_mul(1664525).wrapping_add(1013904223);
                char::from_u32(0x20 + (seed >> 16) % 0x2000).unwrap_or('x')
            })
            .collect();
        let value = basic_auth_value(&login, "p\u{e9}").unwrap();
        let encoded = value.strip_prefix("Basic ").unwrap();
        assert!(encoded
            .chars()
            .all(|c| c.is_ascii_alphanumeric() || c == '+' || c == '/' || c == '='));
        assert_eq!(encoded.len() % 4, 0);
    }
}

fn canonical_by_the_rule(name: &str) -> Option<String> {
    let allowed = |c: char| c.is_ascii_alphanumeric() || "!#$%&'*+-.^_`|~".contains(c);
    let count = name.chars().count();
    if (1..=65535).contains(&count) && name.chars().all(allowed) {
        Some(name.to_ascii_lowercase())
    } else {
        None
    }
}

#[test]
fn header_names_are_what_the_rule_says() {
    let mut names: Vec<String> = Vec::new();
    for code in 0u32..300 {
        let c = char::from_u32(code).unwrap();
        names.push(c.to_string());
        names.push(format!("X-{}-Y", c));
        names.push(format!("{}{}", "a".repeat(64), c));
    }
    for len in [0usize, 1, 63, 64, 65, 66, 1000, 65534, 65535, 65536, 70000] {
        names.push("Ab-".repeat(len / 3 + 1)[..len].to_string());
    }
    names.push("\u{e9}".repeat(3));
    for name in names {
        let parsed = HeaderName::from_str(&name).ok().map(|n| n.as_str().to_string());
        assert_eq!(parsed, canonical_by_the_rule(&name), "{:?}", &name[..name.len().min(80)]);
        let mut map = HeaderMap::new();
        let stored = set_header(&mut map, &name, "v") == SetOutcome::Stored;
        assert_eq!(stored, parsed.is_some());
        if let Some(canonical) = parsed {
            assert!(map.contains_key(canonical.as_str()));
        }
    }
}
