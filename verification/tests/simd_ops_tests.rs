use ruget::simd_ops::{
    extract_content_length, fast_memcpy, find_header_end, find_pattern_scalar, find_pattern_simd,
    SIMDBuffer,
};

#[test]
fn test_fast_memcpy() {
    let src = b"Hello, SIMD world!";
    let mut dst = vec![0u8; src.len()];

    fast_memcpy(src, &mut dst);
    assert_eq!(src, dst.as_slice());
}

#[test]
fn test_find_pattern_simd() {
    let haystack = b"HTTP/1.1 200 OK\r\nContent-Length: 42\r\n\r\nHello World";

    assert_eq!(find_pattern_simd(haystack, b"\r\n\r\n"), Some(35));
    assert_eq!(find_pattern_simd(haystack, b"Content-Length:"), Some(17));
    assert_eq!(find_pattern_simd(haystack, b"Not Found"), None);
}

#[test]
fn find_pattern_edges() {
    assert_eq!(find_pattern_simd(b"abc", b""), None);
    assert_eq!(find_pattern_simd(b"", b""), None);
    assert_eq!(find_pattern_simd(b"ab", b"abc"), None);
    assert_eq!(find_pattern_simd(b"abc", b"abc"), Some(0));
    assert_eq!(find_pattern_simd(b"aaab", b"ab"), Some(2));
    assert_eq!(find_pattern_simd(b"abab", b"ab"), Some(0));
    assert_eq!(find_pattern_scalar(b"xxabc", b"c"), Some(4));
    let mut long = vec![b'x'; 100];
    long[77] = b'y';
    assert_eq!(find_pattern_simd(&long, b"y"), Some(77));
}

#[test]
fn header_end_is_the_first_empty_line() {
    assert_eq!(find_header_end(b"HTTP/1.1 200 OK\r\nA: b\r\n\r\nbody\r\n\r\n"), Some(21));
    assert_eq!(find_header_end(b"HTTP/1.1 200 OK\r\nA: b\r\n"), None);
}

#[test]
fn test_extract_content_length() {
    let headers = b"HTTP/1.1 200 OK\r\nContent-Length: 42\r\nConnection: close\r\n";
    assert_eq!(extract_content_length(headers), Some(42));

    let headers = b"HTTP/1.1 200 OK\r\ncontent-length: 1024\r\n";
    assert_eq!(extract_content_length(headers), Some(1024));
}

#[test]
fn content_length_edges() {
    assert_eq!(extract_content_length(b"CONTENT-LENGTH:7\r\n"), Some(7));
    assert_eq!(extract_content_length(b"Content-length: 7\r\n"), None);
    assert_eq!(extract_content_length(b"Content-Length: 7"), None);
    assert_eq!(extract_content_length(b"Content-Length: x\r\ncontent-length: 7\r\n"), None);
    assert_eq!(extract_content_length(b"Content-Length: 7\ncontent-length: 8\r\n"), None);
    assert_eq!(extract_content_length(b"Content-Length: \xff\r\n"), None);
    assert_eq!(extract_content_length(b"Content-Length: +12 \t\r\n"), Some(12));
    assert_eq!(extract_content_length(b"Content-Length: -1\r\n"), None);
    assert_eq!(extract_content_length(b"Content-Length:\r\n"), None);
    assert_eq!(
        extract_content_length(b"Content-Length: 99999999999999999999999999\r\n"),
        None
    );
    assert_eq!(extract_content_length(b"Content-Length: \xc2\xa042\r\n"), Some(42));
}

#[test]
fn test_simd_buffer() {
    let mut buffer = SIMDBuffer::new();
    buffer.append(b"Hello");
    buffer.append(b", ");
    buffer.append(b"SIMD!");

    assert_eq!(buffer.as_slice(), b"Hello, SIMD!");
    assert_eq!(buffer.len(), 12);
}

#[test]
fn simd_buffer_clear_and_mutation() {
    let mut buffer = SIMDBuffer::with_capacity(16);
    assert!(buffer.is_empty());
    buffer.append(b"abc");
    assert!(!buffer.is_empty());
    buffer.as_mut_slice()[1] = b'X';
    assert_eq!(buffer.as_slice(), b"aXc");
    buffer.clear();
    assert!(buffer.is_empty());
    assert_eq!(buffer.len(), 0);
    let fresh = SIMDBuffer::default();
    assert_eq!(fresh.len(), 0);
}
