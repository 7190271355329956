use teatime::http::{
    bearer_header, content_length_header, header, json_content_type, names_match, Header,
    RawHeader, Response,
};
use teatime::text::{
    chars_of, decimal, drop_first_char, drop_last_char, ends_with_char, hex, show_bytes,
    show_lines, starts_with_char, text_of_bytes,
};

fn raw(name: &str, value: &[u8]) -> RawHeader {
    RawHeader { name: name.to_string(), value: value.to_vec() }
}

#[test]
fn header_names_ignore_ascii_case() {
    assert!(names_match("Link", "link"));
    assert!(names_match("LINK", "lInK"));
    assert!(names_match("", ""));
    assert!(!names_match("Link", "Links"));
    assert!(!names_match("Link", "Lin"));
    assert!(!names_match("Link", "Lynk"));
    assert!(!names_match("[", "{"));
    assert!(!names_match("@", "`"));
    assert!(!names_match("\u{c4}", "\u{e4}"));
    assert!(names_match("\u{e4}Z", "\u{e4}z"));
}

#[test]
fn header_lines_by_name() {
    let response = Response {
        status: 200,
        headers: vec![
            raw("Content-Type", b"application/json"),
            raw("link", b"<https://h/a>; rel=\"next\""),
            raw("X-Other", b"1"),
            raw("LINK", b"<https://h/b>; rel=\"prev\""),
        ],
        body: Vec::new(),
    };
    assert_eq!(
        response.header_lines("Link"),
        vec![b"<https://h/a>; rel=\"next\"".to_vec(), b"<https://h/b>; rel=\"prev\"".to_vec()]
    );
    assert_eq!(response.header_lines("content-type"), vec![b"application/json".to_vec()]);
    assert!(response.header_lines("Missing").is_empty());
}

#[test]
fn headers_of_requests() {
    assert_eq!(
        json_content_type(),
        Header { name: "Content-Type".to_string(), value: "application/json".to_string() }
    );
    assert_eq!(
        bearer_header("t0ken"),
        Header { name: "Authorization".to_string(), value: "Bearer t0ken".to_string() }
    );
    assert_eq!(header("A", "b"), Header { name: "A".to_string(), value: "b".to_string() });
}

#[test]
fn content_length_counts_bytes() {
    assert_eq!(content_length_header(None).value, "0");
    assert_eq!(content_length_header(None).name, "Content-Length");
    assert_eq!(content_length_header(Some(&"".to_string())).value, "0");
    assert_eq!(content_length_header(Some(&"{\"a\":1}".to_string())).value, "7");
    assert_eq!(content_length_header(Some(&"caf\u{e9}\u{20ac}".to_string())).value, "8");
    assert_eq!(content_length_header(Some(&"x".repeat(1234))).value, "1234");
}

#[test]
fn decimal_numerals() {
    assert_eq!(decimal(0), "0");
    assert_eq!(decimal(7), "7");
    assert_eq!(decimal(10), "10");
    assert_eq!(decimal(109), "109");
    assert_eq!(decimal(9876543210), "9876543210");
    assert_eq!(decimal(usize::MAX), usize::MAX.to_string());
}

#[test]
fn characters_of_a_string() {
    assert_eq!(chars_of("a\u{e9}\u{20ac}"), vec!['a', '\u{e9}', '\u{20ac}']);
    assert!(chars_of("").is_empty());
    assert!(starts_with_char("/a", '/'));
    assert!(!starts_with_char("a/", '/'));
    assert!(!starts_with_char("", '/'));
    assert!(ends_with_char("a/", '/'));
    assert!(!ends_with_char("/a", '/'));
    assert!(!ends_with_char("", '/'));
    assert_eq!(drop_first_char("\u{20ac}uro"), "uro");
    assert_eq!(drop_last_char("eur\u{20ac}"), "eur");
    assert_eq!(drop_first_char(""), "");
    assert_eq!(drop_last_char(""), "");
}

#[test]
fn text_of_utf8_bytes() {
    assert_eq!(text_of_bytes("caf\u{e9}".as_bytes()), Some("caf\u{e9}"));
    assert_eq!(text_of_bytes(b""), Some(""));
    assert_eq!(text_of_bytes(&[0xc3]), None);
    assert_eq!(text_of_bytes(&[0xff]), None);
}

#[test]
fn bytes_in_hexadecimal() {
    assert_eq!(hex(&[]), "");
    assert_eq!(hex(&[0x00]), "00");
    assert_eq!(hex(&[0x0a, 0xf0, 0x9f, 0xff]), "0af09fff");
    assert_eq!(hex(&[0x12, 0x34, 0x56, 0x78, 0x9a, 0xbc, 0xde]), "123456789abcde");
}

#[test]
fn bytes_as_they_are_shown() {
    assert_eq!(show_bytes("caf\u{e9}".as_bytes()), "caf\u{e9}");
    assert_eq!(show_bytes(b""), "");
    assert_eq!(show_bytes(&[b'<', 0xff]), "bytes: 3cff");
    assert_eq!(show_lines(&vec![]), "");
    assert_eq!(show_lines(&vec![b"a".to_vec()]), "; a");
    assert_eq!(show_lines(&vec![b"a".to_vec(), vec![0xc3], b"".to_vec()]), "; a; bytes: c3; ");
}
