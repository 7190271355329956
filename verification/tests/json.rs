use teatime::error::ErrorKind;
use teatime::json::{decode_failure, member, pages_to_json, response_to_json, JsonParams};

fn value(text: &str) -> serde_json::Value {
    serde_json::from_str(text).unwrap()
}

#[test]
fn body_decodes_to_json() {
    let decoded = response_to_json(br#"{"a": [1, 2, {"b": null}], "c": "d"}"#).unwrap();
    assert_eq!(decoded, value(r#"{"a":[1,2,{"b":null}],"c":"d"}"#));
    assert_eq!(decoded["c"], serde_json::Value::String("d".to_string()));
    assert_eq!(response_to_json(b"17").unwrap(), value("17"));
}

#[test]
fn empty_body_is_the_empty_array() {
    assert_eq!(response_to_json(b"").unwrap(), serde_json::Value::Array(Vec::new()));
}

#[test]
fn blank_body_is_a_decode_error() {
    let error = response_to_json(b" ").unwrap_err();
    assert_eq!(error.kind(), ErrorKind::Decode);
    assert_eq!(error.description(), "Failed to parse JSON:  ");
}

#[test]
fn body_that_is_no_json_carries_its_text() {
    let error = response_to_json(b"<html>502 Bad Gateway</html>").unwrap_err();
    assert_eq!(error.kind(), ErrorKind::Decode);
    assert_eq!(error.description(), "Failed to parse JSON: <html>502 Bad Gateway</html>");
}

#[test]
fn body_that_is_no_utf8() {
    let error = response_to_json(&[0xff, 0xfe, 0x00]).unwrap_err();
    assert_eq!(error.kind(), ErrorKind::Decode);
    assert_eq!(
        error.description(),
        "API seems to have returned non-UTF8 garbage; bytes: fffe00"
    );
    let error = response_to_json(&[0xff, 0xfe]).unwrap_err();
    assert_eq!(error.kind(), ErrorKind::Decode);
    assert_eq!(
        error.description(),
        "API seems to have returned non-UTF8 garbage; bytes: fffe"
    );
}

#[test]
fn decode_failure_of_text_and_of_bytes() {
    let error = decode_failure("caf\u{e9} {".as_bytes());
    assert_eq!(error.kind(), ErrorKind::Decode);
    assert_eq!(error.description(), "Failed to parse JSON: caf\u{e9} {");
    let error = decode_failure(&[b'a', 0x80]);
    assert_eq!(error.kind(), ErrorKind::Decode);
    assert_eq!(
        error.description(),
        "API seems to have returned non-UTF8 garbage; bytes: 6180"
    );
}

#[test]
fn pages_make_an_array_in_their_order() {
    let pages = vec![value("[1]"), value(r#"{"p":2}"#), value("[]")];
    assert_eq!(pages_to_json(pages), value(r#"[[1],{"p":2},[]]"#));
    assert_eq!(pages_to_json(Vec::new()), value("[]"));
}

#[test]
fn member_of_a_document() {
    let document = value(r#"{"access_token": "abc", "n": 3}"#);
    assert_eq!(member(&document, "access_token"), Some(&value(r#""abc""#)));
    assert_eq!(member(&document, "n"), Some(&value("3")));
    assert_eq!(member(&document, "missing"), None);
    assert_eq!(member(&value("[1, 2]"), "access_token"), None);
    assert_eq!(member(&value("\"access_token\""), "access_token"), None);
}

#[test]
fn params_are_written_as_an_object() {
    let mut params = JsonParams::new();
    assert_eq!(JsonParams::new().to_text(), "{}");
    params.insert_text("grant_type", "password");
    params.insert("count", value("3"));
    params.insert_text("a \"name\"", "line\nbreak");
    let text = params.to_text();
    assert_eq!(value(&text), value(r#"{"grant_type":"password","count":3,"a \"name\"":"line\nbreak"}"#));
    assert_eq!(text, r#"{"a \"name\"":"line\nbreak","count":3,"grant_type":"password"}"#);
}

#[test]
fn later_parameter_replaces_earlier_one() {
    let mut params = JsonParams::new();
    params.insert_text("user", "first");
    params.insert_text("user", "second");
    assert_eq!(params.to_text(), r#"{"user":"second"}"#);
}

#[test]
fn params_are_written_by_reference_and_cloned() {
    let mut params = JsonParams::new();
    params.insert_text("user", "alice");
    let copy = params.clone();
    params.insert_text("code", "1");
    assert_eq!(copy.to_text(), r#"{"user":"alice"}"#);
    assert_eq!(params.to_text(), r#"{"code":"1","user":"alice"}"#);
    assert_eq!(params.to_text(), r#"{"code":"1","user":"alice"}"#);
    assert_eq!(params.into_map().len(), 2);
}

#[test]
fn params_from_a_map() {
    let mut map = serde_json::Map::new();
    map.insert("k".to_string(), value("[true]"));
    assert_eq!(JsonParams::from_map(map.clone()).to_text(), r#"{"k":[true]}"#);
    assert_eq!(JsonParams::from(map).to_text(), r#"{"k":[true]}"#);
}
