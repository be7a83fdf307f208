use grenache::{decode_response, Error, ErrorKind, JsonMember, JsonValue};

fn text(s: &str) -> JsonValue {
    JsonValue::String(s.to_string())
}

#[test]
fn error_keeps_kind_and_message() {
    let e = Error::new(ErrorKind::Decode, "bad");
    assert_eq!(e.kind, ErrorKind::Decode);
    assert_eq!(e.msg, "bad");
    assert_eq!(e.to_string(), "bad");
}

#[test]
fn error_clone_is_equal() {
    let e = Error::new(ErrorKind::NotAnnouncing, "Wasn't announcing svc");
    assert_eq!(e.clone(), e);
    assert_ne!(e, Error::new(ErrorKind::AlreadyAnnouncing, "Wasn't announcing svc"));
}

#[test]
fn decode_reads_an_array_of_hosts() {
    let got = decode_response(b"[\"127.0.0.1:9000\", \"10.0.0.2:80\"]".to_vec());
    assert_eq!(got, Ok(JsonValue::Array(vec![text("127.0.0.1:9000"), text("10.0.0.2:80")])));
}

#[test]
fn decode_reads_the_empty_array() {
    assert_eq!(decode_response(b"[]".to_vec()), Ok(JsonValue::Array(vec![])));
    assert_eq!(decode_response(b" [ ] ".to_vec()), Ok(JsonValue::Array(vec![])));
}

#[test]
fn decode_reads_every_kind_of_value() {
    let got = decode_response(
        b"[null, true, false, 1, -3, 2.5, \"x\", [], {\"b\": null, \"a\": [1]}]".to_vec(),
    );
    let want = JsonValue::Array(vec![
        JsonValue::Null,
        JsonValue::Bool(true),
        JsonValue::Bool(false),
        JsonValue::Number("1".to_string()),
        JsonValue::Number("-3".to_string()),
        JsonValue::Number("2.5".to_string()),
        text("x"),
        JsonValue::Array(vec![]),
        JsonValue::Object(vec![
            JsonMember {
                key: "a".to_string(),
                value: JsonValue::Array(vec![JsonValue::Number("1".to_string())]),
            },
            JsonMember { key: "b".to_string(), value: JsonValue::Null },
        ]),
    ]);
    assert_eq!(got, Ok(want));
}

#[test]
fn decode_reads_a_string_that_looks_like_an_array() {
    assert_eq!(decode_response(b"\"[]\"".to_vec()), Ok(text("[]")));
}

#[test]
fn decode_rejects_bytes_that_are_not_utf8() {
    let e = decode_response(vec![0xff, 0xfe]).unwrap_err();
    assert_eq!(e.kind, ErrorKind::Encoding);
    assert_eq!(e.msg, "invalid utf-8 sequence of 1 bytes from index 0");
}

#[test]
fn decode_rejects_a_truncated_character() {
    let e = decode_response(vec![b'[', b']', 0xe2, 0x82]).unwrap_err();
    assert_eq!(e.kind, ErrorKind::Encoding);
}

#[test]
fn decode_rejects_text_that_is_not_json() {
    let e = decode_response(b"@@".to_vec()).unwrap_err();
    assert_eq!(e.kind, ErrorKind::Decode);
    assert_eq!(e.msg, "Could not parse \"@@\" as json: expected value at line 1 column 1");
}

#[test]
fn decode_rejects_the_empty_body() {
    let e = decode_response(Vec::new()).unwrap_err();
    assert_eq!(e.kind, ErrorKind::Decode);
    assert!(e.msg.starts_with("Could not parse \"\" as json: "));
    assert!(e.msg.len() > "Could not parse \"\" as json: ".len());
}

#[test]
fn decode_rejects_trailing_text() {
    let e = decode_response(b"[] x".to_vec()).unwrap_err();
    assert_eq!(e.kind, ErrorKind::Decode);
    assert!(e.msg.starts_with("Could not parse \"[] x\" as json: "));
}

#[test]
fn decode_gives_the_same_value_each_time() {
    let body = b"{\"k\": [1, \"two\", null]}".to_vec();
    assert_eq!(decode_response(body.clone()), decode_response(body));
}

#[test]
fn json_text_is_compact() {
    let value = JsonValue::Array(vec![
        text("a"),
        JsonValue::Number("1".to_string()),
        JsonValue::Number("-2.5".to_string()),
        JsonValue::Null,
        JsonValue::Bool(true),
        JsonValue::Object(vec![JsonMember { key: "k".to_string(), value: text("v") }]),
    ]);
    assert_eq!(value.to_string(), "[\"a\",1,-2.5,null,true,{\"k\":\"v\"}]");
}

#[test]
fn json_text_of_simple_values() {
    assert_eq!(JsonValue::Null.to_string(), "null");
    assert_eq!(JsonValue::Bool(false).to_string(), "false");
    assert_eq!(JsonValue::Array(vec![]).to_string(), "[]");
    assert_eq!(JsonValue::Object(vec![]).to_string(), "{}");
    assert_eq!(text("[]").to_string(), "\"[]\"");
    assert_eq!(text("say \"hi\"\n").to_string(), "\"say \\\"hi\\\"\\n\"");
}

#[test]
fn json_text_reads_back_as_the_value() {
    let value = JsonValue::Object(vec![
        JsonMember { key: "data".to_string(), value: JsonValue::Array(vec![text("svc"), JsonValue::Number("31337".to_string())]) },
        JsonMember { key: "rid".to_string(), value: text("abc") },
    ]);
    assert_eq!(decode_response(value.to_string().into_bytes()), Ok(value));
}

#[test]
fn json_number_that_is_no_number_is_written_as_null() {
    assert_eq!(JsonValue::Number("twelve".to_string()).to_string(), "null");
}
