use grenache::{Error, ErrorKind, GrenacheClient, JsonMember, JsonValue};

fn text(s: &str) -> JsonValue {
    JsonValue::String(s.to_string())
}

fn array(items: &[&str]) -> JsonValue {
    JsonValue::Array(items.iter().map(|s| text(s)).collect())
}

#[test]
fn hosts_are_read_in_order() {
    let got = GrenacheClient::get_hosts_from_array(array(&["b:2", "a:1", "b:2"]));
    assert_eq!(got, Ok(vec!["b:2".to_string(), "a:1".to_string(), "b:2".to_string()]));
}

#[test]
fn hosts_of_one_item() {
    let got = GrenacheClient::get_hosts_from_array(array(&["127.0.0.1:9000"]));
    assert_eq!(got, Ok(vec!["127.0.0.1:9000".to_string()]));
}

#[test]
fn hosts_of_the_empty_array_are_none() {
    assert_eq!(GrenacheClient::get_hosts_from_array(array(&[])), Ok(Vec::<String>::new()));
}

#[test]
fn hosts_with_an_empty_string_are_rejected_whole() {
    let got = GrenacheClient::get_hosts_from_array(array(&["a:1", "", "b:2"]));
    assert_eq!(
        got,
        Err(Error::new(ErrorKind::InvalidResponse, "Invalid string type in response: "))
    );
}

#[test]
fn hosts_with_the_text_of_an_empty_array_are_rejected() {
    let got = GrenacheClient::get_hosts_from_array(array(&["a:1", "[]"]));
    assert_eq!(
        got,
        Err(Error::new(ErrorKind::InvalidResponse, "Invalid string type in response: []"))
    );
}

#[test]
fn hosts_with_the_text_null_are_rejected() {
    let got = GrenacheClient::get_hosts_from_array(array(&["null", "a:1"]));
    assert_eq!(
        got,
        Err(Error::new(ErrorKind::InvalidResponse, "Invalid string type in response: null"))
    );
}

#[test]
fn hosts_name_the_first_item_that_is_wrong() {
    let got = GrenacheClient::get_hosts_from_array(array(&["a:1", "null", "", "[]"]));
    assert_eq!(
        got,
        Err(Error::new(ErrorKind::InvalidResponse, "Invalid string type in response: null"))
    );
}

#[test]
fn hosts_with_a_number_are_rejected() {
    let answer = JsonValue::Array(vec![text("a:1"), JsonValue::Number("5".to_string())]);
    assert_eq!(
        GrenacheClient::get_hosts_from_array(answer),
        Err(Error::new(ErrorKind::InvalidResponse, "Invalid string type in response: 5"))
    );
}

#[test]
fn hosts_with_a_null_are_rejected() {
    let answer = JsonValue::Array(vec![JsonValue::Null]);
    assert_eq!(
        GrenacheClient::get_hosts_from_array(answer),
        Err(Error::new(ErrorKind::InvalidResponse, "Invalid string type in response: null"))
    );
}

#[test]
fn hosts_with_a_nested_array_are_rejected() {
    let answer = JsonValue::Array(vec![array(&["a:1"])]);
    assert_eq!(
        GrenacheClient::get_hosts_from_array(answer),
        Err(Error::new(ErrorKind::InvalidResponse, "Invalid string type in response: [\"a:1\"]"))
    );
}

#[test]
fn hosts_of_an_object_are_rejected() {
    let answer = JsonValue::Object(vec![JsonMember {
        key: "a".to_string(),
        value: JsonValue::Number("1".to_string()),
    }]);
    assert_eq!(
        GrenacheClient::get_hosts_from_array(answer),
        Err(Error::new(ErrorKind::InvalidResponse, "Expected json array, received: {\"a\":1}"))
    );
}

#[test]
fn hosts_of_a_string_are_rejected() {
    assert_eq!(
        GrenacheClient::get_hosts_from_array(text("a:1")),
        Err(Error::new(ErrorKind::InvalidResponse, "Expected json array, received: \"a:1\""))
    );
}

#[test]
fn hosts_of_null_are_rejected() {
    assert_eq!(
        GrenacheClient::get_hosts_from_array(JsonValue::Null),
        Err(Error::new(ErrorKind::InvalidResponse, "Expected json array, received: null"))
    );
}

#[test]
fn hosts_are_the_same_each_time() {
    let first = GrenacheClient::get_hosts_from_array(array(&["a:1", "b:2"]));
    let second = GrenacheClient::get_hosts_from_array(array(&["a:1", "b:2"]));
    assert_eq!(first, second);
}

#[test]
fn hosts_written_again_are_read_as_the_same_hosts() {
    let hosts = GrenacheClient::get_hosts_from_array(array(&["a:1", "b:2"])).unwrap();
    let again = JsonValue::Array(hosts.iter().map(|h| JsonValue::String(h.clone())).collect());
    assert_eq!(GrenacheClient::get_hosts_from_array(again), Ok(hosts));
}

#[test]
fn nothing_yet_is_an_error_or_the_empty_array() {
    assert!(GrenacheClient::result_is_empty_array_or_error(&Ok(array(&[]))));
    assert!(GrenacheClient::result_is_empty_array_or_error(&Err(Error::new(
        ErrorKind::Transport,
        "connection refused"
    ))));
    assert!(GrenacheClient::result_is_empty_array_or_error(&Err(Error::new(
        ErrorKind::Decode,
        "x"
    ))));
}

#[test]
fn an_answer_with_items_is_not_nothing() {
    assert!(!GrenacheClient::result_is_empty_array_or_error(&Ok(array(&["a:1"]))));
    assert!(!GrenacheClient::result_is_empty_array_or_error(&Ok(array(&[""]))));
    assert!(!GrenacheClient::result_is_empty_array_or_error(&Ok(JsonValue::Array(vec![
        JsonValue::Null
    ]))));
}

#[test]
fn an_answer_that_is_no_array_is_not_nothing() {
    assert!(!GrenacheClient::result_is_empty_array_or_error(&Ok(text("[]"))));
    assert!(!GrenacheClient::result_is_empty_array_or_error(&Ok(JsonValue::Null)));
    assert!(!GrenacheClient::result_is_empty_array_or_error(&Ok(JsonValue::Object(vec![]))));
}
