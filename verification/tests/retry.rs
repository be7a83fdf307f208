use grenache::{decode_response, RetryStep, Error, ErrorKind, GrenacheClient, JsonValue, LOOKUP_RETRY_PERIOD};

fn unreachable_gateway() -> Result<JsonValue, Error> {
    Err(Error::new(ErrorKind::Transport, "connection refused"))
}

#[test]
fn announce_ends_with_the_answer() {
    let step = GrenacheClient::attempt_announce_step(Ok(JsonValue::Number("1".to_string())), 7);
    assert_eq!(step, RetryStep::Done(JsonValue::Number("1".to_string())));
}

#[test]
fn announce_ends_with_an_empty_array_too() {
    let step = GrenacheClient::attempt_announce_step(Ok(JsonValue::Array(vec![])), 7);
    assert_eq!(step, RetryStep::Done(JsonValue::Array(vec![])));
}

#[test]
fn announce_is_repeated_after_every_kind_of_error() {
    for kind in [ErrorKind::Transport, ErrorKind::Encoding, ErrorKind::Decode] {
        let step = GrenacheClient::attempt_announce_step(Err(Error::new(kind, "x")), 7);
        assert_eq!(step, RetryStep::Retry { sleep_secs: 7 });
    }
}

#[test]
fn announce_succeeds_at_the_fourth_attempt_after_three_sleeps() {
    let period = 5u64;
    let mut gateway = vec![
        unreachable_gateway(),
        unreachable_gateway(),
        unreachable_gateway(),
        decode_response(b"1".to_vec()),
        unreachable_gateway(),
    ]
    .into_iter();
    let mut attempts = 0;
    let mut sleeps = Vec::new();
    let answer = loop {
        attempts += 1;
        match GrenacheClient::attempt_announce_step(gateway.next().unwrap(), period) {
            RetryStep::Done(answer) => break answer,
            RetryStep::Retry { sleep_secs } => sleeps.push(sleep_secs),
        }
    };
    assert_eq!(answer, JsonValue::Number("1".to_string()));
    assert_eq!(attempts, 4);
    assert_eq!(sleeps, vec![5, 5, 5]);
}

#[test]
fn lookup_period_is_one_second() {
    assert_eq!(LOOKUP_RETRY_PERIOD, 1);
}

#[test]
fn lookup_is_repeated_after_an_error() {
    let step = GrenacheClient::attempt_lookup_step(unreachable_gateway());
    assert_eq!(step, RetryStep::Retry { sleep_secs: 1 });
}

#[test]
fn lookup_is_repeated_after_an_empty_array() {
    let step = GrenacheClient::attempt_lookup_step(Ok(JsonValue::Array(vec![])));
    assert_eq!(step, RetryStep::Retry { sleep_secs: 1 });
}

#[test]
fn lookup_ends_with_the_hosts() {
    let step = GrenacheClient::attempt_lookup_step(decode_response(b"[\"a:1\",\"b:2\"]".to_vec()));
    assert_eq!(step, RetryStep::Done(Ok(vec!["a:1".to_string(), "b:2".to_string()])));
}

#[test]
fn lookup_ends_with_an_error_for_a_malformed_answer() {
    let step = GrenacheClient::attempt_lookup_step(decode_response(b"[\"a:1\", \"\"]".to_vec()));
    assert_eq!(
        step,
        RetryStep::Done(Err(Error::new(
            ErrorKind::InvalidResponse,
            "Invalid string type in response: "
        )))
    );
}

#[test]
fn lookup_ends_with_an_error_for_an_answer_that_is_no_array() {
    let step = GrenacheClient::attempt_lookup_step(decode_response(b"{}".to_vec()));
    assert_eq!(
        step,
        RetryStep::Done(Err(Error::new(
            ErrorKind::InvalidResponse,
            "Expected json array, received: {}"
        )))
    );
}

#[test]
fn lookup_returns_the_host_at_the_third_poll() {
    let mut gateway = vec![
        decode_response(b"[]".to_vec()),
        decode_response(b"[]".to_vec()),
        decode_response(b"[\"127.0.0.1:9000\"]".to_vec()),
        decode_response(b"[\"10.0.0.1:1\"]".to_vec()),
    ]
    .into_iter();
    let mut polls = 0;
    let mut slept = 0;
    let hosts = loop {
        polls += 1;
        match GrenacheClient::attempt_lookup_step(gateway.next().unwrap()) {
            RetryStep::Done(result) => break result,
            RetryStep::Retry { sleep_secs } => slept += sleep_secs,
        }
    };
    assert_eq!(hosts, Ok(vec!["127.0.0.1:9000".to_string()]));
    assert_eq!(polls, 3);
    assert_eq!(slept, 2);
}

#[test]
fn lookup_waits_through_errors_and_empty_answers_alike() {
    let mut gateway = vec![
        unreachable_gateway(),
        decode_response(b"[]".to_vec()),
        decode_response(vec![0xff]),
        decode_response(b"oops".to_vec()),
        decode_response(b"[\"h:1\"]".to_vec()),
    ]
    .into_iter();
    let mut polls = 0;
    let hosts = loop {
        polls += 1;
        if let RetryStep::Done(result) = GrenacheClient::attempt_lookup_step(gateway.next().unwrap()) {
            break result;
        }
    };
    assert_eq!(hosts, Ok(vec!["h:1".to_string()]));
    assert_eq!(polls, 5);
}
