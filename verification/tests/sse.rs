//! Server-sent events and the errors of requests.
use openai_api::header_map::request_headers;
use openai_api::json::Json;
use openai_api::openai_sse::{BodyEvent, SseDecoder, SseJsonStream, SseStep};
use openai_api::provider_error::{
    format_retry_error, sdk_error_message, OpenAiHttpError, OpenAiSseError, ProviderRetryError,
};
use openai_api::json::JsonNumber;

fn json(text: &str) -> Json {
    from_value(&serde_json::from_str(text).unwrap())
}

fn from_value(v: &serde_json::Value) -> Json {
    match v {
        serde_json::Value::Null => Json::Null,
        serde_json::Value::Bool(b) => Json::Bool(*b),
        serde_json::Value::Number(n) => {
            if let Some(n) = n.as_u64() {
                Json::Number(JsonNumber::Unsigned(n))
            } else if let Some(n) = n.as_i64() {
                Json::Number(JsonNumber::Negative(n))
            } else {
                Json::Number(JsonNumber::Decimal(n.to_string()))
            }
        }
        serde_json::Value::String(s) => Json::Str(s.clone()),
        serde_json::Value::Array(items) => Json::Array(items.iter().map(from_value).collect()),
        serde_json::Value::Object(fields) => Json::Object(
            fields
                .iter()
                .map(|(key, v)| (key.clone(), from_value(v)))
                .collect(),
        ),
    }
}

#[test]
fn decoder_preserves_split_utf8_and_joins_multiline_data() {
    let wire = "data: {\"text\":\"café\",\ndata: \"done\":true}\n\n".as_bytes();
    let split = wire
        .windows(2)
        .position(|window| window == "é".as_bytes())
        .expect("multibyte scalar")
        + 1;
    let mut decoder = SseDecoder::default();
    assert!(decoder.push(&wire[..split], false).is_empty());
    assert_eq!(
        decoder.push(&wire[split..], false),
        vec!["{\"text\":\"café\",\n\"done\":true}".to_owned()]
    );
}

#[test]
fn event_only_message_surfaces_the_json_parse_error() {
    let mut stream = SseJsonStream::new();
    assert!(matches!(stream.next(), SseStep::Wanted));
    let SseStep::Failure(error) = stream.feed(BodyEvent::Bytes(b"event: future\n\n".to_vec()))
    else {
        panic!("dispatched event")
    };
    assert_eq!(error.message, "Unexpected end of JSON input");
    assert!(matches!(stream.next(), SseStep::Finished));
    assert!(matches!(stream.feed(BodyEvent::End), SseStep::Finished));
}

#[test]
fn streamed_api_error_matches_sdk_stringification() {
    let error = OpenAiSseError::api(&json(r#"{"message": 1.0, "metadata": {"raw": 2.0}}"#));
    assert_eq!(error.message, "1");
    assert_eq!(error.formatted(true), "1\n2");
    assert_eq!(error.formatted(false), "1");

    let mut stream = SseJsonStream::new();
    let SseStep::Failure(error) = stream.feed(BodyEvent::Bytes(
        b"data: {\"error\":\"scalar failure\"}\n\n".to_vec(),
    )) else {
        panic!("dispatched event")
    };
    assert_eq!(error.message, r#""scalar failure""#);
}

#[test]
fn http_error_formatting_retains_parsed_and_raw_bodies() {
    let body = br#"{"error":{"message":"bad request","param":"input[0]","metadata":{"raw":{"upstream":"detail"}}}}"#;
    let error = OpenAiHttpError::http(400, vec![], &body.to_vec());
    assert_eq!(
        error.formatted(None, true),
        format!(
            "{}{}",
            r#"400: {"message":"bad request","param":"input[0]","metadata":{"raw":{"upstream":"detail"}}}"#,
            "\n[object Object]"
        )
    );
    let error = OpenAiHttpError::http(502, vec![], &b"upstream exploded".to_vec());
    assert_eq!(
        error.formatted(Some("OpenAI API error"), false),
        "OpenAI API error (502): 502 upstream exploded"
    );
}

#[test]
fn every_split_of_a_body_gives_the_same_events() {
    let wire = ": note\r\nevent: a\rdata: one\r\n\r\ndata:two\ndata: é\n\ndata: cut".as_bytes();
    let mut whole = SseDecoder::default();
    let mut expected = whole.push(wire, false);
    expected.extend(whole.push(&[], true));
    assert_eq!(expected, vec!["one".to_owned(), "two\né".to_owned()]);
    for split in 0..=wire.len() {
        let mut decoder = SseDecoder::default();
        let mut events = decoder.push(&wire[..split], false);
        events.extend(decoder.push(&wire[split..], false));
        events.extend(decoder.push(&[], true));
        assert_eq!(events, expected);
    }
}

#[test]
fn stream_ends_at_done_and_reports_broken_connections() {
    let mut stream = SseJsonStream::new();
    let SseStep::Value(value) = stream.feed(BodyEvent::Bytes(
        b"data: {\"a\":1}\n\ndata: [DONE] thanks\n\ndata: {\"b\":2}\n\n".to_vec(),
    )) else {
        panic!("value")
    };
    assert_eq!(value, json(r#"{"a":1}"#));
    assert!(matches!(stream.next(), SseStep::Finished));
    assert!(matches!(stream.next(), SseStep::Finished));

    let mut stream = SseJsonStream::new();
    let SseStep::Failure(error) = stream.feed(BodyEvent::Broken) else {
        panic!("failure")
    };
    assert_eq!(error.message, "Connection error.");
    assert!(!error.aborted_flag());

    let mut stream = SseJsonStream::new();
    let SseStep::Failure(error) = stream.feed(BodyEvent::Abort) else {
        panic!("failure")
    };
    assert_eq!(error.message, "Request was aborted");
    assert!(error.aborted_flag());

    let mut stream = SseJsonStream::new();
    assert!(matches!(stream.feed(BodyEvent::End), SseStep::Finished));

    let mut stream = SseJsonStream::new();
    assert!(matches!(
        stream.feed(BodyEvent::Bytes(b"data: {".to_vec())),
        SseStep::Wanted
    ));
    let SseStep::Wanted = stream.next() else {
        panic!("wanted")
    };
    assert!(matches!(stream.feed(BodyEvent::End), SseStep::Finished));
}

#[test]
fn invalid_utf8_is_replaced() {
    let mut decoder = SseDecoder::default();
    assert_eq!(
        decoder.push(b"data: a\xffb\n\n", false),
        vec!["a\u{fffd}b".to_owned()]
    );
}

#[test]
fn error_messages_fall_back_in_order() {
    assert_eq!(
        sdk_error_message(400, Some(&json(r#"{"message":"bad"}"#)), Some("text")),
        "400 bad"
    );
    assert_eq!(
        sdk_error_message(400, Some(&json(r#"{"message":{"a":1}}"#)), None),
        r#"400 {"a":1}"#
    );
    assert_eq!(
        sdk_error_message(400, Some(&json(r#"{"message":""}"#)), None),
        r#"400 {"message":""}"#
    );
    assert_eq!(sdk_error_message(503, None, Some("down")), "503 down");
    assert_eq!(
        sdk_error_message(503, Some(&Json::Null), Some("")),
        "503 status code (no body)"
    );
}

#[test]
fn retry_errors_name_their_cause() {
    let error = OpenAiHttpError::transport("Request was aborted.", true);
    let run = format_retry_error(&ProviderRetryError::Original(error), None, true);
    assert_eq!(run.message, "Request was aborted.");
    assert!(run.aborted);
    let run = format_retry_error(&ProviderRetryError::Abort, Some("OpenAI API error"), false);
    assert_eq!(run.message, "Request aborted");
    assert!(run.aborted);
    let run = format_retry_error(
        &ProviderRetryError::ServerDelay {
            message: "wait".to_owned(),
        },
        None,
        false,
    );
    assert_eq!(run.message, "wait");
    assert!(!run.aborted);
}

#[test]
fn header_maps_check_names_and_values() {
    let headers = request_headers(&vec![
        ("X-One".to_owned(), "1".to_owned()),
        ("x-one".to_owned(), "2\té".to_owned()),
    ])
    .unwrap();
    assert_eq!(headers.len(), 1);
    assert_eq!(headers.get("x-one").unwrap().as_bytes(), "2\té".as_bytes());
    let error = request_headers(&vec![("bad name".to_owned(), "1".to_owned())]).unwrap_err();
    assert_eq!(error.message, "invalid HTTP header name");
    let error = request_headers(&vec![(String::new(), "1".to_owned())]).unwrap_err();
    assert_eq!(error.message, "invalid HTTP header name");
    let error = request_headers(&vec![("name".to_owned(), "a\nb".to_owned())]).unwrap_err();
    assert_eq!(error.message, "failed to parse header value");
}
