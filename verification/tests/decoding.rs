//! Events and items as they are read from JSON, and what is said of those that cannot be read.
use openai_api::header_map::request_headers;
use openai_api::json::{Json, JsonNumber};
use openai_api::responses_events::{
    decode_output_item, decode_response_event, DecodedResponseEvent, OutputItem, ResponseFailure,
    ResponseUsage, TerminalResponse,
};
use openai_api::openai_responses_shared::ResponseServiceTier;
use openai_api::order::sort_by_name;
use openai_api::text_signature::parse_text_signature;
use openai_api::tool_call_ids::{
    normalize_anthropic_tool_call_id, MistralToolCallIdNormalizer,
};
use openai_api::types::TextSignaturePhase;

fn json(text: &str) -> Json {
    from_value(&serde_json::from_str(text).unwrap())
}

fn from_value(v: &serde_json::Value) -> Json {
    match v {
        serde_json::Value::Null => Json::Null,
        serde_json::Value::Bool(b) => Json::Bool(*b),
        serde_json::Value::Number(n) => {
            if let Some(n) = n.as_u64() {
                Json::Number(JsonNumber::Unsigned(n))
            } else if let Some(n) = n.as_i64() {
                Json::Number(JsonNumber::Negative(n))
            } else {
                Json::Number(JsonNumber::Decimal(n.to_string()))
            }
        }
        serde_json::Value::String(s) => Json::Str(s.clone()),
        serde_json::Value::Array(items) => Json::Array(items.iter().map(from_value).collect()),
        serde_json::Value::Object(fields) => Json::Object(
            fields
                .iter()
                .map(|(key, v)| (key.clone(), from_value(v)))
                .collect(),
        ),
    }
}

fn event_error(text: &str) -> String {
    decode_response_event(&json(text)).unwrap_err()
}

fn item_error(text: &str) -> String {
    decode_output_item(&json(text)).unwrap_err()
}

fn finished(text: &str) -> TerminalResponse {
    let event = format!(
        "{}{}{}",
        r#"{"type":"response.completed","response":"#, text, "}"
    );
    match decode_response_event(&json(&event)).unwrap() {
        DecodedResponseEvent::Finished { response } => response,
        other => panic!("{other:?}"),
    }
}

fn finished_error(text: &str) -> String {
    event_error(&format!(
        "{}{}{}",
        r#"{"type":"response.completed","response":"#, text, "}"
    ))
}

#[test]
fn nested_records_may_come_as_arrays() {
    assert_eq!(
        decode_response_event(&json(r#"{"type":"response.created","response":["r"]}"#)).unwrap(),
        DecodedResponseEvent::Created {
            id: Some("r".to_owned())
        }
    );
    assert_eq!(
        decode_response_event(&json(r#"{"type":"response.created","response":[]}"#)).unwrap(),
        DecodedResponseEvent::Created { id: None }
    );
    let response = finished(
        r#"["r","completed",["max_output_tokens"],["c","m"],[1,2,3,[4,5],[6]],[{}],"flex"]"#,
    );
    assert_eq!(response.id.as_deref(), Some("r"));
    assert_eq!(response.status.as_deref(), Some("completed"));
    assert_eq!(
        response.incomplete_reason.as_deref(),
        Some("max_output_tokens")
    );
    assert_eq!(
        response.error,
        Some(ResponseFailure {
            code: Some("c".to_owned()),
            message: Some("m".to_owned()),
        })
    );
    assert_eq!(
        response.usage,
        Some(ResponseUsage {
            input_tokens: 1,
            output_tokens: 2,
            total_tokens: 3,
            cached_tokens: 4,
            cache_write_tokens: 5,
            reasoning_tokens: 6,
        })
    );
    assert_eq!(response.output, [json("{}")]);
    assert_eq!(response.service_tier, Some(Some(ResponseServiceTier::Flex)));
    assert_eq!(
        decode_output_item(&json(
            r#"{"type":"reasoning","id":"x","summary":[["a"],[],{"text":"b"}]}"#
        ))
        .unwrap(),
        OutputItem::Reasoning {
            raw: json(r#"{"type":"reasoning","id":"x","summary":[["a"],[],{"text":"b"}]}"#),
            id: "x".to_owned(),
            summary: vec!["a".to_owned(), String::new(), "b".to_owned()],
            content: vec![],
            encrypted_content: None,
        }
    );
    assert_eq!(
        decode_output_item(&json(
            r#"{"type":"message","id":"x","content":[["output_text","a"],["refusal","b"],["refusal"]]}"#
        ))
        .unwrap(),
        OutputItem::Message {
            id: "x".to_owned(),
            phase: None,
            content: vec!["a".to_owned(), "b".to_owned(), String::new()],
        }
    );
}

#[test]
fn arrays_that_are_too_long_are_refused() {
    assert_eq!(
        event_error(r#"{"type":"response.created","response":["r",1]}"#),
        "invalid length 2, expected fewer elements in array"
    );
    assert_eq!(
        event_error(r#"{"type":"response.created","response":[1,1]}"#),
        "invalid type: integer `1`, expected a string"
    );
    assert_eq!(
        item_error(r#"{"type":"message","id":"x","content":[["output_text","a","b"]]}"#),
        "invalid length 2, expected 1 element in sequence"
    );
    assert_eq!(
        item_error(r#"{"type":"message","id":"x","content":[[]]}"#),
        "missing field `type`"
    );
    assert_eq!(
        item_error(r#"{"type":"message","id":"x","content":[[1]]}"#),
        "invalid type: integer `1`, expected variant identifier"
    );
    assert_eq!(
        item_error(r#"{"type":"message","id":"x","content":[{"type":"other"}]}"#),
        "unknown variant `other`, expected `output_text` or `refusal`"
    );
    assert_eq!(
        item_error(r#"{"type":"message","id":"x","content":["a"]}"#),
        "invalid type: string \"a\", expected internally tagged enum OutputMessageContent"
    );
    assert_eq!(
        event_error(r#"{"type":"response.completed","response":true}"#),
        "invalid type: boolean `true`, expected struct TerminalResponse"
    );
}

#[test]
fn faults_are_said_as_they_are_for_single_values() {
    for text in ["-1", "1.5", "true", "null", "\"a\\\"b\\u0007é\\n\"", "[]", "{}"] {
        let value: serde_json::Value = serde_json::from_str(text).unwrap();
        let said = serde_json::from_value::<u64>(value.clone())
            .unwrap_err()
            .to_string();
        assert_eq!(
            event_error(&format!(
                "{}{}{}",
                r#"{"type":"response.output_text.delta","delta":"d","output_index":"#, text, "}"
            )),
            said
        );
        if text.starts_with('"') {
            continue;
        }
        let said = serde_json::from_value::<String>(value)
            .unwrap_err()
            .to_string();
        assert_eq!(
            event_error(&format!(
                "{}{}{}",
                r#"{"type":"response.output_text.delta","delta":"#, text, "}"
            )),
            said
        );
    }
    assert_eq!(
        finished_error(r#"{"usage":{"input_tokens":-1}}"#),
        "invalid value: integer `-1`, expected u64"
    );
    assert_eq!(
        finished_error(r#"{"output":{}}"#),
        serde_json::from_str::<Vec<u8>>("{}")
            .unwrap_err()
            .to_string()
            .split(" at line")
            .next()
            .unwrap()
    );
}

#[test]
fn the_first_fault_in_the_text_is_said() {
    assert_eq!(
        item_error(r#"{"type":"function_call","name":1,"call_id":2}"#),
        "invalid type: integer `1`, expected a string"
    );
    assert_eq!(
        item_error(r#"{"type":"function_call","call_id":2,"name":1}"#),
        "invalid type: integer `2`, expected a string"
    );
    assert_eq!(
        item_error(r#"{"type":"function_call","namespace":3}"#),
        "invalid type: integer `3`, expected a string"
    );
    assert_eq!(
        item_error(r#"{"type":"function_call"}"#),
        "missing field `call_id`"
    );
    assert_eq!(
        item_error(r#"{"type":"custom_tool_call","call_id":"c"}"#),
        "missing field `name`"
    );
    assert_eq!(
        finished_error(r#"{"usage":{"total_tokens":true,"input_tokens":false}}"#),
        "invalid type: boolean `true`, expected u64"
    );
    assert_eq!(
        finished_error(r#"{"service_tier":1,"id":2}"#),
        "invalid type: integer `1`, expected string or map"
    );
}

#[test]
fn words_may_come_as_keys() {
    let item = decode_output_item(&json(
        r#"{"type":"message","id":"x","phase":{"commentary":null}}"#,
    ))
    .unwrap();
    assert_eq!(
        item,
        OutputItem::Message {
            id: "x".to_owned(),
            phase: Some(TextSignaturePhase::Commentary),
            content: vec![],
        }
    );
    for (phase, said) in [
        (
            r#"{"commentary":1}"#,
            "invalid type: integer `1`, expected unit",
        ),
        (
            r#"{"other":null}"#,
            "unknown variant `other`, expected `commentary` or `final_answer`",
        ),
        ("{}", "invalid value: map, expected map with a single key"),
        ("1", "invalid type: integer `1`, expected string or map"),
    ] {
        assert_eq!(
            item_error(&format!(
                "{}{}{}",
                r#"{"type":"message","id":"x","phase":"#, phase, "}"
            )),
            said
        );
    }
    assert_eq!(
        finished(r#"{"service_tier":{"flex":null}}"#).service_tier,
        Some(Some(ResponseServiceTier::Flex))
    );
    assert_eq!(
        finished(r#"{"service_tier":"future"}"#).service_tier,
        Some(Some(ResponseServiceTier::Other("future".to_owned())))
    );
    assert_eq!(
        finished(r#"{"service_tier":null}"#).service_tier,
        Some(None)
    );
    assert_eq!(finished("{}").service_tier, None);
    assert_eq!(
        finished_error(r#"{"service_tier":{"future":null}}"#),
        "unknown variant `future`, expected one of `auto`, `default`, `flex`, `scale`, `priority`"
    );
    assert_eq!(
        parse_text_signature(&Some(
            r#"{"v":1,"id":"m","phase":{"final_answer":null}}"#.to_owned()
        )),
        Some(("m".to_owned(), Some(TextSignaturePhase::FinalAnswer)))
    );
    assert_eq!(
        parse_text_signature(&Some(
            r#"{"v":1,"id":"m","phase":{"final_answer":1}}"#.to_owned()
        )),
        Some(("m".to_owned(), None))
    );
}

#[test]
fn headers_are_set_in_the_order_of_their_names() {
    let pair = |name: &str, value: &str| (name.to_owned(), value.to_owned());
    for headers in [
        vec![pair("User-Agent", "own"), pair("USER-AGENT", "model")],
        vec![pair("USER-AGENT", "model"), pair("User-Agent", "own")],
    ] {
        let map = request_headers(&headers).unwrap();
        assert_eq!(map.get("user-agent").unwrap(), "own");
        assert_eq!(map.len(), 1);
    }
    let map = request_headers(&vec![
        pair("x-initiator", "model"),
        pair("X-Initiator", "copilot"),
    ])
    .unwrap();
    assert_eq!(map.get("x-initiator").unwrap(), "model");
    let sorted = sort_by_name(&vec![
        pair("b", "1"),
        pair("é", "2"),
        pair("a", "3"),
        pair("", "4"),
        pair("ab", "5"),
        pair("b", "6"),
        pair("B", "7"),
    ]);
    let mut names: Vec<String> = sorted.iter().map(|(name, _)| name.clone()).collect();
    assert_eq!(names, ["", "B", "a", "ab", "b", "b", "é"]);
    assert_eq!(sorted[4].1, "1");
    assert_eq!(sorted[5].1, "6");
    let found = names.clone();
    names.sort();
    assert_eq!(found, names);
}

#[test]
fn identifiers_of_nine_letters_and_digits_are_kept() {
    let mut ids = MistralToolCallIdNormalizer::default();
    assert_eq!(ids.normalize("abcDEF123").as_deref(), Some("abcDEF123"));
    let other = ids.normalize("abc-DEF-123").unwrap();
    assert_ne!(other, "abcDEF123");
    assert!(other.len() <= 9);
    assert!(other.chars().all(|c| c.is_ascii_alphanumeric()));
    assert_eq!(ids.normalize("abc-DEF-123"), Some(other));
}

#[test]
fn identifiers_are_settled_after_one_pass() {
    let once = normalize_anthropic_tool_call_id("call|é😀 x");
    assert_eq!(once, "call_____x");
    assert_eq!(normalize_anthropic_tool_call_id(&once), once);
}

#[test]
fn values_are_sent_without_white_space() {
    let value = json(r#"{ "b" : [1, -2, 1.50], "a" : "x\ny" }"#);
    assert_eq!(value.to_text(), r#"{"b":[1,-2,1.5],"a":"x\ny"}"#);
    assert_eq!(json(&value.to_text()), value);
}

#[test]
fn decimals_are_sent_as_they_are_held() {
    for n in [
        0.1,
        0.30000000000000004,
        51.248_178_375_505_404,
        123456789.12345679,
        1.7976931348623157e308,
        2.2250738585072014e-308,
        5e-324,
        9007199254740993.5,
        0.12345678901234568,
    ] {
        let value = serde_json::Value::from(n);
        let held = from_value(&value);
        assert_eq!(held.to_text(), value.to_string());
        assert_eq!(json(&held.to_text()), held);
    }
}
