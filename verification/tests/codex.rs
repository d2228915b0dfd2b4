//! The Codex transport.
use openai_api::codex_connections::{
    Acquisition, CodexSessions, ConnectionCache, Release, SESSION_WEBSOCKET_MAX_AGE_MS,
};
use openai_api::codex_retry::{is_retryable_error, service_tier_multiplier};
use openai_api::codex_stream::{
    decode_frame, EventStream, FrameEvent, FrameStream, SocketEvent, SocketStep, SocketStream,
    SseDecoder,
};
use openai_api::codex_transport::{
    bodies_match_except_input, build_sse_headers, build_websocket_headers, cached_request_body,
    classify_failure, close_message, normalize_event, resolve_codex_url,
    resolve_codex_websocket_url, response_create_frame, websocket_request_id, CodexErrorKind,
    Continuation, OPENAI_BETA_SSE, OPENAI_BETA_WEBSOCKETS,
};
use openai_api::constrained_sampling::CompleteJson;
use openai_api::json::{Json, JsonNumber};
use openai_api::openai_responses_shared::ResponseServiceTier;
use openai_api::responses_stream::{
    resolve_codex_service_tier, OpenAIResponsesStreamOptions, ResponsesStream, ServiceTierRule,
};
use openai_api::run::pending_message;
use openai_api::types::{AssistantMessageEvent, Model, ModelInput, StopReason};

fn json(text: &str) -> Json {
    from_value(&serde_json::from_str(text).unwrap())
}

fn from_value(v: &serde_json::Value) -> Json {
    match v {
        serde_json::Value::Null => Json::Null,
        serde_json::Value::Bool(b) => Json::Bool(*b),
        serde_json::Value::Number(n) => {
            if let Some(n) = n.as_u64() {
                Json::Number(JsonNumber::Unsigned(n))
            } else if let Some(n) = n.as_i64() {
                Json::Number(JsonNumber::Negative(n))
            } else {
                Json::Number(JsonNumber::Decimal(n.to_string()))
            }
        }
        serde_json::Value::String(s) => Json::Str(s.clone()),
        serde_json::Value::Array(items) => Json::Array(items.iter().map(from_value).collect()),
        serde_json::Value::Object(fields) => Json::Object(
            fields
                .iter()
                .map(|(key, v)| (key.clone(), from_value(v)))
                .collect(),
        ),
    }
}

fn model(id: &str) -> Model {
    Model {
        id: id.to_owned(),
        name: id.to_owned(),
        api: "openai-codex-responses".to_owned(),
        provider: "openai-codex".to_owned(),
        base_url: "https://chatgpt.com/backend-api".to_owned(),
        reasoning: true,
        thinking_level_map: None,
        input: vec![ModelInput::Text],
        context_window: 400_000,
        max_tokens: 128_000,
        sampling_params: None,
        headers: None,
        compat: None,
    }
}

#[test]
fn codex_url_and_uncached_websocket_request_id_match_pi() {
    assert_eq!(
        resolve_codex_url("https://chatgpt.com/backend-api/"),
        "https://chatgpt.com/backend-api/codex/responses"
    );
    assert_eq!(
        resolve_codex_url("https://chatgpt.com/backend-api/codex"),
        "https://chatgpt.com/backend-api/codex/responses"
    );
    assert_eq!(
        resolve_codex_websocket_url("https://chatgpt.com/backend-api").expect("URL"),
        "wss://chatgpt.com/backend-api/codex/responses"
    );
    let request_id = websocket_request_id(None);
    let parsed = uuid::Uuid::parse_str(&request_id).expect("UUID");
    assert_eq!(parsed.get_version_num(), 7);
    assert!(uuid::Uuid::parse_str(&websocket_request_id(Some(""))).is_ok());
    assert_eq!(websocket_request_id(Some("session")), "session");
}

#[test]
fn unknown_service_tier_passes_through_resolution_at_multiplier_one() {
    let tier = ResponseServiceTier::Other("future-tier".to_owned());
    assert_eq!(
        resolve_codex_service_tier(
            &Some(Some(tier.clone())),
            &Some(Some(ResponseServiceTier::Priority)),
        ),
        Some(Some(tier.clone()))
    );
    assert_eq!(
        service_tier_multiplier(&model("gpt-5.5"), &Some(tier)) as f64 / 10.0,
        1.0
    );
}

#[test]
fn retryable_pattern_optional_character_excludes_js_line_terminators() {
    for separator in ['\n', '\r', '\u{2028}', '\u{2029}'] {
        assert!(!is_retryable_error(400, &format!("rate{separator}limit")));
    }
    assert!(!is_retryable_error(400, "rate😀limit"));
    assert!(is_retryable_error(400, "rate limit"));
    assert!(is_retryable_error(400, "rateélimit"));
    assert!(is_retryable_error(400, "ratelimit"));
}

#[test]
fn transient_responses_are_retryable() {
    assert!(is_retryable_error(503, "unavailable"));
    assert!(is_retryable_error(429, ""));
    assert!(is_retryable_error(400, "upstream connection refused"));
    assert!(is_retryable_error(400, "Rate Limit reached"));
    assert!(!is_retryable_error(400, "bad request"));
    assert!(!is_retryable_error(400, "rate"));
}

#[test]
fn service_tiers_cost_tenths() {
    let tier = Some(ResponseServiceTier::Flex);
    assert_eq!(service_tier_multiplier(&model("gpt-5.1-codex"), &tier), 5);
    let tier = Some(ResponseServiceTier::Priority);
    assert_eq!(service_tier_multiplier(&model("gpt-5.1-codex"), &tier), 20);
    assert_eq!(service_tier_multiplier(&model("gpt-5.5"), &tier), 25);
    assert_eq!(service_tier_multiplier(&model("gpt-5.5"), &None), 10);
}

#[test]
fn addresses_are_settled_and_checked() {
    let url = resolve_codex_url("  ");
    assert_eq!(url, "https://chatgpt.com/backend-api/codex/responses");
    assert_eq!(resolve_codex_url(&url), url);
    assert_eq!(
        resolve_codex_websocket_url("http://127.0.0.1:8080/x/codex/").unwrap(),
        "ws://127.0.0.1:8080/x/codex/responses"
    );
    assert_eq!(
        resolve_codex_websocket_url("ws://host").unwrap(),
        "ws://host/codex/responses"
    );
    let error = resolve_codex_websocket_url("not a url").unwrap_err();
    assert_eq!(error.message, "relative URL without a base");
    assert!(matches!(classify_failure(&error), CodexErrorKind::Other));
}

#[test]
fn codex_headers_are_set_and_taken_out() {
    let own = vec![
        ("X-Own".to_owned(), "1".to_owned()),
        ("Authorization".to_owned(), "own".to_owned()),
    ];
    let given = vec![
        ("x-own".to_owned(), None),
        ("Accept".to_owned(), Some("mine".to_owned())),
    ];
    let headers =
        build_sse_headers(&own, &given, "account", "token", "agent", Some("session")).unwrap();
    assert!(headers.get("x-own").is_none());
    assert_eq!(headers["authorization"], "Bearer token");
    assert_eq!(headers["chatgpt-account-id"], "account");
    assert_eq!(headers["originator"], "pi");
    assert_eq!(headers["user-agent"], "agent");
    assert_eq!(headers["openai-beta"], OPENAI_BETA_SSE);
    assert_eq!(headers["accept"], "text/event-stream");
    assert_eq!(headers["session-id"], "session");
    assert_eq!(headers["x-client-request-id"], "session");
    assert_eq!(headers.len(), 9);

    let headers = build_websocket_headers(&own, &given, "account", "token", "agent", "id").unwrap();
    assert!(headers.get("accept").is_none());
    assert_eq!(headers["openai-beta"], OPENAI_BETA_WEBSOCKETS);
    assert_eq!(headers["session-id"], "id");

    let error = build_sse_headers(&own, &vec![], "a\n", "token", "agent", None).unwrap_err();
    assert_eq!(error.message, "failed to parse header value");
    let error = build_sse_headers(
        &vec![("a b".to_owned(), String::new())],
        &vec![],
        "a",
        "token",
        "agent",
        None,
    )
    .unwrap_err();
    assert_eq!(error.message, "invalid HTTP header name");
}

#[test]
fn close_frames_are_told() {
    assert_eq!(close_message(None), "WebSocket closed");
    assert_eq!(close_message(Some((1000, ""))), "WebSocket closed 1000");
    assert_eq!(
        close_message(Some((1009, ""))),
        "WebSocket closed 1009 message too big"
    );
    assert_eq!(
        close_message(Some((1011, "oops"))),
        "WebSocket closed 1011 oops"
    );
}

#[test]
fn continuation_sends_only_new_input() {
    let first = json(r#"{"model":"m","store":false,"input":[{"role":"user"}]}"#);
    let continuation = Continuation {
        last_request_body: first.clone(),
        last_response_id: "resp_1".to_owned(),
        last_response_items: vec![json(r#"{"type":"message","id":"a"}"#)],
    };
    let body = json(
        r#"{"model":"m","store":false,"input":[{"role":"user"},{"id":"a","type":"message"},{"new":1}]}"#,
    );
    let mut held = Some(continuation.clone());
    assert_eq!(
        cached_request_body(&mut held, &body),
        json(
            r#"{"model":"m","store":false,"input":[{"new":1}],"previous_response_id":"resp_1"}"#
        )
    );
    assert_eq!(held, Some(continuation.clone()));

    let other = json(r#"{"model":"n","store":false,"input":[{"role":"user"}]}"#);
    assert!(!bodies_match_except_input(&first, &other));
    assert_eq!(cached_request_body(&mut held, &other), other);
    assert_eq!(held, None);
    assert_eq!(cached_request_body(&mut held, &body), body);

    let mut held = Some(continuation);
    assert_eq!(cached_request_body(&mut held, &first), first);
    assert_eq!(held, None);
}

#[test]
fn events_are_normalized() {
    let (event, terminal) = normalize_event(&json(
        r#"{"type":"response.done","response":{"end_turn":"yes","status":"odd","id":"r"}}"#,
    ))
    .unwrap()
    .unwrap();
    assert_eq!(
        event,
        json(r#"{"type":"response.completed","response":{"id":"r"}}"#)
    );
    assert!(terminal);
    let (event, terminal) = normalize_event(&json(
        r#"{"type":"response.incomplete","response":{"end_turn":true,"status":"incomplete"}}"#,
    ))
    .unwrap()
    .unwrap();
    assert_eq!(
        event,
        json(
            r#"{"type":"response.completed","response":{"end_turn":true,"status":"incomplete"}}"#
        )
    );
    assert!(terminal);
    let plain = json(r#"{"type":"response.created"}"#);
    assert_eq!(normalize_event(&plain).unwrap(), Some((plain, false)));
    assert_eq!(normalize_event(&json("[]")).unwrap(), None);
    let error = normalize_event(&json(r#"{"type":"error","error":{"code":"c"}}"#)).unwrap_err();
    assert_eq!(error.message, "Codex error: c");
    assert_eq!(
        error.kind,
        CodexErrorKind::Api {
            code: Some("c".to_owned())
        }
    );
    let error = normalize_event(&json(r#"{"type":"error","odd":1}"#)).unwrap_err();
    assert_eq!(error.message, r#"Codex error: {"type":"error","odd":1}"#);
    let error = normalize_event(&json(
        r#"{"type":"response.failed","response":{"error":{"message":"no","code":"x"}}}"#,
    ))
    .unwrap_err();
    assert_eq!(error.message, "no");
    let error = normalize_event(&json(r#"{"type":"response.failed"}"#)).unwrap_err();
    assert_eq!(error.message, "Codex response failed");
    assert_eq!(error.kind, CodexErrorKind::Api { code: None });
}

#[test]
fn frames_hold_the_request() {
    assert_eq!(
        response_create_frame(&json(r#"{"model":"m","type":"own"}"#)),
        r#"{"type":"own","model":"m"}"#
    );
    assert_eq!(
        response_create_frame(&json(r#"["a",1]"#)),
        r#"{"type":"response.create","0":"a","1":1}"#
    );
    assert_eq!(
        response_create_frame(&json(r#""hé""#)),
        r#"{"type":"response.create","0":"h","1":"é"}"#
    );
    assert_eq!(
        response_create_frame(&json("7")),
        r#"{"type":"response.create"}"#
    );
}

#[test]
fn codex_frames_are_read_in_any_split() {
    let wire = "event: x\r\ndata: {\"a\":\ndata:1}\n\ndata: [DONE]\n\n: note\n\ndata: \"é\"\n\ndata: open".as_bytes();
    let expected = vec!["{\"a\":\n1}".to_owned(), "\"é\"".to_owned()];
    for split in 0..=wire.len() {
        let mut decoder = SseDecoder::default();
        let mut frames = decoder.push(&wire[..split]);
        frames.extend(decoder.push(&wire[split..]));
        assert_eq!(frames, expected);
    }
    assert_eq!(decode_frame("{\"a\":\n1}").unwrap(), json(r#"{"a":1}"#));
    let error = decode_frame("{").unwrap_err();
    assert!(error.message.starts_with("Invalid Codex SSE JSON: EOF"));
    assert_eq!(error.kind, CodexErrorKind::Protocol);
}

#[test]
fn socket_streams_end_quietly_once_complete() {
    let mut stream = SocketStream::new();
    assert!(matches!(
        stream.take(SocketEvent::Silence),
        SocketStep::Wanted
    ));
    assert!(matches!(
        stream.take(SocketEvent::Binary(
            br#"{"type":"response.completed"}"#.to_vec()
        )),
        SocketStep::Value(_)
    ));
    assert!(matches!(
        stream.take(SocketEvent::Close(None)),
        SocketStep::Finished
    ));
    assert!(!stream.alive);

    let mut stream = SocketStream::new();
    let SocketStep::Failure(error) = stream.take(SocketEvent::Close(Some((1009, String::new()))))
    else {
        panic!("failure")
    };
    assert_eq!(error.message, "WebSocket closed 1009 message too big");
    assert_eq!(
        error.kind,
        CodexErrorKind::WebSocketClose { code: Some(1009) }
    );
    assert!(matches!(
        stream.take(SocketEvent::Text("{}".to_owned())),
        SocketStep::Finished
    ));

    let mut stream = SocketStream::new();
    let SocketStep::Failure(error) = stream.take(SocketEvent::End) else {
        panic!("failure")
    };
    assert_eq!(
        error.message,
        "WebSocket stream closed before response.completed"
    );
    assert_eq!(error.kind, CodexErrorKind::Transport);

    let mut stream = SocketStream::new();
    let SocketStep::Failure(error) = stream.take(SocketEvent::Text("nope".to_owned())) else {
        panic!("failure")
    };
    assert!(error
        .message
        .starts_with("Invalid Codex WebSocket JSON: expected"));
    assert!(stream.alive);
}

#[test]
fn event_streams_stop_at_the_terminal_event() {
    let mut stream = EventStream::new(false);
    assert!(matches!(
        stream.take(Ok(json("{}"))),
        SocketStep::Wanted
    ));
    assert!(!stream.started);
    assert!(!stream.announced);
    assert!(matches!(
        stream.take(Ok(json(r#"{"type":"response.created"}"#))),
        SocketStep::Value(_)
    ));
    assert!(stream.started);
    assert!(stream.announced);
    assert!(matches!(
        stream.take(Ok(json(r#"{"type":"response.completed"}"#))),
        SocketStep::Value(_)
    ));
    assert!(matches!(
        stream.take(Ok(json(r#"{"type":"response.created"}"#))),
        SocketStep::Finished
    ));
}

#[test]
fn connections_are_kept_reused_and_given_up() {
    let mut cache = ConnectionCache::new();
    assert_eq!(
        cache.acquire("s", "a", 0, false),
        Acquisition::Connect
    );
    assert!(cache.connected("s", "a", 1, 10));
    assert_eq!(cache.acquire("s", "a", 20, true), Acquisition::Connect);
    assert!(!cache.connected("s", "a", 2, 20));
    assert!(cache.connected("s", "b", 3, 20));
    assert_eq!(
        cache.release("s", "a", 1, true, true),
        Release::Keep { generation: 1 }
    );
    assert_eq!(
        cache.acquire("s", "a", 30, true),
        Acquisition::Reuse { handle: 1 }
    );
    assert_eq!(
        cache.release("s", "a", 1, true, true),
        Release::Keep { generation: 2 }
    );
    assert!(!cache.idle_timeout("s", "a", 1, 1));
    assert!(cache.idle_timeout("s", "a", 1, 2));
    assert!(cache.get("s", "a").is_none());
    assert_eq!(cache.release("s", "b", 3, false, true), Release::Close);
    assert!(cache.get("s", "b").is_none());

    assert!(cache.connected("s", "a", 4, 100));
    assert_eq!(
        cache.release("s", "a", 4, true, true),
        Release::Keep { generation: 1 }
    );
    assert_eq!(
        cache.acquire("s", "a", 100 + SESSION_WEBSOCKET_MAX_AGE_MS, true),
        Acquisition::ReplaceAged { handle: 4 }
    );
    assert!(cache.connected("s", "a", 5, 100));
    assert_eq!(cache.release("s", "a", 5, true, false), Release::Close);
    assert_eq!(cache.release("s", "a", 5, true, true), Release::Forgotten);
    assert!(cache.connected("s", "a", 6, 100));
    cache.release("s", "a", 6, true, true);
    assert_eq!(
        cache.acquire("s", "a", 101, false),
        Acquisition::ReplaceDead { handle: 6 }
    );

    assert!(cache.connected("s", "a", 7, 0));
    assert!(cache.connected("t", "a", 8, 0));
    assert_eq!(cache.close_sessions(Some("s")), vec![7]);
    assert!(cache.connected("s", "a", 9, 0));
    assert_eq!(cache.close_sessions(Some("")), vec![8, 9]);
    assert!(cache.entries.is_empty());
}

#[test]
fn cached_connection_remembers_its_last_response() {
    let mut cache = ConnectionCache::new();
    cache.connected("s", "a", 1, 0);
    let body = json(r#"{"model":"m","input":[1]}"#);
    assert_eq!(cache.cached_request_body(1, &body), body);
    cache.set_continuation(
        1,
        Some(Continuation {
            last_request_body: body,
            last_response_id: "r".to_owned(),
            last_response_items: vec![json("2")],
        }),
    );
    let next = json(r#"{"model":"m","input":[1,2,3]}"#);
    assert_eq!(
        cache.cached_request_body(1, &next),
        json(r#"{"model":"m","input":[3],"previous_response_id":"r"}"#)
    );
    assert_eq!(cache.cached_request_body(2, &next), next);
    assert_eq!(cache.close_sessions(Some("s")), [1]);
    assert_eq!(
        cache.cached_request_body(1, &next),
        json(r#"{"model":"m","input":[3],"previous_response_id":"r"}"#)
    );
    cache.forget(1);
    assert_eq!(cache.cached_request_body(1, &next), next);
}

#[test]
fn sessions_count_what_happens() {
    let mut sessions = CodexSessions::new();
    assert!(sessions.get_debug_stats("s").is_none());
    assert!(sessions.can_record("s"));
    sessions.record_websocket_request(
        Some("s"),
        false,
        true,
        &json(r#"{"input":[1,2],"store":true}"#),
    );
    sessions.record_websocket_request(
        Some("s"),
        true,
        true,
        &json(r#"{"input":[3],"store":false,"previous_response_id":"r"}"#),
    );
    sessions.record_websocket_request(None, true, true, &json("{}"));
    let stats = sessions.get_debug_stats("s").unwrap();
    assert_eq!(stats.requests, 2);
    assert_eq!(stats.connections_created, 1);
    assert_eq!(stats.connections_reused, 1);
    assert_eq!(stats.cached_context_requests, 2);
    assert_eq!(stats.store_true_requests, 1);
    assert_eq!(stats.full_context_requests, 1);
    assert_eq!(stats.delta_requests, 1);
    assert_eq!(stats.last_input_items, 1);
    assert_eq!(stats.last_delta_input_items, Some(1));
    assert_eq!(stats.last_previous_response_id.as_deref(), Some("r"));

    assert!(!sessions.fallback_active(Some("s")));
    sessions.record_sse_fallback(Some("s"));
    assert_eq!(
        sessions.get_debug_stats("s").unwrap().websocket_fallback_active,
        Some(false)
    );
    sessions.record_websocket_failure(Some("s"), "lost");
    assert!(sessions.fallback_active(Some("s")));
    assert!(!sessions.fallback_active(None));
    sessions.record_sse_fallback(Some("s"));
    let stats = sessions.get_debug_stats("s").unwrap();
    assert_eq!(stats.sse_fallbacks, 2);
    assert_eq!(stats.websocket_failures, 1);
    assert_eq!(stats.websocket_fallback_active, Some(true));
    assert_eq!(stats.last_websocket_error.as_deref(), Some("lost"));
    sessions.record_websocket_failure(Some("t"), "lost");
    sessions.reset_debug_stats(Some("s"));
    assert!(sessions.get_debug_stats("s").is_none());
    assert!(!sessions.fallback_active(Some("s")));
    assert!(sessions.fallback_active(Some("t")));
    sessions.reset_debug_stats(None);
    assert!(!sessions.fallback_active(Some("t")));
}

#[test]
fn codex_toolcall_start_carries_start_time_namespace() {
    let mut stream = ResponsesStream::new(pending_message(&model("gpt-5.1-codex"), 1));
    let options = OpenAIResponsesStreamOptions {
        service_tier: None,
        service_tier_rule: ServiceTierRule::Codex,
        grammar_tool_input_properties: None,
        capture_end_turn: true,
    };
    let mut frames = FrameStream::new();
    let body = [
        r#"{"type":"response.output_item.added","output_index":0,"item":{"type":"function_call","id":"fc_1","call_id":"call_1","name":"lookup","namespace":"dynamic_tools","arguments":"{}"}}"#,
        r#"{"type":"response.output_item.done","output_index":0,"item":{"type":"function_call","id":"fc_1","call_id":"call_1","name":"lookup","namespace":"dynamic_tools","arguments":"{}"}}"#,
        r#"{"type":"response.completed","response":{"id":"resp_1","status":"completed","usage":{"input_tokens":1,"output_tokens":1,"total_tokens":2}}}"#,
    ]
    .iter()
    .map(|event| format!("data: {event}\n\n"))
    .collect::<String>();
    let mut step = frames.feed(FrameEvent::Bytes(body.into_bytes()));
    while let SocketStep::Value(event) = step {
        stream
            .process_event(&event, &options, &CompleteJson)
            .unwrap();
        step = frames.next();
    }
    assert!(stream.finish().is_ok());
    let namespace = stream.events.iter().find_map(|event| match event {
        AssistantMessageEvent::ToolCallStart { namespace, .. } => namespace.clone(),
        _ => None,
    });
    assert_eq!(namespace.as_deref(), Some("dynamic_tools"));
}

#[test]
fn client_service_tier_prices_codex_default_echo() {
    for (id, tier, tenths) in [
        ("gpt-5.1-codex", ResponseServiceTier::Flex, 5),
        ("gpt-5.1-codex", ResponseServiceTier::Priority, 20),
        ("gpt-5.5", ResponseServiceTier::Flex, 5),
        ("gpt-5.5", ResponseServiceTier::Priority, 25),
    ] {
        let current = model(id);
        let mut stream = ResponsesStream::new(pending_message(&current, 1));
        let options = OpenAIResponsesStreamOptions {
            service_tier: Some(Some(tier)),
            service_tier_rule: ServiceTierRule::Codex,
            grammar_tool_input_properties: None,
            capture_end_turn: true,
        };
        stream
            .process_event(
                &json(
                    r#"{"type":"response.completed","response":{"status":"completed","service_tier":"default",
                        "usage":{"input_tokens":1000000,"output_tokens":1000000,"total_tokens":2000000}}}"#,
                ),
                &options,
                &CompleteJson,
            )
            .unwrap();
        assert_eq!(
            service_tier_multiplier(&current, &stream.service_tier.flatten()),
            tenths
        );
    }
}

#[test]
fn terminal_codex_events_say_whether_the_turn_ends() {
    for (kind, status, details, expected) in [
        ("response.completed", "completed", "null", StopReason::Stop),
        (
            "response.incomplete",
            "incomplete",
            r#"{"reason":"max_output_tokens"}"#,
            StopReason::Length,
        ),
    ] {
        for (said, capture, end_turn) in [
            ("false", true, Some(false)),
            ("true", true, Some(true)),
            ("null", true, None),
            ("1", true, None),
            ("false", false, None),
        ] {
            let body = format!(
                r#"data: {{"type":"{kind}","response":{{"id":"resp_1","status":"{status}","end_turn":{said},"incomplete_details":{details}}}}}"#
            );
            let mut frames = FrameStream::new();
            let step = frames.feed(FrameEvent::Bytes(format!("{body}\n\n").into_bytes()));
            let SocketStep::Value(event) = step else {
                panic!("event");
            };
            let mut stream = ResponsesStream::new(pending_message(&model("gpt-5.1-codex"), 1));
            let options = OpenAIResponsesStreamOptions {
                service_tier: None,
                service_tier_rule: ServiceTierRule::Codex,
                grammar_tool_input_properties: None,
                capture_end_turn: capture,
            };
            stream
                .process_event(&event, &options, &CompleteJson)
                .unwrap();
            assert_eq!(stream.output.stop_reason, expected);
            assert_eq!(stream.output.end_turn, end_turn);
        }
    }
}
