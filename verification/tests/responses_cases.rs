//! Responses runs over the bytes of a body.
use openai_api::constrained_sampling::CompleteJson;
use openai_api::headers::{ClientHeaders, PreparedRequest};
use openai_api::json::{Json, JsonNumber};
use openai_api::openai_responses::{
    open_ai_tool_call_ids, service_tier_cost_multiplier, OpenAIResponsesOptions,
};
use openai_api::openai_responses_shared::ResponseServiceTier;
use openai_api::openai_sse::{BodyEvent, SseJsonStream, SseStep};
use openai_api::provider_error::{format_retry_error, OpenAiHttpError, ProviderRetryError};
use openai_api::responses_run::ResponsesRun;
use openai_api::run::{RunInput, RunPhase};
use openai_api::types::{
    AssistantContent, AssistantMessage, AssistantMessageEvent, CacheRetention, Context,
    ErrorStopReason, ImageContent, Message, Model, ModelCompat, ModelInput,
    OpenAIResponsesCompat, SessionAffinityFormat, StopReason, TextContent, ThinkingLevelMap,
    Tool, ToolResultMessage, UsageValue, UserContent, UserContentBlock, UserMessage,
};

fn json(text: &str) -> Json {
    from_value(&serde_json::from_str(text).unwrap())
}

fn from_value(v: &serde_json::Value) -> Json {
    match v {
        serde_json::Value::Null => Json::Null,
        serde_json::Value::Bool(b) => Json::Bool(*b),
        serde_json::Value::Number(n) => {
            if let Some(n) = n.as_u64() {
                Json::Number(JsonNumber::Unsigned(n))
            } else if let Some(n) = n.as_i64() {
                Json::Number(JsonNumber::Negative(n))
            } else {
                Json::Number(JsonNumber::Decimal(n.to_string()))
            }
        }
        serde_json::Value::String(s) => Json::Str(s.clone()),
        serde_json::Value::Array(items) => Json::Array(items.iter().map(from_value).collect()),
        serde_json::Value::Object(fields) => Json::Object(
            fields
                .iter()
                .map(|(key, v)| (key.clone(), from_value(v)))
                .collect(),
        ),
    }
}

fn to_value(v: &Json) -> serde_json::Value {
    match v {
        Json::Null => serde_json::Value::Null,
        Json::Bool(b) => serde_json::Value::Bool(*b),
        Json::Number(JsonNumber::Unsigned(n)) => serde_json::Value::from(*n),
        Json::Number(JsonNumber::Negative(n)) => serde_json::Value::from(*n),
        Json::Number(JsonNumber::Decimal(t)) => serde_json::from_str(t).unwrap(),
        Json::Str(s) => serde_json::Value::String(s.clone()),
        Json::Array(items) => serde_json::Value::Array(items.iter().map(to_value).collect()),
        Json::Object(fields) => serde_json::Value::Object(
            fields
                .iter()
                .map(|(key, v)| (key.clone(), to_value(v)))
                .collect(),
        ),
    }
}

fn value(text: &str) -> serde_json::Value {
    serde_json::from_str(text).unwrap()
}

fn kind(event: &AssistantMessageEvent) -> &'static str {
    match event {
        AssistantMessageEvent::Start => "start",
        AssistantMessageEvent::TextStart { .. } => "text_start",
        AssistantMessageEvent::TextDelta { .. } => "text_delta",
        AssistantMessageEvent::TextEnd { .. } => "text_end",
        AssistantMessageEvent::ThinkingStart { .. } => "thinking_start",
        AssistantMessageEvent::ThinkingDelta { .. } => "thinking_delta",
        AssistantMessageEvent::ThinkingEnd { .. } => "thinking_end",
        AssistantMessageEvent::ToolCallStart { .. } => "toolcall_start",
        AssistantMessageEvent::ToolCallDelta { .. } => "toolcall_delta",
        AssistantMessageEvent::ToolCallEnd { .. } => "toolcall_end",
        AssistantMessageEvent::Done { .. } => "done",
        AssistantMessageEvent::Error { .. } => "error",
    }
}

fn kinds(events: &[AssistantMessageEvent]) -> Vec<&'static str> {
    events.iter().map(kind).collect()
}

fn last_message(events: &[AssistantMessageEvent]) -> &AssistantMessage {
    match events.last() {
        Some(AssistantMessageEvent::Done { message, .. }) => message,
        Some(AssistantMessageEvent::Error { error, .. }) => error,
        _ => panic!("terminal event"),
    }
}

fn next_input(stream: &mut SseJsonStream, body: &mut Vec<BodyEvent>) -> (RunInput, bool) {
    let mut aborted = false;
    let mut step = stream.next();
    loop {
        match step {
            SseStep::Value(value) => return (RunInput::Value(value), aborted),
            SseStep::Failure(error) => return (RunInput::Broken(error), aborted),
            SseStep::Finished => return (RunInput::Ended, aborted),
            SseStep::Wanted => {
                let event = if body.is_empty() {
                    BodyEvent::End
                } else {
                    body.remove(0)
                };
                aborted = matches!(event, BodyEvent::Abort);
                step = stream.feed(event);
            }
        }
    }
}

fn sse(events: &[&str]) -> Vec<BodyEvent> {
    let mut text = String::new();
    for event in events {
        text.push_str(&format!("data: {}\n\n", value(event)));
    }
    text.push_str("data: [DONE]\n\n");
    vec![BodyEvent::Bytes(text.into_bytes())]
}

fn open_sse(events: &[&str]) -> Vec<BodyEvent> {
    events
        .iter()
        .map(|event| BodyEvent::Bytes(format!("data: {}\n\n", value(event)).into_bytes()))
        .collect()
}

fn header<'a>(request: &'a PreparedRequest, name: &str) -> Option<&'a str> {
    request
        .headers
        .iter()
        .find(|(key, _)| key.eq_ignore_ascii_case(name))
        .map(|(_, value)| value.as_str())
}

fn client() -> ClientHeaders {
    ClientHeaders {
        user_agent: "agent".to_owned(),
        platform: vec![],
        copilot: vec![
            ("X-Initiator".to_owned(), "user".to_owned()),
            ("Openai-Intent".to_owned(), "conversation-edits".to_owned()),
        ],
    }
}

const COMPLETED: &str =
    r#"{"type":"response.completed","response":{"id":"resp_test","status":"completed"}}"#;

fn base_model(id: &str) -> Model {
    Model {
        id: id.to_owned(),
        name: id.to_owned(),
        api: "openai-responses".to_owned(),
        provider: "openai".to_owned(),
        base_url: "https://example.invalid/v1".to_owned(),
        reasoning: true,
        thinking_level_map: Some(ThinkingLevelMap {
            off: Some(Some("none".to_owned())),
            low: Some(Some("low".to_owned())),
            medium: Some(Some("medium".to_owned())),
            high: Some(Some("high".to_owned())),
            xhigh: Some(Some("xhigh".to_owned())),
            ..ThinkingLevelMap::default()
        }),
        input: vec![ModelInput::Text, ModelInput::Image],
        context_window: 272_000,
        max_tokens: 128_000,
        sampling_params: None,
        headers: None,
        compat: Some(ModelCompat::OpenAIResponses(OpenAIResponsesCompat {
            supports_strict_mode: Some(true),
            supports_open_ai_grammar_tools: Some(true),
            supports_additional_tools: Some(true),
            supports_tool_search: Some(true),
            ..OpenAIResponsesCompat::default()
        })),
    }
}

fn context() -> Context {
    Context {
        system_prompt: Some("sys".to_owned()),
        messages: vec![Message::User(UserMessage {
            content: UserContent::Text("hi".to_owned()),
            timestamp: 1,
        })],
        tools: None,
    }
}

fn options() -> OpenAIResponsesOptions {
    let mut options = OpenAIResponsesOptions::default();
    options.stream.request.api_key = Some("test-key".to_owned());
    options
}

fn begin(
    model: &Model,
    context: &Context,
    options: &OpenAIResponsesOptions,
) -> (ResponsesRun, PreparedRequest) {
    let (run, request) = ResponsesRun::begin(
        model,
        context,
        options,
        &client(),
        None,
        &context.tools.clone().unwrap_or_default(),
        &vec![],
        &open_ai_tool_call_ids(),
        false,
        1,
    );
    (run, request.unwrap())
}

fn drive(run: &mut ResponsesRun, mut pieces: Vec<BodyEvent>) -> Vec<AssistantMessageEvent> {
    let mut stream = SseJsonStream::new();
    let mut gave_up = false;
    let mut input = RunInput::Answered;
    let mut events = vec![];
    while run.phase != RunPhase::Over {
        events.extend(run.step(input, gave_up, &CompleteJson));
        let (next, aborted) = next_input(&mut stream, &mut pieces);
        gave_up = gave_up || aborted;
        input = next;
    }
    events
}

fn run(
    model: &Model,
    context: &Context,
    options: &OpenAIResponsesOptions,
    pieces: Vec<BodyEvent>,
) -> (Vec<AssistantMessageEvent>, PreparedRequest) {
    let (mut run, request) = begin(model, context, options);
    (drive(&mut run, pieces), request)
}

fn affinity_request(
    provider: &str,
    format: Option<SessionAffinityFormat>,
    request_headers: Option<Vec<(String, Option<String>)>>,
    cache_retention: CacheRetention,
) -> PreparedRequest {
    let mut model = base_model("gpt-5.4");
    model.provider = provider.to_owned();
    model.compat = format.map(|session_affinity_format| {
        ModelCompat::OpenAIResponses(OpenAIResponsesCompat {
            session_affinity_format: Some(session_affinity_format),
            ..OpenAIResponsesCompat::default()
        })
    });
    let mut request_options = options();
    request_options.stream.session_id = Some("session-123".to_owned());
    request_options.stream.cache_retention = Some(cache_retention);
    request_options.stream.request.headers = request_headers;
    begin(&model, &context(), &request_options).1
}

#[test]
fn ports_cache_affinity_header_matrix_over_http() {
    let official = affinity_request("openai", None, None, CacheRetention::Short);
    assert_eq!(official.url, "https://example.invalid/v1/responses");
    assert_eq!(header(&official, "session_id"), Some("session-123"));
    assert_eq!(
        header(&official, "x-client-request-id"),
        Some("session-123")
    );

    let proxy = affinity_request("opencode", None, None, CacheRetention::Short);
    assert_eq!(header(&proxy, "session_id"), Some("session-123"));
    assert_eq!(header(&proxy, "x-client-request-id"), Some("session-123"));

    for (provider, configured) in [
        ("proxy", Some(SessionAffinityFormat::Openrouter)),
        ("openrouter", None),
    ] {
        let request = affinity_request(provider, configured, None, CacheRetention::Short);
        let body = to_value(&request.params);
        assert_eq!(header(&request, "session_id"), None);
        assert_eq!(header(&request, "x-client-request-id"), None);
        assert_eq!(header(&request, "x-session-id"), Some("session-123"));
        assert_eq!(body["prompt_cache_key"], "session-123");
        assert!(body.get("session_id").is_none());
    }

    for provider in ["proxy", "opencode"] {
        let request = affinity_request(
            provider,
            Some(SessionAffinityFormat::OpenaiNosession),
            None,
            CacheRetention::Short,
        );
        assert_eq!(header(&request, "session_id"), None);
        assert_eq!(header(&request, "x-client-request-id"), Some("session-123"));
        assert_eq!(header(&request, "x-session-id"), None);
        assert_eq!(
            to_value(&request.params)["prompt_cache_key"],
            "session-123"
        );
    }

    let override_headers = vec![
        ("session_id".to_owned(), Some("override-session".to_owned())),
        (
            "x-client-request-id".to_owned(),
            Some("override-request".to_owned()),
        ),
    ];
    let overridden = affinity_request(
        "openai",
        None,
        Some(override_headers),
        CacheRetention::Short,
    );
    assert_eq!(header(&overridden, "session_id"), Some("override-session"));
    assert_eq!(
        header(&overridden, "x-client-request-id"),
        Some("override-request")
    );

    let disabled = affinity_request("openai", None, None, CacheRetention::Never);
    assert_eq!(header(&disabled, "session_id"), None);
    assert_eq!(header(&disabled, "x-client-request-id"), None);
}

#[test]
fn ports_service_tier_cost_multipliers_over_http() {
    for (id, tier, name, tenths) in [
        ("gpt-5.4", ResponseServiceTier::Priority, "priority", 20),
        ("gpt-5.5", ResponseServiceTier::Priority, "priority", 25),
        ("gpt-5.5", ResponseServiceTier::Flex, "flex", 5),
    ] {
        let model = base_model(id);
        let mut request_options = options();
        request_options.service_tier = Some(Some(tier));
        let event = format!(
            "{}{}{}",
            r#"{"type":"response.completed","response":{"status":"completed","service_tier":""#,
            name,
            r#"","usage":{"input_tokens":100000,"output_tokens":100000,
                "total_tokens":200000,"input_tokens_details":{"cached_tokens":0}}}}"#
        );
        let (mut run, _) = begin(&model, &context(), &request_options);
        let events = drive(&mut run, sse(&[&event]));
        let message = last_message(&events);
        assert_eq!(message.usage.input, UsageValue::Count(100_000));
        assert_eq!(message.usage.output, UsageValue::Count(100_000));
        assert_eq!(message.usage.total_tokens, UsageValue::Count(200_000));
        let served = run.stream.service_tier.flatten();
        assert_eq!(service_tier_cost_multiplier(&model, &served), tenths);
    }
}

#[test]
fn ports_tool_result_images_inside_function_output_over_http() {
    for provider in ["openai", "github-copilot"] {
        let mut model = base_model("gpt-5-mini");
        model.provider = provider.to_owned();
        let mut test_context = context();
        test_context.tools = Some(vec![Tool {
            name: "get_circle_with_description".to_owned(),
            description: "get_circle_with_description".to_owned(),
            parameters: json(r#"{"type":"object","properties":{"value":{"type":"string"}}}"#),
            strict_parameters: json(
                r#"{"type":"object","properties":{"value":{"type":"string"}}}"#,
            ),
            strict: None,
            grammar: None,
        }]);
        let (events, _) = run(
            &model,
            &test_context,
            &options(),
            sse(&[
                r#"{"type":"response.output_item.added","output_index":0,
                    "item":{"type":"function_call","id":"fc_image","call_id":"call_image",
                        "name":"get_circle_with_description","arguments":""}}"#,
                r#"{"type":"response.output_item.done","output_index":0,
                    "item":{"type":"function_call","id":"fc_image","call_id":"call_image",
                        "name":"get_circle_with_description","arguments":"{}"}}"#,
                r#"{"type":"response.completed",
                    "response":{"id":"resp_tool","status":"completed"}}"#,
            ]),
        );
        let first = last_message(&events);
        assert_eq!(first.stop_reason, StopReason::ToolUse);
        let call = first
            .content
            .iter()
            .find_map(|block| match block {
                AssistantContent::ToolCall(call) => Some(call),
                _ => None,
            })
            .expect("tool call");
        test_context.messages.push(Message::Assistant(first.clone()));
        test_context
            .messages
            .push(Message::ToolResult(ToolResultMessage {
                tool_call_id: call.id.clone(),
                tool_name: call.name.clone(),
                content: vec![
                    UserContentBlock::Text(TextContent::new(
                        "A red circle with a diameter of 100 pixels.",
                    )),
                    UserContentBlock::Image(ImageContent::new("iVBORw0KGgo=", "image/png")),
                ],
                details: None,
                usage: None,
                added_tool_names: None,
                is_error: false,
                timestamp: 2,
            }));
        let (events, request) = run(
            &model,
            &test_context,
            &options(),
            sse(&[
                r#"{"type":"response.output_item.added","output_index":0,
                    "item":{"type":"message","id":"msg_answer","content":[]}}"#,
                r#"{"type":"response.output_item.done","output_index":0,
                    "item":{"type":"message","id":"msg_answer",
                        "content":[{"type":"output_text","text":"The image is a red circle."}]}}"#,
                r#"{"type":"response.completed",
                    "response":{"id":"resp_answer","status":"completed"}}"#,
            ]),
        );
        let second = last_message(&events);
        assert_eq!(second.stop_reason, StopReason::Stop);
        assert!(second.content.iter().any(|block| {
            matches!(block, AssistantContent::Text(text) if text.text.contains("red circle"))
        }));

        let body = to_value(&request.params);
        let input = body["input"].as_array().expect("input array");
        let output_index = input
            .iter()
            .position(|item| item["type"] == "function_call_output")
            .expect("function-call output");
        let output = input[output_index]["output"]
            .as_array()
            .expect("content-array output");
        assert!(output.iter().any(|item| {
            item["type"] == "input_text"
                && item["text"]
                    .as_str()
                    .is_some_and(|text| text.contains("red circle"))
        }));
        assert!(output.iter().any(|item| {
            item["type"] == "input_image"
                && item["image_url"]
                    .as_str()
                    .is_some_and(|url| url.starts_with("data:image/png;base64,"))
        }));
        assert!(!input[output_index + 1..]
            .iter()
            .any(|item| item["role"] == "user"));
    }
}

#[test]
fn openai_responses_preaborted_signal_runs_payload_without_sending_and_preserves_key_precedence() {
    let model = base_model("gpt-5-mini");
    let (mut run, _) = begin(&model, &context(), &options());
    let error = format_retry_error(&ProviderRetryError::Abort, Some("OpenAI API error"), false);
    let events = run.step(RunInput::Failed(error), true, &CompleteJson);
    assert_eq!(kinds(&events), ["error"]);
    let message = last_message(&events);
    assert_eq!(message.stop_reason, StopReason::Aborted);
    assert_eq!(message.error_message.as_deref(), Some("Request aborted"));

    let (_, refused) = ResponsesRun::begin(
        &model,
        &context(),
        &OpenAIResponsesOptions::default(),
        &client(),
        None,
        &vec![],
        &vec![],
        &open_ai_tool_call_ids(),
        true,
        1,
    );
    let event = refused.unwrap_err();
    assert_eq!(
        last_message(&[event]).error_message.as_deref(),
        Some("No API key for provider: openai")
    );
}

#[test]
fn midstream_abort_keeps_open_blocks_open_and_reports_missing_terminal_event() {
    let mut pieces = open_sse(&[
        r#"{"type":"response.output_item.added","output_index":0,
            "item":{"type":"message","id":"msg-closed","content":[]}}"#,
        r#"{"type":"response.output_text.delta","output_index":0,"delta":"closed"}"#,
        r#"{"type":"response.output_item.done","output_index":0,
            "item":{"type":"message","id":"msg-closed",
                "content":[{"type":"output_text","text":"closed"}]}}"#,
        r#"{"type":"response.output_item.added","output_index":1,
            "item":{"type":"reasoning","id":"rs-open","summary":[]}}"#,
        r#"{"type":"response.reasoning_text.delta","output_index":1,"delta":"open"}"#,
    ]);
    pieces.push(BodyEvent::Abort);
    let (events, _) = run(&base_model("gpt-5-mini"), &context(), &options(), pieces);
    assert_eq!(
        kinds(&events),
        [
            "start",
            "text_start",
            "text_delta",
            "text_end",
            "thinking_start",
            "thinking_delta",
            "error",
        ]
    );
    let Some(AssistantMessageEvent::Error { reason, error }) = events.last() else {
        panic!("error");
    };
    assert_eq!(*reason, ErrorStopReason::Aborted);
    assert_eq!(error.stop_reason, StopReason::Aborted);
    assert_eq!(
        error.error_message.as_deref(),
        Some("OpenAI Responses stream ended before a terminal response event")
    );
}

#[test]
fn ports_wrapper_early_eof_as_terminal_error() {
    let (events, _) = run(
        &base_model("gpt-5-mini"),
        &context(),
        &options(),
        sse(&[
            r#"{"type":"response.created","response":{"id":"resp_wrapper_early_eof"}}"#,
            r#"{"type":"response.output_item.added","output_index":0,
                "item":{"type":"reasoning","id":"rs_wrapper_early_eof","summary":[]}}"#,
            r#"{"type":"response.reasoning_text.delta","output_index":0,
                "delta":"partial reasoning before the wrapper stream ends"}"#,
        ]),
    );
    assert_eq!(kinds(&events).first(), Some(&"start"));
    assert_eq!(kinds(&events).last(), Some(&"error"));
    let result = last_message(&events);
    assert_eq!(result.stop_reason, StopReason::Error);
    assert_eq!(
        result.error_message.as_deref(),
        Some("OpenAI Responses stream ended before a terminal response event")
    );
}

#[test]
fn truthy_top_level_error_chunk_is_terminal() {
    let (events, _) = run(
        &base_model("gpt-5-mini"),
        &context(),
        &options(),
        sse(&[r#"{"error":{"message":"responses stream failure",
            "metadata":{"raw":"not appended by the Responses catch"}}}"#]),
    );
    assert_eq!(kinds(&events), ["start", "error"]);
    let message = last_message(&events);
    assert_eq!(message.stop_reason, StopReason::Error);
    assert_eq!(
        message.error_message.as_deref(),
        Some("responses stream failure")
    );
}

#[test]
fn unknown_events_are_passed_over() {
    let (events, _) = run(
        &base_model("gpt-5.4"),
        &context(),
        &options(),
        sse(&[
            r#"{"type":"response.future_event","unknown":true}"#,
            COMPLETED,
        ]),
    );
    assert_eq!(kinds(&events), ["start", "done"]);
    assert_eq!(last_message(&events).stop_reason, StopReason::Stop);
}

#[test]
fn openai_responses_model_api_is_echo_only() {
    let mut model = base_model("gpt-5.4");
    model.api = "custom-responses-alias".to_owned();
    let (events, _) = run(&model, &context(), &options(), sse(&[COMPLETED]));
    let message = last_message(&events);
    assert_eq!(message.stop_reason, StopReason::Stop);
    assert_eq!(message.api, "custom-responses-alias");
}

#[test]
fn openai_responses_provider_error_strings_preserve_json_and_non_json_bodies() {
    let json_body = r#"{"error":{"message":"bad request","type":"invalid_request_error","param":"input[0]","code":"bad"}}"#;
    let error = OpenAiHttpError::http(400, vec![], &json_body.as_bytes().to_vec());
    let error = format_retry_error(
        &ProviderRetryError::Original(error),
        Some("OpenAI API error"),
        false,
    );
    assert_eq!(
        error.message,
        format!(
            "{}{}",
            "OpenAI API error (400): ",
            r#"{"message":"bad request","type":"invalid_request_error","param":"input[0]","code":"bad"}"#
        )
    );
    let error = OpenAiHttpError::http(502, vec![], &b"upstream exploded".to_vec());
    let error = format_retry_error(
        &ProviderRetryError::Original(error),
        Some("OpenAI API error"),
        false,
    );
    assert_eq!(
        error.message,
        "OpenAI API error (502): 502 upstream exploded"
    );
}

#[test]
fn unknown_service_tier_passes_through_at_multiplier_one() {
    let model = base_model("gpt-5.4");
    let mut request_options = options();
    request_options.service_tier =
        Some(Some(ResponseServiceTier::Other("future-tier".to_owned())));
    let (mut run, request) = begin(&model, &context(), &request_options);
    assert_eq!(to_value(&request.params)["service_tier"], "future-tier");
    let events = drive(
        &mut run,
        sse(&[r#"{"type":"response.completed",
            "response":{"id":"resp_tier","status":"completed","service_tier":"future-tier",
                "usage":{"input_tokens":100000,"output_tokens":100000,
                    "total_tokens":200000,"input_tokens_details":{"cached_tokens":0}}}}"#]),
    );
    let message = last_message(&events);
    assert_eq!(message.usage.input, UsageValue::Count(100_000));
    let served = run.stream.service_tier.flatten();
    assert_eq!(
        served,
        Some(ResponseServiceTier::Other("future-tier".to_owned()))
    );
    assert_eq!(service_tier_cost_multiplier(&model, &served), 10);
}
