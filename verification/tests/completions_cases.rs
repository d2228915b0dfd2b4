//! Chat-completions runs over the bytes of a body.
use openai_api::completions_run::CompletionsRun;
use openai_api::constrained_sampling::CompleteJson;
use openai_api::headers::{ClientHeaders, PreparedRequest};
use openai_api::json::{Json, JsonNumber};
use openai_api::openai_completions::{stream_simple, OpenAICompletionsOptions};
use openai_api::openai_sse::{BodyEvent, SseJsonStream, SseStep};
use openai_api::provider_error::{format_retry_error, OpenAiHttpError, ProviderRetryError};
use openai_api::run::{RunInput, RunPhase};
use openai_api::types::{
    AssistantContent, AssistantMessage, AssistantMessageEvent, CacheRetention,
    ChatTemplateKwargValue, Context, ErrorStopReason, Message, Model, ModelCompat, ModelInput,
    ModelThinkingLevel, OpenAICompletionsCompat, SessionAffinityFormat, SimpleStreamOptions,
    StopReason, ThinkingBudgets, ThinkingFormat, ThinkingTokenBudgetField, ThinkingVariable,
    ToolCall, ToolChoice, UserContent, UserMessage,
};

fn json(text: &str) -> Json {
    from_value(&serde_json::from_str(text).unwrap())
}

fn from_value(v: &serde_json::Value) -> Json {
    match v {
        serde_json::Value::Null => Json::Null,
        serde_json::Value::Bool(b) => Json::Bool(*b),
        serde_json::Value::Number(n) => {
            if let Some(n) = n.as_u64() {
                Json::Number(JsonNumber::Unsigned(n))
            } else if let Some(n) = n.as_i64() {
                Json::Number(JsonNumber::Negative(n))
            } else {
                Json::Number(JsonNumber::Decimal(n.to_string()))
            }
        }
        serde_json::Value::String(s) => Json::Str(s.clone()),
        serde_json::Value::Array(items) => Json::Array(items.iter().map(from_value).collect()),
        serde_json::Value::Object(fields) => Json::Object(
            fields
                .iter()
                .map(|(key, v)| (key.clone(), from_value(v)))
                .collect(),
        ),
    }
}

fn to_value(v: &Json) -> serde_json::Value {
    match v {
        Json::Null => serde_json::Value::Null,
        Json::Bool(b) => serde_json::Value::Bool(*b),
        Json::Number(JsonNumber::Unsigned(n)) => serde_json::Value::from(*n),
        Json::Number(JsonNumber::Negative(n)) => serde_json::Value::from(*n),
        Json::Number(JsonNumber::Decimal(t)) => serde_json::from_str(t).unwrap(),
        Json::Str(s) => serde_json::Value::String(s.clone()),
        Json::Array(items) => serde_json::Value::Array(items.iter().map(to_value).collect()),
        Json::Object(fields) => serde_json::Value::Object(
            fields
                .iter()
                .map(|(key, v)| (key.clone(), to_value(v)))
                .collect(),
        ),
    }
}

fn value(text: &str) -> serde_json::Value {
    serde_json::from_str(text).unwrap()
}

fn kind(event: &AssistantMessageEvent) -> &'static str {
    match event {
        AssistantMessageEvent::Start => "start",
        AssistantMessageEvent::TextStart { .. } => "text_start",
        AssistantMessageEvent::TextDelta { .. } => "text_delta",
        AssistantMessageEvent::TextEnd { .. } => "text_end",
        AssistantMessageEvent::ThinkingStart { .. } => "thinking_start",
        AssistantMessageEvent::ThinkingDelta { .. } => "thinking_delta",
        AssistantMessageEvent::ThinkingEnd { .. } => "thinking_end",
        AssistantMessageEvent::ToolCallStart { .. } => "toolcall_start",
        AssistantMessageEvent::ToolCallDelta { .. } => "toolcall_delta",
        AssistantMessageEvent::ToolCallEnd { .. } => "toolcall_end",
        AssistantMessageEvent::Done { .. } => "done",
        AssistantMessageEvent::Error { .. } => "error",
    }
}

fn kinds(events: &[AssistantMessageEvent]) -> Vec<&'static str> {
    events.iter().map(kind).collect()
}

fn last_message(events: &[AssistantMessageEvent]) -> &AssistantMessage {
    match events.last() {
        Some(AssistantMessageEvent::Done { message, .. }) => message,
        Some(AssistantMessageEvent::Error { error, .. }) => error,
        _ => panic!("terminal event"),
    }
}

fn next_input(stream: &mut SseJsonStream, body: &mut Vec<BodyEvent>) -> (RunInput, bool) {
    let mut aborted = false;
    let mut step = stream.next();
    loop {
        match step {
            SseStep::Value(value) => return (RunInput::Value(value), aborted),
            SseStep::Failure(error) => return (RunInput::Broken(error), aborted),
            SseStep::Finished => return (RunInput::Ended, aborted),
            SseStep::Wanted => {
                let event = if body.is_empty() {
                    BodyEvent::End
                } else {
                    body.remove(0)
                };
                aborted = matches!(event, BodyEvent::Abort);
                step = stream.feed(event);
            }
        }
    }
}

fn sse(events: &[&str]) -> Vec<BodyEvent> {
    let mut text = String::new();
    for event in events {
        text.push_str(&format!("data: {}\n\n", value(event)));
    }
    text.push_str("data: [DONE]\n\n");
    vec![BodyEvent::Bytes(text.into_bytes())]
}

fn open_sse(events: &[&str]) -> Vec<BodyEvent> {
    events
        .iter()
        .map(|event| BodyEvent::Bytes(format!("data: {}\n\n", value(event)).into_bytes()))
        .collect()
}

fn header<'a>(request: &'a PreparedRequest, name: &str) -> Option<&'a str> {
    request
        .headers
        .iter()
        .find(|(key, _)| key.eq_ignore_ascii_case(name))
        .map(|(_, value)| value.as_str())
}

fn client() -> ClientHeaders {
    ClientHeaders {
        user_agent: "agent".to_owned(),
        platform: vec![],
        copilot: vec![
            ("X-Initiator".to_owned(), "user".to_owned()),
            ("Openai-Intent".to_owned(), "conversation-edits".to_owned()),
        ],
    }
}

const STOP: &str = r#"{"id":"chatcmpl-test","model":"test-model",
    "choices":[{"index":0,"delta":{},"finish_reason":"stop"}]}"#;

fn model(base_url: &str) -> Model {
    Model {
        id: "test-model".to_owned(),
        name: "Test Model".to_owned(),
        api: "openai-completions".to_owned(),
        provider: "openai".to_owned(),
        base_url: base_url.to_owned(),
        reasoning: false,
        thinking_level_map: None,
        input: vec![ModelInput::Text],
        context_window: 128_000,
        max_tokens: 4_096,
        sampling_params: None,
        headers: None,
        compat: None,
    }
}

fn user(text: &str) -> Message {
    Message::User(UserMessage {
        content: UserContent::Text(text.to_owned()),
        timestamp: 1,
    })
}

fn context() -> Context {
    Context {
        system_prompt: Some("System prompt".to_owned()),
        messages: vec![user("hello")],
        tools: None,
    }
}

fn options() -> OpenAICompletionsOptions {
    let mut options = OpenAICompletionsOptions::default();
    options.stream.request.api_key = Some("test-key".to_owned());
    options
}

fn simple_options() -> SimpleStreamOptions {
    let mut simple = SimpleStreamOptions::default();
    simple.stream.request.api_key = Some("test-key".to_owned());
    simple
}

fn completions_compat(compat: OpenAICompletionsCompat) -> Option<ModelCompat> {
    Some(ModelCompat::OpenAICompletions(compat))
}

fn begin(
    test_model: &Model,
    test_context: &Context,
    request_options: &OpenAICompletionsOptions,
) -> (CompletionsRun, PreparedRequest) {
    let (run, request) = CompletionsRun::begin(
        test_model,
        test_context,
        request_options,
        &client(),
        None,
        false,
        1,
    );
    (run, request.unwrap())
}

fn prepared(
    test_model: &Model,
    test_context: &Context,
    request_options: &OpenAICompletionsOptions,
) -> PreparedRequest {
    begin(test_model, test_context, request_options).1
}

fn body(
    test_model: &Model,
    test_context: &Context,
    request_options: &OpenAICompletionsOptions,
) -> serde_json::Value {
    to_value(&prepared(test_model, test_context, request_options).params)
}

fn simple_body(
    test_model: &Model,
    test_context: &Context,
    estimated: u64,
    level: Option<ModelThinkingLevel>,
    simple: &SimpleStreamOptions,
) -> serde_json::Value {
    let lowered = stream_simple(test_model, estimated, level, simple);
    body(test_model, test_context, &lowered)
}

fn run(test_model: &Model, mut pieces: Vec<BodyEvent>) -> Vec<AssistantMessageEvent> {
    let (mut run, _) = begin(test_model, &context(), &options());
    let mut stream = SseJsonStream::new();
    let mut gave_up = false;
    let mut input = RunInput::Answered;
    let mut events = vec![];
    while run.phase != RunPhase::Over {
        let usage = run.stream.output.usage.clone();
        events.extend(run.step(test_model, input, &usage, gave_up, &CompleteJson));
        let (next, aborted) = next_input(&mut stream, &mut pieces);
        gave_up = gave_up || aborted;
        input = next;
    }
    events
}

#[test]
fn empty_tools_and_max_token_cases_match_pi() {
    let test_model = model("https://example.invalid/v1");
    for tools in [None, Some(vec![])] {
        let mut test_context = context();
        test_context.tools = tools;
        assert!(body(&test_model, &test_context, &options())
            .get("tools")
            .is_none());
    }

    let mut simple = simple_options();
    assert_eq!(
        simple_body(&test_model, &context(), 0, None, &simple)["max_completion_tokens"],
        4_096
    );
    simple.stream.max_tokens = Some(1_234);
    assert_eq!(
        simple_body(&test_model, &context(), 0, None, &simple)["max_completion_tokens"],
        1_234
    );

    let mut constrained_model = model("https://example.invalid/v1");
    constrained_model.context_window = 10_000;
    constrained_model.max_tokens = 8_000;
    let long_context = Context {
        system_prompt: None,
        messages: vec![user(&"x".repeat(8_000))],
        tools: None,
    };
    let mut simple = simple_options();
    assert_eq!(
        simple_body(&constrained_model, &long_context, 2_000, None, &simple)
            ["max_completion_tokens"],
        3_904
    );
    simple.stream.max_tokens = Some(7_000);
    assert_eq!(
        simple_body(&constrained_model, &long_context, 2_000, None, &simple)
            ["max_completion_tokens"],
        3_904
    );

    let mut assistant = AssistantMessage::pending("openai-completions", "openai", "test-model", 2);
    assistant.stop_reason = StopReason::ToolUse;
    assistant.content = vec![AssistantContent::ToolCall(ToolCall::new(
        "t1",
        "noop",
        json("{}"),
    ))];
    let tool_history = Context {
        system_prompt: None,
        messages: vec![user("hello"), Message::Assistant(assistant)],
        tools: None,
    };
    assert_eq!(
        simple_body(&test_model, &tool_history, 0, None, &simple_options())["tools"],
        value("[]")
    );
}

#[test]
fn prompt_cache_and_session_affinity_cases_match_pi() {
    let mut request_options = options();
    request_options.stream.session_id = Some("x".repeat(67));
    request_options.stream.cache_retention = Some(CacheRetention::Long);
    let sent = body(
        &model("https://api.openai.com/v1"),
        &context(),
        &request_options,
    );
    assert_eq!(sent["prompt_cache_key"], "x".repeat(64));
    assert_eq!(sent["prompt_cache_retention"], "24h");

    let mut test_model = model("https://example.invalid/v1");
    test_model.compat = completions_compat(OpenAICompletionsCompat {
        send_session_affinity_headers: Some(true),
        session_affinity_format: Some(SessionAffinityFormat::OpenaiNosession),
        ..OpenAICompletionsCompat::default()
    });
    let mut request_options = options();
    request_options.stream.session_id = Some("session-nosession".to_owned());
    let request = prepared(&test_model, &context(), &request_options);
    assert_eq!(header(&request, "session_id"), None);
    assert_eq!(
        header(&request, "x-client-request-id"),
        Some("session-nosession")
    );
    assert_eq!(
        header(&request, "x-session-affinity"),
        Some("session-nosession")
    );

    let mut test_model = model("https://example.invalid/v1");
    test_model.provider = "openrouter".to_owned();
    test_model.compat = completions_compat(OpenAICompletionsCompat {
        send_session_affinity_headers: Some(true),
        ..OpenAICompletionsCompat::default()
    });
    request_options.stream.session_id = Some("router-session".to_owned());
    let request = prepared(&test_model, &context(), &request_options);
    assert_eq!(header(&request, "x-session-id"), Some("router-session"));

    test_model.provider = "openai".to_owned();
    request_options.stream.session_id = Some("openai-session".to_owned());
    let request = prepared(&test_model, &context(), &request_options);
    for name in ["session_id", "x-client-request-id", "x-session-affinity"] {
        assert_eq!(header(&request, name), Some("openai-session"));
    }

    let mut uncached = options();
    uncached.stream.session_id = Some("uncached".to_owned());
    uncached.stream.cache_retention = Some(CacheRetention::Never);
    let request = prepared(&test_model, &context(), &uncached);
    for name in ["session_id", "x-client-request-id", "x-session-affinity"] {
        assert_eq!(header(&request, name), None);
    }

    let mut disabled = test_model.clone();
    disabled.compat = completions_compat(OpenAICompletionsCompat {
        send_session_affinity_headers: Some(false),
        ..OpenAICompletionsCompat::default()
    });
    request_options.stream.session_id = Some("disabled".to_owned());
    let request = prepared(&disabled, &context(), &request_options);
    for name in ["session_id", "x-client-request-id", "x-session-affinity"] {
        assert_eq!(header(&request, name), None);
    }

    request_options.stream.session_id = Some("generated".to_owned());
    request_options.stream.request.headers = Some(vec![
        ("session_id".to_owned(), Some("explicit-session".to_owned())),
        (
            "x-client-request-id".to_owned(),
            Some("explicit-request".to_owned()),
        ),
        (
            "x-session-affinity".to_owned(),
            Some("explicit-affinity".to_owned()),
        ),
    ]);
    let request = prepared(&test_model, &context(), &request_options);
    assert_eq!(header(&request, "session_id"), Some("explicit-session"));
    assert_eq!(
        header(&request, "x-client-request-id"),
        Some("explicit-request")
    );
    assert_eq!(
        header(&request, "x-session-affinity"),
        Some("explicit-affinity")
    );
}

#[test]
fn raw_stop_reason_response_id_and_response_model_match_pi() {
    let mut test_model = model("https://example.invalid/v1");
    test_model.id = "router/auto".to_owned();
    test_model.provider = "openrouter".to_owned();
    let events = run(
        &test_model,
        sse(&[
            r#"{"id":"chatcmpl-route","model":"routed/model",
                "choices":[{"index":0,"delta":{"content":"hi"},"finish_reason":null}]}"#,
            r#"{"id":"chatcmpl-route","model":"routed/model",
                "choices":[{"index":0,"delta":{},"finish_reason":"stop"}]}"#,
        ]),
    );
    let message = last_message(&events);
    assert_eq!(message.model, "router/auto");
    assert_eq!(message.response_model.as_deref(), Some("routed/model"));
    assert_eq!(message.response_id.as_deref(), Some("chatcmpl-route"));
    assert_eq!(message.raw_stop_reason.as_deref(), Some("stop"));
    assert_eq!(message.stop_reason, StopReason::Stop);

    let events = run(
        &model("https://example.invalid/v1"),
        sse(&[r#"{"id":"chatcmpl-filter",
            "choices":[{"index":0,"delta":{},"finish_reason":"content_filter"}]}"#]),
    );
    let message = last_message(&events);
    assert_eq!(message.stop_reason, StopReason::Error);
    assert_eq!(message.raw_stop_reason.as_deref(), Some("content_filter"));
    assert_eq!(
        message.error_message.as_deref(),
        Some("Provider finish_reason: content_filter")
    );
}

#[test]
fn truthy_top_level_error_chunk_is_terminal_with_raw_metadata() {
    let mut test_model = model("https://example.invalid/v1");
    test_model.provider = "openrouter".to_owned();
    test_model.compat = completions_compat(OpenAICompletionsCompat {
        supports_finish_reason: Some(false),
        ..OpenAICompletionsCompat::default()
    });
    let events = run(
        &test_model,
        sse(&[r#"{"error":{"message":"upstream stream failure",
            "metadata":{"raw":"OpenRouter upstream detail"}}}"#]),
    );
    assert_eq!(kinds(&events), ["start", "error"]);
    let message = last_message(&events);
    assert_eq!(message.stop_reason, StopReason::Error);
    assert_eq!(
        message.error_message.as_deref(),
        Some("upstream stream failure\nOpenRouter upstream detail")
    );
}

#[test]
fn event_only_sse_message_is_a_terminal_json_parse_error() {
    let events = run(
        &model("https://example.invalid/v1"),
        vec![BodyEvent::Bytes(
            b"event: future\n\ndata: [DONE]\n\n".to_vec(),
        )],
    );
    assert_eq!(kinds(&events), ["start", "error"]);
    let message = last_message(&events);
    assert_eq!(message.stop_reason, StopReason::Error);
    assert_eq!(
        message.error_message.as_deref(),
        Some("Unexpected end of JSON input")
    );
}

#[test]
fn thinking_token_budget_cases_match_pi() {
    let mut test_model = model("https://example.invalid/v1");
    test_model.reasoning = true;
    test_model.max_tokens = 16_384;
    test_model.provider = "local-vllm".to_owned();
    test_model.compat = completions_compat(OpenAICompletionsCompat {
        thinking_format: Some(ThinkingFormat::Zai),
        supports_thinking_token_budget: Some(true),
        ..OpenAICompletionsCompat::default()
    });
    let mut simple = simple_options();
    simple.thinking_budgets = Some(ThinkingBudgets {
        medium: Some(4_096),
        ..ThinkingBudgets::default()
    });
    let sent = simple_body(
        &test_model,
        &context(),
        0,
        Some(ModelThinkingLevel::Medium),
        &simple,
    );
    assert_eq!(sent["thinking_token_budget"], 4_096);

    test_model.compat = completions_compat(OpenAICompletionsCompat {
        thinking_format: Some(ThinkingFormat::Qwen),
        thinking_token_budget_field: Some(ThinkingTokenBudgetField::ThinkingBudgetTokens),
        supports_thinking_token_budget: Some(true),
        ..OpenAICompletionsCompat::default()
    });
    let mut simple = simple_options();
    simple.stream.max_tokens = Some(4_096);
    let sent = simple_body(
        &test_model,
        &context(),
        0,
        Some(ModelThinkingLevel::High),
        &simple,
    );
    assert_eq!(sent["thinking_budget_tokens"], 3_072);
    assert!(sent.get("thinking_token_budget").is_none());

    test_model.compat = completions_compat(OpenAICompletionsCompat {
        thinking_format: Some(ThinkingFormat::ChatTemplate),
        chat_template_kwargs: Some(vec![
            (
                "enable_thinking".to_owned(),
                ChatTemplateKwargValue::Variable {
                    variable: ThinkingVariable::Enabled,
                    omit_when_off: None,
                },
            ),
            (
                "thinking_budget".to_owned(),
                ChatTemplateKwargValue::Variable {
                    variable: ThinkingVariable::Budget,
                    omit_when_off: None,
                },
            ),
        ]),
        ..OpenAICompletionsCompat::default()
    });
    let sent = simple_body(&test_model, &context(), 0, None, &simple_options());
    assert_eq!(
        sent["chat_template_kwargs"],
        value(r#"{"enable_thinking":false}"#)
    );
}

#[test]
fn tool_choice_and_thinking_format_payloads_match_pi() {
    let cases = [
        (
            ThinkingFormat::Zai,
            value(r#"{"thinking":{"type":"enabled","clear_thinking":false}}"#),
        ),
        (ThinkingFormat::Qwen, value(r#"{"enable_thinking":true}"#)),
        (
            ThinkingFormat::QwenChatTemplate,
            value(
                r#"{"chat_template_kwargs":{"enable_thinking":true,"preserve_thinking":true}}"#,
            ),
        ),
        (
            ThinkingFormat::Together,
            value(r#"{"reasoning":{"enabled":true}}"#),
        ),
    ];
    for (format, expected) in cases {
        let mut test_model = model("https://example.invalid/v1");
        test_model.reasoning = true;
        test_model.provider = "custom".to_owned();
        test_model.compat = completions_compat(OpenAICompletionsCompat {
            thinking_format: Some(format),
            supports_reasoning_effort: Some(false),
            ..OpenAICompletionsCompat::default()
        });
        let mut simple = simple_options();
        simple.tool_choice = Some(ToolChoice::Auto);
        let sent = simple_body(
            &test_model,
            &context(),
            0,
            Some(ModelThinkingLevel::High),
            &simple,
        );
        assert_eq!(sent["tool_choice"], "auto");
        for (key, value) in expected.as_object().unwrap() {
            assert_eq!(&sent[key], value);
        }
    }

    let mut test_model = model("https://example.invalid/v1");
    test_model.reasoning = true;
    test_model.provider = "openrouter".to_owned();
    let sent = simple_body(
        &test_model,
        &context(),
        0,
        Some(ModelThinkingLevel::High),
        &simple_options(),
    );
    assert_eq!(sent["reasoning"], value(r#"{"effort":"high"}"#));
    assert!(sent.get("reasoning_effort").is_none());
}

#[test]
fn thinking_start_carries_the_signature_already_present_in_pi_partial() {
    let events = run(
        &model("https://example.invalid/v1"),
        sse(&[
            r#"{"choices":[{"delta":{"reasoning_content":"thought"},"finish_reason":"stop"}]}"#,
        ]),
    );
    assert!(matches!(
        &events[1],
        AssistantMessageEvent::ThinkingStart {
            thinking_signature: Some(signature),
            ..
        } if signature == "reasoning_content"
    ));
}

#[test]
fn openai_completions_preaborted_signal_runs_payload_without_sending_and_preserves_key_precedence(
) {
    let test_model = model("https://example.invalid/v1");
    let (mut run, _) = begin(&test_model, &context(), &options());
    let usage = run.stream.output.usage.clone();
    let error = format_retry_error(&ProviderRetryError::Abort, None, true);
    let events = run.step(
        &test_model,
        RunInput::Failed(error),
        &usage,
        true,
        &CompleteJson,
    );
    assert_eq!(kinds(&events), ["error"]);
    let message = last_message(&events);
    assert_eq!(message.stop_reason, StopReason::Aborted);
    assert_eq!(message.error_message.as_deref(), Some("Request aborted"));

    let (_, refused) = CompletionsRun::begin(
        &test_model,
        &context(),
        &OpenAICompletionsOptions::default(),
        &client(),
        None,
        true,
        1,
    );
    let event = refused.unwrap_err();
    assert_eq!(
        last_message(&[event]).error_message.as_deref(),
        Some("No API key for provider: openai")
    );
}

#[test]
fn midstream_abort_finishes_open_blocks_before_the_error_event() {
    let mut pieces = open_sse(&[
        r#"{"choices":[{"delta":{"content":"answer"},"finish_reason":null}]}"#,
        r#"{"choices":[{"delta":{"reasoning_content":"thought"},"finish_reason":null}]}"#,
        r#"{"choices":[{"delta":{"tool_calls":[{
            "index":0,"id":"call-1","function":{"name":"lookup","arguments":"{}"}
        }]},"finish_reason":null}]}"#,
    ]);
    pieces.push(BodyEvent::Abort);
    let events = run(&model("https://example.invalid/v1"), pieces);
    assert_eq!(
        kinds(&events),
        [
            "start",
            "text_start",
            "text_delta",
            "thinking_start",
            "thinking_delta",
            "toolcall_start",
            "toolcall_delta",
            "text_end",
            "thinking_end",
            "toolcall_end",
            "error",
        ]
    );
    let Some(AssistantMessageEvent::Error { reason, error }) = events.last() else {
        panic!("error");
    };
    assert_eq!(*reason, ErrorStopReason::Aborted);
    assert_eq!(error.stop_reason, StopReason::Aborted);
    assert_eq!(error.error_message.as_deref(), Some("Request was aborted"));
}

#[test]
fn copilot_headers_and_sampling_overrides_match_pi_source() {
    let mut test_model = model("https://example.invalid/v1");
    test_model.provider = "github-copilot".to_owned();
    let mut request_options = options();
    request_options.stream.sampling_params =
        Some(vec![("model".to_owned(), json(r#""caller-model""#))]);
    request_options.stream.request.headers = Some(vec![(
        "Authorization".to_owned(),
        Some("Bearer upstream-token".to_owned()),
    )]);
    let request = prepared(&test_model, &context(), &request_options);
    assert_eq!(to_value(&request.params)["model"], "caller-model");
    assert_eq!(header(&request, "x-initiator"), Some("user"));
    assert_eq!(
        header(&request, "openai-intent"),
        Some("conversation-edits")
    );
    assert_eq!(
        header(&request, "authorization"),
        Some("Bearer upstream-token")
    );
    assert_eq!(header(&request, "user-agent"), Some("agent"));
}

#[test]
fn openai_completions_model_api_is_echo_only() {
    let mut test_model = model("https://example.invalid/v1");
    test_model.api = "custom-completions-alias".to_owned();
    let events = run(&test_model, sse(&[STOP]));
    let message = last_message(&events);
    assert_eq!(message.stop_reason, StopReason::Stop);
    assert_eq!(message.api, "custom-completions-alias");
}

#[test]
fn openai_completions_custom_authorization_is_sent_exactly_once() {
    let mut request_options = options();
    request_options.stream.request.headers = Some(vec![(
        "authorization".to_owned(),
        Some("Bearer caller-token".to_owned()),
    )]);
    let request = prepared(
        &model("https://example.invalid/v1"),
        &context(),
        &request_options,
    );
    let authorization = request
        .headers
        .iter()
        .filter(|(name, _)| name.eq_ignore_ascii_case("authorization"))
        .collect::<Vec<_>>();
    assert_eq!(authorization.len(), 1);
    assert_eq!(authorization[0].1, "Bearer caller-token");
}

#[test]
fn openai_completions_provider_error_strings_preserve_json_and_non_json_bodies() {
    let json_body = r#"{"error":{"message":"bad request","type":"invalid_request_error","param":"tools[0]","code":"bad","metadata":{"raw":{"upstream":"detail"}}}}"#;
    let error = OpenAiHttpError::http(400, vec![], &json_body.as_bytes().to_vec());
    let error = format_retry_error(&ProviderRetryError::Original(error), None, true);
    assert_eq!(
        error.message,
        format!(
            "{}{}",
            r#"400: {"message":"bad request","type":"invalid_request_error","param":"tools[0]","code":"bad","metadata":{"raw":{"upstream":"detail"}}}"#,
            "\n[object Object]"
        )
    );
    let error = OpenAiHttpError::http(502, vec![], &b"upstream exploded".to_vec());
    let error = format_retry_error(&ProviderRetryError::Original(error), None, true);
    assert_eq!(error.message, "502 upstream exploded");
}

#[test]
fn split_multibyte_sse_delta_is_byte_correct() {
    let event = value(
        r#"{"id":"chatcmpl-utf8","model":"test-model",
            "choices":[{"index":0,"delta":{"content":"café"},"finish_reason":"stop"}]}"#,
    );
    let wire = format!("data: {event}\n\ndata: [DONE]\n\n").into_bytes();
    let split = wire
        .windows(2)
        .position(|window| window == "é".as_bytes())
        .unwrap()
        + 1;
    let events = run(
        &model("https://example.invalid/v1"),
        vec![
            BodyEvent::Bytes(wire[..split].to_vec()),
            BodyEvent::Bytes(wire[split..].to_vec()),
        ],
    );
    let Some(AssistantContent::Text(text)) = last_message(&events).content.first() else {
        panic!("text response");
    };
    assert_eq!(text.text, "café");
}

#[test]
fn multiline_data_sse_event_is_concatenated_before_json_decode() {
    let wire = [
        "data: {\"id\":\"chatcmpl-multiline\",\"model\":\"test-model\",\n",
        "data: \"choices\":[{\"index\":0,\"delta\":{\"content\":\"joined\"},\"finish_reason\":\"stop\"}]}\n\n",
        "data: [DONE]\n\n",
    ]
    .join("");
    let events = run(
        &model("https://example.invalid/v1"),
        vec![BodyEvent::Bytes(wire.into_bytes())],
    );
    let Some(AssistantContent::Text(text)) = last_message(&events).content.first() else {
        panic!("text response");
    };
    assert_eq!(text.text, "joined");
}

#[test]
fn rejected_payload_hook_is_terminal_in_band() {
    let test_model = model("https://example.invalid/v1");
    let (mut run, _) = begin(&test_model, &context(), &options());
    let usage = run.stream.output.usage.clone();
    let error = openai_api::provider_error::RunError {
        message: "payload hook rejected".to_owned(),
        aborted: false,
    };
    let events = run.step(
        &test_model,
        RunInput::Failed(error),
        &usage,
        false,
        &CompleteJson,
    );
    assert_eq!(kinds(&events), ["error"]);
    let message = last_message(&events);
    assert_eq!(message.stop_reason, StopReason::Error);
    assert_eq!(message.error_message.as_deref(), Some("payload hook rejected"));
}
