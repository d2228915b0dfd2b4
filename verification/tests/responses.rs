//! Requests of the Responses API.
use openai_api::constrained_sampling::create_grammar_tool_input_properties;
use openai_api::headers::{resolve_cache_retention, ClientHeaders};
use openai_api::json::{Json, JsonNumber};
use openai_api::openai_responses::{
    build_params, create_headers, get_compat, open_ai_responses_api, open_ai_tool_call_ids,
    prepare_request, response_stream_error, service_tier_cost_multiplier, stream_simple,
    OpenAIResponsesApi, OpenAIResponsesOptions,
};
use openai_api::openai_responses_shared::{
    ResponseReasoningSummary, ResponseServiceTier, ResponseToolChoice, ResponseToolChoiceMode,
};
use openai_api::provider_error::OpenAiSseError;
use openai_api::run::{end_responses_run, fail_run, pending_message, terminal_setup_error};
use openai_api::types::{
    AssistantMessageEvent, CacheRetention, Context, ErrorStopReason, Message, Model, ModelCompat,
    ModelInput, ModelThinkingLevel, OpenAICompletionsCompat, OpenAIResponsesCompat,
    SessionAffinityFormat, SimpleStreamOptions, StopReason, SuccessfulStopReason,
    ThinkingLevel, ThinkingLevelMap, Tool, ToolChoice, UserContent, UserMessage,
};

fn json(text: &str) -> Json {
    from_value(&serde_json::from_str(text).unwrap())
}

fn from_value(v: &serde_json::Value) -> Json {
    match v {
        serde_json::Value::Null => Json::Null,
        serde_json::Value::Bool(b) => Json::Bool(*b),
        serde_json::Value::Number(n) => {
            if let Some(n) = n.as_u64() {
                Json::Number(JsonNumber::Unsigned(n))
            } else if let Some(n) = n.as_i64() {
                Json::Number(JsonNumber::Negative(n))
            } else {
                Json::Number(JsonNumber::Decimal(n.to_string()))
            }
        }
        serde_json::Value::String(s) => Json::Str(s.clone()),
        serde_json::Value::Array(items) => Json::Array(items.iter().map(from_value).collect()),
        serde_json::Value::Object(fields) => Json::Object(
            fields
                .iter()
                .map(|(key, v)| (key.clone(), from_value(v)))
                .collect(),
        ),
    }
}

fn to_value(v: &Json) -> serde_json::Value {
    match v {
        Json::Null => serde_json::Value::Null,
        Json::Bool(b) => serde_json::Value::Bool(*b),
        Json::Number(JsonNumber::Unsigned(n)) => serde_json::Value::from(*n),
        Json::Number(JsonNumber::Negative(n)) => serde_json::Value::from(*n),
        Json::Number(JsonNumber::Decimal(t)) => serde_json::from_str(t).unwrap(),
        Json::Str(s) => serde_json::Value::String(s.clone()),
        Json::Array(items) => serde_json::Value::Array(items.iter().map(to_value).collect()),
        Json::Object(fields) => serde_json::Value::Object(
            fields
                .iter()
                .map(|(key, v)| (key.clone(), to_value(v)))
                .collect(),
        ),
    }
}

fn value(text: &str) -> serde_json::Value {
    serde_json::from_str(text).unwrap()
}

fn base_model(base_url: &str, id: &str) -> Model {
    Model {
        id: id.to_owned(),
        name: id.to_owned(),
        api: "openai-responses".to_owned(),
        provider: "openai".to_owned(),
        base_url: base_url.to_owned(),
        reasoning: true,
        thinking_level_map: Some(ThinkingLevelMap {
            off: Some(Some("none".to_owned())),
            low: Some(Some("low".to_owned())),
            medium: Some(Some("medium".to_owned())),
            high: Some(Some("high".to_owned())),
            xhigh: Some(Some("xhigh".to_owned())),
            ..ThinkingLevelMap::default()
        }),
        input: vec![ModelInput::Text, ModelInput::Image],
        context_window: 272_000,
        max_tokens: 128_000,
        sampling_params: None,
        headers: None,
        compat: response_compat(OpenAIResponsesCompat {
            supports_strict_mode: Some(true),
            supports_open_ai_grammar_tools: Some(true),
            supports_additional_tools: Some(true),
            supports_tool_search: Some(true),
            ..OpenAIResponsesCompat::default()
        }),
    }
}

fn context() -> Context {
    Context {
        system_prompt: Some("sys".to_owned()),
        messages: vec![Message::User(UserMessage {
            content: UserContent::Text("hi".to_owned()),
            timestamp: 1,
        })],
        tools: None,
    }
}

fn options() -> OpenAIResponsesOptions {
    let mut options = OpenAIResponsesOptions::default();
    options.stream.request.api_key = Some("test-key".to_owned());
    options
}

fn payload_json(model: &Model, context: &Context, options: &OpenAIResponsesOptions) -> Json {
    let compat = get_compat(model);
    let grammar = create_grammar_tool_input_properties(
        &context.tools,
        compat.supports_open_ai_grammar_tools,
    );
    build_params(
        model,
        context,
        options,
        &compat,
        resolve_cache_retention(options.stream.cache_retention, None),
        &grammar,
        &context.tools.clone().unwrap_or_default(),
        &vec![],
        &open_ai_tool_call_ids(),
        0,
    )
    .unwrap()
}

fn payload(
    model: &Model,
    context: &Context,
    options: &OpenAIResponsesOptions,
) -> serde_json::Value {
    to_value(&payload_json(model, context, options))
}

fn response_compat(value: OpenAIResponsesCompat) -> Option<ModelCompat> {
    Some(ModelCompat::OpenAIResponses(value))
}

fn function_tool(name: &str) -> Tool {
    Tool {
        name: name.to_owned(),
        description: name.to_owned(),
        parameters: json(r#"{"type":"object","properties":{"value":{"type":"string"}}}"#),
        strict_parameters: json(r#"{"type":"object","properties":{"value":{"type":"string"}}}"#),
        strict: None,
        grammar: None,
    }
}

fn client() -> ClientHeaders {
    ClientHeaders {
        user_agent: "agent".to_owned(),
        platform: vec![("X-Platform".to_owned(), "test".to_owned())],
        copilot: vec![("X-Initiator".to_owned(), "user".to_owned())],
    }
}

#[test]
fn ports_compat_reasoning_and_tool_choice_matrix() {
    let mut github = base_model("https://example.invalid/v1", "gpt-5-mini");
    github.provider = "github-copilot".to_owned();
    github.thinking_level_map.as_mut().unwrap().off = Some(None);
    github.compat = response_compat(OpenAIResponsesCompat {
        supports_open_ai_grammar_tools: Some(true),
        ..OpenAIResponsesCompat::default()
    });
    assert!(payload(&github, &context(), &options())
        .get("reasoning")
        .is_none());

    let mut required_options = options();
    required_options.tool_choice = Some(ResponseToolChoice::Mode(ResponseToolChoiceMode::Required));
    let mut tool_context = context();
    tool_context.tools = Some(vec![function_tool("ping")]);
    let required = payload(
        &base_model("unused", "gpt-5.4"),
        &tool_context,
        &required_options,
    );
    assert_eq!(required["tool_choice"], "required");
    assert_eq!(required["tools"][0]["name"], "ping");
    assert_eq!(required["stream"], true);
    assert_eq!(required["store"], false);

    let off_supported = [
        "gpt-5.1",
        "gpt-5.2",
        "gpt-5.3-codex",
        "gpt-5.4",
        "gpt-5.4-mini",
        "gpt-5.4-nano",
        "gpt-5.5",
        "gpt-5.6-sol",
        "gpt-5.6-terra",
        "gpt-5.6-luna",
    ];
    for id in off_supported {
        let model = base_model("unused", id);
        assert_eq!(
            payload(&model, &context(), &options())["reasoning"]["effort"],
            "none",
            "{id}"
        );
    }

    for id in [
        "gpt-5",
        "gpt-5-mini",
        "gpt-5-nano",
        "gpt-5-pro",
        "gpt-5.2-pro",
        "gpt-5.4-pro",
        "gpt-5.5-pro",
    ] {
        let mut model = base_model("unused", id);
        model.thinking_level_map.as_mut().unwrap().off = Some(None);
        assert!(
            payload(&model, &context(), &options())
                .get("reasoning")
                .is_none(),
            "{id}"
        );
    }
}

#[test]
fn ports_cloudflare_explicit_strict_tools() {
    let mut cloudflare = base_model("unused", "gpt-5.6-sol");
    cloudflare.provider = "cloudflare-ai-gateway".to_owned();
    cloudflare.thinking_level_map.as_mut().unwrap().off = Some(None);
    cloudflare.compat = response_compat(OpenAIResponsesCompat {
        supports_strict_mode: Some(true),
        supports_open_ai_grammar_tools: Some(true),
        ..OpenAIResponsesCompat::default()
    });
    let mut constrained = function_tool("constrained");
    constrained.strict = Some(true);
    let mut test_context = context();
    test_context.tools = Some(vec![function_tool("ordinary"), constrained]);
    let body = payload(&cloudflare, &test_context, &options());
    assert_eq!(body["tools"][0]["strict"], false);
    assert_eq!(body["tools"][1]["strict"], true);
}

#[test]
fn request_fields_presence_reasoning_and_sampling_precedence_match_pi() {
    let mut model = base_model("unused", "gpt-5.4");
    let mut request_options = options();
    request_options.stream.max_tokens = Some(1);
    request_options.stream.temperature = Some(JsonNumber::Decimal("0.25".to_owned()));
    request_options.stream.session_id = Some("x".repeat(67));
    request_options.service_tier = Some(None);
    let body = payload(&model, &context(), &request_options);
    assert_eq!(body["max_output_tokens"], 16);
    assert_eq!(body["temperature"], 0.25);
    assert_eq!(body["prompt_cache_key"], "x".repeat(64));
    assert_eq!(body["service_tier"], serde_json::Value::Null);
    assert!(body.get("service_tier").is_some());

    request_options.reasoning_effort = Some(ThinkingLevel::High);
    request_options.reasoning_summary = Some(None);
    let body = payload(&model, &context(), &request_options);
    assert_eq!(
        body["reasoning"],
        value(r#"{"effort":"high","summary":"auto"}"#)
    );
    assert_eq!(
        body["include"],
        value(r#"["reasoning.encrypted_content"]"#)
    );

    request_options.reasoning_effort = None;
    request_options.reasoning_summary = Some(Some(ResponseReasoningSummary::Concise));
    let body = payload(&model, &context(), &request_options);
    assert_eq!(
        body["reasoning"],
        value(r#"{"effort":"medium","summary":"concise"}"#)
    );

    request_options.reasoning_summary = None;
    request_options.stream.sampling_params = Some(vec![
        ("model".to_owned(), json(r#""caller-model""#)),
        ("stream".to_owned(), json("false")),
        ("store".to_owned(), json("true")),
        ("max_output_tokens".to_owned(), json("99")),
    ]);
    let body = payload(&model, &context(), &request_options);
    assert_eq!(body["model"], "caller-model");
    assert_eq!(body["stream"], false);
    assert_eq!(body["store"], true);
    assert_eq!(body["max_output_tokens"], 99);

    model.provider = "xai".to_owned();
    model.thinking_level_map.as_mut().unwrap().off = Some(None);
    request_options.stream.sampling_params = None;
    let body = payload(&model, &context(), &request_options);
    assert!(body.get("reasoning").is_none());
    assert_eq!(
        body["include"],
        value(r#"["reasoning.encrypted_content"]"#)
    );
}

#[test]
fn openai_responses_whole_temperature_serializes_as_a_json_integer() {
    let model = base_model("unused", "gpt-5.4");
    let mut request_options = options();
    request_options.stream.temperature = Some(JsonNumber::Decimal("1.0".to_owned()));
    let wire =
        serde_json::to_string(&payload(&model, &context(), &request_options)).unwrap();
    assert!(wire.contains(r#""temperature":1"#));
    assert!(!wire.contains(r#""temperature":1.0"#));
}

#[test]
fn prompt_cache_retention_presence_matches_pi() {
    let mut model = base_model("unused", "gpt-5.6-sol");
    model.compat = response_compat(OpenAIResponsesCompat {
        supports_long_cache_retention: Some(true),
        supports_explicit_prompt_cache_mode: Some(true),
        ..OpenAIResponsesCompat::default()
    });
    let mut request_options = options();
    request_options.stream.session_id = Some("session".to_owned());
    request_options.stream.cache_retention = Some(CacheRetention::Long);
    let body = payload(&model, &context(), &request_options);
    assert_eq!(body["prompt_cache_key"], "session");
    assert_eq!(body["prompt_cache_retention"], "24h");
    assert!(body.get("prompt_cache_options").is_none());

    request_options.stream.cache_retention = Some(CacheRetention::Never);
    let body = payload(&model, &context(), &request_options);
    assert!(body.get("prompt_cache_key").is_none());
    assert!(body.get("prompt_cache_retention").is_none());
    assert_eq!(
        body["prompt_cache_options"],
        value(r#"{"mode":"explicit"}"#)
    );
}

#[test]
fn openai_responses_stream_entry_points_without_tokio_runtime_return_terminal_errors() {
    let model = base_model("https://example.invalid/v1", "gpt-5.4");
    let event = terminal_setup_error(&model, "Tokio runtime is not available", 7);
    let AssistantMessageEvent::Error { reason, error } = event else {
        panic!("terminal event")
    };
    assert_eq!(reason, ErrorStopReason::Error);
    assert_eq!(error.stop_reason, StopReason::Error);
    assert_eq!(
        error.error_message.as_deref(),
        Some("Tokio runtime is not available")
    );
    assert_eq!(error.timestamp, 7);
}

fn affinity_request(
    provider: &str,
    format: Option<SessionAffinityFormat>,
    headers: Option<Vec<(String, Option<String>)>>,
    retention: CacheRetention,
) -> openai_api::headers::PreparedRequest {
    let mut model = base_model("https://example.invalid/v1/", "gpt-5.4");
    model.provider = provider.to_owned();
    model.compat = format.map(|format| {
        ModelCompat::OpenAIResponses(OpenAIResponsesCompat {
            session_affinity_format: Some(format),
            ..OpenAIResponsesCompat::default()
        })
    });
    let mut request_options = options();
    request_options.stream.session_id = Some("session-123".to_owned());
    request_options.stream.cache_retention = Some(retention);
    request_options.stream.request.headers = headers;
    prepare_request(
        &model,
        &context(),
        &request_options,
        &client(),
        None,
        &vec![],
        &vec![],
        &open_ai_tool_call_ids(),
        0,
    )
    .unwrap()
}

fn header<'a>(request: &'a openai_api::headers::PreparedRequest, name: &str) -> Option<&'a str> {
    request
        .headers
        .iter()
        .find(|(key, _)| key.eq_ignore_ascii_case(name))
        .map(|(_, value)| value.as_str())
}

#[test]
fn session_affinity_headers_follow_the_format() {
    let official = affinity_request("openai", None, None, CacheRetention::Short);
    assert_eq!(official.url, "https://example.invalid/v1/responses");
    assert_eq!(header(&official, "session_id"), Some("session-123"));
    assert_eq!(
        header(&official, "x-client-request-id"),
        Some("session-123")
    );
    assert_eq!(header(&official, "authorization"), Some("Bearer test-key"));
    assert_eq!(header(&official, "x-session-affinity"), None);
    for (provider, configured) in [
        ("proxy", Some(SessionAffinityFormat::Openrouter)),
        ("openrouter", None),
    ] {
        let request = affinity_request(provider, configured, None, CacheRetention::Short);
        assert_eq!(header(&request, "session_id"), None);
        assert_eq!(header(&request, "x-client-request-id"), None);
        assert_eq!(header(&request, "x-session-id"), Some("session-123"));
        assert_eq!(to_value(&request.params)["prompt_cache_key"], "session-123");
    }
    let request = affinity_request(
        "proxy",
        Some(SessionAffinityFormat::OpenaiNosession),
        None,
        CacheRetention::Short,
    );
    assert_eq!(header(&request, "session_id"), None);
    assert_eq!(header(&request, "x-client-request-id"), Some("session-123"));
    let overridden = affinity_request(
        "openai",
        None,
        Some(vec![
            ("Session_ID".to_owned(), Some("override-session".to_owned())),
            ("x-client-request-id".to_owned(), None),
        ]),
        CacheRetention::Short,
    );
    assert_eq!(header(&overridden, "session_id"), Some("override-session"));
    assert_eq!(header(&overridden, "x-client-request-id"), None);
    let disabled = affinity_request("openai", None, None, CacheRetention::Never);
    assert_eq!(header(&disabled, "session_id"), None);
    assert_eq!(header(&disabled, "x-client-request-id"), None);
}

#[test]
fn openai_responses_custom_authorization_is_sent_exactly_once() {
    let request = affinity_request(
        "openai",
        None,
        Some(vec![(
            "authorization".to_owned(),
            Some("Bearer caller-token".to_owned()),
        )]),
        CacheRetention::Short,
    );
    let authorization = request
        .headers
        .iter()
        .filter(|(name, _)| name.eq_ignore_ascii_case("authorization"))
        .collect::<Vec<_>>();
    assert_eq!(authorization.len(), 1);
    assert_eq!(authorization[0].1, "Bearer caller-token");
}

#[test]
fn requests_without_a_key_are_refused() {
    let model = base_model("https://example.invalid/v1", "gpt-5.4");
    let mut request_options = OpenAIResponsesOptions::default();
    let refused = prepare_request(
        &model,
        &context(),
        &request_options,
        &client(),
        None,
        &vec![],
        &vec![],
        &open_ai_tool_call_ids(),
        0,
    );
    assert_eq!(refused.unwrap_err(), "No API key for provider: openai");
    request_options.stream.request.headers = Some(vec![(
        "CF-AIG-Authorization".to_owned(),
        Some("token".to_owned()),
    )]);
    let request = prepare_request(
        &model,
        &context(),
        &request_options,
        &client(),
        Some("long"),
        &vec![],
        &vec![],
        &open_ai_tool_call_ids(),
        0,
    )
    .unwrap();
    assert_eq!(header(&request, "authorization"), Some("Bearer unused"));
    assert_eq!(to_value(&request.params)["prompt_cache_retention"], "24h");
    assert_eq!(
        resolve_cache_retention(None, Some("short")),
        CacheRetention::Short
    );
}

#[test]
fn copilot_headers_are_sent_to_copilot_alone() {
    let mut model = base_model("unused", "gpt-5.4");
    let compat = get_compat(&model);
    model.headers = Some(vec![("User-Agent".to_owned(), "model".to_owned())]);
    let headers = create_headers(&model, &client(), "k", &None, None, &compat);
    assert_eq!(
        headers,
        vec![
            ("Accept".to_owned(), "application/json".to_owned()),
            ("Content-Type".to_owned(), "application/json".to_owned()),
            ("User-Agent".to_owned(), "model".to_owned()),
            ("X-Platform".to_owned(), "test".to_owned()),
            ("Authorization".to_owned(), "Bearer k".to_owned()),
        ]
    );
    model.provider = "github-copilot".to_owned();
    let headers = create_headers(&model, &client(), "k", &None, None, &compat);
    assert!(headers.contains(&("X-Initiator".to_owned(), "user".to_owned())));
}

#[test]
fn compat_of_the_other_api_counts_where_both_have_it() {
    let mut model = base_model("https://openrouter.ai/api", "gpt-5.4");
    model.compat = Some(ModelCompat::OpenAICompletions(OpenAICompletionsCompat {
        supports_strict_mode: Some(true),
        supports_long_cache_retention: Some(false),
        ..OpenAICompletionsCompat::default()
    }));
    let compat = get_compat(&model);
    assert!(compat.supports_strict_mode);
    assert!(!compat.supports_long_cache_retention);
    assert!(!compat.supports_tool_search);
    assert_eq!(
        compat.session_affinity_format,
        SessionAffinityFormat::Openrouter
    );
}

#[test]
fn simple_options_are_lowered() {
    let model = base_model("unused", "gpt-5.4");
    let mut simple = SimpleStreamOptions::default();
    simple.stream.request.api_key = Some("key".to_owned());
    simple.tool_choice = Some(ToolChoice::Never);
    let lowered = stream_simple(&model, 0, Some(ModelThinkingLevel::High), &simple);
    assert_eq!(lowered.reasoning_effort, Some(ThinkingLevel::High));
    assert_eq!(
        lowered.tool_choice,
        Some(ResponseToolChoice::Mode(ResponseToolChoiceMode::Never))
    );
    assert_eq!(lowered.stream.request.api_key.as_deref(), Some("key"));
    assert_eq!(lowered.stream.max_tokens, Some(128_000));
    let lowered = stream_simple(&model, 0, Some(ModelThinkingLevel::Off), &simple);
    assert_eq!(lowered.reasoning_effort, None);
    assert_eq!(open_ai_responses_api(), OpenAIResponsesApi);
}

#[test]
fn service_tiers_have_their_price() {
    let tier = |tier: ResponseServiceTier, id: &str| {
        service_tier_cost_multiplier(&base_model("unused", id), &Some(tier))
    };
    assert_eq!(tier(ResponseServiceTier::Priority, "gpt-5.4"), 20);
    assert_eq!(tier(ResponseServiceTier::Priority, "gpt-5.5"), 25);
    assert_eq!(tier(ResponseServiceTier::Flex, "gpt-5.5"), 5);
    assert_eq!(
        tier(ResponseServiceTier::Other("future".to_owned()), "gpt-5.5"),
        10
    );
}

#[test]
fn responses_runs_end_as_their_turns_do() {
    let model = base_model("unused", "gpt-5.4");
    let mut output = pending_message(&model, 1);
    let error = end_responses_run(&output, false).unwrap_err();
    assert_eq!(
        error.message,
        "OpenAI Responses stream ended without a stop reason"
    );
    let error = end_responses_run(&output, true).unwrap_err();
    assert_eq!(error.message, "Request was aborted");
    assert!(error.aborted);
    output.stop_reason = StopReason::Error;
    let error = end_responses_run(&output, false).unwrap_err();
    assert_eq!(error.message, "An unknown error occurred");
    output.error_message = Some("boom".to_owned());
    let error = end_responses_run(&output, false).unwrap_err();
    assert_eq!(error.message, "boom");
    output.stop_reason = StopReason::Length;
    assert_eq!(
        end_responses_run(&output, false),
        Ok(SuccessfulStopReason::Length)
    );
    let AssistantMessageEvent::Error { reason, error } =
        fail_run(output, end_responses_run(&pending_message(&model, 1), true).unwrap_err(), false)
    else {
        panic!("error")
    };
    assert_eq!(reason, ErrorStopReason::Aborted);
    assert_eq!(error.stop_reason, StopReason::Aborted);
    assert_eq!(error.error_message.as_deref(), Some("Request was aborted"));
}

#[test]
fn aborted_streams_report_no_failure() {
    assert_eq!(response_stream_error(&OpenAiSseError::aborted()), None);
    let error = response_stream_error(&OpenAiSseError::new("lost".to_owned())).unwrap();
    assert_eq!(error.message(), "lost");
}
