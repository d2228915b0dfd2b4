//! Requests and streams of the chat-completions API.
use openai_api::completions_chunks::{
    decode_chunk, RawChoice, RawChunk, RawCompletionDetails, RawDelta, RawPromptDetails, RawUsage,
};
use openai_api::completions_compat::get_compat;
use openai_api::completions_request::build_params;
use openai_api::completions_stream::{map_stop_reason, CompletionsStream};
use openai_api::completions_usage::parse_chunk_usage;
use openai_api::constrained_sampling::{
    append_grammar_tool_input_json_delta, create_grammar_tool_input_properties, CompleteJson,
    GrammarToolInputJsonBuffer,
};
use openai_api::headers::{resolve_cache_retention, ClientHeaders};
use openai_api::json::{Json, JsonNumber};
use openai_api::openai_completions::{
    convert_messages, next_chunk_error, open_ai_completions_api, prepare_request, stream_simple,
    OpenAIChatToolChoice, OpenAIChatToolChoiceMode, OpenAICompletionsApi,
    OpenAICompletionsOptions,
};
use openai_api::provider_error::OpenAiSseError;
use openai_api::run::{end_completions_run, pending_message, terminal_setup_error};
use openai_api::types::{
    AssistantContent, AssistantMessage, AssistantMessageEvent, CacheControlFormat,
    CacheRetention, ChatTemplateKwargValue, Context, DeferredToolsMode, GrammarSyntax,
    ImageContent, MaxTokensField, Message, Model, ModelCompat, ModelInput, ModelThinkingLevel,
    OpenAICompletionsCompat, SessionAffinityFormat, SimpleStreamOptions, StopReason,
    SuccessfulStopReason, TextContent, ThinkingBudgets, ThinkingContent, ThinkingFormat,
    ThinkingLevel, ThinkingLevelMap, ThinkingTokenBudgetField, ThinkingVariable, Tool, ToolCall,
    ToolChoice, ToolGrammar, ToolResultMessage, UsageValue, UserContent, UserContentBlock,
    UserMessage, VercelGatewayRouting,
};

fn json(text: &str) -> Json {
    from_value(&serde_json::from_str(text).unwrap())
}

fn from_value(v: &serde_json::Value) -> Json {
    match v {
        serde_json::Value::Null => Json::Null,
        serde_json::Value::Bool(b) => Json::Bool(*b),
        serde_json::Value::Number(n) => {
            if let Some(n) = n.as_u64() {
                Json::Number(JsonNumber::Unsigned(n))
            } else if let Some(n) = n.as_i64() {
                Json::Number(JsonNumber::Negative(n))
            } else {
                Json::Number(JsonNumber::Decimal(n.to_string()))
            }
        }
        serde_json::Value::String(s) => Json::Str(s.clone()),
        serde_json::Value::Array(items) => Json::Array(items.iter().map(from_value).collect()),
        serde_json::Value::Object(fields) => Json::Object(
            fields
                .iter()
                .map(|(key, v)| (key.clone(), from_value(v)))
                .collect(),
        ),
    }
}

fn to_value(v: &Json) -> serde_json::Value {
    match v {
        Json::Null => serde_json::Value::Null,
        Json::Bool(b) => serde_json::Value::Bool(*b),
        Json::Number(JsonNumber::Unsigned(n)) => serde_json::Value::from(*n),
        Json::Number(JsonNumber::Negative(n)) => serde_json::Value::from(*n),
        Json::Number(JsonNumber::Decimal(t)) => serde_json::from_str(t).unwrap(),
        Json::Str(s) => serde_json::Value::String(s.clone()),
        Json::Array(items) => serde_json::Value::Array(items.iter().map(to_value).collect()),
        Json::Object(fields) => serde_json::Value::Object(
            fields
                .iter()
                .map(|(key, v)| (key.clone(), to_value(v)))
                .collect(),
        ),
    }
}

fn value(text: &str) -> serde_json::Value {
    serde_json::from_str(text).unwrap()
}

fn model(base_url: &str) -> Model {
    Model {
        id: "test-model".to_owned(),
        name: "Test Model".to_owned(),
        api: "openai-completions".to_owned(),
        provider: "openai".to_owned(),
        base_url: base_url.to_owned(),
        reasoning: false,
        thinking_level_map: None,
        input: vec![ModelInput::Text],
        context_window: 128_000,
        max_tokens: 4_096,
        sampling_params: None,
        headers: None,
        compat: None,
    }
}

fn user(text: &str, timestamp: i64) -> Message {
    Message::User(UserMessage {
        content: UserContent::Text(text.to_owned()),
        timestamp,
    })
}

fn context() -> Context {
    Context {
        system_prompt: Some("System prompt".to_owned()),
        messages: vec![user("hello", 1)],
        tools: None,
    }
}

fn options() -> OpenAICompletionsOptions {
    let mut options = OpenAICompletionsOptions::default();
    options.stream.request.api_key = Some("test-key".to_owned());
    options
}

fn completions_compat(compat: OpenAICompletionsCompat) -> Option<ModelCompat> {
    Some(ModelCompat::OpenAICompletions(compat))
}

fn payload_in(
    test_model: &Model,
    test_context: &Context,
    request_options: &OpenAICompletionsOptions,
    environment: Option<&str>,
) -> serde_json::Value {
    let compat = get_compat(test_model);
    let grammar_properties = create_grammar_tool_input_properties(
        &test_context.tools,
        compat.supports_open_ai_grammar_tools,
    );
    to_value(
        &build_params(
            test_model,
            test_context,
            request_options,
            &compat,
            resolve_cache_retention(request_options.stream.cache_retention, environment),
            &grammar_properties,
            0,
        )
        .unwrap(),
    )
}

fn payload(
    test_model: &Model,
    test_context: &Context,
    request_options: &OpenAICompletionsOptions,
) -> serde_json::Value {
    payload_in(test_model, test_context, request_options, None)
}

fn converted(test_model: &Model, test_context: &Context) -> Vec<serde_json::Value> {
    convert_messages(test_model, test_context, 0)
        .unwrap()
        .iter()
        .map(to_value)
        .collect()
}

fn tool(name: &str) -> Tool {
    Tool {
        name: name.to_owned(),
        description: name.to_owned(),
        parameters: json(r#"{"type":"object","properties":{}}"#),
        strict_parameters: json(r#"{"type":"object","properties":{},"additionalProperties":false}"#),
        strict: None,
        grammar: None,
    }
}

fn turn(provider: &str, id: &str, content: Vec<AssistantContent>) -> AssistantMessage {
    let mut turn = AssistantMessage::pending("openai-completions", provider, id, 2);
    turn.stop_reason = StopReason::ToolUse;
    turn.content = content;
    turn
}

fn call(id: &str, name: &str) -> AssistantContent {
    AssistantContent::ToolCall(ToolCall::new(id, name, json("{}")))
}

fn conversation(messages: Vec<Message>) -> Context {
    Context {
        system_prompt: None,
        messages,
        tools: None,
    }
}

fn run(test_model: &Model, chunks: &[&str]) -> (CompletionsStream, Result<(), String>) {
    let mut stream = CompletionsStream::new(pending_message(test_model, 1));
    let measured = stream.output.usage.clone();
    for chunk in chunks {
        let chunk = decode_chunk(&json(chunk));
        let result =
            stream.process_chunk(test_model, &chunk, &measured, &vec![], &CompleteJson);
        if result.is_err() {
            return (stream, result);
        }
    }
    let result = stream.finish_blocks(&CompleteJson);
    (stream, result)
}

#[test]
fn thinking_format_request_matrix_matches_pi_source() {
    let mut test_model = model("https://example.invalid/v1");
    test_model.reasoning = true;
    test_model.provider = "custom".to_owned();
    test_model.thinking_level_map = Some(ThinkingLevelMap {
        off: Some(Some("disabled-level".to_owned())),
        high: Some(Some("high-level".to_owned())),
        ..ThinkingLevelMap::default()
    });
    let mut request_options = options();
    request_options.reasoning_effort = Some(ThinkingLevel::High);

    let cases = [
        (
            ThinkingFormat::Zai,
            value(
                r#"{"thinking":{"type":"enabled","clear_thinking":false},"reasoning_effort":"high-level"}"#,
            ),
        ),
        (
            ThinkingFormat::Qwen,
            value(r#"{"enable_thinking":true,"reasoning_effort":"high-level"}"#),
        ),
        (
            ThinkingFormat::QwenChatTemplate,
            value(
                r#"{"chat_template_kwargs":{"enable_thinking":true,"preserve_thinking":true}}"#,
            ),
        ),
        (
            ThinkingFormat::Deepseek,
            value(r#"{"thinking":{"type":"enabled"},"reasoning_effort":"high-level"}"#),
        ),
        (
            ThinkingFormat::Openrouter,
            value(r#"{"reasoning":{"effort":"high-level"}}"#),
        ),
        (
            ThinkingFormat::Together,
            value(r#"{"reasoning":{"enabled":true},"reasoning_effort":"high-level"}"#),
        ),
        (
            ThinkingFormat::StringThinking,
            value(r#"{"thinking":"high-level"}"#),
        ),
        (
            ThinkingFormat::AntLing,
            value(r#"{"reasoning":{"effort":"high-level"}}"#),
        ),
        (
            ThinkingFormat::Openai,
            value(r#"{"reasoning_effort":"high-level"}"#),
        ),
    ];
    for (format, expected) in cases {
        test_model.compat = completions_compat(OpenAICompletionsCompat {
            thinking_format: Some(format),
            supports_reasoning_effort: Some(true),
            ..OpenAICompletionsCompat::default()
        });
        let body = payload(&test_model, &context(), &request_options);
        for (key, value) in expected.as_object().unwrap() {
            assert_eq!(&body[key], value, "{format:?} key {key}");
        }
    }

    test_model.compat = completions_compat(OpenAICompletionsCompat {
        thinking_format: Some(ThinkingFormat::Baseten),
        supports_reasoning_effort: Some(true),
        chat_template_args: Some(vec![(
            "thinking".to_owned(),
            ChatTemplateKwargValue::Variable {
                variable: ThinkingVariable::Enabled,
                omit_when_off: None,
            },
        )]),
        ..OpenAICompletionsCompat::default()
    });
    let body = payload(&test_model, &context(), &request_options);
    assert_eq!(body["chat_template_args"], value(r#"{"thinking":true}"#));
    assert_eq!(body["reasoning_effort"], "high-level");

    request_options.reasoning_effort = None;
    let body = payload(&test_model, &context(), &request_options);
    assert_eq!(body["chat_template_args"], value(r#"{"thinking":false}"#));
    assert_eq!(body["reasoning_effort"], "disabled-level");

    test_model.compat = completions_compat(OpenAICompletionsCompat {
        thinking_format: Some(ThinkingFormat::Deepseek),
        ..OpenAICompletionsCompat::default()
    });
    let body = payload(&test_model, &context(), &request_options);
    assert_eq!(body["thinking"], value(r#"{"type":"disabled"}"#));

    test_model.compat = completions_compat(OpenAICompletionsCompat {
        thinking_format: Some(ThinkingFormat::Zai),
        supports_reasoning_effort: Some(true),
        ..OpenAICompletionsCompat::default()
    });
    let body = payload(&test_model, &context(), &request_options);
    assert_eq!(body["thinking"], value(r#"{"type":"disabled"}"#));
    assert!(body.get("reasoning_effort").is_none());

    test_model.compat = completions_compat(OpenAICompletionsCompat {
        thinking_format: Some(ThinkingFormat::StringThinking),
        ..OpenAICompletionsCompat::default()
    });
    assert_eq!(
        payload(&test_model, &context(), &request_options)["thinking"],
        "disabled-level"
    );

    test_model.compat = completions_compat(OpenAICompletionsCompat {
        thinking_format: Some(ThinkingFormat::ChatTemplate),
        chat_template_kwargs: Some(vec![
            (
                "effort".to_owned(),
                ChatTemplateKwargValue::Variable {
                    variable: ThinkingVariable::Effort,
                    omit_when_off: None,
                },
            ),
            (
                "static".to_owned(),
                ChatTemplateKwargValue::Text("value".to_owned()),
            ),
        ]),
        ..OpenAICompletionsCompat::default()
    });
    assert_eq!(
        payload(&test_model, &context(), &request_options)["chat_template_kwargs"],
        value(r#"{"effort":"disabled-level","static":"value"}"#)
    );

    test_model.thinking_level_map.as_mut().unwrap().off = Some(None);
    test_model.compat = completions_compat(OpenAICompletionsCompat {
        thinking_format: Some(ThinkingFormat::StringThinking),
        ..OpenAICompletionsCompat::default()
    });
    let body = payload(&test_model, &context(), &request_options);
    assert!(body.get("thinking").is_none());

    request_options.reasoning_effort = Some(ThinkingLevel::High);
    test_model.thinking_level_map.as_mut().unwrap().high = Some(None);
    test_model.compat = completions_compat(OpenAICompletionsCompat {
        thinking_format: Some(ThinkingFormat::AntLing),
        ..OpenAICompletionsCompat::default()
    });
    assert!(payload(&test_model, &context(), &request_options)
        .get("reasoning")
        .is_none());
    test_model.reasoning = false;
    test_model.thinking_level_map.as_mut().unwrap().high = Some(Some("high-level".to_owned()));
    assert!(payload(&test_model, &context(), &request_options)
        .get("reasoning")
        .is_none());
}

#[test]
fn named_fields_tools_routing_and_sampling_precedence_match_pi_source() {
    let mut test_model = model("https://gateway.ai.cloudflare.com/v1/a/g/compat");
    test_model.provider = "cloudflare-ai-gateway".to_owned();
    test_model.reasoning = true;
    let mut request_options = options();
    request_options.stream.max_tokens = Some(1_234);
    request_options.reasoning_effort = Some(ThinkingLevel::High);
    let body = payload(&test_model, &context(), &request_options);
    assert_eq!(body["max_tokens"], 1_234);
    assert!(body.get("max_completion_tokens").is_none());
    assert!(body.get("reasoning_effort").is_none());
    assert!(body.get("store").is_none());
    assert_eq!(body["messages"][0]["role"], "system");

    test_model.provider = "custom".to_owned();
    test_model.compat = completions_compat(OpenAICompletionsCompat {
        zai_tool_stream: Some(true),
        supports_strict_mode: Some(false),
        open_router_routing: Some(json(r#"{"only":["provider-a"]}"#)),
        vercel_gateway_routing: Some(VercelGatewayRouting {
            order: Some(vec!["provider-b".to_owned()]),
            ..VercelGatewayRouting::default()
        }),
        ..OpenAICompletionsCompat::default()
    });
    let mut test_context = context();
    test_context.tools = Some(vec![tool("read")]);
    request_options.stream.sampling_params = Some(vec![
        ("model".to_owned(), json(r#""caller-model""#)),
        ("temperature".to_owned(), json("0.25")),
        ("tools".to_owned(), json("[]")),
    ]);
    let body = payload(&test_model, &test_context, &request_options);
    assert_eq!(body["model"], "caller-model");
    assert_eq!(body["temperature"], 0.25);
    assert_eq!(body["tools"], value("[]"));
    assert_eq!(body["tool_stream"], true);
    assert_eq!(body["provider"], value(r#"{"only":["provider-a"]}"#));
    assert_eq!(
        body["providerOptions"],
        value(r#"{"gateway":{"order":["provider-b"]}}"#)
    );

    request_options.stream.sampling_params = None;
    let body = payload(&test_model, &test_context, &request_options);
    assert!(body["tools"][0]["function"].get("strict").is_none());

    let body = payload(&test_model, &context(), &request_options);
    assert!(body.get("tool_stream").is_none());
    test_model.compat = completions_compat(OpenAICompletionsCompat {
        zai_tool_stream: Some(false),
        ..OpenAICompletionsCompat::default()
    });
    let body = payload(&test_model, &test_context, &request_options);
    assert!(body.get("tool_stream").is_none());
}

#[test]
fn unknown_open_router_routing_key_reaches_request_body() {
    let mut test_model = model("https://openrouter.ai/api/v1");
    test_model.compat = completions_compat(OpenAICompletionsCompat {
        open_router_routing: Some(json(
            r#"{"only":["provider-a"],"custom_router":{"region":"west","weights":[1,2]}}"#,
        )),
        ..OpenAICompletionsCompat::default()
    });
    let body = payload(&test_model, &context(), &options());
    assert_eq!(
        body["provider"],
        value(r#"{"only":["provider-a"],"custom_router":{"region":"west","weights":[1,2]}}"#)
    );
}

#[test]
fn openai_completions_whole_temperature_serializes_as_a_json_integer() {
    let test_model = model("https://example.invalid/v1");
    let mut request_options = options();
    request_options.stream.temperature = Some(JsonNumber::Decimal("1.0".to_owned()));
    let wire =
        serde_json::to_string(&payload(&test_model, &context(), &request_options)).unwrap();
    assert!(wire.contains(r#""temperature":1"#));
    assert!(!wire.contains(r#""temperature":1.0"#));
}

#[test]
fn kimi_deferred_tools_preserve_first_added_order() {
    let mut test_model = model("https://example.invalid/v1");
    test_model.provider = "moonshotai".to_owned();
    test_model.compat = completions_compat(OpenAICompletionsCompat {
        deferred_tools_mode: Some(DeferredToolsMode::Kimi),
        ..OpenAICompletionsCompat::default()
    });
    let tool_result = Message::ToolResult(ToolResultMessage {
        tool_call_id: "call-1".to_owned(),
        tool_name: "bootstrap".to_owned(),
        content: vec![UserContentBlock::Text(TextContent::new("ok"))],
        details: None,
        usage: None,
        added_tool_names: Some(vec![
            "zeta".to_owned(),
            "alpha".to_owned(),
            "zeta".to_owned(),
        ]),
        is_error: false,
        timestamp: 3,
    });
    let mut test_context = conversation(vec![
        user("hello", 1),
        Message::Assistant(turn(
            "moonshotai",
            "test-model",
            vec![call("call-1", "bootstrap")],
        )),
        tool_result,
    ]);
    test_context.tools = Some(vec![tool("bootstrap"), tool("alpha"), tool("zeta")]);
    let body = payload(&test_model, &test_context, &options());
    assert_eq!(body["tools"][0]["function"]["name"], "bootstrap");
    let injected = body["messages"].as_array().unwrap().last().unwrap();
    assert_eq!(injected["role"], "system");
    assert!(injected.get("content").is_none());
    assert_eq!(
        injected["tools"]
            .as_array()
            .unwrap()
            .iter()
            .map(|tool| tool["function"]["name"].as_str().unwrap())
            .collect::<Vec<_>>(),
        vec!["zeta", "alpha"]
    );
}

#[test]
fn raw_chunk_tolerance_matches_pi_source() {
    let chunk = decode_chunk(&json(
        r#"{
            "id":"",
            "choices":[{
                "delta":{"content":[],"reasoning":123},
                "usage":{"prompt_tokens":1.5,"completion_tokens":"2"}
            }],
            "usage":{
                "prompt_tokens":1.5,
                "completion_tokens":"2",
                "prompt_tokens_details":[]
            }
        }"#,
    ));
    let usage = chunk.usage.expect("usage object");
    assert_eq!(
        usage.prompt_tokens,
        Some(UsageValue::Fraction("1.5".to_owned()))
    );
    assert_eq!(
        usage.completion_tokens,
        Some(UsageValue::Text("2".to_owned()))
    );
    assert!(usage.prompt_tokens_details.is_none());
    let choice = chunk.choices.first().expect("choice");
    let delta = choice.delta.as_ref().expect("delta object");
    assert_eq!(delta.content, None);
    assert_eq!(delta.reasoning, None);
    let usage = choice.usage.as_ref().expect("choice usage");
    assert_eq!(
        usage.prompt_tokens,
        Some(UsageValue::Fraction("1.5".to_owned()))
    );
    assert_eq!(
        usage.completion_tokens,
        Some(UsageValue::Text("2".to_owned()))
    );
    let parsed = parse_chunk_usage(usage).unwrap();
    assert_eq!(parsed.input, UsageValue::Fraction("1.5".to_owned()));
    assert_eq!(parsed.output, UsageValue::Text("2".to_owned()));
    assert_eq!(parsed.reasoning, Some(UsageValue::Count(0)));
    assert_eq!(parsed.total_tokens, UsageValue::Text("1.5200".to_owned()));

    let chunk = decode_chunk(&json(r#"{"choices":null,"usage":null}"#));
    assert!(chunk.choices.is_empty());
    assert!(chunk.usage.is_none());
    let chunk = decode_chunk(&json(r#"{"choices":[{"delta":{"tool_calls":null}}]}"#));
    assert!(chunk.choices[0]
        .delta
        .as_ref()
        .unwrap()
        .tool_calls
        .is_empty());
}

#[test]
fn thinking_token_budget_payload_matrix_matches_pi() {
    let mut test_model = model("https://example.invalid/v1");
    test_model.reasoning = true;
    test_model.max_tokens = 16_384;
    let mut request_options = options();
    request_options.reasoning_effort = Some(ThinkingLevel::Medium);
    request_options.thinking_budgets = Some(ThinkingBudgets {
        medium: Some(4_096),
        high: Some(8_192),
        ..ThinkingBudgets::default()
    });

    test_model.compat = completions_compat(OpenAICompletionsCompat {
        supports_thinking_token_budget: Some(true),
        ..OpenAICompletionsCompat::default()
    });
    assert_eq!(
        payload(&test_model, &context(), &request_options)["thinking_token_budget"],
        4_096
    );

    test_model.compat = completions_compat(OpenAICompletionsCompat::default());
    assert!(payload(&test_model, &context(), &request_options)
        .get("thinking_token_budget")
        .is_none());

    test_model.compat = completions_compat(OpenAICompletionsCompat {
        supports_thinking_token_budget: Some(true),
        ..OpenAICompletionsCompat::default()
    });
    request_options.reasoning_effort = None;
    assert!(payload(&test_model, &context(), &request_options)
        .get("thinking_token_budget")
        .is_none());

    for effort in [ThinkingLevel::Xhigh, ThinkingLevel::Max] {
        request_options.reasoning_effort = Some(effort);
        assert_eq!(
            payload(&test_model, &context(), &request_options)["thinking_token_budget"],
            8_192
        );
    }

    request_options.reasoning_effort = Some(ThinkingLevel::High);
    request_options.stream.max_tokens = Some(8_192);
    assert_eq!(
        payload(&test_model, &context(), &request_options)["thinking_token_budget"],
        7_168
    );
    request_options.stream.max_tokens = Some(4_096);
    assert_eq!(
        payload(&test_model, &context(), &request_options)["thinking_token_budget"],
        3_072
    );

    for (field, name) in [
        (ThinkingTokenBudgetField::ThinkingBudget, "thinking_budget"),
        (
            ThinkingTokenBudgetField::ThinkingBudgetTokens,
            "thinking_budget_tokens",
        ),
    ] {
        test_model.compat = completions_compat(OpenAICompletionsCompat {
            thinking_token_budget_field: Some(field),
            ..OpenAICompletionsCompat::default()
        });
        let body = payload(&test_model, &context(), &request_options);
        assert_eq!(body[name], 3_072);
        assert!(body.get("thinking_token_budget").is_none());
    }

    test_model.compat = completions_compat(OpenAICompletionsCompat {
        supports_thinking_token_budget: Some(true),
        thinking_token_budget_field: Some(ThinkingTokenBudgetField::ThinkingBudgetTokens),
        ..OpenAICompletionsCompat::default()
    });
    let body = payload(&test_model, &context(), &request_options);
    assert_eq!(body["thinking_budget_tokens"], 3_072);
    assert!(body.get("thinking_token_budget").is_none());

    test_model.compat = completions_compat(OpenAICompletionsCompat {
        thinking_format: Some(ThinkingFormat::ChatTemplate),
        chat_template_kwargs: Some(vec![(
            "budget".to_owned(),
            ChatTemplateKwargValue::Variable {
                variable: ThinkingVariable::Budget,
                omit_when_off: None,
            },
        )]),
        ..OpenAICompletionsCompat::default()
    });
    assert_eq!(
        payload(&test_model, &context(), &request_options)["chat_template_kwargs"],
        value(r#"{"budget":3072}"#)
    );
    request_options.reasoning_effort = None;
    assert!(
        payload(&test_model, &context(), &request_options)["chat_template_kwargs"]
            .get("budget")
            .is_none()
    );
}

#[test]
fn reasoning_replay_and_thinking_as_text_cases_match_pi() {
    let mut test_model = model("https://example.invalid/v1");
    test_model.reasoning = true;
    test_model.provider = "openrouter".to_owned();
    let encrypted = r#"{"type":"reasoning.encrypted","id":"call-1","data":"cipher"}"#;
    let signed = json(r#"{"type":"reasoning.text","text":"think","signature":"sig"}"#);
    let mut signed_call = ToolCall::new("call-1", "read", json("{}"));
    signed_call.thought_signature = Some(encrypted.to_owned());
    let mut assistant = turn(
        "openrouter",
        "test-model",
        vec![AssistantContent::ToolCall(signed_call)],
    );
    assistant.reasoning_details = Some(vec![signed.clone()]);
    let messages = converted(
        &test_model,
        &conversation(vec![Message::Assistant(assistant.clone())]),
    );
    assert_eq!(
        messages[0]["reasoning_details"],
        serde_json::Value::Array(vec![to_value(&signed)])
    );

    assistant.reasoning_details = None;
    let messages = converted(
        &test_model,
        &conversation(vec![Message::Assistant(assistant)]),
    );
    assert_eq!(
        messages[0]["reasoning_details"],
        serde_json::Value::Array(vec![value(encrypted)])
    );

    test_model.compat = completions_compat(OpenAICompletionsCompat {
        requires_thinking_as_text: Some(true),
        ..OpenAICompletionsCompat::default()
    });
    let mut thinking_only = turn(
        "openrouter",
        "test-model",
        vec![AssistantContent::Thinking(ThinkingContent::new("private"))],
    );
    thinking_only.stop_reason = StopReason::Stop;
    let messages = converted(
        &test_model,
        &conversation(vec![Message::Assistant(thinking_only)]),
    );
    assert_eq!(
        messages[0],
        value(r#"{"role":"assistant","content":[{"type":"text","text":"private"}]}"#)
    );
}

#[test]
fn instruction_roles_and_reasoning_replay_fields_match_pi() {
    let mut test_model = model("https://openrouter.ai/api/v1");
    test_model.provider = "openrouter".to_owned();
    test_model.reasoning = true;
    test_model.id = "google/gemini".to_owned();
    assert_eq!(converted(&test_model, &context())[0]["role"], "system");

    test_model.id = "anthropic/sonnet".to_owned();
    assert_eq!(converted(&test_model, &context())[0]["role"], "developer");

    test_model.provider = "openai".to_owned();
    test_model.base_url = "https://api.openai.com/v1".to_owned();
    test_model.id = "gpt-5".to_owned();
    assert_eq!(converted(&test_model, &context())[0]["role"], "developer");

    test_model.provider = "opencode-go".to_owned();
    test_model.id = "kimi-k2.6".to_owned();
    test_model.compat = completions_compat(OpenAICompletionsCompat {
        requires_reasoning_content_on_assistant_messages: Some(true),
        ..OpenAICompletionsCompat::default()
    });
    let mut assistant = turn("opencode-go", "kimi-k2.6", vec![call("call-1", "read")]);
    let messages = converted(
        &test_model,
        &conversation(vec![Message::Assistant(assistant.clone())]),
    );
    assert_eq!(messages[0]["reasoning_content"], "");

    let mut thinking = ThinkingContent::new("private");
    thinking.thinking_signature = Some("reasoning".to_owned());
    assistant
        .content
        .insert(0, AssistantContent::Thinking(thinking));
    let messages = converted(
        &test_model,
        &conversation(vec![Message::Assistant(assistant)]),
    );
    assert_eq!(messages[0]["reasoning_content"], "private");
    assert!(messages[0].get("reasoning").is_none());
}

#[test]
fn raw_stream_field_semantics_match_pi() {
    let mut test_model = model("https://example.invalid/v1");
    test_model.reasoning = true;
    test_model.provider = "opencode-go".to_owned();
    let mut stream = CompletionsStream::new(pending_message(&test_model, 1));
    let measured = stream.output.usage.clone();
    stream
        .process_chunk(
            &test_model,
            &RawChunk {
                id: Some("chunk".to_owned()),
                choices: vec![RawChoice {
                    delta: Some(RawDelta {
                        reasoning: Some("private".to_owned()),
                        reasoning_text: Some("duplicate".to_owned()),
                        ..RawDelta::default()
                    }),
                    ..RawChoice::default()
                }],
                ..RawChunk::default()
            },
            &measured,
            &vec![],
            &CompleteJson,
        )
        .unwrap();
    let AssistantContent::Thinking(thinking) = &stream.output.content[0] else {
        panic!("thinking");
    };
    assert_eq!(thinking.thinking, "private");
    assert_eq!(
        thinking.thinking_signature.as_deref(),
        Some("reasoning_content")
    );

    let (stop_reason, error) = map_stop_reason("unexpected_provider_reason");
    assert_eq!(stop_reason, StopReason::Error);
    assert_eq!(
        error.as_deref(),
        Some("Provider finish_reason: unexpected_provider_reason")
    );

    let usage = parse_chunk_usage(&RawUsage {
        prompt_tokens: Some(UsageValue::Count(100)),
        completion_tokens: Some(UsageValue::Count(30)),
        cached_tokens: Some(UsageValue::Count(20)),
        prompt_tokens_details: Some(RawPromptDetails {
            cached_tokens: Some(UsageValue::Count(10)),
            cache_write_tokens: Some(UsageValue::Count(5)),
        }),
        completion_tokens_details: Some(RawCompletionDetails {
            reasoning_tokens: Some(UsageValue::Count(12)),
        }),
        ..RawUsage::default()
    })
    .unwrap();
    assert_eq!(usage.input, UsageValue::Count(85));
    assert_eq!(usage.output, UsageValue::Count(30));
    assert_eq!(usage.cache_read, UsageValue::Count(10));
    assert_eq!(usage.cache_write, UsageValue::Count(5));
    assert_eq!(usage.reasoning, Some(UsageValue::Count(12)));
    assert_eq!(usage.total_tokens, UsageValue::Count(130));
}

#[test]
fn detected_compatibility_families_match_pi() {
    let cases = [
        (
            "cloudflare-ai-gateway",
            "https://gateway.ai.cloudflare.com/v1/a/g/compat",
            MaxTokensField::MaxTokens,
            ThinkingFormat::Openai,
            false,
            false,
        ),
        (
            "deepseek",
            "https://api.deepseek.com",
            MaxTokensField::MaxTokens,
            ThinkingFormat::Deepseek,
            true,
            false,
        ),
        (
            "zai",
            "https://api.z.ai/api/paas/v4",
            MaxTokensField::MaxTokens,
            ThinkingFormat::Zai,
            false,
            false,
        ),
        (
            "together",
            "https://api.together.xyz/v1",
            MaxTokensField::MaxTokens,
            ThinkingFormat::Together,
            false,
            false,
        ),
        (
            "ant-ling",
            "https://api.ant-ling.com/v1",
            MaxTokensField::MaxTokens,
            ThinkingFormat::AntLing,
            false,
            false,
        ),
        (
            "openrouter",
            "https://openrouter.ai/api/v1",
            MaxTokensField::MaxCompletionTokens,
            ThinkingFormat::Openrouter,
            true,
            true,
        ),
    ];
    for (provider, base_url, max_field, format, supports_effort, supports_store) in cases {
        let mut test_model = model(base_url);
        test_model.provider = provider.to_owned();
        let compat = get_compat(&test_model);
        assert_eq!(compat.max_tokens_field, max_field, "{provider}");
        assert_eq!(compat.thinking_format, format, "{provider}");
        assert_eq!(
            compat.supports_reasoning_effort, supports_effort,
            "{provider}"
        );
        assert_eq!(compat.supports_store, supports_store, "{provider}");
        let mut request_options = options();
        request_options.stream.max_tokens = Some(1_234);
        let body = payload(&test_model, &context(), &request_options);
        match max_field {
            MaxTokensField::MaxTokens => {
                assert_eq!(body["max_tokens"], 1_234, "{provider}");
                assert!(body.get("max_completion_tokens").is_none(), "{provider}");
            }
            MaxTokensField::MaxCompletionTokens => {
                assert_eq!(body["max_completion_tokens"], 1_234, "{provider}");
                assert!(body.get("max_tokens").is_none(), "{provider}");
            }
        }
    }

    let mut open_router = model("https://openrouter.ai/api/v1");
    open_router.provider = "openrouter".to_owned();
    open_router.id = "anthropic/sonnet".to_owned();
    let compat = get_compat(&open_router);
    assert!(compat.supports_developer_role);
    assert_eq!(
        compat.cache_control_format,
        Some(CacheControlFormat::Anthropic)
    );
    open_router.id = "google/gemini".to_owned();
    assert!(!get_compat(&open_router).supports_developer_role);

    let mut grok = model("https://api.x.ai/v1");
    grok.provider = "xai".to_owned();
    grok.reasoning = true;
    let mut request_options = options();
    request_options.reasoning_effort = Some(ThinkingLevel::High);
    assert!(payload(&grok, &context(), &request_options)
        .get("reasoning_effort")
        .is_none());
}

#[test]
fn prompt_cache_payload_matrix_matches_pi() {
    let direct = model("https://api.openai.com/v1");
    let mut request_options = options();
    request_options.stream.session_id = Some("session-key".to_owned());
    let body = payload(&direct, &context(), &request_options);
    assert_eq!(body["prompt_cache_key"], "session-key");
    assert!(body.get("prompt_cache_retention").is_none());

    request_options.stream.cache_retention = Some(CacheRetention::Long);
    let body = payload(&direct, &context(), &request_options);
    assert_eq!(body["prompt_cache_retention"], "24h");
    request_options.stream.session_id = Some("x".repeat(65));
    assert_eq!(
        payload(&direct, &context(), &request_options)["prompt_cache_key"],
        "x".repeat(64)
    );

    request_options.stream.cache_retention = Some(CacheRetention::Never);
    let body = payload(&direct, &context(), &request_options);
    assert!(body.get("prompt_cache_key").is_none());
    assert!(body.get("prompt_cache_retention").is_none());

    let mut compatible = model("https://example.invalid/v1");
    request_options.stream.cache_retention = Some(CacheRetention::Short);
    assert!(payload(&compatible, &context(), &request_options)
        .get("prompt_cache_key")
        .is_none());
    request_options.stream.cache_retention = Some(CacheRetention::Long);
    let body = payload(&compatible, &context(), &request_options);
    assert_eq!(body["prompt_cache_key"], "x".repeat(64));
    assert_eq!(body["prompt_cache_retention"], "24h");

    compatible.compat = completions_compat(OpenAICompletionsCompat {
        supports_long_cache_retention: Some(false),
        ..OpenAICompletionsCompat::default()
    });
    let body = payload(&compatible, &context(), &request_options);
    assert!(body.get("prompt_cache_key").is_none());
    assert!(body.get("prompt_cache_retention").is_none());

    request_options.stream.cache_retention = None;
    assert_eq!(
        payload_in(&direct, &context(), &request_options, Some("long"))
            ["prompt_cache_retention"],
        "24h"
    );
}

#[test]
fn tool_result_image_conversion_matches_pi() {
    let mut test_model = model("http://127.0.0.1:1");
    test_model.input.push(ModelInput::Image);
    let assistant = turn(
        "openai",
        "test-model",
        vec![call("tool-1", "read"), call("tool-2", "read")],
    );
    let tool_result = |id: &str, image: bool| {
        let mut content = vec![UserContentBlock::Text(TextContent::new(if image {
            "read image"
        } else {
            ""
        }))];
        if image {
            content.push(UserContentBlock::Image(ImageContent::new(
                "ZmFrZQ==",
                "image/png",
            )));
        }
        Message::ToolResult(ToolResultMessage {
            tool_call_id: id.to_owned(),
            tool_name: "read".to_owned(),
            content,
            details: None,
            usage: None,
            added_tool_names: None,
            is_error: false,
            timestamp: 3,
        })
    };
    let test_context = conversation(vec![
        user("hello", 1),
        Message::Assistant(assistant),
        tool_result("tool-1", true),
        tool_result("tool-2", true),
    ]);
    let messages = converted(&test_model, &test_context);
    assert_eq!(
        messages
            .iter()
            .map(|message| message["role"].as_str().unwrap())
            .collect::<Vec<_>>(),
        vec!["user", "assistant", "tool", "tool", "user"]
    );
    assert_eq!(
        messages.last().unwrap()["content"]
            .as_array()
            .unwrap()
            .iter()
            .filter(|part| part["type"] == "image_url")
            .count(),
        2
    );

    let mut empty_context = test_context;
    empty_context.messages.truncate(2);
    empty_context.messages.push(tool_result("tool-1", false));
    let messages = converted(&test_model, &empty_context);
    assert_eq!(
        messages
            .iter()
            .find(|message| message["role"] == "tool")
            .unwrap()["content"],
        "(no tool output)"
    );
}

#[test]
fn assistant_tool_call_without_text_serializes_explicit_null_content() {
    let test_model = model("https://example.invalid/v1");
    let messages = converted(
        &test_model,
        &conversation(vec![Message::Assistant(turn(
            "openai",
            "test-model",
            vec![call("call-1", "read")],
        ))]),
    );
    assert!(messages[0].get("content").is_some());
    assert!(messages[0]["content"].is_null());
    assert!(messages[0]["tool_calls"].is_array());
}

#[test]
fn qwen_explicit_null_effort_falls_back_to_the_level_name() {
    let mut test_model = model("https://example.invalid/v1");
    test_model.reasoning = true;
    test_model.thinking_level_map = Some(ThinkingLevelMap {
        high: Some(None),
        ..ThinkingLevelMap::default()
    });
    let mut request_options = options();
    request_options.reasoning_effort = Some(ThinkingLevel::High);

    test_model.compat = completions_compat(OpenAICompletionsCompat {
        thinking_format: Some(ThinkingFormat::Qwen),
        supports_reasoning_effort: Some(true),
        ..OpenAICompletionsCompat::default()
    });
    assert_eq!(
        payload(&test_model, &context(), &request_options)["reasoning_effort"],
        "high"
    );

    test_model.compat = completions_compat(OpenAICompletionsCompat {
        thinking_format: Some(ThinkingFormat::Zai),
        supports_reasoning_effort: Some(true),
        ..OpenAICompletionsCompat::default()
    });
    assert!(payload(&test_model, &context(), &request_options)
        .get("reasoning_effort")
        .is_none());
}

#[test]
fn openai_completions_stream_entry_points_without_tokio_runtime_return_terminal_errors() {
    let test_model = model("https://example.invalid/v1");
    let event = terminal_setup_error(&test_model, "Tokio runtime is not available", 7);
    let AssistantMessageEvent::Error { error, .. } = event else {
        panic!("terminal event")
    };
    assert_eq!(error.stop_reason, StopReason::Error);
    assert_eq!(
        error.error_message.as_deref(),
        Some("Tokio runtime is not available")
    );
}

#[test]
fn anthropic_cache_control_markers_match_pi() {
    let mut test_model = model("https://example.invalid/v1");
    test_model.provider = "openrouter".to_owned();
    test_model.reasoning = true;
    test_model.compat = completions_compat(OpenAICompletionsCompat {
        cache_control_format: Some(CacheControlFormat::Anthropic),
        ..OpenAICompletionsCompat::default()
    });
    let mut test_context = context();
    test_context.tools = Some(vec![tool("read")]);
    let marker = value(r#"{"type":"ephemeral"}"#);
    let body = payload(&test_model, &test_context, &options());
    assert_eq!(body["messages"][0]["content"][0]["cache_control"], marker);
    assert_eq!(body["tools"][0]["cache_control"], marker);
    let last = body["messages"].as_array().unwrap().last().unwrap();
    assert_eq!(last["content"][0]["cache_control"], marker);

    let mut detected_model = test_model.clone();
    detected_model.id = "anthropic/sonnet-4".to_owned();
    detected_model.compat = None;
    let detected = payload(&detected_model, &test_context, &options());
    assert_eq!(
        detected["messages"][0]["content"][0]["cache_control"],
        marker
    );

    let mut tool_context = context();
    tool_context.tools = test_context.tools.clone();
    tool_context.messages.push(Message::Assistant(turn(
        "openrouter",
        "anthropic/sonnet-4",
        vec![call("call_1", "read")],
    )));
    tool_context
        .messages
        .push(Message::ToolResult(ToolResultMessage {
            tool_call_id: "call_1".to_owned(),
            tool_name: "read".to_owned(),
            content: vec![UserContentBlock::Text(TextContent::new("file contents"))],
            details: None,
            usage: None,
            added_tool_names: None,
            is_error: false,
            timestamp: 3,
        }));
    let tool_payload = payload(&detected_model, &tool_context, &options());
    let user_message = tool_payload["messages"]
        .as_array()
        .unwrap()
        .iter()
        .find(|message| message["role"] == "user")
        .unwrap();
    assert!(user_message["content"].is_string());
    let tool_message = tool_payload["messages"].as_array().unwrap().last().unwrap();
    assert_eq!(tool_message["role"], "tool");
    assert_eq!(tool_message["content"][0]["cache_control"], marker);

    let mut no_cache = options();
    no_cache.stream.cache_retention = Some(CacheRetention::Never);
    let body = payload(&test_model, &test_context, &no_cache);
    assert!(body["messages"][0]["content"].is_string());
    assert!(body["tools"][0].get("cache_control").is_none());

    let mut long = options();
    long.stream.cache_retention = Some(CacheRetention::Long);
    let body = payload(&test_model, &test_context, &long);
    assert_eq!(
        body["tools"][0]["cache_control"],
        value(r#"{"type":"ephemeral","ttl":"1h"}"#)
    );
}

#[test]
fn chunk_edge_cases_match_pi() {
    let test_model = model("https://example.invalid/v1");
    let (mut stream, result) = run(
        &test_model,
        &[
            "null",
            r#"{"id":"chatcmpl-edge","model":"test-model",
                "choices":[{"index":0,"delta":{"content":"ok"},"finish_reason":null}]}"#,
            r#"{"id":"chatcmpl-test","model":"test-model",
                "choices":[{"index":0,"delta":{},"finish_reason":"stop"}]}"#,
        ],
    );
    result.unwrap();
    assert!(stream.output.response_model.is_none());
    assert_eq!(stream.output.response_id.as_deref(), Some("chatcmpl-edge"));
    let reason = end_completions_run(&mut stream.output, stream.has_finish_reason, true, false);
    assert_eq!(reason, Ok(SuccessfulStopReason::Stop));

    for finish in ["null", "\"\""] {
        let chunk = format!(
            "{}{}{}",
            r#"{"id":"chatcmpl-no-finish","choices":[{"index":0,"delta":{"content":"ok"},"finish_reason":"#,
            finish,
            "}]}"
        );
        let (mut stream, result) = run(&test_model, &[&chunk]);
        result.unwrap();
        assert!(stream.output.raw_stop_reason.is_none());
        let error =
            end_completions_run(&mut stream.output, stream.has_finish_reason, true, false)
                .unwrap_err();
        assert_eq!(error.message, "Stream ended without finish_reason");
        let reason =
            end_completions_run(&mut stream.output, stream.has_finish_reason, false, false);
        assert_eq!(reason, Ok(SuccessfulStopReason::Stop));
        assert_eq!(stream.output.stop_reason, StopReason::Stop);
    }
}

#[test]
fn reasoning_details_stream_and_replay_match_pi() {
    let encrypted = r#"{"type":"reasoning.encrypted","id":"call_1","data":"ciphertext"}"#;
    let signed = r#"{"type":"reasoning.text","text":"think","signature":"sig","id":"detail-1","format":"plain","index":0}"#;
    let summary = r#"{"type":"reasoning.summary","summary":"summary","id":"detail-2","format":"plain","index":1}"#;
    let details = format!(
        "{}{signed},{encrypted},{summary}{}",
        r#"{"id":"c","choices":[{"index":0,"delta":{"reasoning_details":["#,
        r#"]},"finish_reason":null}]}"#
    );
    let mut test_model = model("https://example.invalid/v1");
    test_model.reasoning = true;
    test_model.provider = "openrouter".to_owned();
    let (stream, result) = run(
        &test_model,
        &[
            &details,
            r#"{"id":"c","choices":[{"index":0,"delta":{"tool_calls":[{"index":0,"id":"call_1","type":"function","function":{"name":"read","arguments":"{\"path\":\"README.md\"}"}}]},"finish_reason":null}]}"#,
            r#"{"id":"c","choices":[{"index":0,"delta":{},"finish_reason":"tool_calls"}]}"#,
        ],
    );
    result.unwrap();
    assert_eq!(
        stream.output.reasoning_details,
        Some(vec![json(signed), json(encrypted), json(summary)])
    );
    let AssistantContent::ToolCall(call) = &stream.output.content[0] else {
        panic!("expected tool call");
    };
    assert_eq!(call.thought_signature.as_deref(), Some(encrypted));
    assert_eq!(call.arguments, json(r#"{"path":"README.md"}"#));
    assert_eq!(stream.output.stop_reason, StopReason::ToolUse);
}

#[test]
fn thinking_as_text_replay_matches_pi() {
    let mut test_model = model("https://example.invalid/v1");
    test_model.reasoning = true;
    test_model.compat = completions_compat(OpenAICompletionsCompat {
        requires_thinking_as_text: Some(true),
        ..OpenAICompletionsCompat::default()
    });
    let mut assistant = turn(
        "openai",
        "test-model",
        vec![
            AssistantContent::Thinking(ThinkingContent::new("internal reasoning")),
            AssistantContent::Text(TextContent::new("visible answer")),
        ],
    );
    assistant.stop_reason = StopReason::Stop;
    let messages = converted(
        &test_model,
        &conversation(vec![
            user("hello", 1),
            Message::Assistant(assistant),
            user("continue", 3),
        ]),
    );
    assert_eq!(
        messages[1],
        value(
            r#"{"role":"assistant","content":[
                {"type":"text","text":"internal reasoning"},
                {"type":"text","text":"visible answer"}]}"#
        )
    );
}

#[test]
fn usage_and_choice_fallback_match_pi() {
    let test_model = model("https://example.invalid/v1");
    let (stream, result) = run(
        &test_model,
        &[r#"{"id":"usage","choices":[{"index":0,"delta":{},"finish_reason":"stop"}],
            "usage":{"prompt_tokens":100,"completion_tokens":30,
                "prompt_tokens_details":{"cached_tokens":20,"cache_write_tokens":10},
                "completion_tokens_details":{"reasoning_tokens":12}}}"#],
    );
    result.unwrap();
    assert_eq!(stream.output.usage.input, UsageValue::Count(70));
    assert_eq!(stream.output.usage.output, UsageValue::Count(30));
    assert_eq!(stream.output.usage.cache_read, UsageValue::Count(20));
    assert_eq!(stream.output.usage.cache_write, UsageValue::Count(10));
    assert_eq!(stream.output.usage.reasoning, Some(UsageValue::Count(12)));
    assert_eq!(stream.output.usage.total_tokens, UsageValue::Count(130));

    let (stream, result) = run(
        &test_model,
        &[r#"{"id":"usage-choice","choices":[{"index":0,"delta":{},"finish_reason":"stop",
            "usage":{"prompt_tokens":10,"completion_tokens":2,"cached_tokens":4}}]}"#],
    );
    result.unwrap();
    assert_eq!(stream.output.usage.input, UsageValue::Count(6));
    assert_eq!(stream.output.usage.cache_read, UsageValue::Count(4));
    assert_eq!(stream.output.usage.total_tokens, UsageValue::Count(12));
}

#[test]
fn empty_custom_object_on_function_delta_stays_in_function_mode() {
    let test_model = model("https://example.invalid/v1");
    let (stream, result) = run(
        &test_model,
        &[r#"{"id":"chatcmpl-empty-custom","choices":[{"index":0,"delta":{"tool_calls":[{
            "index":0,"id":"call_1","type":"function",
            "function":{"name":"read","arguments":"{\"path\":\"README.md\"}"},
            "custom":{}
        }]},"finish_reason":"tool_calls"}]}"#],
    );
    result.unwrap();
    assert_eq!(stream.events.len(), 3);
    assert!(matches!(
        &stream.events[0],
        AssistantMessageEvent::ToolCallStart { content_index: 0, id, tool_name, .. }
            if id == "call_1" && tool_name == "read"
    ));
    assert!(matches!(
        &stream.events[1],
        AssistantMessageEvent::ToolCallDelta { content_index: 0, delta }
            if delta == "{\"path\":\"README.md\"}"
    ));
    assert!(matches!(
        &stream.events[2],
        AssistantMessageEvent::ToolCallEnd { content_index: 0, tool_call }
            if tool_call.arguments == json(r#"{"path":"README.md"}"#)
    ));
    assert_eq!(stream.output.content.len(), 1);
}

#[test]
fn genuine_custom_tool_delta_still_uses_custom_input_mode() {
    let test_model = model("https://example.invalid/v1");
    let (stream, result) = run(
        &test_model,
        &[r#"{"id":"chatcmpl-custom","choices":[{"index":0,"delta":{"tool_calls":[{
            "index":0,"id":"call_1","type":"custom",
            "custom":{"name":"sample_tool","input":"abc"}
        }]},"finish_reason":"tool_calls"}]}"#],
    );
    result.unwrap();
    let deltas = stream
        .events
        .iter()
        .filter_map(|event| match event {
            AssistantMessageEvent::ToolCallDelta { delta, .. } => Some(delta.as_str()),
            _ => None,
        })
        .collect::<Vec<_>>();
    assert_eq!(value(&deltas.concat()), value(r#"{"input":"abc"}"#));
    assert_eq!(deltas.len(), 2);
    let AssistantContent::ToolCall(call) = &stream.output.content[0] else {
        panic!("tool call");
    };
    assert_eq!(call.arguments, json(r#"{"input":"abc"}"#));
}

#[test]
fn mixed_parallel_stream_accumulation_matches_pi() {
    let mut test_model = model("https://example.invalid/v1");
    test_model.reasoning = true;
    let (stream, result) = run(
        &test_model,
        &[
            r#"{"id":"mix","choices":[{"index":0,"delta":{
                "reasoning_content":"think ","content":"answer ",
                "tool_calls":[
                    {"index":0,"id":"old-id","function":{"name":"one","arguments":"{\"a\":"}},
                    {"index":1,"id":"two-id","function":{"name":"two","arguments":"{\"b\":"}}
                ]},"finish_reason":null}]}"#,
            r#"{"id":"mix","choices":[{"index":0,"delta":{
                "reasoning_content":"more","content":"done",
                "tool_calls":[
                    {"index":0,"id":"new-id","function":{"arguments":"1}"}},
                    {"index":1,"function":{"arguments":"2}"}}
                ]},"finish_reason":null}]}"#,
            r#"{"id":"mix","choices":[{"index":0,"delta":{},"finish_reason":"tool_calls"}]}"#,
        ],
    );
    result.unwrap();
    assert_eq!(stream.output.stop_reason, StopReason::ToolUse);
    let AssistantContent::Text(text) = &stream.output.content[0] else {
        panic!("text");
    };
    let AssistantContent::Thinking(thinking) = &stream.output.content[1] else {
        panic!("thinking");
    };
    let AssistantContent::ToolCall(first) = &stream.output.content[2] else {
        panic!("first tool");
    };
    let AssistantContent::ToolCall(second) = &stream.output.content[3] else {
        panic!("second tool");
    };
    assert_eq!(thinking.thinking, "think more");
    assert_eq!(text.text, "answer done");
    assert_eq!(first.id, "old-id");
    assert_eq!(first.arguments, json(r#"{"a":1}"#));
    assert_eq!(second.arguments, json(r#"{"b":2}"#));
    let told = stream
        .events
        .iter()
        .filter_map(|event| match event {
            AssistantMessageEvent::TextDelta { delta, .. } => Some(delta.as_str()),
            _ => None,
        })
        .collect::<String>();
    assert_eq!(told, "answer done");
}

#[test]
fn unexpected_custom_input_fails() {
    let test_model = model("https://example.invalid/v1");
    let (_, result) = run(
        &test_model,
        &[r#"{"choices":[{"delta":{"tool_calls":[{
            "index":0,"id":"a","function":{"name":"read"},"custom":{"input":"x"}
        }]}}]}"#],
    );
    assert_eq!(
        result.unwrap_err(),
        "custom tool-call state is invalid"
    );
}

#[test]
fn records_may_come_as_arrays() {
    let chunk = decode_chunk(&json(
        r#"{"choices":[["stop",null,{"tool_calls":[[3,"id",{"name":"n"}],[1,2,3,4,5],7]}]]}"#,
    ));
    let choice = &chunk.choices[0];
    assert_eq!(choice.finish_reason.as_deref(), Some("stop"));
    let calls = &choice.delta.as_ref().unwrap().tool_calls;
    assert_eq!(calls.len(), 3);
    assert_eq!(calls[0].index, Some(3));
    assert_eq!(calls[0].id.as_deref(), Some("id"));
    assert_eq!(
        calls[0].function.as_ref().unwrap().name.as_deref(),
        Some("n")
    );
    assert_eq!(calls[1].index, None);
    assert_eq!(calls[2].id, None);
}

#[test]
fn usage_that_is_no_longer_exact_is_measured_elsewhere() {
    let raw = RawUsage {
        prompt_tokens: Some(UsageValue::Fraction("1.5".to_owned())),
        completion_tokens: Some(UsageValue::Count(1)),
        ..RawUsage::default()
    };
    assert_eq!(parse_chunk_usage(&raw), None);
    let test_model = model("https://example.invalid/v1");
    let mut stream = CompletionsStream::new(pending_message(&test_model, 1));
    let mut measured = stream.output.usage.clone();
    measured.total_tokens = UsageValue::Fraction("2.5".to_owned());
    stream
        .process_chunk(
            &test_model,
            &RawChunk {
                usage: Some(raw),
                ..RawChunk::default()
            },
            &measured,
            &vec![],
            &CompleteJson,
        )
        .unwrap();
    assert_eq!(stream.output.usage, measured);
}

#[test]
fn assistant_turn_follows_tool_results_where_it_must() {
    let mut test_model = model("https://example.invalid/v1");
    test_model.compat = completions_compat(OpenAICompletionsCompat {
        requires_assistant_after_tool_result: Some(true),
        requires_tool_result_name: Some(true),
        ..OpenAICompletionsCompat::default()
    });
    let messages = converted(
        &test_model,
        &conversation(vec![
            Message::Assistant(turn("openai", "test-model", vec![call("a", "read")])),
            Message::ToolResult(ToolResultMessage {
                tool_call_id: "a".to_owned(),
                tool_name: "read".to_owned(),
                content: vec![UserContentBlock::Text(TextContent::new("ok"))],
                details: None,
                usage: None,
                added_tool_names: None,
                is_error: false,
                timestamp: 1,
            }),
            user("next", 2),
        ]),
    );
    assert_eq!(
        serde_json::Value::Array(messages),
        value(
            r#"[{"role":"assistant","content":"","tool_calls":[{"type":"function","id":"a","function":{"name":"read","arguments":"{}"}}]},
                {"role":"tool","content":"ok","tool_call_id":"a","name":"read"},
                {"role":"assistant","content":"I have processed the tool results."},
                {"role":"user","content":"next"}]"#
        )
    );
}

#[test]
fn grammar_tools_are_custom_tools() {
    let mut test_model = model("https://example.invalid/v1");
    test_model.compat = completions_compat(OpenAICompletionsCompat {
        supports_open_ai_grammar_tools: Some(true),
        ..OpenAICompletionsCompat::default()
    });
    let mut grammar = tool("query");
    grammar.grammar = Some(ToolGrammar {
        syntax: GrammarSyntax::Regex,
        definition: "[a-z]+".to_owned(),
        input_property: "payload".to_owned(),
    });
    let mut test_context = conversation(vec![Message::Assistant(turn(
        "openai",
        "test-model",
        vec![AssistantContent::ToolCall(ToolCall::new(
            "a",
            "query",
            json(r#"{"payload":"abc"}"#),
        ))],
    ))]);
    test_context.tools = Some(vec![grammar]);
    let body = payload(&test_model, &test_context, &options());
    assert_eq!(
        body["tools"],
        value(
            r#"[{"type":"custom","custom":{"name":"query","description":"query",
                "format":{"type":"grammar","grammar":{"syntax":"regex","definition":"[a-z]+"}}}}]"#
        )
    );
    assert_eq!(
        body["messages"][0]["tool_calls"],
        value(r#"[{"type":"custom","id":"a","custom":{"name":"query","input":"abc"}}]"#)
    );
    if let Message::Assistant(turn) = &mut test_context.messages[0] {
        turn.content = vec![call("a", "query")];
    }
    assert!(convert_messages(&test_model, &test_context, 0).is_err());
}

#[test]
fn empty_tools_are_sent_where_tools_were_used() {
    let test_model = model("https://example.invalid/v1");
    let body = payload(&test_model, &context(), &options());
    assert!(body.get("tools").is_none());
    let mut test_context = conversation(vec![Message::Assistant(turn(
        "openai",
        "test-model",
        vec![call("a", "read")],
    ))]);
    test_context.tools = Some(vec![]);
    let body = payload(&test_model, &test_context, &options());
    assert_eq!(body["tools"], value("[]"));
}

#[test]
fn completions_sessions_are_named_where_the_provider_wants_them() {
    let mut test_model = model("https://example.invalid/v1//");
    let client = ClientHeaders {
        user_agent: "agent".to_owned(),
        platform: vec![],
        copilot: vec![],
    };
    let mut request_options = options();
    request_options.stream.session_id = Some("s".to_owned());
    let names = |test_model: &Model, request_options: &OpenAICompletionsOptions| {
        let request = prepare_request(
            test_model,
            &context(),
            request_options,
            &client,
            None,
            0,
        )
        .unwrap();
        assert_eq!(request.url, "https://example.invalid/v1/chat/completions");
        request
            .headers
            .iter()
            .map(|(name, _)| name.clone())
            .filter(|name| name.contains("session") || name.contains("request"))
            .collect::<Vec<_>>()
    };
    assert!(names(&test_model, &request_options).is_empty());
    test_model.compat = completions_compat(OpenAICompletionsCompat {
        send_session_affinity_headers: Some(true),
        session_affinity_format: Some(SessionAffinityFormat::Openai),
        ..OpenAICompletionsCompat::default()
    });
    assert_eq!(
        names(&test_model, &request_options),
        ["session_id", "x-client-request-id", "x-session-affinity"]
    );
    request_options.stream.cache_retention = Some(CacheRetention::Never);
    assert!(names(&test_model, &request_options).is_empty());
}

#[test]
fn simple_completions_options_are_lowered() {
    let test_model = model("https://example.invalid/v1");
    let mut simple = SimpleStreamOptions::default();
    simple.tool_choice = Some(ToolChoice::Auto);
    simple.thinking_budgets = Some(ThinkingBudgets {
        low: Some(5),
        ..ThinkingBudgets::default()
    });
    let lowered = stream_simple(&test_model, 0, Some(ModelThinkingLevel::Low), &simple);
    assert_eq!(
        lowered.tool_choice,
        Some(OpenAIChatToolChoice::Mode(OpenAIChatToolChoiceMode::Auto))
    );
    assert_eq!(lowered.reasoning_effort, Some(ThinkingLevel::Low));
    assert_eq!(lowered.thinking_budgets.unwrap().low, Some(5));
    assert_eq!(lowered.stream.max_tokens, Some(4_096));
    assert_eq!(open_ai_completions_api(), OpenAICompletionsApi);
}

#[test]
fn completions_runs_end_as_their_turns_do() {
    let test_model = model("https://example.invalid/v1");
    let mut output = pending_message(&test_model, 1);
    let error = end_completions_run(&mut output, true, true, true).unwrap_err();
    assert_eq!(error.message, "Request was aborted");
    output.stop_reason = StopReason::Error;
    let error = end_completions_run(&mut output, true, true, false).unwrap_err();
    assert_eq!(error.message, "Provider returned an error stop reason");
    output.content = vec![call("a", "read")];
    assert_eq!(
        end_completions_run(&mut output, false, false, false),
        Ok(SuccessfulStopReason::ToolUse)
    );
    assert_eq!(map_stop_reason("end").0, StopReason::Stop);
    assert_eq!(map_stop_reason("length").0, StopReason::Length);
    assert_eq!(map_stop_reason("function_call").0, StopReason::ToolUse);
    assert_eq!(
        map_stop_reason("content_filter").1.as_deref(),
        Some("Provider finish_reason: content_filter")
    );
}

#[test]
fn stream_failures_carry_raw_metadata() {
    let error = OpenAiSseError::api(&json(
        r#"{"message":"failed","metadata":{"raw":["a",null,1]}}"#,
    ));
    assert_eq!(
        next_chunk_error(&error).as_deref(),
        Some("failed\na,,1")
    );
    assert_eq!(next_chunk_error(&OpenAiSseError::aborted()), None);
}

#[test]
fn grammar_input_is_sent_in_pieces_that_make_its_json_text() {
    let mut buffer = GrammarToolInputJsonBuffer::default();
    let mut sent = String::new();
    for (input, close) in [("a", false), ("a\"b", false), ("a\"b", false), ("a\"b", true)] {
        if let Some(delta) =
            append_grammar_tool_input_json_delta(&mut buffer, "p", input, close).unwrap()
        {
            sent.push_str(&delta);
        }
    }
    assert_eq!(sent, r#"{"p":"a\"b"}"#);
    assert!(append_grammar_tool_input_json_delta(&mut buffer, "p", "other", true).is_err());
}

#[test]
fn chat_template_members_are_in_the_order_of_their_names() {
    let mut test_model = model("https://example.invalid/v1");
    test_model.reasoning = true;
    test_model.compat = completions_compat(OpenAICompletionsCompat {
        thinking_format: Some(ThinkingFormat::ChatTemplate),
        chat_template_kwargs: Some(vec![
            (
                "b".to_owned(),
                ChatTemplateKwargValue::Text("1".to_owned()),
            ),
            (
                "a".to_owned(),
                ChatTemplateKwargValue::Text("2".to_owned()),
            ),
        ]),
        ..OpenAICompletionsCompat::default()
    });
    let body = payload(&test_model, &context(), &options());
    assert_eq!(
        body["chat_template_kwargs"].to_string(),
        r#"{"a":"2","b":"1"}"#
    );
}
