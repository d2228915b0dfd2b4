//! Conversations and streams of the Responses API.
use openai_api::constrained_sampling::CompleteJson;
use openai_api::hash::short_hash;
use openai_api::json::{Json, JsonNumber};
use openai_api::openai_responses_shared::{
    AllowedToolsMode, AllowedToolsType, ConvertResponsesMessagesOptions,
    ConvertResponsesToolsOptions, DeferredResponsesToolsMode, HostedToolChoiceType,
    McpToolChoiceType, OpenAIResponsesError, ResponseInputContent, ResponseInputItem,
    ResponseServiceTier, ResponseToolChoice, ToolResultOutput,
};
use openai_api::responses_events::decode_output_item;
use openai_api::responses_input::{convert_responses_messages, convert_responses_tools};
use openai_api::responses_stream::{
    apply_message_phase_stop_reason, process_responses_stream, OpenAIResponsesStreamOptions,
    ResponsesStream, ServiceTierRule,
};
use openai_api::text_signature::{encode_text_signature_v1, parse_text_signature};
use openai_api::transform_messages::ResponsesToolCallIds;
use openai_api::types::{
    AssistantContent, AssistantMessage, AssistantMessageEvent, Context, GrammarSyntax,
    ImageContent, Message, Model, ModelInput, StopReason, TextContent, TextSignaturePhase,
    ThinkingContent, Tool, ToolCall, ToolGrammar, ToolResultMessage, UsageValue, UserContent,
    UserContentBlock, UserMessage,
};
use openai_api::wire::ToJson;

const COPILOT_RAW_TOOL_CALL_ID: &str = "call_4VnzVawQXPB9MgYib7CiQFEY|I9b95oN1wD/cHXKTw3PpRkL6KkCtzTJhUxMouMWYwHeTo2j3htzfSk7YPx2vifiIM4g3A8XXyOj8q4Bt6SLUG7gqY1E3ELkrkVQNHglRfUmWj84lqxJY+Puieb3VKyX0FB+83TUzn91cDMF/4gzt990IzqVrc+nIb9RRscRD070Du16q1glydVjWR0SBJsE6TbY/esOjFpqplogQqrajm1eI++f3eLi73R6q7hVusY0QbeFySVxABCjhN0lXB04caBe1rzHjYzul6MAXj7uq+0r17VLq+yrtyYhN12wkmFqHeqTyEei6EFPbMy24Nc+IbJlkP0OCg02W+gOnyBFcbi2ctvJFSOhSjt1CqBdqCnnhwUqXjbWiT0wh3DmLScRgTHmGkaI+oAcQQjfic65nxj+TnEkReA==";

fn json(text: &str) -> Json {
    from_value(&serde_json::from_str(text).unwrap())
}

fn from_value(v: &serde_json::Value) -> Json {
    match v {
        serde_json::Value::Null => Json::Null,
        serde_json::Value::Bool(b) => Json::Bool(*b),
        serde_json::Value::Number(n) => {
            if let Some(n) = n.as_u64() {
                Json::Number(JsonNumber::Unsigned(n))
            } else if let Some(n) = n.as_i64() {
                Json::Number(JsonNumber::Negative(n))
            } else {
                Json::Number(JsonNumber::Decimal(n.to_string()))
            }
        }
        serde_json::Value::String(s) => Json::Str(s.clone()),
        serde_json::Value::Array(items) => Json::Array(items.iter().map(from_value).collect()),
        serde_json::Value::Object(fields) => Json::Object(
            fields
                .iter()
                .map(|(key, v)| (key.clone(), from_value(v)))
                .collect(),
        ),
    }
}

fn model(api: &str, provider: &str, id: &str) -> Model {
    Model {
        id: id.to_owned(),
        name: id.to_owned(),
        api: api.to_owned(),
        provider: provider.to_owned(),
        base_url: "https://example.invalid/v1".to_owned(),
        reasoning: true,
        thinking_level_map: None,
        input: vec![ModelInput::Text],
        context_window: 400_000,
        max_tokens: 128_000,
        sampling_params: None,
        headers: None,
        compat: None,
    }
}

fn output(model: &Model) -> AssistantMessage {
    AssistantMessage::pending(&model.api, &model.provider, &model.id, 1)
}

fn user(text: &str, timestamp: i64) -> Message {
    Message::User(UserMessage {
        content: UserContent::Text(text.to_owned()),
        timestamp,
    })
}

fn assistant(
    api: &str,
    provider: &str,
    model: &str,
    content: Vec<AssistantContent>,
    timestamp: i64,
) -> Message {
    let mut message = AssistantMessage::pending(api, provider, model, timestamp);
    message.content = content;
    message.stop_reason = StopReason::ToolUse;
    Message::Assistant(message)
}

fn tool_result(id: &str, name: &str, content: Vec<UserContentBlock>, timestamp: i64) -> Message {
    Message::ToolResult(ToolResultMessage {
        tool_call_id: id.to_owned(),
        tool_name: name.to_owned(),
        content,
        details: None,
        usage: None,
        added_tool_names: None,
        is_error: false,
        timestamp,
    })
}

fn allowed(providers: &[&str]) -> ResponsesToolCallIds {
    ResponsesToolCallIds {
        allowed_tool_call_providers: providers.iter().map(|name| (*name).to_owned()).collect(),
    }
}

fn allowed_providers() -> ResponsesToolCallIds {
    allowed(&["openai", "openai-codex", "opencode"])
}

fn context(messages: Vec<Message>) -> Context {
    Context {
        system_prompt: None,
        messages,
        tools: None,
    }
}

fn message_options() -> ConvertResponsesMessagesOptions {
    ConvertResponsesMessagesOptions::default()
}

fn process_with(
    events: Vec<Json>,
    message: &mut AssistantMessage,
    options: &OpenAIResponsesStreamOptions,
) -> (Result<(), OpenAIResponsesError>, ResponsesStream) {
    let events = events.into_iter().map(Ok).collect::<Vec<_>>();
    let mut stream = ResponsesStream::new(message.clone());
    let result = process_responses_stream(&events, &mut stream, options, &CompleteJson);
    *message = stream.output.clone();
    (result, stream)
}

fn process(
    events: Vec<Json>,
    message: &mut AssistantMessage,
) -> (Result<(), OpenAIResponsesError>, Vec<AssistantMessageEvent>) {
    let (result, stream) =
        process_with(events, message, &OpenAIResponsesStreamOptions::default());
    (result, stream.events)
}

#[test]
fn ports_empty_tool_result_placeholder() {
    let target = model("openai-responses", "openai", "gpt-4o-mini");
    let call = ToolCall::new("tool-1", "bash", json(r#"{"command":"true"}"#));
    let context = context(vec![
        user("Run the command", 1),
        assistant(
            "openai-responses",
            "openai",
            "gpt-4o-mini",
            vec![AssistantContent::ToolCall(call)],
            2,
        ),
        tool_result(
            "tool-1",
            "bash",
            vec![UserContentBlock::Text(TextContent::new(""))],
            3,
        ),
    ]);
    let converted = convert_responses_messages(
        &target,
        &context,
        &allowed_providers(),
        &message_options(),
        0,
    )
    .unwrap();
    let output = converted
        .iter()
        .find_map(|item| match item {
            ResponseInputItem::ToolCallOutput(output) => Some(&output.output),
            _ => None,
        })
        .expect("function call output");
    assert_eq!(
        output,
        &ToolResultOutput::Text("(no tool output)".to_owned())
    );
}

#[test]
fn response_tool_choice_preserves_null_and_discriminants() {
    let choice = ResponseToolChoice::Mcp {
        kind: McpToolChoiceType::Mcp,
        server_label: "server".to_owned(),
        name: Some(None),
    };
    assert_eq!(
        choice.to_json(),
        json(r#"{"type":"mcp","server_label":"server","name":null}"#)
    );
    assert_eq!(
        ResponseToolChoice::Hosted {
            kind: HostedToolChoiceType::WebSearchPreview2025_03_11,
        }
        .to_json(),
        json(r#"{"type":"web_search_preview_2025_03_11"}"#)
    );
    assert_eq!(
        ResponseToolChoice::Allowed {
            kind: AllowedToolsType::AllowedTools,
            mode: AllowedToolsMode::Auto,
            tools: vec![json(r#"{"type":"function","name":"a"}"#)],
        }
        .to_json(),
        json(
            r#"{"type":"allowed_tools","mode":"auto","tools":[{"type":"function","name":"a"}]}"#
        )
    );
}

#[test]
fn pins_reasoning_replay_shapes_and_terminal_backfill() {
    let target = model("openai-responses", "openai", "gpt-5.4");
    let mut thinking = ThinkingContent::new("summary");
    thinking.thinking_signature = Some(
        r#"{"type":"reasoning","id":"rs_replay","summary":[],"encrypted_content":"encrypted-replay"}"#
            .to_owned(),
    );
    let mut text = TextContent::new("answer");
    text.text_signature = Some(r#"{"v":1,"id":"msg_replay","phase":"final_answer"}"#.to_owned());
    let context = context(vec![assistant(
        "openai-responses",
        "openai",
        "gpt-5.4",
        vec![
            AssistantContent::Thinking(thinking),
            AssistantContent::Text(text),
        ],
        1,
    )]);
    let converted = convert_responses_messages(
        &target,
        &context,
        &allowed_providers(),
        &message_options(),
        0,
    )
    .unwrap();
    let Some(ResponseInputItem::Reasoning(value)) = converted.first() else {
        panic!("reasoning")
    };
    assert_eq!(value.text("id").as_deref(), Some("rs_replay"));
    assert_eq!(
        value.text("encrypted_content").as_deref(),
        Some("encrypted-replay")
    );
    assert!(matches!(
        converted.get(1),
        Some(ResponseInputItem::OutputMessage(message))
            if message.id == "msg_replay" && message.phase == Some(TextSignaturePhase::FinalAnswer)
    ));

    let events = vec![
        json(
            r#"{"type":"response.output_item.added","output_index":0,
                "item":{"type":"reasoning","id":"rs_backfill","summary":[]}}"#,
        ),
        json(
            r#"{"type":"response.output_item.done","output_index":0,
                "item":{"type":"reasoning","id":"rs_backfill","summary":[{"text":"summary"}]}}"#,
        ),
        json(
            r#"{"type":"response.completed",
                "response":{
                    "id":"resp_backfill","status":"completed",
                    "output":[{
                        "type":"reasoning","id":"rs_backfill","summary":[],
                        "encrypted_content":"encrypted-terminal"
                    }]
                }}"#,
        ),
    ];
    let mut message = output(&target);
    let (result, _) = process(events, &mut message);
    result.unwrap();
    let signature = match message.content.first() {
        Some(AssistantContent::Thinking(thinking)) => {
            thinking.thinking_signature.as_deref().expect("signature")
        }
        _ => panic!("expected thinking block"),
    };
    let signature = json(signature);
    assert_eq!(
        signature.text("encrypted_content").as_deref(),
        Some("encrypted-terminal")
    );
}

#[test]
fn service_tier_is_the_one_served_or_the_one_asked_for() {
    let target = model("openai-responses", "openai", "gpt-5.4");
    let mut options = OpenAIResponsesStreamOptions::default();
    options.service_tier = Some(Some(ResponseServiceTier::Priority));
    for (tier, expected) in [
        (r#","service_tier":"flex""#, ResponseServiceTier::Flex),
        (r#","service_tier":null"#, ResponseServiceTier::Priority),
        ("", ResponseServiceTier::Priority),
    ] {
        let mut message = output(&target);
        let (result, stream) = process_with(
            vec![json(&format!(
                "{}{}{}",
                r#"{"type":"response.completed","response":{"id":"resp_tier","status":"completed""#,
                tier,
                "}}"
            ))],
            &mut message,
            &options,
        );
        result.unwrap();
        assert_eq!(stream.service_tier, Some(Some(expected)));
    }
}

#[test]
fn service_tier_callbacks_preserve_null_presence() {
    let target = model("openai-responses", "openai", "gpt-5.4");
    let mut options = OpenAIResponsesStreamOptions::default();
    options.service_tier = Some(Some(ResponseServiceTier::Priority));
    options.service_tier_rule = ServiceTierRule::Said;
    let resolve = |response: Option<Option<ResponseServiceTier>>,
                   request: &Option<Option<ResponseServiceTier>>|
     -> Option<Option<ResponseServiceTier>> {
        assert_eq!(response, Some(None));
        assert_eq!(*request, Some(Some(ResponseServiceTier::Priority)));
        Some(None)
    };
    let mut message = output(&target);
    let (result, stream) = process_with(
        vec![json(
            r#"{"type":"response.completed",
                "response":{"id":"resp_tier","status":"completed","service_tier":null}}"#,
        )],
        &mut message,
        &options,
    );
    result.unwrap();
    assert_eq!(
        resolve(stream.service_tier, &options.service_tier),
        Some(None)
    );
}

#[test]
fn ports_foreign_tool_call_id_hashing() {
    let target = model("openai-codex-responses", "openai-codex", "gpt-5.5");
    let call = ToolCall::new(
        COPILOT_RAW_TOOL_CALL_ID,
        "edit",
        json(r#"{"path":"src/styles/app.css"}"#),
    );
    let mut context = context(vec![
        user("Use the tool.", 1),
        assistant(
            "openai-responses",
            "github-copilot",
            "gpt-5.5",
            vec![AssistantContent::ToolCall(call)],
            2,
        ),
        tool_result(
            COPILOT_RAW_TOOL_CALL_ID,
            "edit",
            vec![UserContentBlock::Text(TextContent::new("ok"))],
            3,
        ),
    ]);
    context.system_prompt = Some("You are concise.".to_owned());
    let converted = convert_responses_messages(
        &target,
        &context,
        &allowed_providers(),
        &message_options(),
        0,
    )
    .unwrap();
    let item_id = converted
        .iter()
        .find_map(|item| match item {
            ResponseInputItem::FunctionCall(call) => call.id.as_deref(),
            _ => None,
        })
        .expect("function-call item id");
    let raw_item_id = COPILOT_RAW_TOOL_CALL_ID
        .split('|')
        .nth(1)
        .expect("raw item id");
    assert_eq!(item_id, format!("fc_{}", short_hash(raw_item_id)));
    assert!(item_id.len() <= 64);
    assert!(item_id
        .bytes()
        .all(|byte| byte.is_ascii_alphanumeric() || byte == b'_'));
}

fn message_ids(items: &[ResponseInputItem]) -> Vec<&str> {
    items
        .iter()
        .filter_map(|item| match item {
            ResponseInputItem::OutputMessage(message) => Some(message.id.as_str()),
            _ => None,
        })
        .collect()
}

#[test]
fn ports_unique_fallback_message_ids() {
    let target = model("openai-codex-responses", "openai-codex", "gpt-5.5");
    let mut context = context(vec![
        user("hello", 1),
        assistant(
            "anthropic-messages",
            "anthropic",
            "opus-4-8",
            vec![
                AssistantContent::Thinking(ThinkingContent::new("private reasoning")),
                AssistantContent::Text(TextContent::new("visible answer")),
            ],
            2,
        ),
    ]);
    context.system_prompt = Some("You are concise.".to_owned());
    let converted = convert_responses_messages(
        &target,
        &context,
        &allowed_providers(),
        &message_options(),
        0,
    )
    .unwrap();
    assert_eq!(message_ids(&converted), ["msg_pi_1", "msg_pi_1_1"]);
}

#[test]
fn empty_user_blocks_do_not_advance_fallback_message_id_index() {
    let target = model("openai-codex-responses", "openai-codex", "gpt-5.5");
    let context = context(vec![
        Message::User(UserMessage {
            content: UserContent::Blocks(Vec::new()),
            timestamp: 1,
        }),
        assistant(
            "anthropic-messages",
            "anthropic",
            "opus-4-8",
            vec![AssistantContent::Text(TextContent::new("visible answer"))],
            2,
        ),
    ]);
    let converted = convert_responses_messages(
        &target,
        &context,
        &allowed_providers(),
        &message_options(),
        0,
    )
    .unwrap();
    assert_eq!(message_ids(&converted), ["msg_pi_0"]);
}

fn function_call_events(namespace: &str) -> Vec<Json> {
    vec![
        json(
            r#"{"type":"response.output_item.added","output_index":0,
                "item":{"type":"function_call","id":"fc_test","call_id":"call_test","name":"lookup","arguments":""}}"#,
        ),
        json(&format!(
            "{}{}{}",
            r#"{"type":"response.output_item.done","output_index":0,
                "item":{"type":"function_call","id":"fc_test","call_id":"call_test","name":"lookup","arguments":"{\"value\":\"hello\"}","namespace":"#,
            namespace,
            "}}"
        )),
        json(
            r#"{"type":"response.completed","response":{"id":"resp_test","status":"completed"}}"#,
        ),
    ]
}

fn custom_call_events() -> Vec<Json> {
    vec![
        json(
            r#"{"type":"response.output_item.added","output_index":0,
                "item":{"type":"custom_tool_call","id":"ctc_test","call_id":"call_test","name":"query","input":""}}"#,
        ),
        json(
            r#"{"type":"response.output_item.done","output_index":0,
                "item":{"type":"custom_tool_call","id":"ctc_test","call_id":"call_test","name":"query","input":"hello","namespace":"dynamic_tools"}}"#,
        ),
        json(
            r#"{"type":"response.completed","response":{"id":"resp_test","status":"completed"}}"#,
        ),
    ]
}

fn first_tool_call(output: &AssistantMessage) -> &ToolCall {
    match output.content.first() {
        Some(AssistantContent::ToolCall(call)) => call,
        _ => panic!("expected tool call"),
    }
}

#[test]
fn ports_function_namespace_round_trip() {
    let target = model("openai-responses", "openai", "gpt-5.4");
    let mut message = output(&target);
    let (result, _) = process(function_call_events("\"dynamic_tools\""), &mut message);
    result.unwrap();
    assert_eq!(
        first_tool_call(&message),
        &ToolCall {
            id: "call_test|fc_test".to_owned(),
            name: "lookup".to_owned(),
            arguments: json(r#"{"value":"hello"}"#),
            thought_signature: None,
            namespace: Some("dynamic_tools".to_owned()),
        }
    );
    let replay = convert_responses_messages(
        &target,
        &context(vec![Message::Assistant(message)]),
        &allowed(&["openai"]),
        &message_options(),
        0,
    )
    .unwrap();
    let replay = replay
        .iter()
        .find_map(|item| match item {
            ResponseInputItem::FunctionCall(call) => Some(call),
            _ => None,
        })
        .expect("replayed function call");
    assert_eq!(replay.namespace.as_deref(), Some("dynamic_tools"));
    assert_eq!(replay.arguments, "{\"value\":\"hello\"}");
}

#[test]
fn ports_custom_tool_namespace_round_trip() {
    let target = model("openai-responses", "openai", "gpt-5.4");
    let grammar = vec![("query".to_owned(), "input".to_owned())];
    let mut message = output(&target);
    let mut options = OpenAIResponsesStreamOptions::default();
    options.grammar_tool_input_properties = Some(grammar.clone());
    let (result, _) = process_with(custom_call_events(), &mut message, &options);
    result.unwrap();
    let call = first_tool_call(&message);
    assert_eq!(call.namespace.as_deref(), Some("dynamic_tools"));
    assert_eq!(call.arguments.text("input").as_deref(), Some("hello"));

    let mut options = message_options();
    options.grammar_tool_input_properties = Some(grammar);
    let replay = convert_responses_messages(
        &target,
        &context(vec![Message::Assistant(message)]),
        &allowed(&["openai"]),
        &options,
        0,
    )
    .unwrap();
    let replay = replay
        .iter()
        .find_map(|item| match item {
            ResponseInputItem::CustomToolCall(call) => Some(call),
            _ => None,
        })
        .expect("replayed custom tool call");
    assert_eq!(replay.namespace.as_deref(), Some("dynamic_tools"));
    assert_eq!(replay.input, "hello");
}

#[test]
fn ports_namespace_drop_for_unreplayable_targets() {
    let source_model = model("openai-responses", "openai", "gpt-5.4");
    let mut source = output(&source_model);
    let mut function = ToolCall::new(
        "call_function|fc_test",
        "lookup",
        json(r#"{"value":"hello"}"#),
    );
    function.namespace = Some("dynamic_tools".to_owned());
    let mut custom = ToolCall::new(
        "call_custom|ctc_test",
        "query",
        json(r#"{"input":"hello"}"#),
    );
    custom.namespace = Some("dynamic_tools".to_owned());
    source.content = vec![
        AssistantContent::ToolCall(function),
        AssistantContent::ToolCall(custom),
    ];
    let targets = [
        model("openai-responses", "openai", "gpt-5.2"),
        model("openai-responses", "azure-openai-responses", "gpt-5.4"),
        model(
            "openai-codex-responses",
            "openai-codex",
            "gpt-5.3-codex-spark",
        ),
    ];
    for target in targets {
        let mut options = message_options();
        options.grammar_tool_input_properties =
            Some(vec![("query".to_owned(), "input".to_owned())]);
        let replay = convert_responses_messages(
            &target,
            &context(vec![Message::Assistant(source.clone())]),
            &allowed(&["openai"]),
            &options,
            0,
        )
        .unwrap();
        for item in replay {
            match item {
                ResponseInputItem::FunctionCall(call) => assert_eq!(call.namespace, None),
                ResponseInputItem::CustomToolCall(call) => assert_eq!(call.namespace, None),
                _ => {}
            }
        }
    }
}

#[test]
fn ports_absent_namespace_for_ordinary_function_calls() {
    let target = model("openai-responses", "openai", "gpt-5.4");
    let mut source = output(&target);
    source.content.push(AssistantContent::ToolCall(ToolCall::new(
        "call_test|fc_test",
        "lookup",
        json(r#"{"value":"hello"}"#),
    )));
    let replay = convert_responses_messages(
        &target,
        &context(vec![Message::Assistant(source)]),
        &allowed(&["openai"]),
        &message_options(),
        0,
    )
    .unwrap();
    let call = replay
        .iter()
        .find_map(|item| match item {
            ResponseInputItem::FunctionCall(call) => Some(call),
            _ => None,
        })
        .expect("function call");
    assert_eq!(call.namespace, None);
    assert_eq!(call.id.as_deref(), Some("fc_test"));
    assert_eq!(call.call_id, "call_test");
}

#[test]
fn ports_partial_json_cleanup() {
    let arguments = r#"{\"path\":\"README.md\",\"content\":\"updated\"}"#;
    let target = model("openai-responses", "openai", "gpt-5-mini");
    let events = vec![
        json(
            r#"{"type":"response.output_item.added","output_index":0,
                "item":{"type":"function_call","id":"fc_test","call_id":"call_test","name":"edit","arguments":""}}"#,
        ),
        json(
            r#"{"type":"response.function_call_arguments.delta","output_index":0,"delta":"{\"path\":\"README.md\""}"#,
        ),
        json(
            r#"{"type":"response.function_call_arguments.delta","output_index":0,"delta":",\"content\":\"updated\"}"}"#,
        ),
        json(&format!(
            "{}{}{}",
            r#"{"type":"response.function_call_arguments.done","output_index":0,"arguments":""#,
            arguments,
            "\"}"
        )),
        json(&format!(
            "{}{}{}",
            r#"{"type":"response.output_item.done","output_index":0,
                "item":{"type":"function_call","id":"fc_test","call_id":"call_test","name":"edit","arguments":""#,
            arguments,
            "\"}}"
        )),
        json(
            r#"{"type":"response.completed","response":{"id":"resp_test","status":"completed"}}"#,
        ),
    ];
    let mut message = output(&target);
    let (result, emitted) = process(events, &mut message);
    result.unwrap();
    let persisted = first_tool_call(&message);
    assert_eq!(
        persisted.arguments,
        json(r#"{"path":"README.md","content":"updated"}"#)
    );
    let ended = emitted
        .iter()
        .find_map(|event| match event {
            AssistantMessageEvent::ToolCallEnd { tool_call, .. } => Some(tool_call),
            _ => None,
        })
        .expect("toolcall_end event");
    assert_eq!(ended, persisted);
}

fn early_eof_events() -> Vec<Json> {
    vec![
        json(r#"{"type":"response.created","response":{"id":"resp_early_eof"}}"#),
        json(
            r#"{"type":"response.output_item.added","output_index":0,
                "item":{"type":"reasoning","id":"rs_early_eof","summary":[]}}"#,
        ),
        json(
            r#"{"type":"response.reasoning_text.delta","output_index":0,
                "delta":"partial reasoning before the stream ends"}"#,
        ),
    ]
}

fn incomplete_event(reason: &str) -> Json {
    json(&format!(
        "{}{}{}",
        r#"{"type":"response.incomplete",
            "response":{
                "id":"resp_incomplete","status":"incomplete",
                "incomplete_details":{"reason":""#,
        reason,
        r#""},
                "usage":{
                    "input_tokens":30,"output_tokens":12,"total_tokens":42,
                    "input_tokens_details":{"cached_tokens":5}
                }
            }}"#
    ))
}

#[test]
fn ports_rejection_of_early_eof() {
    let target = model("openai-responses", "openai", "gpt-5-mini");
    let mut message = output(&target);
    let (result, _) = process(early_eof_events(), &mut message);
    assert_eq!(
        result.unwrap_err().message(),
        "OpenAI Responses stream ended before a terminal response event"
    );
}

#[test]
fn ports_message_phase_tracking() {
    for (added, done, expected) in [
        (
            "commentary",
            "commentary",
            [StopReason::Pending, StopReason::Pending],
        ),
        (
            "final_answer",
            "final_answer",
            [StopReason::Stop, StopReason::Stop],
        ),
        (
            "commentary",
            "final_answer",
            [StopReason::Pending, StopReason::Stop],
        ),
    ] {
        let target = model("openai-responses", "openai", "gpt-5-mini");
        let mut message = output(&target);
        let item = |phase: &str| {
            json(&format!(
                "{}{}{}",
                r#"{"type":"message","id":"msg_phase","content":[],"phase":""#, phase, "\"}"
            ))
        };
        let added = decode_output_item(&item(added)).unwrap();
        apply_message_phase_stop_reason(&added, &mut message);
        assert_eq!(message.stop_reason, expected[0]);
        let done = decode_output_item(&item(done)).unwrap();
        apply_message_phase_stop_reason(&done, &mut message);
        assert_eq!(message.stop_reason, expected[1]);
    }
}

#[test]
fn ports_incomplete_terminal_overrides_final_answer_phase() {
    let target = model("openai-responses", "openai", "gpt-5-mini");
    let mut message = output(&target);
    let events = vec![
        json(
            r#"{"type":"response.output_item.added","output_index":0,
                "item":{"type":"message","id":"msg_phase","content":[],"phase":"final_answer"}}"#,
        ),
        json(
            r#"{"type":"response.output_item.done","output_index":0,
                "item":{"type":"message","id":"msg_phase","content":[{"type":"output_text","text":"answer"}],"phase":"final_answer"}}"#,
        ),
        incomplete_event("max_output_tokens"),
    ];
    let (result, _) = process(events, &mut message);
    result.unwrap();
    assert_eq!(message.stop_reason, StopReason::Length);
}

#[test]
fn ports_completed_terminal_usage() {
    let target = model("openai-responses", "openai", "gpt-5-mini");
    let mut message = output(&target);
    let events = vec![json(
        r#"{"type":"response.completed",
            "response":{
                "id":"resp_completed","status":"completed",
                "usage":{
                    "input_tokens":20,"output_tokens":7,"total_tokens":27,
                    "input_tokens_details":{"cached_tokens":2,"cache_write_tokens":3}
                }
            }}"#,
    )];
    let (result, _) = process(events, &mut message);
    result.unwrap();
    assert_eq!(message.response_id.as_deref(), Some("resp_completed"));
    assert_eq!(message.stop_reason, StopReason::Stop);
    assert_eq!(message.raw_stop_reason.as_deref(), Some("completed"));
    assert_eq!(message.usage.input, UsageValue::Count(15));
    assert_eq!(message.usage.output, UsageValue::Count(7));
    assert_eq!(message.usage.cache_read, UsageValue::Count(2));
    assert_eq!(message.usage.cache_write, UsageValue::Count(3));
    assert_eq!(message.usage.total_tokens, UsageValue::Count(27));
}

#[test]
fn ports_incomplete_terminal_as_length() {
    let target = model("openai-responses", "openai", "gpt-5-mini");
    let mut message = output(&target);
    let (result, _) = process(vec![incomplete_event("max_output_tokens")], &mut message);
    result.unwrap();
    assert_eq!(message.response_id.as_deref(), Some("resp_incomplete"));
    assert_eq!(message.stop_reason, StopReason::Length);
    assert_eq!(
        message.raw_stop_reason.as_deref(),
        Some("incomplete.max_output_tokens")
    );
    assert_eq!(message.usage.input, UsageValue::Count(25));
    assert_eq!(message.usage.output, UsageValue::Count(12));
    assert_eq!(message.usage.cache_read, UsageValue::Count(5));
    assert_eq!(message.usage.cache_write, UsageValue::Count(0));
    assert_eq!(message.usage.total_tokens, UsageValue::Count(42));
}

#[test]
fn ports_content_filtered_incomplete_as_error() {
    let target = model("openai-responses", "openai", "gpt-5-mini");
    let mut message = output(&target);
    let (result, _) = process(vec![incomplete_event("content_filter")], &mut message);
    result.unwrap();
    assert_eq!(message.stop_reason, StopReason::Error);
    assert_eq!(
        message.raw_stop_reason.as_deref(),
        Some("incomplete.content_filter")
    );
    assert_eq!(
        message.error_message.as_deref(),
        Some("Response incomplete: content_filter")
    );
}

#[test]
fn ports_unknown_incomplete_reason_as_error() {
    let target = model("openai-responses", "openai", "gpt-5-mini");
    let mut message = output(&target);
    let (result, _) = process(vec![incomplete_event("max_time_limit")], &mut message);
    result.unwrap();
    assert_eq!(message.stop_reason, StopReason::Error);
    assert_eq!(
        message.raw_stop_reason.as_deref(),
        Some("incomplete.max_time_limit")
    );
    assert_eq!(
        message.error_message.as_deref(),
        Some("Response incomplete: max_time_limit")
    );
}

#[test]
fn ports_failed_terminal_provider_error() {
    let target = model("openai-responses", "openai", "gpt-5-mini");
    let mut message = output(&target);
    let events = vec![json(
        r#"{"type":"response.failed",
            "response":{
                "id":"resp_failed","status":"failed",
                "error":{"code":"server_error","message":"boom"}
            }}"#,
    )];
    let (result, _) = process(events, &mut message);
    assert_eq!(result.unwrap_err().message(), "server_error: boom");
    assert_eq!(message.raw_stop_reason.as_deref(), Some("failed"));
}

#[test]
fn pins_unknown_event_forward_compatibility() {
    let target = model("openai-responses", "openai", "gpt-5-mini");
    let mut message = output(&target);
    let events = vec![
        json(r#"{"type":"response.future_event","unexpected":{"shape":true}}"#),
        json(
            r#"{"type":"response.completed","response":{"id":"resp_test","status":"completed"}}"#,
        ),
    ];
    let (result, emitted) = process(events, &mut message);
    result.unwrap();
    assert!(emitted.is_empty());
    assert_eq!(message.stop_reason, StopReason::Stop);
}

#[test]
fn pins_live_tool_result_image_test_conversion_hermetically() {
    for (api, provider, id) in [
        ("openai-responses", "openai", "gpt-5-mini"),
        (
            "azure-openai-responses",
            "azure-openai-responses",
            "gpt-4o-mini",
        ),
        ("openai-responses", "github-copilot", "gpt-5-mini"),
        ("openai-codex-responses", "openai-codex", "gpt-5.5"),
    ] {
        let mut target = model(api, provider, id);
        target.input.push(ModelInput::Image);
        let call = ToolCall::new(
            "call_test|fc_test",
            "get_circle_with_description",
            json("{}"),
        );
        let context = context(vec![
            user("Call the image tool", 1),
            assistant(api, provider, id, vec![AssistantContent::ToolCall(call)], 2),
            tool_result(
                "call_test|fc_test",
                "get_circle_with_description",
                vec![
                    UserContentBlock::Text(TextContent::new(
                        "A red circle with a diameter of 100 pixels.",
                    )),
                    UserContentBlock::Image(ImageContent::new("iVBORw0KGgo=", "image/png")),
                ],
                3,
            ),
        ]);
        let converted = convert_responses_messages(
            &target,
            &context,
            &allowed_providers(),
            &message_options(),
            0,
        )
        .unwrap();
        let output_index = converted
            .iter()
            .position(|item| matches!(item, ResponseInputItem::ToolCallOutput(_)))
            .expect("function-call output");
        let output = match &converted[output_index] {
            ResponseInputItem::ToolCallOutput(output) => &output.output,
            _ => unreachable!(),
        };
        let ToolResultOutput::Content(content) = output else {
            panic!("expected content-array output")
        };
        assert!(
            matches!(content.first(), Some(ResponseInputContent::InputText { text }) if text.contains("red circle"))
        );
        assert!(
            matches!(content.get(1), Some(ResponseInputContent::InputImage { image_url, .. }) if image_url.starts_with("data:image/png;base64,"))
        );
        assert!(!converted[output_index + 1..]
            .iter()
            .any(|item| matches!(item, ResponseInputItem::User(_))));
    }
}

fn lookup_tool() -> Tool {
    Tool {
        name: "lookup".to_owned(),
        description: "Looks up".to_owned(),
        parameters: json(r#"{"type":"object"}"#),
        strict_parameters: json(r#"{"type":"object","additionalProperties":false}"#),
        strict: None,
        grammar: None,
    }
}

#[test]
fn deferred_tools_are_added_once() {
    let target = model("openai-responses", "openai", "gpt-5.4");
    let call = |id: &str| AssistantContent::ToolCall(ToolCall::new(id, "find", json("{}")));
    let found = |id: &str| {
        Message::ToolResult(ToolResultMessage {
            tool_call_id: id.to_owned(),
            tool_name: "find".to_owned(),
            content: vec![],
            details: None,
            usage: None,
            added_tool_names: Some(vec!["lookup".to_owned(), "unknown".to_owned()]),
            is_error: false,
            timestamp: 1,
        })
    };
    let turn = |id: &str| assistant("openai-responses", "openai", "gpt-5.4", vec![call(id)], 1);
    let context = context(vec![turn("a|fc_a"), found("a|fc_a"), turn("b|fc_b"), found("b|fc_b")]);
    let mut options = message_options();
    options.deferred_tools = Some(vec![("lookup".to_owned(), lookup_tool())]);
    options.deferred_tools_mode = Some(DeferredResponsesToolsMode::ToolSearch);
    let items = convert_responses_messages(&target, &context, &allowed_providers(), &options, 0)
        .unwrap();
    let id = format!("pi_tool_load_{}", short_hash("a|fc_a:lookup"));
    assert_eq!(
        items.to_json(),
        json(&format!(
            "{}{}{}{}{}",
            r#"[{"type":"function_call","id":"fc_a","call_id":"a","name":"find","arguments":"{}"},
                {"type":"function_call_output","call_id":"a","output":"(no tool output)"},
                {"type":"tool_search_call","call_id":""#,
            id,
            r#"","execution":"client","status":"completed","arguments":{"query":"lookup","limit":1}},
                {"type":"tool_search_output","call_id":""#,
            id,
            r#"","execution":"client","status":"completed","tools":[{"type":"function","name":"lookup","description":"Looks up","parameters":{"type":"object"},"strict":false,"defer_loading":true}]},
                {"type":"function_call","id":"fc_b","call_id":"b","name":"find","arguments":"{}"},
                {"type":"function_call_output","call_id":"b","output":"(no tool output)"}]"#
        ))
    );
    options.deferred_tools_mode = Some(DeferredResponsesToolsMode::AdditionalTools);
    let items = convert_responses_messages(&target, &context, &allowed_providers(), &options, 0)
        .unwrap();
    assert_eq!(items.len(), 5);
    assert_eq!(
        items[2].to_json(),
        json(
            r#"{"type":"additional_tools","role":"developer","tools":[{"type":"function","name":"lookup","description":"Looks up","parameters":{"type":"object"},"strict":false}]}"#
        )
    );
}

#[test]
fn tools_are_converted_by_grammar_and_strictness() {
    let mut grammar = lookup_tool();
    grammar.grammar = Some(ToolGrammar {
        syntax: GrammarSyntax::Lark,
        definition: "start: /a/".to_owned(),
        input_property: "payload".to_owned(),
    });
    let mut strict = lookup_tool();
    strict.strict = Some(true);
    let mut options = ConvertResponsesToolsOptions::default();
    options.supports_open_ai_grammar_tools = Some(true);
    options.strict = Some(None);
    let tools = convert_responses_tools(&vec![lookup_tool(), strict, grammar], &options);
    assert_eq!(
        tools.to_json(),
        json(
            r#"[{"type":"function","name":"lookup","description":"Looks up","parameters":{"type":"object"},"strict":null},
                {"type":"function","name":"lookup","description":"Looks up","parameters":{"type":"object","additionalProperties":false},"strict":true},
                {"type":"custom","name":"lookup","description":"Looks up","format":{"type":"grammar","syntax":"lark","definition":"start: /a/"}}]"#
        )
    );
    options.supports_strict_mode = Some(false);
    let tools = convert_responses_tools(&vec![lookup_tool()], &options);
    assert_eq!(
        tools.to_json(),
        json(
            r#"[{"type":"function","name":"lookup","description":"Looks up","parameters":{"type":"object"}}]"#
        )
    );
}

#[test]
fn text_signatures_round_trip() {
    for phase in [
        None,
        Some(TextSignaturePhase::Commentary),
        Some(TextSignaturePhase::FinalAnswer),
    ] {
        let signature = encode_text_signature_v1("msg_\"1\"", phase);
        assert_eq!(
            parse_text_signature(&Some(signature)),
            Some(("msg_\"1\"".to_owned(), phase))
        );
    }
    assert_eq!(
        encode_text_signature_v1("m", Some(TextSignaturePhase::FinalAnswer)),
        r#"{"v":1,"id":"m","phase":"final_answer"}"#
    );
    assert_eq!(
        parse_text_signature(&Some("plain".to_owned())),
        Some(("plain".to_owned(), None))
    );
    assert_eq!(parse_text_signature(&Some(String::new())), None);
    assert_eq!(parse_text_signature(&None), None);
}

#[test]
fn invalid_reasoning_signature_fails() {
    let target = model("openai-responses", "openai", "gpt-5.4");
    let mut thinking = ThinkingContent::new("summary");
    thinking.thinking_signature = Some("{".to_owned());
    let error = convert_responses_messages(
        &target,
        &context(vec![assistant(
            "openai-responses",
            "openai",
            "gpt-5.4",
            vec![AssistantContent::Thinking(thinking)],
            1,
        )]),
        &allowed_providers(),
        &message_options(),
        0,
    )
    .unwrap_err();
    assert!(error.message().starts_with("EOF while parsing"));
}

#[test]
fn long_message_ids_are_hashed() {
    let target = model("openai-responses", "openai", "gpt-5.4");
    let long = "x".repeat(65);
    let mut text = TextContent::new("answer");
    text.text_signature = Some(long.clone());
    let converted = convert_responses_messages(
        &target,
        &context(vec![assistant(
            "openai-responses",
            "openai",
            "gpt-5.4",
            vec![AssistantContent::Text(text)],
            1,
        )]),
        &allowed_providers(),
        &message_options(),
        0,
    )
    .unwrap();
    assert_eq!(
        message_ids(&converted),
        [format!("msg_{}", short_hash(&long))]
    );
}

#[test]
fn streamed_text_and_reasoning_reach_the_listener() {
    let target = model("openai-responses", "openai", "gpt-5-mini");
    let mut message = output(&target);
    let events = vec![
        json(
            r#"{"type":"response.output_item.added","output_index":0,
                "item":{"type":"message","id":"msg_1","content":[]}}"#,
        ),
        json(r#"{"type":"response.output_text.delta","output_index":0,"delta":"Hel"}"#),
        json(r#"{"type":"response.output_text.delta","output_index":0,"delta":"lo"}"#),
        json(
            r#"{"type":"response.output_item.done","output_index":0,
                "item":{"type":"message","id":"msg_1","content":[{"type":"output_text","text":"Hello"}]}}"#,
        ),
        json(
            r#"{"type":"response.completed","response":{"id":"resp_test","status":"completed"}}"#,
        ),
    ];
    let (result, emitted) = process(events, &mut message);
    result.unwrap();
    let told = emitted
        .iter()
        .filter_map(|event| match event {
            AssistantMessageEvent::TextDelta { delta, .. } => Some(delta.as_str()),
            _ => None,
        })
        .collect::<String>();
    assert_eq!(told, "Hello");
    assert!(matches!(
        &message.content[0],
        AssistantContent::Text(text) if text.text == "Hello" && text.text_signature.as_deref() == Some(r#"{"v":1,"id":"msg_1"}"#)
    ));
}
