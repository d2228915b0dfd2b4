//! Handing a conversation to another model.
use openai_api::json::{Json, JsonNumber};
use openai_api::tool_call_ids::{
    normalize_anthropic_tool_call_id, normalize_open_ai_completions_tool_call_id,
    normalize_responses_tool_call_id, MistralToolCallIdNormalizer,
};
use openai_api::transform_messages::{
    transform_messages, AnthropicToolCallIds, NON_VISION_TOOL_IMAGE_PLACEHOLDER,
    NON_VISION_USER_IMAGE_PLACEHOLDER,
};
use openai_api::types::{
    AssistantContent, AssistantMessage, ImageContent, Message, Model, ModelInput, StopReason,
    TextContent, ThinkingContent, ToolCall, ToolResultMessage, UserContent, UserContentBlock,
    UserMessage,
};

const NOBODY: Option<AnthropicToolCallIds> = None;

fn model(input: Vec<ModelInput>) -> Model {
    Model {
        id: "target".to_owned(),
        name: "Target".to_owned(),
        api: "anthropic-messages".to_owned(),
        provider: "target-provider".to_owned(),
        base_url: "https://example.test".to_owned(),
        reasoning: true,
        thinking_level_map: None,
        input,
        context_window: 128_000,
        max_tokens: 4_096,
        sampling_params: None,
        headers: None,
        compat: None,
    }
}

fn assistant(model: &Model, content: Vec<AssistantContent>) -> AssistantMessage {
    let mut message = AssistantMessage::pending(&model.api, &model.provider, &model.id, 1);
    message.content = content;
    message.stop_reason = StopReason::Stop;
    message
}

fn foreign_assistant(content: Vec<AssistantContent>) -> AssistantMessage {
    let source = model(vec![ModelInput::Text]);
    let mut message = assistant(&source, content);
    message.api = "openai-responses".to_owned();
    message.provider = "source-provider".to_owned();
    message.model = "source".to_owned();
    message
}

fn tool_result(id: &str) -> Message {
    Message::ToolResult(ToolResultMessage {
        tool_call_id: id.to_owned(),
        tool_name: "run".to_owned(),
        content: vec![UserContentBlock::Text(TextContent::new("done"))],
        details: None,
        usage: None,
        added_tool_names: None,
        is_error: false,
        timestamp: 2,
    })
}

fn user(text: &str) -> Message {
    Message::User(UserMessage {
        content: UserContent::Text(text.to_owned()),
        timestamp: 3,
    })
}

fn no_arguments() -> Json {
    Json::Object(vec![])
}

#[test]
fn thinking_and_text_fidelity_follow_model_identity() {
    let target = model(vec![ModelInput::Text]);
    let mut signed_empty = ThinkingContent::new("");
    signed_empty.thinking_signature = Some("ciphertext".to_owned());
    let mut unsigned = ThinkingContent::new("reasoning");
    unsigned.redacted = Some(false);
    let mut redacted = ThinkingContent::new("");
    redacted.redacted = Some(true);
    redacted.thinking_signature = Some("opaque".to_owned());
    let mut text = TextContent::new("answer");
    text.text_signature = Some("message-id".to_owned());
    let same = Message::Assistant(assistant(
        &target,
        vec![
            AssistantContent::Thinking(signed_empty.clone()),
            AssistantContent::Thinking(ThinkingContent::new("   ")),
            AssistantContent::Thinking(unsigned.clone()),
            AssistantContent::Thinking(redacted.clone()),
            AssistantContent::Text(text.clone()),
        ],
    ));
    let transformed = transform_messages(&vec![same], &target, &mut NOBODY, 0);
    let Message::Assistant(same) = &transformed[0] else {
        panic!("assistant")
    };
    assert_eq!(
        same.content,
        vec![
            AssistantContent::Thinking(signed_empty),
            AssistantContent::Thinking(unsigned),
            AssistantContent::Thinking(redacted),
            AssistantContent::Text(text),
        ]
    );

    let mut hidden = ThinkingContent::new("hidden");
    hidden.redacted = Some(true);
    let mut answer = TextContent::new("answer");
    answer.text_signature = Some("foreign".to_owned());
    let foreign = Message::Assistant(foreign_assistant(vec![
        AssistantContent::Thinking(ThinkingContent::new("reasoning")),
        AssistantContent::Thinking(hidden),
        AssistantContent::Text(answer),
    ]));
    let transformed = transform_messages(&vec![foreign], &target, &mut NOBODY, 0);
    let Message::Assistant(foreign) = &transformed[0] else {
        panic!("assistant")
    };
    assert_eq!(
        foreign.content,
        vec![
            AssistantContent::Text(TextContent::new("reasoning")),
            AssistantContent::Text(TextContent::new("answer")),
        ]
    );
}

#[test]
fn cross_model_tool_calls_drop_signature_and_remap_results() {
    let target = model(vec![ModelInput::Text]);
    let mut call = ToolCall::new("call|foreign", "run", no_arguments());
    call.thought_signature = Some("opaque".to_owned());
    let messages = vec![
        Message::Assistant(foreign_assistant(vec![AssistantContent::ToolCall(call)])),
        tool_result("call|foreign"),
    ];
    let transformed = transform_messages(&messages, &target, &mut Some(AnthropicToolCallIds), 0);
    let Message::Assistant(assistant) = &transformed[0] else {
        panic!("assistant")
    };
    let AssistantContent::ToolCall(call) = &assistant.content[0] else {
        panic!("tool")
    };
    assert_eq!(call.id, "call_foreign");
    assert_eq!(call.thought_signature, None);
    let Message::ToolResult(result) = &transformed[1] else {
        panic!("result")
    };
    assert_eq!(result.tool_call_id, "call_foreign");
}

#[test]
fn drops_failed_turns_and_synthesizes_only_missing_results() {
    let target = model(vec![ModelInput::Text]);
    let mut calls = foreign_assistant(vec![
        AssistantContent::ToolCall(ToolCall::new("one|fc_1", "read", no_arguments())),
        AssistantContent::ToolCall(ToolCall::new("two|fc_2", "run", no_arguments())),
    ]);
    calls.stop_reason = StopReason::ToolUse;
    let mut failed = foreign_assistant(vec![AssistantContent::Text(TextContent::new("partial"))]);
    failed.stop_reason = StopReason::Error;
    let mut aborted = foreign_assistant(vec![AssistantContent::Text(TextContent::new("partial"))]);
    aborted.stop_reason = StopReason::Aborted;
    let messages = vec![
        Message::Assistant(calls),
        tool_result("one|fc_1"),
        Message::Assistant(failed),
        Message::Assistant(aborted),
        user("continue"),
    ];
    let transformed = transform_messages(&messages, &target, &mut Some(AnthropicToolCallIds), 0);
    assert_eq!(
        transformed
            .iter()
            .filter(|message| matches!(message, Message::Assistant(_)))
            .count(),
        1
    );
    let synthetic = transformed
        .iter()
        .filter_map(|message| match message {
            Message::ToolResult(result) if result.is_error => Some(result),
            _ => None,
        })
        .collect::<Vec<_>>();
    assert_eq!(synthetic.len(), 1);
    assert_eq!(synthetic[0].tool_call_id, "two_fc_2");
    assert_eq!(
        synthetic[0].content,
        vec![UserContentBlock::Text(TextContent::new("No result provided"))]
    );
}

#[test]
fn repairs_interrupted_and_trailing_tool_flows_in_order() {
    let target = model(vec![ModelInput::Text]);
    let mut first = foreign_assistant(vec![AssistantContent::ToolCall(ToolCall::new(
        "interrupted",
        "read",
        no_arguments(),
    ))]);
    first.stop_reason = StopReason::ToolUse;
    let mut second = foreign_assistant(vec![AssistantContent::ToolCall(ToolCall::new(
        "trailing",
        "run",
        no_arguments(),
    ))]);
    second.stop_reason = StopReason::ToolUse;
    let messages = vec![
        Message::Assistant(first),
        user("interrupt"),
        Message::Assistant(second),
    ];
    let transformed = transform_messages(&messages, &target, &mut NOBODY, 17);
    assert!(matches!(&transformed[0], Message::Assistant(_)));
    assert!(matches!(
        &transformed[1],
        Message::ToolResult(result) if result.tool_call_id == "interrupted" && result.is_error
    ));
    assert!(matches!(&transformed[2], Message::User(_)));
    assert!(matches!(&transformed[3], Message::Assistant(_)));
    assert!(matches!(
        &transformed[4],
        Message::ToolResult(result) if result.tool_call_id == "trailing" && result.is_error
    ));
    assert!(matches!(
        &transformed[4],
        Message::ToolResult(result) if result.tool_name == "run" && result.timestamp == 17
    ));
}

#[test]
fn degrades_images_only_for_non_vision_models() {
    let image = UserContentBlock::Image(ImageContent::new("AA==", "image/png"));
    let user = Message::User(UserMessage {
        content: UserContent::Blocks(vec![
            image.clone(),
            image.clone(),
            UserContentBlock::Text(TextContent::new("after")),
        ]),
        timestamp: 1,
    });
    let non_vision = model(vec![ModelInput::Text]);
    let transformed = transform_messages(&vec![user.clone()], &non_vision, &mut NOBODY, 0);
    let Message::User(message) = &transformed[0] else {
        panic!("user")
    };
    assert_eq!(
        message.content,
        UserContent::Blocks(vec![
            UserContentBlock::Text(TextContent::new(NON_VISION_USER_IMAGE_PLACEHOLDER)),
            UserContentBlock::Text(TextContent::new("after")),
        ])
    );
    let vision = model(vec![ModelInput::Text, ModelInput::Image]);
    assert_eq!(
        transform_messages(&vec![user.clone()], &vision, &mut NOBODY, 0),
        vec![user]
    );

    let tool = Message::ToolResult(ToolResultMessage {
        tool_call_id: "image".to_owned(),
        tool_name: "render".to_owned(),
        content: vec![
            UserContentBlock::Text(TextContent::new(NON_VISION_TOOL_IMAGE_PLACEHOLDER)),
            image,
        ],
        details: None,
        usage: None,
        added_tool_names: None,
        is_error: false,
        timestamp: 2,
    });
    let transformed = transform_messages(&vec![tool], &non_vision, &mut NOBODY, 0);
    let Message::ToolResult(message) = &transformed[0] else {
        panic!("tool result")
    };
    assert_eq!(
        message.content,
        vec![UserContentBlock::Text(TextContent::new(
            NON_VISION_TOOL_IMAGE_PLACEHOLDER
        ))]
    );
}

#[test]
fn target_id_normalizers_match_pi_constraints() {
    let anthropic = normalize_anthropic_tool_call_id(&format!("bad|{}", "x".repeat(80)));
    assert_eq!(anthropic.len(), 64);
    assert!(anthropic
        .chars()
        .all(|character| character.is_ascii_alphanumeric() || matches!(character, '_' | '-')));
    assert_eq!(normalize_anthropic_tool_call_id("a💥b"), "a__b");
    assert_eq!(
        normalize_anthropic_tool_call_id(&format!("{}💥z", "a".repeat(63))),
        format!("{}_", "a".repeat(63))
    );

    let mut mistral = MistralToolCallIdNormalizer::default();
    let first = mistral.normalize("call|with/special+characters").unwrap();
    assert_eq!(first, "q49m1uqci");
    assert!(first
        .chars()
        .all(|character| character.is_ascii_alphanumeric()));
    assert_eq!(
        mistral.normalize("call|with/special+characters"),
        Some(first)
    );
    assert_eq!(
        mistral.normalize("Abc123xyz").as_deref(),
        Some("Abc123xyz")
    );

    let mut completions = model(vec![ModelInput::Text]);
    completions.api = "openai-completions".to_owned();
    completions.provider = "openai".to_owned();
    let one = normalize_open_ai_completions_tool_call_id(
        &format!("call_shared|{}", "a+/=".repeat(100)),
        &completions,
    );
    let two = normalize_open_ai_completions_tool_call_id(
        &format!("call_shared|{}", "b+/=".repeat(100)),
        &completions,
    );
    assert!(one.len() <= 40);
    assert_eq!(one, "call_shared_1ehe6jv1");
    assert_eq!(two, "call_shared_v3nhpp1d");
    assert_ne!(one, two);
    assert_eq!(
        normalize_open_ai_completions_tool_call_id("a💥|b", &completions),
        "a___b"
    );
    assert_eq!(
        normalize_open_ai_completions_tool_call_id(&format!("{}💥z", "a".repeat(38)), &completions),
        format!("{}💥", "a".repeat(38))
    );
    assert_eq!(
        normalize_open_ai_completions_tool_call_id(&"x".repeat(50), &completions).len(),
        40
    );

    let mut responses = model(vec![ModelInput::Text]);
    responses.api = "openai-responses".to_owned();
    responses.provider = "openai".to_owned();
    let mut same_source = assistant(&responses, vec![]);
    same_source.model = "other-model".to_owned();
    let allowed = vec!["openai".to_owned()];
    assert_eq!(
        normalize_responses_tool_call_id("call_1|fc_1", &responses, &same_source, &allowed),
        "call_1|fc_1"
    );
    let foreign = foreign_assistant(vec![]);
    let normalized =
        normalize_responses_tool_call_id("call_1|foreign+/item", &responses, &foreign, &allowed);
    assert_eq!(normalized, "call_1|fc_81dvun1sxj9to");
    assert!(normalized.contains('|'));
    assert_eq!(
        normalize_responses_tool_call_id("a💥b|fc_x", &responses, &same_source, &allowed),
        "a__b|fc_x"
    );
}

#[test]
fn same_model_tool_ids_and_signatures_are_verbatim() {
    let target = model(vec![ModelInput::Text]);
    let mut call = ToolCall::new(
        "call|verbatim",
        "run",
        Json::Object(vec![(
            "x".to_owned(),
            Json::Number(JsonNumber::Unsigned(1)),
        )]),
    );
    call.thought_signature = Some("signature".to_owned());
    let message = Message::Assistant(assistant(
        &target,
        vec![AssistantContent::ToolCall(call.clone())],
    ));
    let transformed = transform_messages(&vec![message], &target, &mut Some(AnthropicToolCallIds), 0);
    let Message::Assistant(assistant) = &transformed[0] else {
        panic!("assistant")
    };
    assert_eq!(assistant.content, vec![AssistantContent::ToolCall(call)]);
}

#[test]
fn mistral_ids_differ_for_different_calls() {
    let mut mistral = MistralToolCallIdNormalizer::default();
    let first = mistral.normalize("Abc123xyz").unwrap();
    let second = mistral.normalize("Abc-123-xyz").unwrap();
    assert_eq!(first, "Abc123xyz");
    assert_ne!(first, second);
    assert_eq!(mistral.normalize("Abc-123-xyz"), Some(second));
}

#[test]
fn repaired_conversation_needs_no_repair() {
    let target = model(vec![ModelInput::Text]);
    let mut turn = foreign_assistant(vec![AssistantContent::ToolCall(ToolCall::new(
        "open",
        "read",
        no_arguments(),
    ))]);
    turn.stop_reason = StopReason::ToolUse;
    let messages = vec![user("go"), Message::Assistant(turn), user("on")];
    let once = transform_messages(&messages, &target, &mut NOBODY, 5);
    assert_eq!(once.len(), 4);
    assert_eq!(transform_messages(&once, &target, &mut NOBODY, 5), once);
}

#[test]
fn responses_ids_without_allowed_provider_lose_their_item() {
    let mut target = model(vec![ModelInput::Text]);
    target.provider = "elsewhere".to_owned();
    let source = foreign_assistant(vec![]);
    let allowed = vec!["openai".to_owned()];
    assert_eq!(
        normalize_responses_tool_call_id("call_1|fc_1__", &target, &source, &allowed),
        "call_1_fc_1"
    );
}

#[test]
fn second_pass_changes_nothing() {
    let target = model(vec![ModelInput::Text]);
    let mut call = ToolCall::new("call|item/1", "run", no_arguments());
    call.thought_signature = Some("secret".to_owned());
    let messages = vec![
        Message::User(UserMessage {
            content: UserContent::Blocks(vec![UserContentBlock::Image(ImageContent::new(
                "ZmFrZQ==",
                "image/png",
            ))]),
            timestamp: 1,
        }),
        Message::Assistant(foreign_assistant(vec![
            AssistantContent::Thinking(ThinkingContent::new("private")),
            AssistantContent::ToolCall(call),
        ])),
        user("next"),
    ];
    let once = transform_messages(&messages, &target, &mut Some(AnthropicToolCallIds), 5);
    assert_ne!(once, messages);
    assert_eq!(once.len(), 4);
    assert_eq!(
        transform_messages(&once, &target, &mut Some(AnthropicToolCallIds), 9),
        once
    );
}

#[test]
fn normalizer_that_remembers_is_asked_in_order() {
    let target = model(vec![ModelInput::Text]);
    let turn = |ids: &[&str]| {
        Message::Assistant(foreign_assistant(
            ids.iter()
                .map(|id| AssistantContent::ToolCall(ToolCall::new(id, "run", no_arguments())))
                .collect(),
        ))
    };
    let messages = vec![
        turn(&["abcDEF123", "abc-DEF-123"]),
        tool_result("abc-DEF-123"),
        tool_result("abcDEF123"),
        turn(&["abc-DEF-123"]),
        tool_result("abc-DEF-123"),
    ];
    let mut expected = MistralToolCallIdNormalizer::default();
    let first = expected.normalize("abcDEF123").unwrap();
    let second = expected.normalize("abc-DEF-123").unwrap();
    assert_eq!(first, "abcDEF123");
    assert_ne!(second, first);

    let mut normalizer = Some(MistralToolCallIdNormalizer::default());
    let transformed = transform_messages(&messages, &target, &mut normalizer, 0);
    let ids = transformed
        .iter()
        .flat_map(|message| match message {
            Message::Assistant(turn) => turn
                .content
                .iter()
                .filter_map(|block| match block {
                    AssistantContent::ToolCall(call) => Some(call.id.clone()),
                    _ => None,
                })
                .collect::<Vec<_>>(),
            Message::ToolResult(result) => vec![result.tool_call_id.clone()],
            Message::User(_) => vec![],
        })
        .collect::<Vec<_>>();
    assert_eq!(
        ids,
        [
            first.clone(),
            second.clone(),
            second.clone(),
            first,
            second.clone(),
            second.clone(),
        ]
    );
    assert_eq!(normalizer.unwrap().normalize("abc-DEF-123"), Some(second));
}
