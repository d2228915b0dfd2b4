//! How messages and items are written.
use crate::completions_types::{
    CompatCacheControl, CompatCacheControlV, OpenAIChatToolChoice,
    OpenAIChatToolChoiceMode, OpenAIChatToolChoiceV, WireAssistantToolCall, WireAssistantToolCallV,
    WireContent, WireContentPart, WireContentPartV, WireContentV, WireMessage, WireMessageV,
    WireTool,
};
use crate::json::{Json, JsonNumberV, JsonV};
use crate::openai_responses_shared::{
    AllowedToolsMode, HostedToolChoiceType, NamedToolChoiceType, ResponseGrammarSyntax,
    ResponseMessageAnnotation, ResponseMessageContent, ResponseOutputMessageInputV,
    ResponseInputContent, ResponseInputContentV, ResponseInputItem,
    ResponseInputItemV, ResponseInstructionRole, ResponseMessageContentV, ResponseTool,
    ResponseToolCallOutputType, ResponseToolChoice, ResponseToolChoiceMode, ResponseToolChoiceV,
    ResponseToolV, ToolResultOutputV,
};
use crate::types::TextSignaturePhase;
use crate::wire::{wires, ToJson};
use vstd::prelude::*;

verus! {

/// A text as a value.
pub open spec fn text(s: Seq<char>) -> JsonV {
    JsonV::Str(s)
}

/// Members, and one more where there is something to write.
pub open spec fn and_text(
    members: Seq<(Seq<char>, JsonV)>,
    key: Seq<char>,
    value: Option<Seq<char>>,
) -> Seq<(Seq<char>, JsonV)> {
    match value {
        Some(s) => members.push((key, JsonV::Str(s))),
        None => members,
    }
}

/// A mark for the cache.
pub open spec fn mark(at: CompatCacheControlV) -> JsonV {
    JsonV::Object(and_text(seq![("type"@, text("ephemeral"@))], "ttl"@, at.ttl))
}

/// A part of a message is written as text, with its mark, or as the address of an image.
pub proof fn law_part_is_written(part: WireContentPartV)
    ensures
        WireContentPart::wire(part) == match part {
            WireContentPartV::Text { text: words, cache_control: None } => JsonV::Object(
                seq![("type"@, text("text"@)), ("text"@, text(words))],
            ),
            WireContentPartV::Text { text: words, cache_control: Some(at) } => JsonV::Object(
                seq![
                    ("type"@, text("text"@)),
                    ("text"@, text(words)),
                    ("cache_control"@, mark(at)),
                ],
            ),
            WireContentPartV::ImageUrl { image_url } => JsonV::Object(
                seq![
                    ("type"@, text("image_url"@)),
                    ("image_url"@, JsonV::Object(seq![("url"@, text(image_url.url))])),
                ],
            ),
        },
{
    if let WireContentPartV::Text { text: words, cache_control: Some(at) } = part {
        assert(CompatCacheControl::wire(at) == mark(at));
        assert(WireContentPart::wire(part)->Object_0 =~= seq![
            ("type"@, text("text"@)),
            ("text"@, text(words)),
            ("cache_control"@, mark(at)),
        ]);
    }
}

/// What a message says is written as text, or part by part.
pub proof fn law_content_is_written(content: WireContentV)
    ensures
        content matches WireContentV::Plain(words) ==> WireContent::wire(content) == text(words),
        content matches WireContentV::Parts(parts) ==> (WireContent::wire(
            content,
        ) matches JsonV::Array(written) && written.len() == parts.len() && forall|i: int|
            0 <= i < parts.len() ==> #[trigger] written[i] == WireContentPart::wire(parts[i])),
{
}

/// A call is written with its identifier, its name and its arguments or its input.
pub proof fn law_call_is_written(call: WireAssistantToolCallV)
    ensures
        WireAssistantToolCall::wire(call) == match call {
            WireAssistantToolCallV::Function { id, function } => JsonV::Object(
                seq![
                    ("type"@, text("function"@)),
                    ("id"@, text(id)),
                    (
                        "function"@,
                        JsonV::Object(
                            seq![
                                ("name"@, text(function.name)),
                                ("arguments"@, text(function.arguments)),
                            ],
                        ),
                    ),
                ],
            ),
            WireAssistantToolCallV::Custom { id, custom } => JsonV::Object(
                seq![
                    ("type"@, text("custom"@)),
                    ("id"@, text(id)),
                    (
                        "custom"@,
                        JsonV::Object(
                            seq![("name"@, text(custom.name)), ("input"@, text(custom.input))],
                        ),
                    ),
                ],
            ),
        },
{
}

/// The words for who speaks.
pub open spec fn role(message: WireMessageV) -> Seq<char> {
    match message {
        WireMessageV::System { .. } => "system"@,
        WireMessageV::Developer { .. } => "developer"@,
        WireMessageV::User { .. } => "user"@,
        WireMessageV::Assistant { .. } => "assistant"@,
        WireMessageV::Tool { .. } => "tool"@,
    }
}

/// A message is written with who speaks, what is said, and what goes with it.
pub proof fn law_message_is_written(message: WireMessageV)
    ensures
        WireMessage::wire(message) matches JsonV::Object(written) && {
            let said = seq![("role"@, text(role(message)))];
            match message {
                WireMessageV::System { content, tools } => {
                    let spoken = match content {
                        Some(content) => said.push(("content"@, WireContent::wire(content))),
                        None => said,
                    };
                    written == match tools {
                        Some(tools) => spoken.push(("tools"@, Vec::<WireTool>::wire(tools))),
                        None => spoken,
                    }
                },
                WireMessageV::Developer { content } | WireMessageV::User { content } => written
                    == said.push(("content"@, WireContent::wire(content))),
                WireMessageV::Tool { content, tool_call_id, name } => written == and_text(
                    said.push(("content"@, WireContent::wire(content))).push(
                        ("tool_call_id"@, text(tool_call_id)),
                    ),
                    "name"@,
                    name,
                ),
                WireMessageV::Assistant {
                    content,
                    tool_calls,
                    reasoning,
                    reasoning_content,
                    reasoning_text,
                    reasoning_details,
                } => {
                    let spoken = said.push(
                        (
                            "content"@,
                            match content {
                                Some(content) => WireContent::wire(content),
                                None => JsonV::Null,
                            },
                        ),
                    );
                    let called = match tool_calls {
                        Some(calls) => spoken.push(
                            ("tool_calls"@, Vec::<WireAssistantToolCall>::wire(calls)),
                        ),
                        None => spoken,
                    };
                    let thought = and_text(
                        and_text(
                            and_text(called, "reasoning"@, reasoning),
                            "reasoning_content"@,
                            reasoning_content,
                        ),
                        "reasoning_text"@,
                        reasoning_text,
                    );
                    written == match reasoning_details {
                        Some(details) => thought.push(
                            ("reasoning_details"@, JsonV::Array(details)),
                        ),
                        None => thought,
                    }
                },
            }
        },
{
    let said = seq![("role"@, text(role(message)))];
    match message {
        WireMessageV::System { .. } => {},
        WireMessageV::Developer { content } => {
            assert(WireMessage::wire(message)->Object_0 =~= said.push(
                ("content"@, WireContent::wire(content)),
            ));
        },
        WireMessageV::User { content } => {
            assert(WireMessage::wire(message)->Object_0 =~= said.push(
                ("content"@, WireContent::wire(content)),
            ));
        },
        WireMessageV::Tool { content, tool_call_id, .. } => {
            assert(seq![
                ("role"@, JsonV::Str("tool"@)),
                ("content"@, WireContent::wire(content)),
                ("tool_call_id"@, String::wire(tool_call_id)),
            ] =~= said.push(("content"@, WireContent::wire(content))).push(
                ("tool_call_id"@, text(tool_call_id)),
            ));
        },
        WireMessageV::Assistant { content, reasoning_details, .. } => {
            assert(seq![
                ("role"@, JsonV::Str("assistant"@)),
                ("content"@, Option::<WireContent>::wire(content)),
            ] =~= said.push(
                (
                    "content"@,
                    match content {
                        Some(content) => WireContent::wire(content),
                        None => JsonV::Null,
                    },
                ),
            ));
            if let Some(details) = reasoning_details {
                assert(wires::<Json>(details) =~= details);
            }
        },
    }
}

/// The words for how freely a tool may be chosen.
pub proof fn law_choice_is_written(
    chat: OpenAIChatToolChoiceV,
    responses: ResponseToolChoiceV,
)
    ensures
        chat matches OpenAIChatToolChoiceV::Mode(mode) ==> OpenAIChatToolChoice::wire(chat) == text(
            match mode {
                OpenAIChatToolChoiceMode::Never => "none"@,
                OpenAIChatToolChoiceMode::Auto => "auto"@,
                OpenAIChatToolChoiceMode::Required => "required"@,
            },
        ),
        chat matches OpenAIChatToolChoiceV::Function { function, .. } ==> OpenAIChatToolChoice::wire(
            chat,
        ) == JsonV::Object(
            seq![
                ("type"@, text("function"@)),
                ("function"@, JsonV::Object(seq![("name"@, text(function.name))])),
            ],
        ),
        chat matches OpenAIChatToolChoiceV::Custom { custom, .. } ==> OpenAIChatToolChoice::wire(
            chat,
        ) == JsonV::Object(
            seq![
                ("type"@, text("custom"@)),
                ("custom"@, JsonV::Object(seq![("name"@, text(custom.name))])),
            ],
        ),
        responses matches ResponseToolChoiceV::Mode(mode) ==> ResponseToolChoice::wire(responses)
            == text(
            match mode {
                ResponseToolChoiceMode::Never => "none"@,
                ResponseToolChoiceMode::Auto => "auto"@,
                ResponseToolChoiceMode::Required => "required"@,
            },
        ),
{
}

/// A part of an item is written as text or as an image.
pub proof fn law_input_part_is_written(part: ResponseInputContentV)
    ensures
        ResponseInputContent::wire(part) == match part {
            ResponseInputContentV::InputText { text: words } => JsonV::Object(
                seq![("type"@, text("input_text"@)), ("text"@, text(words))],
            ),
            ResponseInputContentV::InputImage { image_url, .. } => JsonV::Object(
                seq![
                    ("type"@, text("input_image"@)),
                    ("detail"@, text("auto"@)),
                    ("image_url"@, text(image_url)),
                ],
            ),
        },
{
}

/// The output of a tool is written as text, or part by part.
pub open spec fn output(v: ToolResultOutputV) -> JsonV {
    match v {
        ToolResultOutputV::Text(words) => text(words),
        ToolResultOutputV::Content(parts) => JsonV::Array(
            Seq::new(parts.len(), |i: int| ResponseInputContent::wire(parts[i])),
        ),
    }
}

/// An item is written under its sort, with its identifiers and what it says.
pub proof fn law_item_is_written(item: ResponseInputItemV)
    ensures
        match item {
            ResponseInputItemV::Instruction(m) => ResponseInputItem::wire(item) == JsonV::Object(
                seq![
                    (
                        "role"@,
                        text(
                            if m.role == ResponseInstructionRole::Developer {
                                "developer"@
                            } else {
                                "system"@
                            },
                        ),
                    ),
                    ("content"@, text(m.content)),
                ],
            ),
            ResponseInputItemV::User(m) => ResponseInputItem::wire(item) == JsonV::Object(
                seq![
                    ("role"@, text("user"@)),
                    ("content"@, output(ToolResultOutputV::Content(m.content))),
                ],
            ),
            ResponseInputItemV::Reasoning(v) => ResponseInputItem::wire(item) == v,
            ResponseInputItemV::ToolCallOutput(m) => ResponseInputItem::wire(item) == JsonV::Object(
                seq![
                    (
                        "type"@,
                        text(
                            if m.kind == ResponseToolCallOutputType::CustomToolCallOutput {
                                "custom_tool_call_output"@
                            } else {
                                "function_call_output"@
                            },
                        ),
                    ),
                    ("call_id"@, text(m.call_id)),
                    ("output"@, output(m.output)),
                ],
            ),
            ResponseInputItemV::FunctionCall(c) => ResponseInputItem::wire(item) == JsonV::Object(
                and_text(
                    and_text(seq![("type"@, text("function_call"@))], "id"@, c.id).push(
                        ("call_id"@, text(c.call_id)),
                    ).push(("name"@, text(c.name))).push(("arguments"@, text(c.arguments))),
                    "namespace"@,
                    c.namespace,
                ),
            ),
            ResponseInputItemV::CustomToolCall(c) => ResponseInputItem::wire(item) == JsonV::Object(
                and_text(
                    and_text(seq![("type"@, text("custom_tool_call"@))], "id"@, c.id).push(
                        ("call_id"@, text(c.call_id)),
                    ).push(("name"@, text(c.name))).push(("input"@, text(c.input))),
                    "namespace"@,
                    c.namespace,
                ),
            ),
            ResponseInputItemV::OutputMessage(m) => (
            ResponseInputItem::wire(item) matches JsonV::Object(written) && written.len() >= 5
                && written[0] == ("type"@, text("message"@)) && written[1] == (
                "role"@,
                text("assistant"@),
            ) && written[3] == ("status"@, text("completed"@)) && written[4] == ("id"@, text(m.id))
                && (m.phase is None ==> written.len() == 5) && (m.phase matches Some(phase)
                ==> written.len() == 6 && written[5] == (
                "phase"@,
                text(
                    if phase == TextSignaturePhase::FinalAnswer {
                        "final_answer"@
                    } else {
                        "commentary"@
                    },
                ),
            ))),
            _ => true,
        },
{
    match item {
        ResponseInputItemV::User(m) => {
            assert(wires::<ResponseInputContent>(m.content) =~= Seq::new(
                m.content.len(),
                |i: int| ResponseInputContent::wire(m.content[i]),
            ));
        },
        ResponseInputItemV::ToolCallOutput(m) => {
            if let ToolResultOutputV::Content(parts) = m.output {
                assert(wires::<ResponseInputContent>(parts) =~= Seq::new(
                    parts.len(),
                    |i: int| ResponseInputContent::wire(parts[i]),
                ));
            }
        },
        _ => {},
    }
}

/// The text of a message that goes back is written as what was put out.
pub proof fn law_output_text_is_written(part: ResponseMessageContentV)
    ensures
        part matches ResponseMessageContentV::OutputText { text: words, annotations } ==> (
        ResponseMessageContent::wire(part) matches JsonV::Object(written) && written.len() == 3
            && written[0] == ("type"@, text("output_text"@)) && written[1] == ("text"@, text(words))
            && written[2].0 == "annotations"@ && (annotations.len() == 0 ==> written[2].1
            == JsonV::Array(Seq::empty()))),
{
    if let ResponseMessageContentV::OutputText { annotations, .. } = part {
        if annotations.len() == 0 {
            assert(wires::<ResponseMessageAnnotation>(annotations) =~= Seq::<JsonV>::empty());
        }
    }
}

/// A message that goes back is written with its parts.
pub proof fn law_output_message_is_written(m: ResponseOutputMessageInputV)
    ensures
        ResponseInputItem::wire(ResponseInputItemV::OutputMessage(m)) matches JsonV::Object(written)
            && written.len() >= 5 && written[2].0 == "content"@ && (
        written[2].1 matches JsonV::Array(parts) && parts.len() == m.content.len() && forall|i: int|
            0 <= i < parts.len() ==> #[trigger] parts[i] == ResponseMessageContent::wire(
                m.content[i],
            )),
{
}

/// Members, and a last one that says that a tool is loaded later.
pub open spec fn and_later(
    members: Seq<(Seq<char>, JsonV)>,
    defer_loading: Option<bool>,
) -> Seq<(Seq<char>, JsonV)> {
    match defer_loading {
        Some(b) => members.push(("defer_loading"@, JsonV::Bool(b))),
        None => members,
    }
}

/// A tool is written as a function with its schema, or as a free-form tool with its grammar.
pub proof fn law_tool_is_written(tool: ResponseToolV)
    ensures
        ResponseTool::wire(tool) matches JsonV::Object(written) && written == match tool {
            ResponseToolV::Function { name, description, parameters, strict, defer_loading } => {
                let shaped = seq![
                    ("type"@, text("function"@)),
                    ("name"@, text(name)),
                    ("description"@, text(description)),
                    ("parameters"@, parameters),
                ];
                and_later(
                    match strict {
                        Some(Some(b)) => shaped.push(("strict"@, JsonV::Bool(b))),
                        Some(None) => shaped.push(("strict"@, JsonV::Null)),
                        None => shaped,
                    },
                    defer_loading,
                )
            },
            ResponseToolV::Custom { name, description, format, defer_loading } => and_later(
                seq![
                    ("type"@, text("custom"@)),
                    ("name"@, text(name)),
                    ("description"@, text(description)),
                    (
                        "format"@,
                        JsonV::Object(
                            seq![
                                ("type"@, text("grammar"@)),
                                ("syntax"@, text(syntax_word(format.syntax))),
                                ("definition"@, text(format.definition)),
                            ],
                        ),
                    ),
                ],
                defer_loading,
            ),
        },
{
}

/// The word for the syntax of a grammar.
pub open spec fn syntax_word(syntax: ResponseGrammarSyntax) -> Seq<char> {
    match syntax {
        ResponseGrammarSyntax::Lark => "lark"@,
        ResponseGrammarSyntax::Regex => "regex"@,
    }
}

/// Items that add tools are written with them, and those that stand for a search for tools with its
/// words and its identifier.
pub proof fn law_added_tools_are_written(item: ResponseInputItemV)
    ensures
        item matches ResponseInputItemV::AdditionalTools(m) ==> ResponseInputItem::wire(item)
            == JsonV::Object(
            seq![
                ("type"@, text("additional_tools"@)),
                ("role"@, text(instruction_word(m.role))),
                ("tools"@, Vec::<ResponseTool>::wire(m.tools)),
            ],
        ),
        item matches ResponseInputItemV::ToolSearchCall(m) ==> ResponseInputItem::wire(item)
            == JsonV::Object(
            seq![
                ("type"@, text("tool_search_call"@)),
                ("call_id"@, text(m.call_id)),
                ("execution"@, text("client"@)),
                ("status"@, text("completed"@)),
                (
                    "arguments"@,
                    JsonV::Object(
                        seq![
                            ("query"@, text(m.arguments.query)),
                            (
                                "limit"@,
                                JsonV::Number(JsonNumberV::Unsigned(m.arguments.limit as u64)),
                            ),
                        ],
                    ),
                ),
            ],
        ),
        item matches ResponseInputItemV::ToolSearchOutput(m) ==> ResponseInputItem::wire(item)
            == JsonV::Object(
            seq![
                ("type"@, text("tool_search_output"@)),
                ("call_id"@, text(m.call_id)),
                ("execution"@, text("client"@)),
                ("status"@, text("completed"@)),
                ("tools"@, Vec::<ResponseTool>::wire(m.tools)),
            ],
        ),
{
}

/// The word for who instructs.
pub open spec fn instruction_word(role: ResponseInstructionRole) -> Seq<char> {
    match role {
        ResponseInstructionRole::Developer => "developer"@,
        ResponseInstructionRole::System => "system"@,
    }
}

/// The words for the tools of the provider itself.
pub open spec fn hosted_word(kind: HostedToolChoiceType) -> Seq<char> {
    match kind {
        HostedToolChoiceType::FileSearch => "file_search"@,
        HostedToolChoiceType::WebSearchPreview => "web_search_preview"@,
        HostedToolChoiceType::Computer => "computer"@,
        HostedToolChoiceType::ComputerUsePreview => "computer_use_preview"@,
        HostedToolChoiceType::ComputerUse => "computer_use"@,
        HostedToolChoiceType::WebSearchPreview2025_03_11 => "web_search_preview_2025_03_11"@,
        HostedToolChoiceType::ImageGeneration => "image_generation"@,
        HostedToolChoiceType::CodeInterpreter => "code_interpreter"@,
        HostedToolChoiceType::Mcp => "mcp"@,
        HostedToolChoiceType::ApplyPatch => "apply_patch"@,
        HostedToolChoiceType::Shell => "shell"@,
    }
}

/// A choice among tools is written with its sort and what it names.
pub proof fn law_named_choice_is_written(choice: ResponseToolChoiceV)
    ensures
        choice matches ResponseToolChoiceV::Hosted { kind } ==> ResponseToolChoice::wire(choice)
            == JsonV::Object(seq![("type"@, text(hosted_word(kind)))]),
        choice matches ResponseToolChoiceV::Named { kind, name } ==> ResponseToolChoice::wire(choice)
            == JsonV::Object(
            seq![
                (
                    "type"@,
                    text(
                        if kind == NamedToolChoiceType::Function {
                            "function"@
                        } else {
                            "custom"@
                        },
                    ),
                ),
                ("name"@, text(name)),
            ],
        ),
        choice matches ResponseToolChoiceV::Mcp { server_label, name, .. }
            ==> ResponseToolChoice::wire(choice) == JsonV::Object(
            {
                let served = seq![
                    ("type"@, text("mcp"@)),
                    ("server_label"@, text(server_label)),
                ];
                match name {
                    Some(Some(name)) => served.push(("name"@, text(name))),
                    Some(None) => served.push(("name"@, JsonV::Null)),
                    None => served,
                }
            },
        ),
        choice matches ResponseToolChoiceV::Allowed { mode, tools, .. } ==> ResponseToolChoice::wire(
            choice,
        ) == JsonV::Object(
            seq![
                ("type"@, text("allowed_tools"@)),
                (
                    "mode"@,
                    text(
                        if mode == AllowedToolsMode::Auto {
                            "auto"@
                        } else {
                            "required"@
                        },
                    ),
                ),
                ("tools"@, JsonV::Array(tools)),
            ],
        ),
{
    if let ResponseToolChoiceV::Allowed { tools, .. } = choice {
        assert(wires::<Json>(tools) =~= tools);
    }
}

} // verus!
