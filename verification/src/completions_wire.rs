//! The chat-completions types on the wire.
use crate::assoc::put_all;
use crate::completions_types::{
    CacheControlType, CompatCacheControl, CompatCacheControlV, CustomToolType, FunctionToolType, GrammarType, OpenAIChatToolChoice, OpenAIChatToolChoiceFunction, OpenAIChatToolChoiceFunctionV, OpenAIChatToolChoiceMode, OpenAIChatToolChoiceV, WireAssistantToolCall, WireAssistantToolCallV, WireContent, WireContentPart, WireContentPartV, WireContentV, WireCustomCall, WireCustomCallV, WireCustomDefinition, WireCustomDefinitionV, WireCustomFormat, WireCustomFormatV, WireFunctionCall, WireFunctionCallV, WireFunctionDefinition, WireFunctionDefinitionV, WireGrammar, WireGrammarV, WireImageUrl, WireImageUrlV, WireMessage, WireMessageV, WireRequest, WireRequestV, WireStreamOptions, WireStreamOptionsV, WireTool, WireToolDefinition, WireToolDefinitionV, WireToolV,
};
use crate::json::{add_field, extend, object, string, Json, JsonNumber, JsonV};
use crate::types::GrammarSyntax;
use crate::wire::{add_optional, no_fields, with, ToJson};
use vstd::prelude::*;

verus! {

impl ToJson for OpenAIChatToolChoiceMode {
    open spec fn wire(v: OpenAIChatToolChoiceMode) -> JsonV {
        match v {
            OpenAIChatToolChoiceMode::Never => JsonV::Str("none"@),
            OpenAIChatToolChoiceMode::Auto => JsonV::Str("auto"@),
            OpenAIChatToolChoiceMode::Required => JsonV::Str("required"@),
        }
    }

    fn to_json(&self) -> (r: Json) {
        match self {
            OpenAIChatToolChoiceMode::Never => string("none"),
            OpenAIChatToolChoiceMode::Auto => string("auto"),
            OpenAIChatToolChoiceMode::Required => string("required"),
        }
    }
}

impl ToJson for FunctionToolType {
    open spec fn wire(v: FunctionToolType) -> JsonV {
        match v {
            FunctionToolType::Function => JsonV::Str("function"@),
        }
    }

    fn to_json(&self) -> (r: Json) {
        match self {
            FunctionToolType::Function => string("function"),
        }
    }
}

impl ToJson for CustomToolType {
    open spec fn wire(v: CustomToolType) -> JsonV {
        match v {
            CustomToolType::Custom => JsonV::Str("custom"@),
        }
    }

    fn to_json(&self) -> (r: Json) {
        match self {
            CustomToolType::Custom => string("custom"),
        }
    }
}

impl ToJson for CacheControlType {
    open spec fn wire(v: CacheControlType) -> JsonV {
        match v {
            CacheControlType::Ephemeral => JsonV::Str("ephemeral"@),
        }
    }

    fn to_json(&self) -> (r: Json) {
        match self {
            CacheControlType::Ephemeral => string("ephemeral"),
        }
    }
}

impl ToJson for GrammarType {
    open spec fn wire(v: GrammarType) -> JsonV {
        match v {
            GrammarType::Grammar => JsonV::Str("grammar"@),
        }
    }

    fn to_json(&self) -> (r: Json) {
        match self {
            GrammarType::Grammar => string("grammar"),
        }
    }
}

impl ToJson for GrammarSyntax {
    open spec fn wire(v: GrammarSyntax) -> JsonV {
        match v {
            GrammarSyntax::Lark => JsonV::Str("lark"@),
            GrammarSyntax::Regex => JsonV::Str("regex"@),
        }
    }

    fn to_json(&self) -> (r: Json) {
        match self {
            GrammarSyntax::Lark => string("lark"),
            GrammarSyntax::Regex => string("regex"),
        }
    }
}

impl ToJson for OpenAIChatToolChoiceFunction {
    open spec fn wire(v: OpenAIChatToolChoiceFunctionV) -> JsonV {
        JsonV::Object(
            seq![
                ("name"@, String::wire(v.name)),
            ],
        )
    }

    fn to_json(&self) -> (r: Json) {
        let mut fields = no_fields();
        add_field(&mut fields, "name", self.name.to_json());
        assert(fields.deep_view() =~= Self::wire(self@)->Object_0);
        object(fields)
    }
}

impl ToJson for OpenAIChatToolChoice {
    open spec fn wire(v: OpenAIChatToolChoiceV) -> JsonV {
        match v {
            OpenAIChatToolChoiceV::Mode(x) => OpenAIChatToolChoiceMode::wire(x),
            OpenAIChatToolChoiceV::Function { kind, function } => JsonV::Object(
                seq![
                    ("type"@, FunctionToolType::wire(kind)),
                    ("function"@, OpenAIChatToolChoiceFunction::wire(function)),
                ],
            ),
            OpenAIChatToolChoiceV::Custom { kind, custom } => JsonV::Object(
                seq![
                    ("type"@, CustomToolType::wire(kind)),
                    ("custom"@, OpenAIChatToolChoiceFunction::wire(custom)),
                ],
            ),
        }
    }

    fn to_json(&self) -> (r: Json) {
        match self {
            OpenAIChatToolChoice::Mode(x) => x.to_json(),
            OpenAIChatToolChoice::Function { kind, function } => {
                let mut fields = no_fields();
                add_field(&mut fields, "type", kind.to_json());
                add_field(&mut fields, "function", function.to_json());
                assert(fields.deep_view() =~= Self::wire(self@)->Object_0);
                object(fields)
            },
            OpenAIChatToolChoice::Custom { kind, custom } => {
                let mut fields = no_fields();
                add_field(&mut fields, "type", kind.to_json());
                add_field(&mut fields, "custom", custom.to_json());
                assert(fields.deep_view() =~= Self::wire(self@)->Object_0);
                object(fields)
            },
        }
    }
}

impl ToJson for CompatCacheControl {
    open spec fn wire(v: CompatCacheControlV) -> JsonV {
        JsonV::Object(
            with::<String>(seq![
                ("type"@, CacheControlType::wire(v.kind)),
            ], "ttl"@, v.ttl),
        )
    }

    fn to_json(&self) -> (r: Json) {
        let mut fields = no_fields();
        add_field(&mut fields, "type", self.kind.to_json());
        add_optional(&mut fields, "ttl", &self.ttl);
        assert(fields.deep_view() =~= Self::wire(self@)->Object_0);
        object(fields)
    }
}

impl ToJson for WireImageUrl {
    open spec fn wire(v: WireImageUrlV) -> JsonV {
        JsonV::Object(
            seq![
                ("url"@, String::wire(v.url)),
            ],
        )
    }

    fn to_json(&self) -> (r: Json) {
        let mut fields = no_fields();
        add_field(&mut fields, "url", self.url.to_json());
        assert(fields.deep_view() =~= Self::wire(self@)->Object_0);
        object(fields)
    }
}

impl ToJson for WireContentPart {
    open spec fn wire(v: WireContentPartV) -> JsonV {
        match v {
            WireContentPartV::Text { text, cache_control } => JsonV::Object(
                with::<CompatCacheControl>(seq![
                    ("type"@, JsonV::Str("text"@)),
                    ("text"@, String::wire(text)),
                ], "cache_control"@, cache_control),
            ),
            WireContentPartV::ImageUrl { image_url } => JsonV::Object(
                seq![
                    ("type"@, JsonV::Str("image_url"@)),
                    ("image_url"@, WireImageUrl::wire(image_url)),
                ],
            ),
        }
    }

    fn to_json(&self) -> (r: Json) {
        match self {
            WireContentPart::Text { text, cache_control } => {
                let mut fields = no_fields();
                add_field(&mut fields, "type", string("text"));
                add_field(&mut fields, "text", text.to_json());
                add_optional(&mut fields, "cache_control", cache_control);
                assert(fields.deep_view() =~= Self::wire(self@)->Object_0);
                object(fields)
            },
            WireContentPart::ImageUrl { image_url } => {
                let mut fields = no_fields();
                add_field(&mut fields, "type", string("image_url"));
                add_field(&mut fields, "image_url", image_url.to_json());
                assert(fields.deep_view() =~= Self::wire(self@)->Object_0);
                object(fields)
            },
        }
    }
}

impl ToJson for WireContent {
    open spec fn wire(v: WireContentV) -> JsonV {
        match v {
            WireContentV::Plain(x) => String::wire(x),
            WireContentV::Parts(x) => Vec::<WireContentPart>::wire(x),
        }
    }

    fn to_json(&self) -> (r: Json) {
        match self {
            WireContent::Plain(x) => x.to_json(),
            WireContent::Parts(x) => x.to_json(),
        }
    }
}

impl ToJson for WireFunctionCall {
    open spec fn wire(v: WireFunctionCallV) -> JsonV {
        JsonV::Object(
            seq![
                ("name"@, String::wire(v.name)),
                ("arguments"@, String::wire(v.arguments)),
            ],
        )
    }

    fn to_json(&self) -> (r: Json) {
        let mut fields = no_fields();
        add_field(&mut fields, "name", self.name.to_json());
        add_field(&mut fields, "arguments", self.arguments.to_json());
        assert(fields.deep_view() =~= Self::wire(self@)->Object_0);
        object(fields)
    }
}

impl ToJson for WireCustomCall {
    open spec fn wire(v: WireCustomCallV) -> JsonV {
        JsonV::Object(
            seq![
                ("name"@, String::wire(v.name)),
                ("input"@, String::wire(v.input)),
            ],
        )
    }

    fn to_json(&self) -> (r: Json) {
        let mut fields = no_fields();
        add_field(&mut fields, "name", self.name.to_json());
        add_field(&mut fields, "input", self.input.to_json());
        assert(fields.deep_view() =~= Self::wire(self@)->Object_0);
        object(fields)
    }
}

impl ToJson for WireAssistantToolCall {
    open spec fn wire(v: WireAssistantToolCallV) -> JsonV {
        match v {
            WireAssistantToolCallV::Function { id, function } => JsonV::Object(
                seq![
                    ("type"@, JsonV::Str("function"@)),
                    ("id"@, String::wire(id)),
                    ("function"@, WireFunctionCall::wire(function)),
                ],
            ),
            WireAssistantToolCallV::Custom { id, custom } => JsonV::Object(
                seq![
                    ("type"@, JsonV::Str("custom"@)),
                    ("id"@, String::wire(id)),
                    ("custom"@, WireCustomCall::wire(custom)),
                ],
            ),
        }
    }

    fn to_json(&self) -> (r: Json) {
        match self {
            WireAssistantToolCall::Function { id, function } => {
                let mut fields = no_fields();
                add_field(&mut fields, "type", string("function"));
                add_field(&mut fields, "id", id.to_json());
                add_field(&mut fields, "function", function.to_json());
                assert(fields.deep_view() =~= Self::wire(self@)->Object_0);
                object(fields)
            },
            WireAssistantToolCall::Custom { id, custom } => {
                let mut fields = no_fields();
                add_field(&mut fields, "type", string("custom"));
                add_field(&mut fields, "id", id.to_json());
                add_field(&mut fields, "custom", custom.to_json());
                assert(fields.deep_view() =~= Self::wire(self@)->Object_0);
                object(fields)
            },
        }
    }
}

impl ToJson for WireFunctionDefinition {
    open spec fn wire(v: WireFunctionDefinitionV) -> JsonV {
        JsonV::Object(
            with::<bool>(seq![
                ("name"@, String::wire(v.name)),
                ("description"@, String::wire(v.description)),
                ("parameters"@, Json::wire(v.parameters)),
            ], "strict"@, v.strict),
        )
    }

    fn to_json(&self) -> (r: Json) {
        let mut fields = no_fields();
        add_field(&mut fields, "name", self.name.to_json());
        add_field(&mut fields, "description", self.description.to_json());
        add_field(&mut fields, "parameters", self.parameters.to_json());
        add_optional(&mut fields, "strict", &self.strict);
        assert(fields.deep_view() =~= Self::wire(self@)->Object_0);
        object(fields)
    }
}

impl ToJson for WireGrammar {
    open spec fn wire(v: WireGrammarV) -> JsonV {
        JsonV::Object(
            seq![
                ("syntax"@, GrammarSyntax::wire(v.syntax)),
                ("definition"@, String::wire(v.definition)),
            ],
        )
    }

    fn to_json(&self) -> (r: Json) {
        let mut fields = no_fields();
        add_field(&mut fields, "syntax", self.syntax.to_json());
        add_field(&mut fields, "definition", self.definition.to_json());
        assert(fields.deep_view() =~= Self::wire(self@)->Object_0);
        object(fields)
    }
}

impl ToJson for WireCustomFormat {
    open spec fn wire(v: WireCustomFormatV) -> JsonV {
        JsonV::Object(
            seq![
                ("type"@, GrammarType::wire(v.kind)),
                ("grammar"@, WireGrammar::wire(v.grammar)),
            ],
        )
    }

    fn to_json(&self) -> (r: Json) {
        let mut fields = no_fields();
        add_field(&mut fields, "type", self.kind.to_json());
        add_field(&mut fields, "grammar", self.grammar.to_json());
        assert(fields.deep_view() =~= Self::wire(self@)->Object_0);
        object(fields)
    }
}

impl ToJson for WireCustomDefinition {
    open spec fn wire(v: WireCustomDefinitionV) -> JsonV {
        JsonV::Object(
            seq![
                ("name"@, String::wire(v.name)),
                ("description"@, String::wire(v.description)),
                ("format"@, WireCustomFormat::wire(v.format)),
            ],
        )
    }

    fn to_json(&self) -> (r: Json) {
        let mut fields = no_fields();
        add_field(&mut fields, "name", self.name.to_json());
        add_field(&mut fields, "description", self.description.to_json());
        add_field(&mut fields, "format", self.format.to_json());
        assert(fields.deep_view() =~= Self::wire(self@)->Object_0);
        object(fields)
    }
}

/// The members of a tool's definition.
pub open spec fn definition_fields(v: WireToolDefinitionV) -> Seq<(Seq<char>, JsonV)> {
    match v {
        WireToolDefinitionV::Function { function } => seq![
            ("type"@, JsonV::Str("function"@)),
            ("function"@, WireFunctionDefinition::wire(function)),
        ],
        WireToolDefinitionV::Custom { custom } => seq![
            ("type"@, JsonV::Str("custom"@)),
            ("custom"@, WireCustomDefinition::wire(custom)),
        ],
    }
}

impl ToJson for WireTool {
    open spec fn wire(v: WireToolV) -> JsonV {
        JsonV::Object(
            with::<CompatCacheControl>(
                definition_fields(v.definition),
                "cache_control"@,
                v.cache_control,
            ),
        )
    }

    fn to_json(&self) -> (r: Json) {
        let mut fields = no_fields();
        match &self.definition {
            WireToolDefinition::Function { function } => {
                add_field(&mut fields, "type", string("function"));
                add_field(&mut fields, "function", function.to_json());
            },
            WireToolDefinition::Custom { custom } => {
                add_field(&mut fields, "type", string("custom"));
                add_field(&mut fields, "custom", custom.to_json());
            },
        }
        assert(fields.deep_view() =~= definition_fields(self@.definition));
        add_optional(&mut fields, "cache_control", &self.cache_control);
        object(fields)
    }
}

impl ToJson for WireMessage {
    open spec fn wire(v: WireMessageV) -> JsonV {
        match v {
            WireMessageV::System { content, tools } => JsonV::Object(
                with::<Vec<WireTool>>(with::<WireContent>(seq![
                    ("role"@, JsonV::Str("system"@)),
                ], "content"@, content), "tools"@, tools),
            ),
            WireMessageV::Developer { content } => JsonV::Object(
                seq![
                    ("role"@, JsonV::Str("developer"@)),
                    ("content"@, WireContent::wire(content)),
                ],
            ),
            WireMessageV::User { content } => JsonV::Object(
                seq![
                    ("role"@, JsonV::Str("user"@)),
                    ("content"@, WireContent::wire(content)),
                ],
            ),
            WireMessageV::Assistant { content, tool_calls, reasoning, reasoning_content, reasoning_text, reasoning_details } => JsonV::Object(
                with::<Vec<Json>>(with::<String>(with::<String>(with::<String>(with::<Vec<WireAssistantToolCall>>(seq![
                    ("role"@, JsonV::Str("assistant"@)),
                    ("content"@, Option::<WireContent>::wire(content)),
                ], "tool_calls"@, tool_calls), "reasoning"@, reasoning), "reasoning_content"@, reasoning_content), "reasoning_text"@, reasoning_text), "reasoning_details"@, reasoning_details),
            ),
            WireMessageV::Tool { content, tool_call_id, name } => JsonV::Object(
                with::<String>(seq![
                    ("role"@, JsonV::Str("tool"@)),
                    ("content"@, WireContent::wire(content)),
                    ("tool_call_id"@, String::wire(tool_call_id)),
                ], "name"@, name),
            ),
        }
    }

    fn to_json(&self) -> (r: Json) {
        match self {
            WireMessage::System { content, tools } => {
                let mut fields = no_fields();
                add_field(&mut fields, "role", string("system"));
                add_optional(&mut fields, "content", content);
                add_optional(&mut fields, "tools", tools);
                assert(fields.deep_view() =~= Self::wire(self@)->Object_0);
                object(fields)
            },
            WireMessage::Developer { content } => {
                let mut fields = no_fields();
                add_field(&mut fields, "role", string("developer"));
                add_field(&mut fields, "content", content.to_json());
                assert(fields.deep_view() =~= Self::wire(self@)->Object_0);
                object(fields)
            },
            WireMessage::User { content } => {
                let mut fields = no_fields();
                add_field(&mut fields, "role", string("user"));
                add_field(&mut fields, "content", content.to_json());
                assert(fields.deep_view() =~= Self::wire(self@)->Object_0);
                object(fields)
            },
            WireMessage::Assistant { content, tool_calls, reasoning, reasoning_content, reasoning_text, reasoning_details } => {
                let mut fields = no_fields();
                add_field(&mut fields, "role", string("assistant"));
                add_field(&mut fields, "content", content.to_json());
                add_optional(&mut fields, "tool_calls", tool_calls);
                add_optional(&mut fields, "reasoning", reasoning);
                add_optional(&mut fields, "reasoning_content", reasoning_content);
                add_optional(&mut fields, "reasoning_text", reasoning_text);
                add_optional(&mut fields, "reasoning_details", reasoning_details);
                assert(fields.deep_view() =~= Self::wire(self@)->Object_0);
                object(fields)
            },
            WireMessage::Tool { content, tool_call_id, name } => {
                let mut fields = no_fields();
                add_field(&mut fields, "role", string("tool"));
                add_field(&mut fields, "content", content.to_json());
                add_field(&mut fields, "tool_call_id", tool_call_id.to_json());
                add_optional(&mut fields, "name", name);
                assert(fields.deep_view() =~= Self::wire(self@)->Object_0);
                object(fields)
            },
        }
    }
}

impl ToJson for WireStreamOptions {
    open spec fn wire(v: WireStreamOptionsV) -> JsonV {
        JsonV::Object(
            seq![
                ("include_usage"@, bool::wire(v.include_usage)),
            ],
        )
    }

    fn to_json(&self) -> (r: Json) {
        let mut fields = no_fields();
        add_field(&mut fields, "include_usage", self.include_usage.to_json());
        assert(fields.deep_view() =~= Self::wire(self@)->Object_0);
        object(fields)
    }
}

/// The members of a request that every provider knows.
pub open spec fn known_fields(v: WireRequestV) -> Seq<(Seq<char>, JsonV)> {
    let fields = seq![
        ("model"@, String::wire(v.model)),
        ("messages"@, Vec::<WireMessage>::wire(v.messages)),
        ("stream"@, bool::wire(v.stream)),
    ];
    let fields = with::<String>(fields, "prompt_cache_key"@, v.prompt_cache_key);
    let fields = with::<String>(fields, "prompt_cache_retention"@, v.prompt_cache_retention);
    let fields = with::<WireStreamOptions>(fields, "stream_options"@, v.stream_options);
    let fields = with::<bool>(fields, "store"@, v.store);
    let fields = with::<u64>(fields, "max_tokens"@, v.max_tokens);
    let fields = with::<u64>(fields, "max_completion_tokens"@, v.max_completion_tokens);
    let fields = with::<JsonNumber>(fields, "temperature"@, v.temperature);
    let fields = with::<Vec<WireTool>>(fields, "tools"@, v.tools);
    with::<OpenAIChatToolChoice>(fields, "tool_choice"@, v.tool_choice)
}

impl ToJson for WireRequest {
    open spec fn wire(v: WireRequestV) -> JsonV {
        JsonV::Object(put_all(known_fields(v), v.dialect))
    }

    fn to_json(&self) -> (r: Json) {
        let mut fields = no_fields();
        add_field(&mut fields, "model", self.model.to_json());
        add_field(&mut fields, "messages", self.messages.to_json());
        add_field(&mut fields, "stream", self.stream.to_json());
        assert(fields.deep_view() =~= seq![
            ("model"@, String::wire(self@.model)),
            ("messages"@, Vec::<WireMessage>::wire(self@.messages)),
            ("stream"@, bool::wire(self@.stream)),
        ]);
        add_optional(&mut fields, "prompt_cache_key", &self.prompt_cache_key);
        add_optional(&mut fields, "prompt_cache_retention", &self.prompt_cache_retention);
        add_optional(&mut fields, "stream_options", &self.stream_options);
        add_optional(&mut fields, "store", &self.store);
        add_optional(&mut fields, "max_tokens", &self.max_tokens);
        add_optional(&mut fields, "max_completion_tokens", &self.max_completion_tokens);
        add_optional(&mut fields, "temperature", &self.temperature);
        add_optional(&mut fields, "tools", &self.tools);
        add_optional(&mut fields, "tool_choice", &self.tool_choice);
        extend(&mut fields, &self.dialect);
        object(fields)
    }
}

} // verus!
