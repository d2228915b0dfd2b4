//! The Responses types on the wire.
use crate::json::{add_field, object, string, Json, JsonV};
use crate::openai_responses_shared::{
    AllowedToolsMode, AllowedToolsType, HostedToolChoiceType, McpToolChoiceType, NamedToolChoiceType, ResponseAdditionalToolsInput, ResponseAdditionalToolsInputV, ResponseAdditionalToolsType, ResponseAssistantRole, ResponseCustomToolCallInput, ResponseCustomToolCallInputV, ResponseCustomToolCallType, ResponseCustomToolFormat, ResponseCustomToolFormatV, ResponseFunctionCallInput, ResponseFunctionCallInputV, ResponseFunctionCallType, ResponseGrammarSyntax, ResponseGrammarType, ResponseImageDetail, ResponseInputContent, ResponseInputContentV, ResponseInputItem, ResponseInputItemV, ResponseInstructionMessage, ResponseInstructionMessageV, ResponseInstructionRole, ResponseItemStatus, ResponseMessageAnnotation, ResponseMessageContent, ResponseMessageContentV, ResponseMessageType, ResponseOutputMessageInput, ResponseOutputMessageInputV, ResponseReasoningSummary, ResponseServiceTier, ResponseServiceTierV, ResponseTool, ResponseToolCallOutput, ResponseToolCallOutputType, ResponseToolCallOutputV, ResponseToolChoice, ResponseToolChoiceMode, ResponseToolChoiceV, ResponseToolSearchArguments, ResponseToolSearchArgumentsV, ResponseToolSearchCallInput, ResponseToolSearchCallInputV, ResponseToolSearchCallType, ResponseToolSearchExecution, ResponseToolSearchOutputInput, ResponseToolSearchOutputInputV, ResponseToolSearchOutputType, ResponseToolV, ResponseUserMessage, ResponseUserMessageV, ResponseUserRole, ToolResultOutput, ToolResultOutputV,
};
use crate::responses_events::tier_named;
use crate::types::TextSignaturePhase;
use crate::wire::{add_optional, no_fields, with, ToJson};
use vstd::prelude::*;

verus! {

impl ToJson for ResponseReasoningSummary {
    open spec fn wire(v: ResponseReasoningSummary) -> JsonV {
        match v {
            ResponseReasoningSummary::Auto => JsonV::Str("auto"@),
            ResponseReasoningSummary::Detailed => JsonV::Str("detailed"@),
            ResponseReasoningSummary::Concise => JsonV::Str("concise"@),
        }
    }

    fn to_json(&self) -> (r: Json) {
        match self {
            ResponseReasoningSummary::Auto => string("auto"),
            ResponseReasoningSummary::Detailed => string("detailed"),
            ResponseReasoningSummary::Concise => string("concise"),
        }
    }
}

impl ToJson for ResponseToolChoiceMode {
    open spec fn wire(v: ResponseToolChoiceMode) -> JsonV {
        match v {
            ResponseToolChoiceMode::Never => JsonV::Str("none"@),
            ResponseToolChoiceMode::Auto => JsonV::Str("auto"@),
            ResponseToolChoiceMode::Required => JsonV::Str("required"@),
        }
    }

    fn to_json(&self) -> (r: Json) {
        match self {
            ResponseToolChoiceMode::Never => string("none"),
            ResponseToolChoiceMode::Auto => string("auto"),
            ResponseToolChoiceMode::Required => string("required"),
        }
    }
}

impl ToJson for AllowedToolsType {
    open spec fn wire(v: AllowedToolsType) -> JsonV {
        match v {
            AllowedToolsType::AllowedTools => JsonV::Str("allowed_tools"@),
        }
    }

    fn to_json(&self) -> (r: Json) {
        match self {
            AllowedToolsType::AllowedTools => string("allowed_tools"),
        }
    }
}

impl ToJson for AllowedToolsMode {
    open spec fn wire(v: AllowedToolsMode) -> JsonV {
        match v {
            AllowedToolsMode::Auto => JsonV::Str("auto"@),
            AllowedToolsMode::Required => JsonV::Str("required"@),
        }
    }

    fn to_json(&self) -> (r: Json) {
        match self {
            AllowedToolsMode::Auto => string("auto"),
            AllowedToolsMode::Required => string("required"),
        }
    }
}

impl ToJson for NamedToolChoiceType {
    open spec fn wire(v: NamedToolChoiceType) -> JsonV {
        match v {
            NamedToolChoiceType::Function => JsonV::Str("function"@),
            NamedToolChoiceType::Custom => JsonV::Str("custom"@),
        }
    }

    fn to_json(&self) -> (r: Json) {
        match self {
            NamedToolChoiceType::Function => string("function"),
            NamedToolChoiceType::Custom => string("custom"),
        }
    }
}

impl ToJson for McpToolChoiceType {
    open spec fn wire(v: McpToolChoiceType) -> JsonV {
        match v {
            McpToolChoiceType::Mcp => JsonV::Str("mcp"@),
        }
    }

    fn to_json(&self) -> (r: Json) {
        match self {
            McpToolChoiceType::Mcp => string("mcp"),
        }
    }
}

impl ToJson for HostedToolChoiceType {
    open spec fn wire(v: HostedToolChoiceType) -> JsonV {
        match v {
            HostedToolChoiceType::FileSearch => JsonV::Str("file_search"@),
            HostedToolChoiceType::WebSearchPreview => JsonV::Str("web_search_preview"@),
            HostedToolChoiceType::Computer => JsonV::Str("computer"@),
            HostedToolChoiceType::ComputerUsePreview => JsonV::Str("computer_use_preview"@),
            HostedToolChoiceType::ComputerUse => JsonV::Str("computer_use"@),
            HostedToolChoiceType::WebSearchPreview2025_03_11 => JsonV::Str("web_search_preview_2025_03_11"@),
            HostedToolChoiceType::ImageGeneration => JsonV::Str("image_generation"@),
            HostedToolChoiceType::CodeInterpreter => JsonV::Str("code_interpreter"@),
            HostedToolChoiceType::Mcp => JsonV::Str("mcp"@),
            HostedToolChoiceType::ApplyPatch => JsonV::Str("apply_patch"@),
            HostedToolChoiceType::Shell => JsonV::Str("shell"@),
        }
    }

    fn to_json(&self) -> (r: Json) {
        match self {
            HostedToolChoiceType::FileSearch => string("file_search"),
            HostedToolChoiceType::WebSearchPreview => string("web_search_preview"),
            HostedToolChoiceType::Computer => string("computer"),
            HostedToolChoiceType::ComputerUsePreview => string("computer_use_preview"),
            HostedToolChoiceType::ComputerUse => string("computer_use"),
            HostedToolChoiceType::WebSearchPreview2025_03_11 => string("web_search_preview_2025_03_11"),
            HostedToolChoiceType::ImageGeneration => string("image_generation"),
            HostedToolChoiceType::CodeInterpreter => string("code_interpreter"),
            HostedToolChoiceType::Mcp => string("mcp"),
            HostedToolChoiceType::ApplyPatch => string("apply_patch"),
            HostedToolChoiceType::Shell => string("shell"),
        }
    }
}

impl ToJson for ResponseServiceTier {
    open spec fn wire(v: ResponseServiceTierV) -> JsonV {
        match v {
            ResponseServiceTierV::Auto => JsonV::Str("auto"@),
            ResponseServiceTierV::Standard => JsonV::Str("default"@),
            ResponseServiceTierV::Flex => JsonV::Str("flex"@),
            ResponseServiceTierV::Scale => JsonV::Str("scale"@),
            ResponseServiceTierV::Priority => JsonV::Str("priority"@),
            ResponseServiceTierV::Other(name) => JsonV::Str(name),
        }
    }

    fn to_json(&self) -> (r: Json) {
        match self {
            ResponseServiceTier::Auto => string("auto"),
            ResponseServiceTier::Standard => string("default"),
            ResponseServiceTier::Flex => string("flex"),
            ResponseServiceTier::Scale => string("scale"),
            ResponseServiceTier::Priority => string("priority"),
            ResponseServiceTier::Other(name) => string(name.as_str()),
        }
    }
}

impl ToJson for ResponseToolChoice {
    open spec fn wire(v: ResponseToolChoiceV) -> JsonV {
        match v {
            ResponseToolChoiceV::Mode(x) => ResponseToolChoiceMode::wire(x),
            ResponseToolChoiceV::Allowed { kind, mode, tools } => JsonV::Object(
                seq![
                    ("type"@, AllowedToolsType::wire(kind)),
                    ("mode"@, AllowedToolsMode::wire(mode)),
                    ("tools"@, Vec::<Json>::wire(tools)),
                ],
            ),
            ResponseToolChoiceV::Named { kind, name } => JsonV::Object(
                seq![
                    ("type"@, NamedToolChoiceType::wire(kind)),
                    ("name"@, String::wire(name)),
                ],
            ),
            ResponseToolChoiceV::Mcp { kind, server_label, name } => JsonV::Object(
                with::<Option<String>>(seq![
                    ("type"@, McpToolChoiceType::wire(kind)),
                    ("server_label"@, String::wire(server_label)),
                ], "name"@, name),
            ),
            ResponseToolChoiceV::Hosted { kind } => JsonV::Object(
                seq![
                    ("type"@, HostedToolChoiceType::wire(kind)),
                ],
            ),
        }
    }

    fn to_json(&self) -> (r: Json) {
        match self {
            ResponseToolChoice::Mode(x) => x.to_json(),
            ResponseToolChoice::Allowed { kind, mode, tools } => {
                let mut fields = no_fields();
                add_field(&mut fields, "type", kind.to_json());
                add_field(&mut fields, "mode", mode.to_json());
                add_field(&mut fields, "tools", tools.to_json());
                assert(fields.deep_view() =~= Self::wire(self@)->Object_0);
                object(fields)
            },
            ResponseToolChoice::Named { kind, name } => {
                let mut fields = no_fields();
                add_field(&mut fields, "type", kind.to_json());
                add_field(&mut fields, "name", name.to_json());
                assert(fields.deep_view() =~= Self::wire(self@)->Object_0);
                object(fields)
            },
            ResponseToolChoice::Mcp { kind, server_label, name } => {
                let mut fields = no_fields();
                add_field(&mut fields, "type", kind.to_json());
                add_field(&mut fields, "server_label", server_label.to_json());
                add_optional(&mut fields, "name", name);
                assert(fields.deep_view() =~= Self::wire(self@)->Object_0);
                object(fields)
            },
            ResponseToolChoice::Hosted { kind } => {
                let mut fields = no_fields();
                add_field(&mut fields, "type", kind.to_json());
                assert(fields.deep_view() =~= Self::wire(self@)->Object_0);
                object(fields)
            },
        }
    }
}

impl ToJson for ResponseInstructionRole {
    open spec fn wire(v: ResponseInstructionRole) -> JsonV {
        match v {
            ResponseInstructionRole::System => JsonV::Str("system"@),
            ResponseInstructionRole::Developer => JsonV::Str("developer"@),
        }
    }

    fn to_json(&self) -> (r: Json) {
        match self {
            ResponseInstructionRole::System => string("system"),
            ResponseInstructionRole::Developer => string("developer"),
        }
    }
}

impl ToJson for ResponseUserRole {
    open spec fn wire(v: ResponseUserRole) -> JsonV {
        match v {
            ResponseUserRole::User => JsonV::Str("user"@),
        }
    }

    fn to_json(&self) -> (r: Json) {
        match self {
            ResponseUserRole::User => string("user"),
        }
    }
}

impl ToJson for ResponseAssistantRole {
    open spec fn wire(v: ResponseAssistantRole) -> JsonV {
        match v {
            ResponseAssistantRole::Assistant => JsonV::Str("assistant"@),
        }
    }

    fn to_json(&self) -> (r: Json) {
        match self {
            ResponseAssistantRole::Assistant => string("assistant"),
        }
    }
}

impl ToJson for ResponseImageDetail {
    open spec fn wire(v: ResponseImageDetail) -> JsonV {
        match v {
            ResponseImageDetail::Auto => JsonV::Str("auto"@),
        }
    }

    fn to_json(&self) -> (r: Json) {
        match self {
            ResponseImageDetail::Auto => string("auto"),
        }
    }
}

impl ToJson for ResponseMessageAnnotation {
    open spec fn wire(v: ResponseMessageAnnotation) -> JsonV {
        match v {
            ResponseMessageAnnotation::Unsent => JsonV::Str("unsent"@),
        }
    }

    fn to_json(&self) -> (r: Json) {
        match self {
            ResponseMessageAnnotation::Unsent => string("unsent"),
        }
    }
}

impl ToJson for ResponseMessageType {
    open spec fn wire(v: ResponseMessageType) -> JsonV {
        match v {
            ResponseMessageType::Message => JsonV::Str("message"@),
        }
    }

    fn to_json(&self) -> (r: Json) {
        match self {
            ResponseMessageType::Message => string("message"),
        }
    }
}

impl ToJson for ResponseItemStatus {
    open spec fn wire(v: ResponseItemStatus) -> JsonV {
        match v {
            ResponseItemStatus::Completed => JsonV::Str("completed"@),
        }
    }

    fn to_json(&self) -> (r: Json) {
        match self {
            ResponseItemStatus::Completed => string("completed"),
        }
    }
}

impl ToJson for ResponseFunctionCallType {
    open spec fn wire(v: ResponseFunctionCallType) -> JsonV {
        match v {
            ResponseFunctionCallType::FunctionCall => JsonV::Str("function_call"@),
        }
    }

    fn to_json(&self) -> (r: Json) {
        match self {
            ResponseFunctionCallType::FunctionCall => string("function_call"),
        }
    }
}

impl ToJson for ResponseCustomToolCallType {
    open spec fn wire(v: ResponseCustomToolCallType) -> JsonV {
        match v {
            ResponseCustomToolCallType::CustomToolCall => JsonV::Str("custom_tool_call"@),
        }
    }

    fn to_json(&self) -> (r: Json) {
        match self {
            ResponseCustomToolCallType::CustomToolCall => string("custom_tool_call"),
        }
    }
}

impl ToJson for ResponseToolCallOutputType {
    open spec fn wire(v: ResponseToolCallOutputType) -> JsonV {
        match v {
            ResponseToolCallOutputType::FunctionCallOutput => JsonV::Str("function_call_output"@),
            ResponseToolCallOutputType::CustomToolCallOutput => JsonV::Str("custom_tool_call_output"@),
        }
    }

    fn to_json(&self) -> (r: Json) {
        match self {
            ResponseToolCallOutputType::FunctionCallOutput => string("function_call_output"),
            ResponseToolCallOutputType::CustomToolCallOutput => string("custom_tool_call_output"),
        }
    }
}

impl ToJson for ResponseAdditionalToolsType {
    open spec fn wire(v: ResponseAdditionalToolsType) -> JsonV {
        match v {
            ResponseAdditionalToolsType::AdditionalTools => JsonV::Str("additional_tools"@),
        }
    }

    fn to_json(&self) -> (r: Json) {
        match self {
            ResponseAdditionalToolsType::AdditionalTools => string("additional_tools"),
        }
    }
}

impl ToJson for ResponseToolSearchCallType {
    open spec fn wire(v: ResponseToolSearchCallType) -> JsonV {
        match v {
            ResponseToolSearchCallType::ToolSearchCall => JsonV::Str("tool_search_call"@),
        }
    }

    fn to_json(&self) -> (r: Json) {
        match self {
            ResponseToolSearchCallType::ToolSearchCall => string("tool_search_call"),
        }
    }
}

impl ToJson for ResponseToolSearchExecution {
    open spec fn wire(v: ResponseToolSearchExecution) -> JsonV {
        match v {
            ResponseToolSearchExecution::Client => JsonV::Str("client"@),
        }
    }

    fn to_json(&self) -> (r: Json) {
        match self {
            ResponseToolSearchExecution::Client => string("client"),
        }
    }
}

impl ToJson for ResponseToolSearchOutputType {
    open spec fn wire(v: ResponseToolSearchOutputType) -> JsonV {
        match v {
            ResponseToolSearchOutputType::ToolSearchOutput => JsonV::Str("tool_search_output"@),
        }
    }

    fn to_json(&self) -> (r: Json) {
        match self {
            ResponseToolSearchOutputType::ToolSearchOutput => string("tool_search_output"),
        }
    }
}

impl ToJson for ResponseGrammarType {
    open spec fn wire(v: ResponseGrammarType) -> JsonV {
        match v {
            ResponseGrammarType::Grammar => JsonV::Str("grammar"@),
        }
    }

    fn to_json(&self) -> (r: Json) {
        match self {
            ResponseGrammarType::Grammar => string("grammar"),
        }
    }
}

impl ToJson for ResponseGrammarSyntax {
    open spec fn wire(v: ResponseGrammarSyntax) -> JsonV {
        match v {
            ResponseGrammarSyntax::Lark => JsonV::Str("lark"@),
            ResponseGrammarSyntax::Regex => JsonV::Str("regex"@),
        }
    }

    fn to_json(&self) -> (r: Json) {
        match self {
            ResponseGrammarSyntax::Lark => string("lark"),
            ResponseGrammarSyntax::Regex => string("regex"),
        }
    }
}

impl ToJson for TextSignaturePhase {
    open spec fn wire(v: TextSignaturePhase) -> JsonV {
        match v {
            TextSignaturePhase::Commentary => JsonV::Str("commentary"@),
            TextSignaturePhase::FinalAnswer => JsonV::Str("final_answer"@),
        }
    }

    fn to_json(&self) -> (r: Json) {
        match self {
            TextSignaturePhase::Commentary => string("commentary"),
            TextSignaturePhase::FinalAnswer => string("final_answer"),
        }
    }
}

impl ToJson for ResponseInputContent {
    open spec fn wire(v: ResponseInputContentV) -> JsonV {
        match v {
            ResponseInputContentV::InputText { text } => JsonV::Object(
                seq![
                    ("type"@, JsonV::Str("input_text"@)),
                    ("text"@, String::wire(text)),
                ],
            ),
            ResponseInputContentV::InputImage { detail, image_url } => JsonV::Object(
                seq![
                    ("type"@, JsonV::Str("input_image"@)),
                    ("detail"@, ResponseImageDetail::wire(detail)),
                    ("image_url"@, String::wire(image_url)),
                ],
            ),
        }
    }

    fn to_json(&self) -> (r: Json) {
        match self {
            ResponseInputContent::InputText { text } => {
                let mut fields = no_fields();
                add_field(&mut fields, "type", string("input_text"));
                add_field(&mut fields, "text", text.to_json());
                assert(fields.deep_view() =~= Self::wire(self@)->Object_0);
                object(fields)
            },
            ResponseInputContent::InputImage { detail, image_url } => {
                let mut fields = no_fields();
                add_field(&mut fields, "type", string("input_image"));
                add_field(&mut fields, "detail", detail.to_json());
                add_field(&mut fields, "image_url", image_url.to_json());
                assert(fields.deep_view() =~= Self::wire(self@)->Object_0);
                object(fields)
            },
        }
    }
}

impl ToJson for ResponseMessageContent {
    open spec fn wire(v: ResponseMessageContentV) -> JsonV {
        match v {
            ResponseMessageContentV::OutputText { text, annotations } => JsonV::Object(
                seq![
                    ("type"@, JsonV::Str("output_text"@)),
                    ("text"@, String::wire(text)),
                    ("annotations"@, Vec::<ResponseMessageAnnotation>::wire(annotations)),
                ],
            ),
        }
    }

    fn to_json(&self) -> (r: Json) {
        match self {
            ResponseMessageContent::OutputText { text, annotations } => {
                let mut fields = no_fields();
                add_field(&mut fields, "type", string("output_text"));
                add_field(&mut fields, "text", text.to_json());
                add_field(&mut fields, "annotations", annotations.to_json());
                assert(fields.deep_view() =~= Self::wire(self@)->Object_0);
                object(fields)
            },
        }
    }
}

impl ToJson for ResponseInstructionMessage {
    open spec fn wire(v: ResponseInstructionMessageV) -> JsonV {
        JsonV::Object(
            seq![
                ("role"@, ResponseInstructionRole::wire(v.role)),
                ("content"@, String::wire(v.content)),
            ],
        )
    }

    fn to_json(&self) -> (r: Json) {
        let mut fields = no_fields();
        add_field(&mut fields, "role", self.role.to_json());
        add_field(&mut fields, "content", self.content.to_json());
        assert(fields.deep_view() =~= Self::wire(self@)->Object_0);
        object(fields)
    }
}

impl ToJson for ResponseUserMessage {
    open spec fn wire(v: ResponseUserMessageV) -> JsonV {
        JsonV::Object(
            seq![
                ("role"@, ResponseUserRole::wire(v.role)),
                ("content"@, Vec::<ResponseInputContent>::wire(v.content)),
            ],
        )
    }

    fn to_json(&self) -> (r: Json) {
        let mut fields = no_fields();
        add_field(&mut fields, "role", self.role.to_json());
        add_field(&mut fields, "content", self.content.to_json());
        assert(fields.deep_view() =~= Self::wire(self@)->Object_0);
        object(fields)
    }
}

impl ToJson for ResponseOutputMessageInput {
    open spec fn wire(v: ResponseOutputMessageInputV) -> JsonV {
        JsonV::Object(
            with::<TextSignaturePhase>(seq![
                ("type"@, ResponseMessageType::wire(v.kind)),
                ("role"@, ResponseAssistantRole::wire(v.role)),
                ("content"@, Vec::<ResponseMessageContent>::wire(v.content)),
                ("status"@, ResponseItemStatus::wire(v.status)),
                ("id"@, String::wire(v.id)),
            ], "phase"@, v.phase),
        )
    }

    fn to_json(&self) -> (r: Json) {
        let mut fields = no_fields();
        add_field(&mut fields, "type", self.kind.to_json());
        add_field(&mut fields, "role", self.role.to_json());
        add_field(&mut fields, "content", self.content.to_json());
        add_field(&mut fields, "status", self.status.to_json());
        add_field(&mut fields, "id", self.id.to_json());
        add_optional(&mut fields, "phase", &self.phase);
        assert(fields.deep_view() =~= Self::wire(self@)->Object_0);
        object(fields)
    }
}

impl ToJson for ResponseFunctionCallInput {
    open spec fn wire(v: ResponseFunctionCallInputV) -> JsonV {
        JsonV::Object(
            with::<String>(with::<String>(seq![
                ("type"@, ResponseFunctionCallType::wire(v.kind)),
            ], "id"@, v.id).push(("call_id"@, String::wire(v.call_id))).push(("name"@, String::wire(v.name))).push(("arguments"@, String::wire(v.arguments))), "namespace"@, v.namespace),
        )
    }

    fn to_json(&self) -> (r: Json) {
        let mut fields = no_fields();
        add_field(&mut fields, "type", self.kind.to_json());
        add_optional(&mut fields, "id", &self.id);
        add_field(&mut fields, "call_id", self.call_id.to_json());
        add_field(&mut fields, "name", self.name.to_json());
        add_field(&mut fields, "arguments", self.arguments.to_json());
        add_optional(&mut fields, "namespace", &self.namespace);
        assert(fields.deep_view() =~= Self::wire(self@)->Object_0);
        object(fields)
    }
}

impl ToJson for ResponseCustomToolCallInput {
    open spec fn wire(v: ResponseCustomToolCallInputV) -> JsonV {
        JsonV::Object(
            with::<String>(with::<String>(seq![
                ("type"@, ResponseCustomToolCallType::wire(v.kind)),
            ], "id"@, v.id).push(("call_id"@, String::wire(v.call_id))).push(("name"@, String::wire(v.name))).push(("input"@, String::wire(v.input))), "namespace"@, v.namespace),
        )
    }

    fn to_json(&self) -> (r: Json) {
        let mut fields = no_fields();
        add_field(&mut fields, "type", self.kind.to_json());
        add_optional(&mut fields, "id", &self.id);
        add_field(&mut fields, "call_id", self.call_id.to_json());
        add_field(&mut fields, "name", self.name.to_json());
        add_field(&mut fields, "input", self.input.to_json());
        add_optional(&mut fields, "namespace", &self.namespace);
        assert(fields.deep_view() =~= Self::wire(self@)->Object_0);
        object(fields)
    }
}

impl ToJson for ToolResultOutput {
    open spec fn wire(v: ToolResultOutputV) -> JsonV {
        match v {
            ToolResultOutputV::Text(x) => String::wire(x),
            ToolResultOutputV::Content(x) => Vec::<ResponseInputContent>::wire(x),
        }
    }

    fn to_json(&self) -> (r: Json) {
        match self {
            ToolResultOutput::Text(x) => x.to_json(),
            ToolResultOutput::Content(x) => x.to_json(),
        }
    }
}

impl ToJson for ResponseToolCallOutput {
    open spec fn wire(v: ResponseToolCallOutputV) -> JsonV {
        JsonV::Object(
            seq![
                ("type"@, ResponseToolCallOutputType::wire(v.kind)),
                ("call_id"@, String::wire(v.call_id)),
                ("output"@, ToolResultOutput::wire(v.output)),
            ],
        )
    }

    fn to_json(&self) -> (r: Json) {
        let mut fields = no_fields();
        add_field(&mut fields, "type", self.kind.to_json());
        add_field(&mut fields, "call_id", self.call_id.to_json());
        add_field(&mut fields, "output", self.output.to_json());
        assert(fields.deep_view() =~= Self::wire(self@)->Object_0);
        object(fields)
    }
}

impl ToJson for ResponseCustomToolFormat {
    open spec fn wire(v: ResponseCustomToolFormatV) -> JsonV {
        JsonV::Object(
            seq![
                ("type"@, ResponseGrammarType::wire(v.kind)),
                ("syntax"@, ResponseGrammarSyntax::wire(v.syntax)),
                ("definition"@, String::wire(v.definition)),
            ],
        )
    }

    fn to_json(&self) -> (r: Json) {
        let mut fields = no_fields();
        add_field(&mut fields, "type", self.kind.to_json());
        add_field(&mut fields, "syntax", self.syntax.to_json());
        add_field(&mut fields, "definition", self.definition.to_json());
        assert(fields.deep_view() =~= Self::wire(self@)->Object_0);
        object(fields)
    }
}

impl ToJson for ResponseTool {
    open spec fn wire(v: ResponseToolV) -> JsonV {
        match v {
            ResponseToolV::Function { name, description, parameters, strict, defer_loading } => JsonV::Object(
                with::<bool>(with::<Option<bool>>(seq![
                    ("type"@, JsonV::Str("function"@)),
                    ("name"@, String::wire(name)),
                    ("description"@, String::wire(description)),
                    ("parameters"@, Json::wire(parameters)),
                ], "strict"@, strict), "defer_loading"@, defer_loading),
            ),
            ResponseToolV::Custom { name, description, format, defer_loading } => JsonV::Object(
                with::<bool>(seq![
                    ("type"@, JsonV::Str("custom"@)),
                    ("name"@, String::wire(name)),
                    ("description"@, String::wire(description)),
                    ("format"@, ResponseCustomToolFormat::wire(format)),
                ], "defer_loading"@, defer_loading),
            ),
        }
    }

    fn to_json(&self) -> (r: Json) {
        match self {
            ResponseTool::Function { name, description, parameters, strict, defer_loading } => {
                let mut fields = no_fields();
                add_field(&mut fields, "type", string("function"));
                add_field(&mut fields, "name", name.to_json());
                add_field(&mut fields, "description", description.to_json());
                add_field(&mut fields, "parameters", parameters.to_json());
                add_optional(&mut fields, "strict", strict);
                add_optional(&mut fields, "defer_loading", defer_loading);
                assert(fields.deep_view() =~= Self::wire(self@)->Object_0);
                object(fields)
            },
            ResponseTool::Custom { name, description, format, defer_loading } => {
                let mut fields = no_fields();
                add_field(&mut fields, "type", string("custom"));
                add_field(&mut fields, "name", name.to_json());
                add_field(&mut fields, "description", description.to_json());
                add_field(&mut fields, "format", format.to_json());
                add_optional(&mut fields, "defer_loading", defer_loading);
                assert(fields.deep_view() =~= Self::wire(self@)->Object_0);
                object(fields)
            },
        }
    }
}

impl ToJson for ResponseAdditionalToolsInput {
    open spec fn wire(v: ResponseAdditionalToolsInputV) -> JsonV {
        JsonV::Object(
            seq![
                ("type"@, ResponseAdditionalToolsType::wire(v.kind)),
                ("role"@, ResponseInstructionRole::wire(v.role)),
                ("tools"@, Vec::<ResponseTool>::wire(v.tools)),
            ],
        )
    }

    fn to_json(&self) -> (r: Json) {
        let mut fields = no_fields();
        add_field(&mut fields, "type", self.kind.to_json());
        add_field(&mut fields, "role", self.role.to_json());
        add_field(&mut fields, "tools", self.tools.to_json());
        assert(fields.deep_view() =~= Self::wire(self@)->Object_0);
        object(fields)
    }
}

impl ToJson for ResponseToolSearchArguments {
    open spec fn wire(v: ResponseToolSearchArgumentsV) -> JsonV {
        JsonV::Object(
            seq![
                ("query"@, String::wire(v.query)),
                ("limit"@, usize::wire(v.limit)),
            ],
        )
    }

    fn to_json(&self) -> (r: Json) {
        let mut fields = no_fields();
        add_field(&mut fields, "query", self.query.to_json());
        add_field(&mut fields, "limit", self.limit.to_json());
        assert(fields.deep_view() =~= Self::wire(self@)->Object_0);
        object(fields)
    }
}

impl ToJson for ResponseToolSearchCallInput {
    open spec fn wire(v: ResponseToolSearchCallInputV) -> JsonV {
        JsonV::Object(
            seq![
                ("type"@, ResponseToolSearchCallType::wire(v.kind)),
                ("call_id"@, String::wire(v.call_id)),
                ("execution"@, ResponseToolSearchExecution::wire(v.execution)),
                ("status"@, ResponseItemStatus::wire(v.status)),
                ("arguments"@, ResponseToolSearchArguments::wire(v.arguments)),
            ],
        )
    }

    fn to_json(&self) -> (r: Json) {
        let mut fields = no_fields();
        add_field(&mut fields, "type", self.kind.to_json());
        add_field(&mut fields, "call_id", self.call_id.to_json());
        add_field(&mut fields, "execution", self.execution.to_json());
        add_field(&mut fields, "status", self.status.to_json());
        add_field(&mut fields, "arguments", self.arguments.to_json());
        assert(fields.deep_view() =~= Self::wire(self@)->Object_0);
        object(fields)
    }
}

impl ToJson for ResponseToolSearchOutputInput {
    open spec fn wire(v: ResponseToolSearchOutputInputV) -> JsonV {
        JsonV::Object(
            seq![
                ("type"@, ResponseToolSearchOutputType::wire(v.kind)),
                ("call_id"@, String::wire(v.call_id)),
                ("execution"@, ResponseToolSearchExecution::wire(v.execution)),
                ("status"@, ResponseItemStatus::wire(v.status)),
                ("tools"@, Vec::<ResponseTool>::wire(v.tools)),
            ],
        )
    }

    fn to_json(&self) -> (r: Json) {
        let mut fields = no_fields();
        add_field(&mut fields, "type", self.kind.to_json());
        add_field(&mut fields, "call_id", self.call_id.to_json());
        add_field(&mut fields, "execution", self.execution.to_json());
        add_field(&mut fields, "status", self.status.to_json());
        add_field(&mut fields, "tools", self.tools.to_json());
        assert(fields.deep_view() =~= Self::wire(self@)->Object_0);
        object(fields)
    }
}

impl ToJson for ResponseInputItem {
    open spec fn wire(v: ResponseInputItemV) -> JsonV {
        match v {
            ResponseInputItemV::Instruction(x) => ResponseInstructionMessage::wire(x),
            ResponseInputItemV::User(x) => ResponseUserMessage::wire(x),
            ResponseInputItemV::Reasoning(x) => Json::wire(x),
            ResponseInputItemV::OutputMessage(x) => ResponseOutputMessageInput::wire(x),
            ResponseInputItemV::FunctionCall(x) => ResponseFunctionCallInput::wire(x),
            ResponseInputItemV::CustomToolCall(x) => ResponseCustomToolCallInput::wire(x),
            ResponseInputItemV::ToolCallOutput(x) => ResponseToolCallOutput::wire(x),
            ResponseInputItemV::AdditionalTools(x) => ResponseAdditionalToolsInput::wire(x),
            ResponseInputItemV::ToolSearchCall(x) => ResponseToolSearchCallInput::wire(x),
            ResponseInputItemV::ToolSearchOutput(x) => ResponseToolSearchOutputInput::wire(x),
        }
    }

    fn to_json(&self) -> (r: Json) {
        match self {
            ResponseInputItem::Instruction(x) => x.to_json(),
            ResponseInputItem::User(x) => x.to_json(),
            ResponseInputItem::Reasoning(x) => x.to_json(),
            ResponseInputItem::OutputMessage(x) => x.to_json(),
            ResponseInputItem::FunctionCall(x) => x.to_json(),
            ResponseInputItem::CustomToolCall(x) => x.to_json(),
            ResponseInputItem::ToolCallOutput(x) => x.to_json(),
            ResponseInputItem::AdditionalTools(x) => x.to_json(),
            ResponseInputItem::ToolSearchCall(x) => x.to_json(),
            ResponseInputItem::ToolSearchOutput(x) => x.to_json(),
        }
    }
}

/// A tier is read back as it is written, unless it is given a name that another one has.
pub proof fn law_tier_is_read_back(tier: ResponseServiceTierV)
    requires
        tier matches ResponseServiceTierV::Other(name) ==> name != "auto"@ && name != "default"@
            && name != "flex"@ && name != "scale"@ && name != "priority"@,
    ensures
        ResponseServiceTier::wire(tier) matches JsonV::Str(name) && tier_named(name) == tier,
{
    reveal_strlit("auto");
    reveal_strlit("default");
    reveal_strlit("flex");
    reveal_strlit("scale");
    reveal_strlit("priority");
    assert("auto"@[0] == 'a' && "default"@[0] == 'd' && "flex"@[0] == 'f' && "scale"@[0] == 's'
        && "priority"@[0] == 'p');
}

} // verus!
