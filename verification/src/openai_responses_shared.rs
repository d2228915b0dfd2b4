//! The items and tools of the Responses API.
use crate::json::{Json, JsonV};
use crate::types::{TextSignaturePhase, Tool, ToolV};
use vstd::prelude::*;

verus! {

/// An error of the Responses API, by its words.
#[derive(Debug, PartialEq, Eq)]
pub struct OpenAIResponsesError {
    message: String,
}

impl View for OpenAIResponsesError {
    type V = Seq<char>;

    closed spec fn view(&self) -> Seq<char> {
        self.message@
    }
}

impl DeepView for OpenAIResponsesError {
    type V = Seq<char>;

    open spec fn deep_view(&self) -> Seq<char> {
        self@
    }
}

impl OpenAIResponsesError {
    /// An error with the given words.
    pub fn new(message: String) -> (r: Self)
        ensures
            r@ == message@,
    {
        OpenAIResponsesError { message }
    }

    /// The words of the error.
    pub fn message(&self) -> (r: String)
        ensures
            r@ == self@,
    {
        self.message.clone()
    }
}

/// How a request is served.
#[derive(Debug, PartialEq)]
pub enum ResponseServiceTier {
    Auto,
    /// The tier called `default`.
    Standard,
    Flex,
    Scale,
    Priority,
    /// A tier that has no variant of its own.
    Other(String),
}

/// The model of [`ResponseServiceTier`].
pub enum ResponseServiceTierV {
    Auto,
    Standard,
    Flex,
    Scale,
    Priority,
    Other(Seq<char>),
}

impl View for ResponseServiceTier {
    type V = ResponseServiceTierV;

    open spec fn view(&self) -> ResponseServiceTierV {
        match self {
            ResponseServiceTier::Auto => ResponseServiceTierV::Auto,
            ResponseServiceTier::Standard => ResponseServiceTierV::Standard,
            ResponseServiceTier::Flex => ResponseServiceTierV::Flex,
            ResponseServiceTier::Scale => ResponseServiceTierV::Scale,
            ResponseServiceTier::Priority => ResponseServiceTierV::Priority,
            ResponseServiceTier::Other(x0) => ResponseServiceTierV::Other(x0.deep_view()),
        }
    }
}

impl DeepView for ResponseServiceTier {
    type V = ResponseServiceTierV;

    open spec fn deep_view(&self) -> ResponseServiceTierV {
        self@
    }
}

impl Clone for ResponseServiceTier {
    fn clone(&self) -> (r: Self)
        ensures
            r@ == self@,
    {
        match self {
            ResponseServiceTier::Auto => ResponseServiceTier::Auto,
            ResponseServiceTier::Standard => ResponseServiceTier::Standard,
            ResponseServiceTier::Flex => ResponseServiceTier::Flex,
            ResponseServiceTier::Scale => ResponseServiceTier::Scale,
            ResponseServiceTier::Priority => ResponseServiceTier::Priority,
            ResponseServiceTier::Other(x0) => ResponseServiceTier::Other(x0.clone()),
        }
    }
}

/// How reasoning is summarised.
#[derive(Clone, Copy, Debug, PartialEq, Eq, Structural)]
pub enum ResponseReasoningSummary {
    Auto,
    Detailed,
    Concise,
}

impl View for ResponseReasoningSummary {
    type V = ResponseReasoningSummary;

    open spec fn view(&self) -> ResponseReasoningSummary {
        *self
    }
}

impl DeepView for ResponseReasoningSummary {
    type V = ResponseReasoningSummary;

    open spec fn deep_view(&self) -> ResponseReasoningSummary {
        *self
    }
}

/// Whether the model may or must call tools.
#[derive(Clone, Copy, Debug, PartialEq, Eq, Structural)]
pub enum ResponseToolChoiceMode {
    Never,
    Auto,
    Required,
}

impl View for ResponseToolChoiceMode {
    type V = ResponseToolChoiceMode;

    open spec fn view(&self) -> ResponseToolChoiceMode {
        *self
    }
}

impl DeepView for ResponseToolChoiceMode {
    type V = ResponseToolChoiceMode;

    open spec fn deep_view(&self) -> ResponseToolChoiceMode {
        *self
    }
}

/// The kind of a choice among some tools.
#[derive(Clone, Copy, Debug, PartialEq, Eq, Structural)]
pub enum AllowedToolsType {
    AllowedTools,
}

impl View for AllowedToolsType {
    type V = AllowedToolsType;

    open spec fn view(&self) -> AllowedToolsType {
        *self
    }
}

impl DeepView for AllowedToolsType {
    type V = AllowedToolsType;

    open spec fn deep_view(&self) -> AllowedToolsType {
        *self
    }
}

/// Whether one of the allowed tools must be called.
#[derive(Clone, Copy, Debug, PartialEq, Eq, Structural)]
pub enum AllowedToolsMode {
    Auto,
    Required,
}

impl View for AllowedToolsMode {
    type V = AllowedToolsMode;

    open spec fn view(&self) -> AllowedToolsMode {
        *self
    }
}

impl DeepView for AllowedToolsMode {
    type V = AllowedToolsMode;

    open spec fn deep_view(&self) -> AllowedToolsMode {
        *self
    }
}

/// The kind of a tool that is chosen by name.
#[derive(Clone, Copy, Debug, PartialEq, Eq, Structural)]
pub enum NamedToolChoiceType {
    Function,
    Custom,
}

impl View for NamedToolChoiceType {
    type V = NamedToolChoiceType;

    open spec fn view(&self) -> NamedToolChoiceType {
        *self
    }
}

impl DeepView for NamedToolChoiceType {
    type V = NamedToolChoiceType;

    open spec fn deep_view(&self) -> NamedToolChoiceType {
        *self
    }
}

/// The kind of a choice of an MCP server.
#[derive(Clone, Copy, Debug, PartialEq, Eq, Structural)]
pub enum McpToolChoiceType {
    Mcp,
}

impl View for McpToolChoiceType {
    type V = McpToolChoiceType;

    open spec fn view(&self) -> McpToolChoiceType {
        *self
    }
}

impl DeepView for McpToolChoiceType {
    type V = McpToolChoiceType;

    open spec fn deep_view(&self) -> McpToolChoiceType {
        *self
    }
}

/// The kind of a tool that the provider runs.
#[derive(Clone, Copy, Debug, PartialEq, Eq, Structural)]
pub enum HostedToolChoiceType {
    FileSearch,
    WebSearchPreview,
    Computer,
    ComputerUsePreview,
    ComputerUse,
    WebSearchPreview2025_03_11,
    ImageGeneration,
    CodeInterpreter,
    Mcp,
    ApplyPatch,
    Shell,
}

impl View for HostedToolChoiceType {
    type V = HostedToolChoiceType;

    open spec fn view(&self) -> HostedToolChoiceType {
        *self
    }
}

impl DeepView for HostedToolChoiceType {
    type V = HostedToolChoiceType;

    open spec fn deep_view(&self) -> HostedToolChoiceType {
        *self
    }
}

/// Which tools the model calls.
#[allow(inconsistent_fields)]
#[derive(Debug, PartialEq)]
pub enum ResponseToolChoice {
    Mode(ResponseToolChoiceMode),
    Allowed { kind: AllowedToolsType, mode: AllowedToolsMode, tools: Vec<Json> },
    Named { kind: NamedToolChoiceType, name: String },
    Mcp { kind: McpToolChoiceType, server_label: String, name: Option<Option<String>> },
    Hosted { kind: HostedToolChoiceType },
}

/// The model of [`ResponseToolChoice`].
#[allow(inconsistent_fields)]
pub enum ResponseToolChoiceV {
    Mode(ResponseToolChoiceMode),
    Allowed { kind: AllowedToolsType, mode: AllowedToolsMode, tools: Seq<JsonV> },
    Named { kind: NamedToolChoiceType, name: Seq<char> },
    Mcp { kind: McpToolChoiceType, server_label: Seq<char>, name: Option<Option<Seq<char>>> },
    Hosted { kind: HostedToolChoiceType },
}

impl View for ResponseToolChoice {
    type V = ResponseToolChoiceV;

    open spec fn view(&self) -> ResponseToolChoiceV {
        match self {
            ResponseToolChoice::Mode(x0) => ResponseToolChoiceV::Mode(x0.deep_view()),
            ResponseToolChoice::Allowed { kind, mode, tools } => ResponseToolChoiceV::Allowed { kind: kind.deep_view(), mode: mode.deep_view(), tools: tools.deep_view() },
            ResponseToolChoice::Named { kind, name } => ResponseToolChoiceV::Named { kind: kind.deep_view(), name: name.deep_view() },
            ResponseToolChoice::Mcp { kind, server_label, name } => ResponseToolChoiceV::Mcp { kind: kind.deep_view(), server_label: server_label.deep_view(), name: name.deep_view() },
            ResponseToolChoice::Hosted { kind } => ResponseToolChoiceV::Hosted { kind: kind.deep_view() },
        }
    }
}

impl DeepView for ResponseToolChoice {
    type V = ResponseToolChoiceV;

    open spec fn deep_view(&self) -> ResponseToolChoiceV {
        self@
    }
}

impl Clone for ResponseToolChoice {
    fn clone(&self) -> (r: Self)
        ensures
            r@ == self@,
    {
        match self {
            ResponseToolChoice::Mode(x0) => ResponseToolChoice::Mode(*x0),
            ResponseToolChoice::Allowed { kind, mode, tools } => {
                let y_kind = *kind;
                let y_mode = *mode;
                let y_tools = tools.clone();
                assert(y_tools.deep_view() =~= tools.deep_view());
                ResponseToolChoice::Allowed { kind: y_kind, mode: y_mode, tools: y_tools }
            },
            ResponseToolChoice::Named { kind, name } => ResponseToolChoice::Named { kind: *kind, name: name.clone() },
            ResponseToolChoice::Mcp { kind, server_label, name } => ResponseToolChoice::Mcp { kind: *kind, server_label: server_label.clone(), name: name.clone() },
            ResponseToolChoice::Hosted { kind } => ResponseToolChoice::Hosted { kind: *kind },
        }
    }
}

/// Who instructs the model.
#[derive(Clone, Copy, Debug, PartialEq, Eq, Structural)]
pub enum ResponseInstructionRole {
    System,
    Developer,
}

impl View for ResponseInstructionRole {
    type V = ResponseInstructionRole;

    open spec fn view(&self) -> ResponseInstructionRole {
        *self
    }
}

impl DeepView for ResponseInstructionRole {
    type V = ResponseInstructionRole;

    open spec fn deep_view(&self) -> ResponseInstructionRole {
        *self
    }
}

/// The role of a user message.
#[derive(Clone, Copy, Debug, PartialEq, Eq, Structural)]
pub enum ResponseUserRole {
    User,
}

impl View for ResponseUserRole {
    type V = ResponseUserRole;

    open spec fn view(&self) -> ResponseUserRole {
        *self
    }
}

impl DeepView for ResponseUserRole {
    type V = ResponseUserRole;

    open spec fn deep_view(&self) -> ResponseUserRole {
        *self
    }
}

/// The role of an assistant message.
#[derive(Clone, Copy, Debug, PartialEq, Eq, Structural)]
pub enum ResponseAssistantRole {
    Assistant,
}

impl View for ResponseAssistantRole {
    type V = ResponseAssistantRole;

    open spec fn view(&self) -> ResponseAssistantRole {
        *self
    }
}

impl DeepView for ResponseAssistantRole {
    type V = ResponseAssistantRole;

    open spec fn deep_view(&self) -> ResponseAssistantRole {
        *self
    }
}

/// How closely an image is looked at.
#[derive(Clone, Copy, Debug, PartialEq, Eq, Structural)]
pub enum ResponseImageDetail {
    Auto,
}

impl View for ResponseImageDetail {
    type V = ResponseImageDetail;

    open spec fn view(&self) -> ResponseImageDetail {
        *self
    }
}

impl DeepView for ResponseImageDetail {
    type V = ResponseImageDetail;

    open spec fn deep_view(&self) -> ResponseImageDetail {
        *self
    }
}

/// A part of an input message.
#[derive(Debug, PartialEq)]
pub enum ResponseInputContent {
    InputText { text: String },
    InputImage { detail: ResponseImageDetail, image_url: String },
}

/// The model of [`ResponseInputContent`].
pub enum ResponseInputContentV {
    InputText { text: Seq<char> },
    InputImage { detail: ResponseImageDetail, image_url: Seq<char> },
}

impl View for ResponseInputContent {
    type V = ResponseInputContentV;

    open spec fn view(&self) -> ResponseInputContentV {
        match self {
            ResponseInputContent::InputText { text } => ResponseInputContentV::InputText { text: text.deep_view() },
            ResponseInputContent::InputImage { detail, image_url } => ResponseInputContentV::InputImage { detail: detail.deep_view(), image_url: image_url.deep_view() },
        }
    }
}

impl DeepView for ResponseInputContent {
    type V = ResponseInputContentV;

    open spec fn deep_view(&self) -> ResponseInputContentV {
        self@
    }
}

impl Clone for ResponseInputContent {
    fn clone(&self) -> (r: Self)
        ensures
            r@ == self@,
    {
        match self {
            ResponseInputContent::InputText { text } => ResponseInputContent::InputText { text: text.clone() },
            ResponseInputContent::InputImage { detail, image_url } => ResponseInputContent::InputImage { detail: *detail, image_url: image_url.clone() },
        }
    }
}

/// An annotation of a text; none is ever sent.
#[derive(Clone, Copy, Debug, PartialEq, Eq, Structural)]
pub enum ResponseMessageAnnotation {
    Unsent,
}

impl View for ResponseMessageAnnotation {
    type V = ResponseMessageAnnotation;

    open spec fn view(&self) -> ResponseMessageAnnotation {
        *self
    }
}

impl DeepView for ResponseMessageAnnotation {
    type V = ResponseMessageAnnotation;

    open spec fn deep_view(&self) -> ResponseMessageAnnotation {
        *self
    }
}

/// A part of an assistant message.
#[derive(Debug, PartialEq)]
pub enum ResponseMessageContent {
    OutputText { text: String, annotations: Vec<ResponseMessageAnnotation> },
}

/// The model of [`ResponseMessageContent`].
pub enum ResponseMessageContentV {
    OutputText { text: Seq<char>, annotations: Seq<ResponseMessageAnnotation> },
}

impl View for ResponseMessageContent {
    type V = ResponseMessageContentV;

    open spec fn view(&self) -> ResponseMessageContentV {
        match self {
            ResponseMessageContent::OutputText { text, annotations } => ResponseMessageContentV::OutputText { text: text.deep_view(), annotations: annotations.deep_view() },
        }
    }
}

impl DeepView for ResponseMessageContent {
    type V = ResponseMessageContentV;

    open spec fn deep_view(&self) -> ResponseMessageContentV {
        self@
    }
}

impl Clone for ResponseMessageContent {
    fn clone(&self) -> (r: Self)
        ensures
            r@ == self@,
    {
        match self {
            ResponseMessageContent::OutputText { text, annotations } => {
                let y_text = text.clone();
                let y_annotations = annotations.clone();
                assert(y_annotations.deep_view() =~= annotations.deep_view());
                ResponseMessageContent::OutputText { text: y_text, annotations: y_annotations }
            },
        }
    }
}

/// An instruction.
#[derive(Debug, PartialEq)]
pub struct ResponseInstructionMessage {
    pub role: ResponseInstructionRole,
    pub content: String,
}

/// The model of [`ResponseInstructionMessage`].
pub struct ResponseInstructionMessageV {
    pub role: ResponseInstructionRole,
    pub content: Seq<char>,
}

impl View for ResponseInstructionMessage {
    type V = ResponseInstructionMessageV;

    open spec fn view(&self) -> ResponseInstructionMessageV {
        ResponseInstructionMessageV {
            role: self.role.deep_view(),
            content: self.content.deep_view(),
        }
    }
}

impl DeepView for ResponseInstructionMessage {
    type V = ResponseInstructionMessageV;

    open spec fn deep_view(&self) -> ResponseInstructionMessageV {
        self@
    }
}

impl Clone for ResponseInstructionMessage {
    fn clone(&self) -> (r: Self)
        ensures
            r@ == self@,
    {
        ResponseInstructionMessage {
            role: self.role,
            content: self.content.clone(),
        }
    }
}

/// A user message.
#[derive(Debug, PartialEq)]
pub struct ResponseUserMessage {
    pub role: ResponseUserRole,
    pub content: Vec<ResponseInputContent>,
}

/// The model of [`ResponseUserMessage`].
pub struct ResponseUserMessageV {
    pub role: ResponseUserRole,
    pub content: Seq<ResponseInputContentV>,
}

impl View for ResponseUserMessage {
    type V = ResponseUserMessageV;

    open spec fn view(&self) -> ResponseUserMessageV {
        ResponseUserMessageV {
            role: self.role.deep_view(),
            content: self.content.deep_view(),
        }
    }
}

impl DeepView for ResponseUserMessage {
    type V = ResponseUserMessageV;

    open spec fn deep_view(&self) -> ResponseUserMessageV {
        self@
    }
}

impl Clone for ResponseUserMessage {
    fn clone(&self) -> (r: Self)
        ensures
            r@ == self@,
    {
        let r = ResponseUserMessage {
            role: self.role,
            content: self.content.clone(),
        };
        proof {
            assert(r.content.deep_view() =~= self.content.deep_view());
        }
        r
    }
}

/// The kind of an assistant message.
#[derive(Clone, Copy, Debug, PartialEq, Eq, Structural)]
pub enum ResponseMessageType {
    Message,
}

impl View for ResponseMessageType {
    type V = ResponseMessageType;

    open spec fn view(&self) -> ResponseMessageType {
        *self
    }
}

impl DeepView for ResponseMessageType {
    type V = ResponseMessageType;

    open spec fn deep_view(&self) -> ResponseMessageType {
        *self
    }
}

/// The status of a replayed item.
#[derive(Clone, Copy, Debug, PartialEq, Eq, Structural)]
pub enum ResponseItemStatus {
    Completed,
}

impl View for ResponseItemStatus {
    type V = ResponseItemStatus;

    open spec fn view(&self) -> ResponseItemStatus {
        *self
    }
}

impl DeepView for ResponseItemStatus {
    type V = ResponseItemStatus;

    open spec fn deep_view(&self) -> ResponseItemStatus {
        *self
    }
}

/// A replayed assistant message.
#[derive(Debug, PartialEq)]
pub struct ResponseOutputMessageInput {
    pub kind: ResponseMessageType,
    pub role: ResponseAssistantRole,
    pub content: Vec<ResponseMessageContent>,
    pub status: ResponseItemStatus,
    pub id: String,
    pub phase: Option<TextSignaturePhase>,
}

/// The model of [`ResponseOutputMessageInput`].
pub struct ResponseOutputMessageInputV {
    pub kind: ResponseMessageType,
    pub role: ResponseAssistantRole,
    pub content: Seq<ResponseMessageContentV>,
    pub status: ResponseItemStatus,
    pub id: Seq<char>,
    pub phase: Option<TextSignaturePhase>,
}

impl View for ResponseOutputMessageInput {
    type V = ResponseOutputMessageInputV;

    open spec fn view(&self) -> ResponseOutputMessageInputV {
        ResponseOutputMessageInputV {
            kind: self.kind.deep_view(),
            role: self.role.deep_view(),
            content: self.content.deep_view(),
            status: self.status.deep_view(),
            id: self.id.deep_view(),
            phase: self.phase.deep_view(),
        }
    }
}

impl DeepView for ResponseOutputMessageInput {
    type V = ResponseOutputMessageInputV;

    open spec fn deep_view(&self) -> ResponseOutputMessageInputV {
        self@
    }
}

impl Clone for ResponseOutputMessageInput {
    fn clone(&self) -> (r: Self)
        ensures
            r@ == self@,
    {
        let r = ResponseOutputMessageInput {
            kind: self.kind,
            role: self.role,
            content: self.content.clone(),
            status: self.status,
            id: self.id.clone(),
            phase: self.phase,
        };
        proof {
            assert(r.content.deep_view() =~= self.content.deep_view());
        }
        r
    }
}

/// The kind of a function call.
#[derive(Clone, Copy, Debug, PartialEq, Eq, Structural)]
pub enum ResponseFunctionCallType {
    FunctionCall,
}

impl View for ResponseFunctionCallType {
    type V = ResponseFunctionCallType;

    open spec fn view(&self) -> ResponseFunctionCallType {
        *self
    }
}

impl DeepView for ResponseFunctionCallType {
    type V = ResponseFunctionCallType;

    open spec fn deep_view(&self) -> ResponseFunctionCallType {
        *self
    }
}

/// A replayed function call.
#[derive(Debug, PartialEq)]
pub struct ResponseFunctionCallInput {
    pub kind: ResponseFunctionCallType,
    pub id: Option<String>,
    pub call_id: String,
    pub name: String,
    pub arguments: String,
    pub namespace: Option<String>,
}

/// The model of [`ResponseFunctionCallInput`].
pub struct ResponseFunctionCallInputV {
    pub kind: ResponseFunctionCallType,
    pub id: Option<Seq<char>>,
    pub call_id: Seq<char>,
    pub name: Seq<char>,
    pub arguments: Seq<char>,
    pub namespace: Option<Seq<char>>,
}

impl View for ResponseFunctionCallInput {
    type V = ResponseFunctionCallInputV;

    open spec fn view(&self) -> ResponseFunctionCallInputV {
        ResponseFunctionCallInputV {
            kind: self.kind.deep_view(),
            id: self.id.deep_view(),
            call_id: self.call_id.deep_view(),
            name: self.name.deep_view(),
            arguments: self.arguments.deep_view(),
            namespace: self.namespace.deep_view(),
        }
    }
}

impl DeepView for ResponseFunctionCallInput {
    type V = ResponseFunctionCallInputV;

    open spec fn deep_view(&self) -> ResponseFunctionCallInputV {
        self@
    }
}

impl Clone for ResponseFunctionCallInput {
    fn clone(&self) -> (r: Self)
        ensures
            r@ == self@,
    {
        ResponseFunctionCallInput {
            kind: self.kind,
            id: self.id.clone(),
            call_id: self.call_id.clone(),
            name: self.name.clone(),
            arguments: self.arguments.clone(),
            namespace: self.namespace.clone(),
        }
    }
}

/// The kind of a call of a custom tool.
#[derive(Clone, Copy, Debug, PartialEq, Eq, Structural)]
pub enum ResponseCustomToolCallType {
    CustomToolCall,
}

impl View for ResponseCustomToolCallType {
    type V = ResponseCustomToolCallType;

    open spec fn view(&self) -> ResponseCustomToolCallType {
        *self
    }
}

impl DeepView for ResponseCustomToolCallType {
    type V = ResponseCustomToolCallType;

    open spec fn deep_view(&self) -> ResponseCustomToolCallType {
        *self
    }
}

/// A replayed call of a custom tool.
#[derive(Debug, PartialEq)]
pub struct ResponseCustomToolCallInput {
    pub kind: ResponseCustomToolCallType,
    pub id: Option<String>,
    pub call_id: String,
    pub name: String,
    pub input: String,
    pub namespace: Option<String>,
}

/// The model of [`ResponseCustomToolCallInput`].
pub struct ResponseCustomToolCallInputV {
    pub kind: ResponseCustomToolCallType,
    pub id: Option<Seq<char>>,
    pub call_id: Seq<char>,
    pub name: Seq<char>,
    pub input: Seq<char>,
    pub namespace: Option<Seq<char>>,
}

impl View for ResponseCustomToolCallInput {
    type V = ResponseCustomToolCallInputV;

    open spec fn view(&self) -> ResponseCustomToolCallInputV {
        ResponseCustomToolCallInputV {
            kind: self.kind.deep_view(),
            id: self.id.deep_view(),
            call_id: self.call_id.deep_view(),
            name: self.name.deep_view(),
            input: self.input.deep_view(),
            namespace: self.namespace.deep_view(),
        }
    }
}

impl DeepView for ResponseCustomToolCallInput {
    type V = ResponseCustomToolCallInputV;

    open spec fn deep_view(&self) -> ResponseCustomToolCallInputV {
        self@
    }
}

impl Clone for ResponseCustomToolCallInput {
    fn clone(&self) -> (r: Self)
        ensures
            r@ == self@,
    {
        ResponseCustomToolCallInput {
            kind: self.kind,
            id: self.id.clone(),
            call_id: self.call_id.clone(),
            name: self.name.clone(),
            input: self.input.clone(),
            namespace: self.namespace.clone(),
        }
    }
}

/// What a tool returned.
#[derive(Debug, PartialEq)]
pub enum ToolResultOutput {
    Text(String),
    Content(Vec<ResponseInputContent>),
}

/// The model of [`ToolResultOutput`].
pub enum ToolResultOutputV {
    Text(Seq<char>),
    Content(Seq<ResponseInputContentV>),
}

impl View for ToolResultOutput {
    type V = ToolResultOutputV;

    open spec fn view(&self) -> ToolResultOutputV {
        match self {
            ToolResultOutput::Text(x0) => ToolResultOutputV::Text(x0.deep_view()),
            ToolResultOutput::Content(x0) => ToolResultOutputV::Content(x0.deep_view()),
        }
    }
}

impl DeepView for ToolResultOutput {
    type V = ToolResultOutputV;

    open spec fn deep_view(&self) -> ToolResultOutputV {
        self@
    }
}

impl Clone for ToolResultOutput {
    fn clone(&self) -> (r: Self)
        ensures
            r@ == self@,
    {
        match self {
            ToolResultOutput::Text(x0) => ToolResultOutput::Text(x0.clone()),
            ToolResultOutput::Content(x0) => {
                let y0 = x0.clone();
                assert(y0.deep_view() =~= x0.deep_view());
                ToolResultOutput::Content(y0)
            },
        }
    }
}

/// The kind of a tool result.
#[derive(Clone, Copy, Debug, PartialEq, Eq, Structural)]
pub enum ResponseToolCallOutputType {
    FunctionCallOutput,
    CustomToolCallOutput,
}

impl View for ResponseToolCallOutputType {
    type V = ResponseToolCallOutputType;

    open spec fn view(&self) -> ResponseToolCallOutputType {
        *self
    }
}

impl DeepView for ResponseToolCallOutputType {
    type V = ResponseToolCallOutputType;

    open spec fn deep_view(&self) -> ResponseToolCallOutputType {
        *self
    }
}

/// A tool result.
#[derive(Debug, PartialEq)]
pub struct ResponseToolCallOutput {
    pub kind: ResponseToolCallOutputType,
    pub call_id: String,
    pub output: ToolResultOutput,
}

/// The model of [`ResponseToolCallOutput`].
pub struct ResponseToolCallOutputV {
    pub kind: ResponseToolCallOutputType,
    pub call_id: Seq<char>,
    pub output: ToolResultOutputV,
}

impl View for ResponseToolCallOutput {
    type V = ResponseToolCallOutputV;

    open spec fn view(&self) -> ResponseToolCallOutputV {
        ResponseToolCallOutputV {
            kind: self.kind.deep_view(),
            call_id: self.call_id.deep_view(),
            output: self.output.deep_view(),
        }
    }
}

impl DeepView for ResponseToolCallOutput {
    type V = ResponseToolCallOutputV;

    open spec fn deep_view(&self) -> ResponseToolCallOutputV {
        self@
    }
}

impl Clone for ResponseToolCallOutput {
    fn clone(&self) -> (r: Self)
        ensures
            r@ == self@,
    {
        ResponseToolCallOutput {
            kind: self.kind,
            call_id: self.call_id.clone(),
            output: self.output.clone(),
        }
    }
}

/// The kind of a custom input format.
#[derive(Clone, Copy, Debug, PartialEq, Eq, Structural)]
pub enum ResponseGrammarType {
    Grammar,
}

impl View for ResponseGrammarType {
    type V = ResponseGrammarType;

    open spec fn view(&self) -> ResponseGrammarType {
        *self
    }
}

impl DeepView for ResponseGrammarType {
    type V = ResponseGrammarType;

    open spec fn deep_view(&self) -> ResponseGrammarType {
        *self
    }
}

/// The notation of a grammar.
#[derive(Clone, Copy, Debug, PartialEq, Eq, Structural)]
pub enum ResponseGrammarSyntax {
    Lark,
    Regex,
}

impl View for ResponseGrammarSyntax {
    type V = ResponseGrammarSyntax;

    open spec fn view(&self) -> ResponseGrammarSyntax {
        *self
    }
}

impl DeepView for ResponseGrammarSyntax {
    type V = ResponseGrammarSyntax;

    open spec fn deep_view(&self) -> ResponseGrammarSyntax {
        *self
    }
}

/// The format of a custom tool's input.
#[derive(Debug, PartialEq)]
pub struct ResponseCustomToolFormat {
    pub kind: ResponseGrammarType,
    pub syntax: ResponseGrammarSyntax,
    pub definition: String,
}

/// The model of [`ResponseCustomToolFormat`].
pub struct ResponseCustomToolFormatV {
    pub kind: ResponseGrammarType,
    pub syntax: ResponseGrammarSyntax,
    pub definition: Seq<char>,
}

impl View for ResponseCustomToolFormat {
    type V = ResponseCustomToolFormatV;

    open spec fn view(&self) -> ResponseCustomToolFormatV {
        ResponseCustomToolFormatV {
            kind: self.kind.deep_view(),
            syntax: self.syntax.deep_view(),
            definition: self.definition.deep_view(),
        }
    }
}

impl DeepView for ResponseCustomToolFormat {
    type V = ResponseCustomToolFormatV;

    open spec fn deep_view(&self) -> ResponseCustomToolFormatV {
        self@
    }
}

impl Clone for ResponseCustomToolFormat {
    fn clone(&self) -> (r: Self)
        ensures
            r@ == self@,
    {
        ResponseCustomToolFormat {
            kind: self.kind,
            syntax: self.syntax,
            definition: self.definition.clone(),
        }
    }
}

/// A tool as the API takes it.
#[derive(Debug, PartialEq)]
pub enum ResponseTool {
    Function { name: String, description: String, parameters: Json, strict: Option<Option<bool>>, defer_loading: Option<bool> },
    Custom { name: String, description: String, format: ResponseCustomToolFormat, defer_loading: Option<bool> },
}

/// The model of [`ResponseTool`].
pub enum ResponseToolV {
    Function { name: Seq<char>, description: Seq<char>, parameters: JsonV, strict: Option<Option<bool>>, defer_loading: Option<bool> },
    Custom { name: Seq<char>, description: Seq<char>, format: ResponseCustomToolFormatV, defer_loading: Option<bool> },
}

impl View for ResponseTool {
    type V = ResponseToolV;

    open spec fn view(&self) -> ResponseToolV {
        match self {
            ResponseTool::Function { name, description, parameters, strict, defer_loading } => ResponseToolV::Function { name: name.deep_view(), description: description.deep_view(), parameters: parameters.deep_view(), strict: strict.deep_view(), defer_loading: defer_loading.deep_view() },
            ResponseTool::Custom { name, description, format, defer_loading } => ResponseToolV::Custom { name: name.deep_view(), description: description.deep_view(), format: format.deep_view(), defer_loading: defer_loading.deep_view() },
        }
    }
}

impl DeepView for ResponseTool {
    type V = ResponseToolV;

    open spec fn deep_view(&self) -> ResponseToolV {
        self@
    }
}

impl Clone for ResponseTool {
    fn clone(&self) -> (r: Self)
        ensures
            r@ == self@,
    {
        match self {
            ResponseTool::Function { name, description, parameters, strict, defer_loading } => ResponseTool::Function { name: name.clone(), description: description.clone(), parameters: parameters.clone(), strict: *strict, defer_loading: *defer_loading },
            ResponseTool::Custom { name, description, format, defer_loading } => ResponseTool::Custom { name: name.clone(), description: description.clone(), format: format.clone(), defer_loading: *defer_loading },
        }
    }
}

/// The kind of an item that adds tools.
#[derive(Clone, Copy, Debug, PartialEq, Eq, Structural)]
pub enum ResponseAdditionalToolsType {
    AdditionalTools,
}

impl View for ResponseAdditionalToolsType {
    type V = ResponseAdditionalToolsType;

    open spec fn view(&self) -> ResponseAdditionalToolsType {
        *self
    }
}

impl DeepView for ResponseAdditionalToolsType {
    type V = ResponseAdditionalToolsType;

    open spec fn deep_view(&self) -> ResponseAdditionalToolsType {
        *self
    }
}

/// An item that adds tools.
#[derive(Debug, PartialEq)]
pub struct ResponseAdditionalToolsInput {
    pub kind: ResponseAdditionalToolsType,
    pub role: ResponseInstructionRole,
    pub tools: Vec<ResponseTool>,
}

/// The model of [`ResponseAdditionalToolsInput`].
pub struct ResponseAdditionalToolsInputV {
    pub kind: ResponseAdditionalToolsType,
    pub role: ResponseInstructionRole,
    pub tools: Seq<ResponseToolV>,
}

impl View for ResponseAdditionalToolsInput {
    type V = ResponseAdditionalToolsInputV;

    open spec fn view(&self) -> ResponseAdditionalToolsInputV {
        ResponseAdditionalToolsInputV {
            kind: self.kind.deep_view(),
            role: self.role.deep_view(),
            tools: self.tools.deep_view(),
        }
    }
}

impl DeepView for ResponseAdditionalToolsInput {
    type V = ResponseAdditionalToolsInputV;

    open spec fn deep_view(&self) -> ResponseAdditionalToolsInputV {
        self@
    }
}

impl Clone for ResponseAdditionalToolsInput {
    fn clone(&self) -> (r: Self)
        ensures
            r@ == self@,
    {
        let r = ResponseAdditionalToolsInput {
            kind: self.kind,
            role: self.role,
            tools: self.tools.clone(),
        };
        proof {
            assert(r.tools.deep_view() =~= self.tools.deep_view());
        }
        r
    }
}

/// What a tool search looks for.
#[derive(Debug, PartialEq)]
pub struct ResponseToolSearchArguments {
    pub query: String,
    pub limit: usize,
}

/// The model of [`ResponseToolSearchArguments`].
pub struct ResponseToolSearchArgumentsV {
    pub query: Seq<char>,
    pub limit: usize,
}

impl View for ResponseToolSearchArguments {
    type V = ResponseToolSearchArgumentsV;

    open spec fn view(&self) -> ResponseToolSearchArgumentsV {
        ResponseToolSearchArgumentsV {
            query: self.query.deep_view(),
            limit: self.limit.deep_view(),
        }
    }
}

impl DeepView for ResponseToolSearchArguments {
    type V = ResponseToolSearchArgumentsV;

    open spec fn deep_view(&self) -> ResponseToolSearchArgumentsV {
        self@
    }
}

impl Clone for ResponseToolSearchArguments {
    fn clone(&self) -> (r: Self)
        ensures
            r@ == self@,
    {
        ResponseToolSearchArguments {
            query: self.query.clone(),
            limit: self.limit,
        }
    }
}

/// The kind of a tool search.
#[derive(Clone, Copy, Debug, PartialEq, Eq, Structural)]
pub enum ResponseToolSearchCallType {
    ToolSearchCall,
}

impl View for ResponseToolSearchCallType {
    type V = ResponseToolSearchCallType;

    open spec fn view(&self) -> ResponseToolSearchCallType {
        *self
    }
}

impl DeepView for ResponseToolSearchCallType {
    type V = ResponseToolSearchCallType;

    open spec fn deep_view(&self) -> ResponseToolSearchCallType {
        *self
    }
}

/// Who runs a tool search.
#[derive(Clone, Copy, Debug, PartialEq, Eq, Structural)]
pub enum ResponseToolSearchExecution {
    Client,
}

impl View for ResponseToolSearchExecution {
    type V = ResponseToolSearchExecution;

    open spec fn view(&self) -> ResponseToolSearchExecution {
        *self
    }
}

impl DeepView for ResponseToolSearchExecution {
    type V = ResponseToolSearchExecution;

    open spec fn deep_view(&self) -> ResponseToolSearchExecution {
        *self
    }
}

/// A tool search.
#[derive(Debug, PartialEq)]
pub struct ResponseToolSearchCallInput {
    pub kind: ResponseToolSearchCallType,
    pub call_id: String,
    pub execution: ResponseToolSearchExecution,
    pub status: ResponseItemStatus,
    pub arguments: ResponseToolSearchArguments,
}

/// The model of [`ResponseToolSearchCallInput`].
pub struct ResponseToolSearchCallInputV {
    pub kind: ResponseToolSearchCallType,
    pub call_id: Seq<char>,
    pub execution: ResponseToolSearchExecution,
    pub status: ResponseItemStatus,
    pub arguments: ResponseToolSearchArgumentsV,
}

impl View for ResponseToolSearchCallInput {
    type V = ResponseToolSearchCallInputV;

    open spec fn view(&self) -> ResponseToolSearchCallInputV {
        ResponseToolSearchCallInputV {
            kind: self.kind.deep_view(),
            call_id: self.call_id.deep_view(),
            execution: self.execution.deep_view(),
            status: self.status.deep_view(),
            arguments: self.arguments.deep_view(),
        }
    }
}

impl DeepView for ResponseToolSearchCallInput {
    type V = ResponseToolSearchCallInputV;

    open spec fn deep_view(&self) -> ResponseToolSearchCallInputV {
        self@
    }
}

impl Clone for ResponseToolSearchCallInput {
    fn clone(&self) -> (r: Self)
        ensures
            r@ == self@,
    {
        ResponseToolSearchCallInput {
            kind: self.kind,
            call_id: self.call_id.clone(),
            execution: self.execution,
            status: self.status,
            arguments: self.arguments.clone(),
        }
    }
}

/// The kind of what a tool search found.
#[derive(Clone, Copy, Debug, PartialEq, Eq, Structural)]
pub enum ResponseToolSearchOutputType {
    ToolSearchOutput,
}

impl View for ResponseToolSearchOutputType {
    type V = ResponseToolSearchOutputType;

    open spec fn view(&self) -> ResponseToolSearchOutputType {
        *self
    }
}

impl DeepView for ResponseToolSearchOutputType {
    type V = ResponseToolSearchOutputType;

    open spec fn deep_view(&self) -> ResponseToolSearchOutputType {
        *self
    }
}

/// What a tool search found.
#[derive(Debug, PartialEq)]
pub struct ResponseToolSearchOutputInput {
    pub kind: ResponseToolSearchOutputType,
    pub call_id: String,
    pub execution: ResponseToolSearchExecution,
    pub status: ResponseItemStatus,
    pub tools: Vec<ResponseTool>,
}

/// The model of [`ResponseToolSearchOutputInput`].
pub struct ResponseToolSearchOutputInputV {
    pub kind: ResponseToolSearchOutputType,
    pub call_id: Seq<char>,
    pub execution: ResponseToolSearchExecution,
    pub status: ResponseItemStatus,
    pub tools: Seq<ResponseToolV>,
}

impl View for ResponseToolSearchOutputInput {
    type V = ResponseToolSearchOutputInputV;

    open spec fn view(&self) -> ResponseToolSearchOutputInputV {
        ResponseToolSearchOutputInputV {
            kind: self.kind.deep_view(),
            call_id: self.call_id.deep_view(),
            execution: self.execution.deep_view(),
            status: self.status.deep_view(),
            tools: self.tools.deep_view(),
        }
    }
}

impl DeepView for ResponseToolSearchOutputInput {
    type V = ResponseToolSearchOutputInputV;

    open spec fn deep_view(&self) -> ResponseToolSearchOutputInputV {
        self@
    }
}

impl Clone for ResponseToolSearchOutputInput {
    fn clone(&self) -> (r: Self)
        ensures
            r@ == self@,
    {
        let r = ResponseToolSearchOutputInput {
            kind: self.kind,
            call_id: self.call_id.clone(),
            execution: self.execution,
            status: self.status,
            tools: self.tools.clone(),
        };
        proof {
            assert(r.tools.deep_view() =~= self.tools.deep_view());
        }
        r
    }
}

/// An item of the input of a request.
#[derive(Debug, PartialEq)]
pub enum ResponseInputItem {
    Instruction(ResponseInstructionMessage),
    User(ResponseUserMessage),
    Reasoning(Json),
    OutputMessage(ResponseOutputMessageInput),
    FunctionCall(ResponseFunctionCallInput),
    CustomToolCall(ResponseCustomToolCallInput),
    ToolCallOutput(ResponseToolCallOutput),
    AdditionalTools(ResponseAdditionalToolsInput),
    ToolSearchCall(ResponseToolSearchCallInput),
    ToolSearchOutput(ResponseToolSearchOutputInput),
}

/// The model of [`ResponseInputItem`].
pub enum ResponseInputItemV {
    Instruction(ResponseInstructionMessageV),
    User(ResponseUserMessageV),
    Reasoning(JsonV),
    OutputMessage(ResponseOutputMessageInputV),
    FunctionCall(ResponseFunctionCallInputV),
    CustomToolCall(ResponseCustomToolCallInputV),
    ToolCallOutput(ResponseToolCallOutputV),
    AdditionalTools(ResponseAdditionalToolsInputV),
    ToolSearchCall(ResponseToolSearchCallInputV),
    ToolSearchOutput(ResponseToolSearchOutputInputV),
}

impl View for ResponseInputItem {
    type V = ResponseInputItemV;

    open spec fn view(&self) -> ResponseInputItemV {
        match self {
            ResponseInputItem::Instruction(x0) => ResponseInputItemV::Instruction(x0.deep_view()),
            ResponseInputItem::User(x0) => ResponseInputItemV::User(x0.deep_view()),
            ResponseInputItem::Reasoning(x0) => ResponseInputItemV::Reasoning(x0.deep_view()),
            ResponseInputItem::OutputMessage(x0) => ResponseInputItemV::OutputMessage(x0.deep_view()),
            ResponseInputItem::FunctionCall(x0) => ResponseInputItemV::FunctionCall(x0.deep_view()),
            ResponseInputItem::CustomToolCall(x0) => ResponseInputItemV::CustomToolCall(x0.deep_view()),
            ResponseInputItem::ToolCallOutput(x0) => ResponseInputItemV::ToolCallOutput(x0.deep_view()),
            ResponseInputItem::AdditionalTools(x0) => ResponseInputItemV::AdditionalTools(x0.deep_view()),
            ResponseInputItem::ToolSearchCall(x0) => ResponseInputItemV::ToolSearchCall(x0.deep_view()),
            ResponseInputItem::ToolSearchOutput(x0) => ResponseInputItemV::ToolSearchOutput(x0.deep_view()),
        }
    }
}

impl DeepView for ResponseInputItem {
    type V = ResponseInputItemV;

    open spec fn deep_view(&self) -> ResponseInputItemV {
        self@
    }
}

impl Clone for ResponseInputItem {
    fn clone(&self) -> (r: Self)
        ensures
            r@ == self@,
    {
        match self {
            ResponseInputItem::Instruction(x0) => ResponseInputItem::Instruction(x0.clone()),
            ResponseInputItem::User(x0) => ResponseInputItem::User(x0.clone()),
            ResponseInputItem::Reasoning(x0) => ResponseInputItem::Reasoning(x0.clone()),
            ResponseInputItem::OutputMessage(x0) => ResponseInputItem::OutputMessage(x0.clone()),
            ResponseInputItem::FunctionCall(x0) => ResponseInputItem::FunctionCall(x0.clone()),
            ResponseInputItem::CustomToolCall(x0) => ResponseInputItem::CustomToolCall(x0.clone()),
            ResponseInputItem::ToolCallOutput(x0) => ResponseInputItem::ToolCallOutput(x0.clone()),
            ResponseInputItem::AdditionalTools(x0) => ResponseInputItem::AdditionalTools(x0.clone()),
            ResponseInputItem::ToolSearchCall(x0) => ResponseInputItem::ToolSearchCall(x0.clone()),
            ResponseInputItem::ToolSearchOutput(x0) => ResponseInputItem::ToolSearchOutput(x0.clone()),
        }
    }
}

/// How tools are converted.
#[derive(Debug, PartialEq)]
pub struct ConvertResponsesToolsOptions {
    /// Strictness where a tool decides none; an explicit null is sent as such.
    pub strict: Option<Option<bool>>,
    pub supports_strict_mode: Option<bool>,
    pub supports_open_ai_grammar_tools: Option<bool>,
    pub defer_loading: bool,
}

/// The model of [`ConvertResponsesToolsOptions`].
pub struct ConvertResponsesToolsOptionsV {
    pub strict: Option<Option<bool>>,
    pub supports_strict_mode: Option<bool>,
    pub supports_open_ai_grammar_tools: Option<bool>,
    pub defer_loading: bool,
}

impl View for ConvertResponsesToolsOptions {
    type V = ConvertResponsesToolsOptionsV;

    open spec fn view(&self) -> ConvertResponsesToolsOptionsV {
        ConvertResponsesToolsOptionsV {
            strict: self.strict.deep_view(),
            supports_strict_mode: self.supports_strict_mode.deep_view(),
            supports_open_ai_grammar_tools: self.supports_open_ai_grammar_tools.deep_view(),
            defer_loading: self.defer_loading.deep_view(),
        }
    }
}

impl DeepView for ConvertResponsesToolsOptions {
    type V = ConvertResponsesToolsOptionsV;

    open spec fn deep_view(&self) -> ConvertResponsesToolsOptionsV {
        self@
    }
}

impl Clone for ConvertResponsesToolsOptions {
    fn clone(&self) -> (r: Self)
        ensures
            r@ == self@,
    {
        ConvertResponsesToolsOptions {
            strict: self.strict.clone(),
            supports_strict_mode: self.supports_strict_mode,
            supports_open_ai_grammar_tools: self.supports_open_ai_grammar_tools,
            defer_loading: self.defer_loading,
        }
    }
}

impl Default for ConvertResponsesToolsOptions {
    fn default() -> (r: Self)
        ensures
            r.strict is None,
            r.supports_strict_mode is None,
            r.supports_open_ai_grammar_tools is None,
            r.defer_loading == false,
    {
        ConvertResponsesToolsOptions {
            strict: None,
            supports_strict_mode: None,
            supports_open_ai_grammar_tools: None,
            defer_loading: false,
        }
    }
}

/// How tools are added in the course of a conversation.
#[derive(Clone, Copy, Debug, PartialEq, Eq, Structural)]
pub enum DeferredResponsesToolsMode {
    AdditionalTools,
    ToolSearch,
}

impl View for DeferredResponsesToolsMode {
    type V = DeferredResponsesToolsMode;

    open spec fn view(&self) -> DeferredResponsesToolsMode {
        *self
    }
}

impl DeepView for DeferredResponsesToolsMode {
    type V = DeferredResponsesToolsMode;

    open spec fn deep_view(&self) -> DeferredResponsesToolsMode {
        *self
    }
}

/// How messages are converted.
#[derive(Debug, PartialEq)]
pub struct ConvertResponsesMessagesOptions {
    pub include_system_prompt: Option<bool>,
    /// The tools whose input is sampled from a grammar, each with the property that holds it.
    pub grammar_tool_input_properties: Option<Vec<(String, String)>>,
    /// The tools that results may add, by name.
    pub deferred_tools: Option<Vec<(String, Tool)>>,
    pub deferred_tools_mode: Option<DeferredResponsesToolsMode>,
    pub tool_options: ConvertResponsesToolsOptions,
}

/// The model of [`ConvertResponsesMessagesOptions`].
pub struct ConvertResponsesMessagesOptionsV {
    pub include_system_prompt: Option<bool>,
    pub grammar_tool_input_properties: Option<Seq<(Seq<char>, Seq<char>)>>,
    pub deferred_tools: Option<Seq<(Seq<char>, ToolV)>>,
    pub deferred_tools_mode: Option<DeferredResponsesToolsMode>,
    pub tool_options: ConvertResponsesToolsOptionsV,
}

impl View for ConvertResponsesMessagesOptions {
    type V = ConvertResponsesMessagesOptionsV;

    open spec fn view(&self) -> ConvertResponsesMessagesOptionsV {
        ConvertResponsesMessagesOptionsV {
            include_system_prompt: self.include_system_prompt,
            grammar_tool_input_properties: self.grammar_tool_input_properties.deep_view(),
            deferred_tools: self.deferred_tools.deep_view(),
            deferred_tools_mode: self.deferred_tools_mode,
            tool_options: self.tool_options@,
        }
    }
}

impl Default for ConvertResponsesMessagesOptions {
    fn default() -> (r: Self)
        ensures
            r.include_system_prompt is None,
            r.grammar_tool_input_properties is None,
            r.deferred_tools is None,
            r.deferred_tools_mode is None,
            call_ensures(ConvertResponsesToolsOptions::default, (), r.tool_options),
    {
        ConvertResponsesMessagesOptions {
            include_system_prompt: None,
            grammar_tool_input_properties: None,
            deferred_tools: None,
            deferred_tools_mode: None,
            tool_options: ConvertResponsesToolsOptions::default(),
        }
    }
}

} // verus!
