//! Conversations, models and request options.
use crate::assoc::{copy_optional_list, Duplicate};
use crate::json::{Json, JsonNumber, JsonNumberV, JsonObject, JsonV};
use vstd::prelude::*;

verus! {

/// What a model reads.
#[derive(Clone, Copy, Debug, PartialEq, Eq, Structural)]
pub enum ModelInput {
    Text,
    Image,
}

impl View for ModelInput {
    type V = ModelInput;

    open spec fn view(&self) -> ModelInput {
        *self
    }
}

impl DeepView for ModelInput {
    type V = ModelInput;

    open spec fn deep_view(&self) -> ModelInput {
        *self
    }
}

/// Why an assistant turn ended; `Pending` while it has not.
#[derive(Clone, Copy, Debug, PartialEq, Eq, Structural)]
pub enum StopReason {
    Pending,
    Stop,
    Length,
    ToolUse,
    Deferred,
    Error,
    Aborted,
}

impl View for StopReason {
    type V = StopReason;

    open spec fn view(&self) -> StopReason {
        *self
    }
}

impl DeepView for StopReason {
    type V = StopReason;

    open spec fn deep_view(&self) -> StopReason {
        *self
    }
}

/// The stop reasons of a turn that went well.
#[derive(Clone, Copy, Debug, PartialEq, Eq, Structural)]
pub enum SuccessfulStopReason {
    Stop,
    Length,
    ToolUse,
    Deferred,
}

impl View for SuccessfulStopReason {
    type V = SuccessfulStopReason;

    open spec fn view(&self) -> SuccessfulStopReason {
        *self
    }
}

impl DeepView for SuccessfulStopReason {
    type V = SuccessfulStopReason;

    open spec fn deep_view(&self) -> SuccessfulStopReason {
        *self
    }
}

/// The stop reasons of a turn that failed.
#[derive(Clone, Copy, Debug, PartialEq, Eq, Structural)]
pub enum ErrorStopReason {
    Error,
    Aborted,
}

impl View for ErrorStopReason {
    type V = ErrorStopReason;

    open spec fn view(&self) -> ErrorStopReason {
        *self
    }
}

impl DeepView for ErrorStopReason {
    type V = ErrorStopReason;

    open spec fn deep_view(&self) -> ErrorStopReason {
        *self
    }
}

/// How much a model is asked to reason.
#[derive(Clone, Copy, Debug, PartialEq, Eq, Structural)]
pub enum ThinkingLevel {
    Minimal,
    Low,
    Medium,
    High,
    Xhigh,
    Max,
}

impl View for ThinkingLevel {
    type V = ThinkingLevel;

    open spec fn view(&self) -> ThinkingLevel {
        *self
    }
}

impl DeepView for ThinkingLevel {
    type V = ThinkingLevel;

    open spec fn deep_view(&self) -> ThinkingLevel {
        *self
    }
}

/// A thinking level, or none.
#[derive(Clone, Copy, Debug, PartialEq, Eq, Structural)]
pub enum ModelThinkingLevel {
    Off,
    Minimal,
    Low,
    Medium,
    High,
    Xhigh,
    Max,
}

impl View for ModelThinkingLevel {
    type V = ModelThinkingLevel;

    open spec fn view(&self) -> ModelThinkingLevel {
        *self
    }
}

impl DeepView for ModelThinkingLevel {
    type V = ModelThinkingLevel;

    open spec fn deep_view(&self) -> ModelThinkingLevel {
        *self
    }
}

/// How long a provider keeps a prompt prefix.
#[derive(Clone, Copy, Debug, PartialEq, Eq, Structural)]
pub enum CacheRetention {
    Never,
    Short,
    Long,
}

impl View for CacheRetention {
    type V = CacheRetention;

    open spec fn view(&self) -> CacheRetention {
        *self
    }
}

impl DeepView for CacheRetention {
    type V = CacheRetention;

    open spec fn deep_view(&self) -> CacheRetention {
        *self
    }
}

/// The headers that tie a request to a session.
#[derive(Clone, Copy, Debug, PartialEq, Eq, Structural)]
pub enum SessionAffinityFormat {
    Openai,
    OpenaiNosession,
    Openrouter,
}

impl View for SessionAffinityFormat {
    type V = SessionAffinityFormat;

    open spec fn view(&self) -> SessionAffinityFormat {
        *self
    }
}

impl DeepView for SessionAffinityFormat {
    type V = SessionAffinityFormat;

    open spec fn deep_view(&self) -> SessionAffinityFormat {
        *self
    }
}

/// The part of a turn that a text belongs to.
#[derive(Clone, Copy, Debug, PartialEq, Eq, Structural)]
pub enum TextSignaturePhase {
    Commentary,
    FinalAnswer,
}

impl View for TextSignaturePhase {
    type V = TextSignaturePhase;

    open spec fn view(&self) -> TextSignaturePhase {
        *self
    }
}

impl DeepView for TextSignaturePhase {
    type V = TextSignaturePhase;

    open spec fn deep_view(&self) -> TextSignaturePhase {
        *self
    }
}

/// Whether the model may call tools.
#[derive(Clone, Copy, Debug, PartialEq, Eq, Structural)]
pub enum ToolChoice {
    Auto,
    Never,
}

impl View for ToolChoice {
    type V = ToolChoice;

    open spec fn view(&self) -> ToolChoice {
        *self
    }
}

impl DeepView for ToolChoice {
    type V = ToolChoice;

    open spec fn deep_view(&self) -> ToolChoice {
        *self
    }
}

/// A text block.
#[derive(Debug, PartialEq)]
pub struct TextContent {
    pub text: String,
    /// What the provider needs to have the text replayed.
    pub text_signature: Option<String>,
}

/// The model of [`TextContent`].
pub struct TextContentV {
    pub text: Seq<char>,
    pub text_signature: Option<Seq<char>>,
}

impl View for TextContent {
    type V = TextContentV;

    open spec fn view(&self) -> TextContentV {
        TextContentV {
            text: self.text.deep_view(),
            text_signature: self.text_signature.deep_view(),
        }
    }
}

impl DeepView for TextContent {
    type V = TextContentV;

    open spec fn deep_view(&self) -> TextContentV {
        self@
    }
}

impl Clone for TextContent {
    fn clone(&self) -> (r: Self)
        ensures
            r@ == self@,
    {
        TextContent {
            text: self.text.clone(),
            text_signature: self.text_signature.clone(),
        }
    }
}

/// A reasoning block.
#[derive(Debug, PartialEq)]
pub struct ThinkingContent {
    pub thinking: String,
    /// What the provider needs to have the reasoning replayed.
    pub thinking_signature: Option<String>,
    /// Whether the provider hid the reasoning.
    pub redacted: Option<bool>,
}

/// The model of [`ThinkingContent`].
pub struct ThinkingContentV {
    pub thinking: Seq<char>,
    pub thinking_signature: Option<Seq<char>>,
    pub redacted: Option<bool>,
}

impl View for ThinkingContent {
    type V = ThinkingContentV;

    open spec fn view(&self) -> ThinkingContentV {
        ThinkingContentV {
            thinking: self.thinking.deep_view(),
            thinking_signature: self.thinking_signature.deep_view(),
            redacted: self.redacted.deep_view(),
        }
    }
}

impl DeepView for ThinkingContent {
    type V = ThinkingContentV;

    open spec fn deep_view(&self) -> ThinkingContentV {
        self@
    }
}

impl Clone for ThinkingContent {
    fn clone(&self) -> (r: Self)
        ensures
            r@ == self@,
    {
        ThinkingContent {
            thinking: self.thinking.clone(),
            thinking_signature: self.thinking_signature.clone(),
            redacted: self.redacted,
        }
    }
}

/// An image block.
#[derive(Debug, PartialEq)]
pub struct ImageContent {
    /// The image in base64.
    pub data: String,
    pub mime_type: String,
}

/// The model of [`ImageContent`].
pub struct ImageContentV {
    pub data: Seq<char>,
    pub mime_type: Seq<char>,
}

impl View for ImageContent {
    type V = ImageContentV;

    open spec fn view(&self) -> ImageContentV {
        ImageContentV {
            data: self.data.deep_view(),
            mime_type: self.mime_type.deep_view(),
        }
    }
}

impl DeepView for ImageContent {
    type V = ImageContentV;

    open spec fn deep_view(&self) -> ImageContentV {
        self@
    }
}

impl Clone for ImageContent {
    fn clone(&self) -> (r: Self)
        ensures
            r@ == self@,
    {
        ImageContent {
            data: self.data.clone(),
            mime_type: self.mime_type.clone(),
        }
    }
}

/// A call of a tool by the model.
#[derive(Debug, PartialEq)]
pub struct ToolCall {
    pub id: String,
    pub name: String,
    pub arguments: Json,
    pub thought_signature: Option<String>,
    pub namespace: Option<String>,
}

/// The model of [`ToolCall`].
pub struct ToolCallV {
    pub id: Seq<char>,
    pub name: Seq<char>,
    pub arguments: JsonV,
    pub thought_signature: Option<Seq<char>>,
    pub namespace: Option<Seq<char>>,
}

impl View for ToolCall {
    type V = ToolCallV;

    open spec fn view(&self) -> ToolCallV {
        ToolCallV {
            id: self.id.deep_view(),
            name: self.name.deep_view(),
            arguments: self.arguments.deep_view(),
            thought_signature: self.thought_signature.deep_view(),
            namespace: self.namespace.deep_view(),
        }
    }
}

impl DeepView for ToolCall {
    type V = ToolCallV;

    open spec fn deep_view(&self) -> ToolCallV {
        self@
    }
}

impl Clone for ToolCall {
    fn clone(&self) -> (r: Self)
        ensures
            r@ == self@,
    {
        ToolCall {
            id: self.id.clone(),
            name: self.name.clone(),
            arguments: self.arguments.clone(),
            thought_signature: self.thought_signature.clone(),
            namespace: self.namespace.clone(),
        }
    }
}

/// A block of a user message or of a tool result.
#[derive(Debug, PartialEq)]
pub enum UserContentBlock {
    Text(TextContent),
    Image(ImageContent),
}

/// The model of [`UserContentBlock`].
pub enum UserContentBlockV {
    Text(TextContentV),
    Image(ImageContentV),
}

impl View for UserContentBlock {
    type V = UserContentBlockV;

    open spec fn view(&self) -> UserContentBlockV {
        match self {
            UserContentBlock::Text(x0) => UserContentBlockV::Text(x0.deep_view()),
            UserContentBlock::Image(x0) => UserContentBlockV::Image(x0.deep_view()),
        }
    }
}

impl DeepView for UserContentBlock {
    type V = UserContentBlockV;

    open spec fn deep_view(&self) -> UserContentBlockV {
        self@
    }
}

impl Clone for UserContentBlock {
    fn clone(&self) -> (r: Self)
        ensures
            r@ == self@,
    {
        match self {
            UserContentBlock::Text(x0) => UserContentBlock::Text(x0.clone()),
            UserContentBlock::Image(x0) => UserContentBlock::Image(x0.clone()),
        }
    }
}

/// The content of a user message.
#[derive(Debug, PartialEq)]
pub enum UserContent {
    Text(String),
    Blocks(Vec<UserContentBlock>),
}

/// The model of [`UserContent`].
pub enum UserContentV {
    Text(Seq<char>),
    Blocks(Seq<UserContentBlockV>),
}

impl View for UserContent {
    type V = UserContentV;

    open spec fn view(&self) -> UserContentV {
        match self {
            UserContent::Text(x0) => UserContentV::Text(x0.deep_view()),
            UserContent::Blocks(x0) => UserContentV::Blocks(x0.deep_view()),
        }
    }
}

impl DeepView for UserContent {
    type V = UserContentV;

    open spec fn deep_view(&self) -> UserContentV {
        self@
    }
}

impl Clone for UserContent {
    fn clone(&self) -> (r: Self)
        ensures
            r@ == self@,
    {
        match self {
            UserContent::Text(x0) => UserContent::Text(x0.clone()),
            UserContent::Blocks(x0) => {
                let y0 = x0.clone();
                assert(y0.deep_view() =~= x0.deep_view());
                UserContent::Blocks(y0)
            },
        }
    }
}

/// A block of an assistant message.
#[derive(Debug, PartialEq)]
pub enum AssistantContent {
    Text(TextContent),
    Thinking(ThinkingContent),
    ToolCall(ToolCall),
}

/// The model of [`AssistantContent`].
pub enum AssistantContentV {
    Text(TextContentV),
    Thinking(ThinkingContentV),
    ToolCall(ToolCallV),
}

impl View for AssistantContent {
    type V = AssistantContentV;

    open spec fn view(&self) -> AssistantContentV {
        match self {
            AssistantContent::Text(x0) => AssistantContentV::Text(x0.deep_view()),
            AssistantContent::Thinking(x0) => AssistantContentV::Thinking(x0.deep_view()),
            AssistantContent::ToolCall(x0) => AssistantContentV::ToolCall(x0.deep_view()),
        }
    }
}

impl DeepView for AssistantContent {
    type V = AssistantContentV;

    open spec fn deep_view(&self) -> AssistantContentV {
        self@
    }
}

impl Clone for AssistantContent {
    fn clone(&self) -> (r: Self)
        ensures
            r@ == self@,
    {
        match self {
            AssistantContent::Text(x0) => AssistantContent::Text(x0.clone()),
            AssistantContent::Thinking(x0) => AssistantContent::Thinking(x0.clone()),
            AssistantContent::ToolCall(x0) => AssistantContent::ToolCall(x0.clone()),
        }
    }
}

/// A token count as a provider reports it.
#[derive(Debug, PartialEq)]
pub enum UsageValue {
    /// A whole number.
    Count(u64),
    /// Another number, by its decimal text.
    Fraction(String),
    /// A string that the provider sent in place of a number.
    Text(String),
}

/// The model of [`UsageValue`].
pub enum UsageValueV {
    Count(u64),
    Fraction(Seq<char>),
    Text(Seq<char>),
}

impl View for UsageValue {
    type V = UsageValueV;

    open spec fn view(&self) -> UsageValueV {
        match self {
            UsageValue::Count(x0) => UsageValueV::Count(x0.deep_view()),
            UsageValue::Fraction(x0) => UsageValueV::Fraction(x0.deep_view()),
            UsageValue::Text(x0) => UsageValueV::Text(x0.deep_view()),
        }
    }
}

impl DeepView for UsageValue {
    type V = UsageValueV;

    open spec fn deep_view(&self) -> UsageValueV {
        self@
    }
}

impl Clone for UsageValue {
    fn clone(&self) -> (r: Self)
        ensures
            r@ == self@,
    {
        match self {
            UsageValue::Count(x0) => UsageValue::Count(*x0),
            UsageValue::Fraction(x0) => UsageValue::Fraction(x0.clone()),
            UsageValue::Text(x0) => UsageValue::Text(x0.clone()),
        }
    }
}

/// The tokens of one turn.
#[derive(Debug, PartialEq)]
pub struct Usage {
    pub input: UsageValue,
    pub output: UsageValue,
    pub cache_read: UsageValue,
    pub cache_write: UsageValue,
    pub reasoning: Option<UsageValue>,
    pub total_tokens: UsageValue,
}

/// The model of [`Usage`].
pub struct UsageV {
    pub input: UsageValueV,
    pub output: UsageValueV,
    pub cache_read: UsageValueV,
    pub cache_write: UsageValueV,
    pub reasoning: Option<UsageValueV>,
    pub total_tokens: UsageValueV,
}

impl View for Usage {
    type V = UsageV;

    open spec fn view(&self) -> UsageV {
        UsageV {
            input: self.input.deep_view(),
            output: self.output.deep_view(),
            cache_read: self.cache_read.deep_view(),
            cache_write: self.cache_write.deep_view(),
            reasoning: self.reasoning.deep_view(),
            total_tokens: self.total_tokens.deep_view(),
        }
    }
}

impl DeepView for Usage {
    type V = UsageV;

    open spec fn deep_view(&self) -> UsageV {
        self@
    }
}

impl Clone for Usage {
    fn clone(&self) -> (r: Self)
        ensures
            r@ == self@,
    {
        Usage {
            input: self.input.clone(),
            output: self.output.clone(),
            cache_read: self.cache_read.clone(),
            cache_write: self.cache_write.clone(),
            reasoning: self.reasoning.clone(),
            total_tokens: self.total_tokens.clone(),
        }
    }
}

/// A message of the user.
#[derive(Debug, PartialEq)]
pub struct UserMessage {
    pub content: UserContent,
    /// Milliseconds since the epoch.
    pub timestamp: i64,
}

/// The model of [`UserMessage`].
pub struct UserMessageV {
    pub content: UserContentV,
    pub timestamp: i64,
}

impl View for UserMessage {
    type V = UserMessageV;

    open spec fn view(&self) -> UserMessageV {
        UserMessageV {
            content: self.content.deep_view(),
            timestamp: self.timestamp.deep_view(),
        }
    }
}

impl DeepView for UserMessage {
    type V = UserMessageV;

    open spec fn deep_view(&self) -> UserMessageV {
        self@
    }
}

impl Clone for UserMessage {
    fn clone(&self) -> (r: Self)
        ensures
            r@ == self@,
    {
        UserMessage {
            content: self.content.clone(),
            timestamp: self.timestamp,
        }
    }
}

/// A turn of the model.
#[derive(Debug, PartialEq)]
pub struct AssistantMessage {
    pub content: Vec<AssistantContent>,
    /// The API that the turn went through.
    pub api: String,
    pub provider: String,
    pub model: String,
    /// The model that answered, where it is another one.
    pub response_model: Option<String>,
    pub response_id: Option<String>,
    pub usage: Usage,
    pub stop_reason: StopReason,
    /// The provider's own word for the stop reason.
    pub raw_stop_reason: Option<String>,
    pub error_message: Option<String>,
    pub reasoning_details: Option<Vec<Json>>,
    /// Whether the provider takes the turn to be at its end, where it says so.
    pub end_turn: Option<bool>,
    pub timestamp: i64,
}

/// The model of [`AssistantMessage`].
pub struct AssistantMessageV {
    pub content: Seq<AssistantContentV>,
    pub api: Seq<char>,
    pub provider: Seq<char>,
    pub model: Seq<char>,
    pub response_model: Option<Seq<char>>,
    pub response_id: Option<Seq<char>>,
    pub usage: UsageV,
    pub stop_reason: StopReason,
    pub raw_stop_reason: Option<Seq<char>>,
    pub error_message: Option<Seq<char>>,
    pub reasoning_details: Option<Seq<JsonV>>,
    pub end_turn: Option<bool>,
    pub timestamp: i64,
}

impl View for AssistantMessage {
    type V = AssistantMessageV;

    open spec fn view(&self) -> AssistantMessageV {
        AssistantMessageV {
            content: self.content.deep_view(),
            api: self.api.deep_view(),
            provider: self.provider.deep_view(),
            model: self.model.deep_view(),
            response_model: self.response_model.deep_view(),
            response_id: self.response_id.deep_view(),
            usage: self.usage.deep_view(),
            stop_reason: self.stop_reason.deep_view(),
            raw_stop_reason: self.raw_stop_reason.deep_view(),
            error_message: self.error_message.deep_view(),
            reasoning_details: self.reasoning_details.deep_view(),
            end_turn: self.end_turn,
            timestamp: self.timestamp.deep_view(),
        }
    }
}

impl DeepView for AssistantMessage {
    type V = AssistantMessageV;

    open spec fn deep_view(&self) -> AssistantMessageV {
        self@
    }
}

impl Clone for AssistantMessage {
    fn clone(&self) -> (r: Self)
        ensures
            r@ == self@,
    {
        let r = AssistantMessage {
            content: self.content.clone(),
            api: self.api.clone(),
            provider: self.provider.clone(),
            model: self.model.clone(),
            response_model: self.response_model.clone(),
            response_id: self.response_id.clone(),
            usage: self.usage.clone(),
            stop_reason: self.stop_reason,
            raw_stop_reason: self.raw_stop_reason.clone(),
            error_message: self.error_message.clone(),
            reasoning_details: self.reasoning_details.clone(),
            end_turn: self.end_turn,
            timestamp: self.timestamp,
        };
        proof {
            assert(r.content.deep_view() =~= self.content.deep_view());
            if self.reasoning_details is Some {
                assert(r.reasoning_details->Some_0.deep_view() =~= self.reasoning_details->Some_0.deep_view());
            }
        }
        r
    }
}

/// The result of a tool call.
#[derive(Debug, PartialEq)]
pub struct ToolResultMessage {
    pub tool_call_id: String,
    pub tool_name: String,
    pub content: Vec<UserContentBlock>,
    pub details: Option<Json>,
    /// What the tool itself used.
    pub usage: Option<Usage>,
    /// Tools that the result makes available.
    pub added_tool_names: Option<Vec<String>>,
    pub is_error: bool,
    pub timestamp: i64,
}

/// The model of [`ToolResultMessage`].
pub struct ToolResultMessageV {
    pub tool_call_id: Seq<char>,
    pub tool_name: Seq<char>,
    pub content: Seq<UserContentBlockV>,
    pub details: Option<JsonV>,
    pub usage: Option<UsageV>,
    pub added_tool_names: Option<Seq<Seq<char>>>,
    pub is_error: bool,
    pub timestamp: i64,
}

impl View for ToolResultMessage {
    type V = ToolResultMessageV;

    open spec fn view(&self) -> ToolResultMessageV {
        ToolResultMessageV {
            tool_call_id: self.tool_call_id.deep_view(),
            tool_name: self.tool_name.deep_view(),
            content: self.content.deep_view(),
            details: self.details.deep_view(),
            usage: self.usage.deep_view(),
            added_tool_names: self.added_tool_names.deep_view(),
            is_error: self.is_error.deep_view(),
            timestamp: self.timestamp.deep_view(),
        }
    }
}

impl DeepView for ToolResultMessage {
    type V = ToolResultMessageV;

    open spec fn deep_view(&self) -> ToolResultMessageV {
        self@
    }
}

impl Clone for ToolResultMessage {
    fn clone(&self) -> (r: Self)
        ensures
            r@ == self@,
    {
        let r = ToolResultMessage {
            tool_call_id: self.tool_call_id.clone(),
            tool_name: self.tool_name.clone(),
            content: self.content.clone(),
            details: self.details.clone(),
            usage: self.usage.clone(),
            added_tool_names: self.added_tool_names.clone(),
            is_error: self.is_error,
            timestamp: self.timestamp,
        };
        proof {
            assert(r.content.deep_view() =~= self.content.deep_view());
            if self.added_tool_names is Some {
                assert(r.added_tool_names->Some_0.deep_view() =~= self.added_tool_names->Some_0.deep_view());
            }
        }
        r
    }
}

/// A message of a conversation.
#[derive(Debug, PartialEq)]
pub enum Message {
    User(UserMessage),
    Assistant(AssistantMessage),
    ToolResult(ToolResultMessage),
}

/// The model of [`Message`].
pub enum MessageV {
    User(UserMessageV),
    Assistant(AssistantMessageV),
    ToolResult(ToolResultMessageV),
}

impl View for Message {
    type V = MessageV;

    open spec fn view(&self) -> MessageV {
        match self {
            Message::User(x0) => MessageV::User(x0.deep_view()),
            Message::Assistant(x0) => MessageV::Assistant(x0.deep_view()),
            Message::ToolResult(x0) => MessageV::ToolResult(x0.deep_view()),
        }
    }
}

impl DeepView for Message {
    type V = MessageV;

    open spec fn deep_view(&self) -> MessageV {
        self@
    }
}

impl Clone for Message {
    fn clone(&self) -> (r: Self)
        ensures
            r@ == self@,
    {
        match self {
            Message::User(x0) => Message::User(x0.clone()),
            Message::Assistant(x0) => Message::Assistant(x0.clone()),
            Message::ToolResult(x0) => Message::ToolResult(x0.clone()),
        }
    }
}

/// What a running turn tells its listener.
#[allow(inconsistent_fields)]
#[derive(Debug, PartialEq)]
pub enum AssistantMessageEvent {
    Start,
    TextStart { content_index: usize },
    TextDelta { content_index: usize, delta: String },
    TextEnd { content_index: usize, content: String, content_signature: Option<String> },
    ThinkingStart { content_index: usize, thinking_signature: Option<String> },
    ThinkingDelta { content_index: usize, delta: String },
    ThinkingEnd { content_index: usize, content: String, content_signature: Option<String>, redacted: Option<bool> },
    ToolCallStart { content_index: usize, id: String, tool_name: String, namespace: Option<String> },
    ToolCallDelta { content_index: usize, delta: String },
    ToolCallEnd { content_index: usize, tool_call: ToolCall },
    Done { reason: SuccessfulStopReason, message: AssistantMessage },
    Error { reason: ErrorStopReason, error: AssistantMessage },
}

/// The model of [`AssistantMessageEvent`].
#[allow(inconsistent_fields)]
pub enum AssistantMessageEventV {
    Start,
    TextStart { content_index: usize },
    TextDelta { content_index: usize, delta: Seq<char> },
    TextEnd { content_index: usize, content: Seq<char>, content_signature: Option<Seq<char>> },
    ThinkingStart { content_index: usize, thinking_signature: Option<Seq<char>> },
    ThinkingDelta { content_index: usize, delta: Seq<char> },
    ThinkingEnd { content_index: usize, content: Seq<char>, content_signature: Option<Seq<char>>, redacted: Option<bool> },
    ToolCallStart { content_index: usize, id: Seq<char>, tool_name: Seq<char>, namespace: Option<Seq<char>> },
    ToolCallDelta { content_index: usize, delta: Seq<char> },
    ToolCallEnd { content_index: usize, tool_call: ToolCallV },
    Done { reason: SuccessfulStopReason, message: AssistantMessageV },
    Error { reason: ErrorStopReason, error: AssistantMessageV },
}

impl View for AssistantMessageEvent {
    type V = AssistantMessageEventV;

    open spec fn view(&self) -> AssistantMessageEventV {
        match self {
            AssistantMessageEvent::Start => AssistantMessageEventV::Start,
            AssistantMessageEvent::TextStart { content_index } => AssistantMessageEventV::TextStart { content_index: content_index.deep_view() },
            AssistantMessageEvent::TextDelta { content_index, delta } => AssistantMessageEventV::TextDelta { content_index: content_index.deep_view(), delta: delta.deep_view() },
            AssistantMessageEvent::TextEnd { content_index, content, content_signature } => AssistantMessageEventV::TextEnd { content_index: content_index.deep_view(), content: content.deep_view(), content_signature: content_signature.deep_view() },
            AssistantMessageEvent::ThinkingStart { content_index, thinking_signature } => AssistantMessageEventV::ThinkingStart { content_index: content_index.deep_view(), thinking_signature: thinking_signature.deep_view() },
            AssistantMessageEvent::ThinkingDelta { content_index, delta } => AssistantMessageEventV::ThinkingDelta { content_index: content_index.deep_view(), delta: delta.deep_view() },
            AssistantMessageEvent::ThinkingEnd { content_index, content, content_signature, redacted } => AssistantMessageEventV::ThinkingEnd { content_index: content_index.deep_view(), content: content.deep_view(), content_signature: content_signature.deep_view(), redacted: redacted.deep_view() },
            AssistantMessageEvent::ToolCallStart { content_index, id, tool_name, namespace } => AssistantMessageEventV::ToolCallStart { content_index: content_index.deep_view(), id: id.deep_view(), tool_name: tool_name.deep_view(), namespace: namespace.deep_view() },
            AssistantMessageEvent::ToolCallDelta { content_index, delta } => AssistantMessageEventV::ToolCallDelta { content_index: content_index.deep_view(), delta: delta.deep_view() },
            AssistantMessageEvent::ToolCallEnd { content_index, tool_call } => AssistantMessageEventV::ToolCallEnd { content_index: content_index.deep_view(), tool_call: tool_call.deep_view() },
            AssistantMessageEvent::Done { reason, message } => AssistantMessageEventV::Done { reason: reason.deep_view(), message: message.deep_view() },
            AssistantMessageEvent::Error { reason, error } => AssistantMessageEventV::Error { reason: reason.deep_view(), error: error.deep_view() },
        }
    }
}

impl DeepView for AssistantMessageEvent {
    type V = AssistantMessageEventV;

    open spec fn deep_view(&self) -> AssistantMessageEventV {
        self@
    }
}

impl Clone for AssistantMessageEvent {
    fn clone(&self) -> (r: Self)
        ensures
            r@ == self@,
    {
        match self {
            AssistantMessageEvent::Start => AssistantMessageEvent::Start,
            AssistantMessageEvent::TextStart { content_index } => AssistantMessageEvent::TextStart { content_index: *content_index },
            AssistantMessageEvent::TextDelta { content_index, delta } => AssistantMessageEvent::TextDelta { content_index: *content_index, delta: delta.clone() },
            AssistantMessageEvent::TextEnd { content_index, content, content_signature } => AssistantMessageEvent::TextEnd { content_index: *content_index, content: content.clone(), content_signature: content_signature.clone() },
            AssistantMessageEvent::ThinkingStart { content_index, thinking_signature } => AssistantMessageEvent::ThinkingStart { content_index: *content_index, thinking_signature: thinking_signature.clone() },
            AssistantMessageEvent::ThinkingDelta { content_index, delta } => AssistantMessageEvent::ThinkingDelta { content_index: *content_index, delta: delta.clone() },
            AssistantMessageEvent::ThinkingEnd { content_index, content, content_signature, redacted } => AssistantMessageEvent::ThinkingEnd { content_index: *content_index, content: content.clone(), content_signature: content_signature.clone(), redacted: *redacted },
            AssistantMessageEvent::ToolCallStart { content_index, id, tool_name, namespace } => AssistantMessageEvent::ToolCallStart { content_index: *content_index, id: id.clone(), tool_name: tool_name.clone(), namespace: namespace.clone() },
            AssistantMessageEvent::ToolCallDelta { content_index, delta } => AssistantMessageEvent::ToolCallDelta { content_index: *content_index, delta: delta.clone() },
            AssistantMessageEvent::ToolCallEnd { content_index, tool_call } => AssistantMessageEvent::ToolCallEnd { content_index: *content_index, tool_call: tool_call.clone() },
            AssistantMessageEvent::Done { reason, message } => AssistantMessageEvent::Done { reason: *reason, message: message.clone() },
            AssistantMessageEvent::Error { reason, error } => AssistantMessageEvent::Error { reason: *reason, error: error.clone() },
        }
    }
}

/// The request field that bounds the answer.
#[derive(Clone, Copy, Debug, PartialEq, Eq, Structural)]
pub enum MaxTokensField {
    MaxTokens,
    MaxCompletionTokens,
}

impl View for MaxTokensField {
    type V = MaxTokensField;

    open spec fn view(&self) -> MaxTokensField {
        *self
    }
}

impl DeepView for MaxTokensField {
    type V = MaxTokensField;

    open spec fn deep_view(&self) -> MaxTokensField {
        *self
    }
}

/// How a chat-completions provider is told to reason.
#[derive(Clone, Copy, Debug, PartialEq, Eq, Structural)]
pub enum ThinkingFormat {
    Openai,
    Openrouter,
    Deepseek,
    Together,
    Zai,
    Qwen,
    QwenChatTemplate,
    ChatTemplate,
    Baseten,
    StringThinking,
    AntLing,
}

impl View for ThinkingFormat {
    type V = ThinkingFormat;

    open spec fn view(&self) -> ThinkingFormat {
        *self
    }
}

impl DeepView for ThinkingFormat {
    type V = ThinkingFormat;

    open spec fn deep_view(&self) -> ThinkingFormat {
        *self
    }
}

/// The request field that bounds the reasoning.
#[derive(Clone, Copy, Debug, PartialEq, Eq, Structural)]
pub enum ThinkingTokenBudgetField {
    ThinkingTokenBudget,
    ThinkingBudget,
    ThinkingBudgetTokens,
}

impl View for ThinkingTokenBudgetField {
    type V = ThinkingTokenBudgetField;

    open spec fn view(&self) -> ThinkingTokenBudgetField {
        *self
    }
}

impl DeepView for ThinkingTokenBudgetField {
    type V = ThinkingTokenBudgetField;

    open spec fn deep_view(&self) -> ThinkingTokenBudgetField {
        *self
    }
}

/// How cache breakpoints are marked.
#[derive(Clone, Copy, Debug, PartialEq, Eq, Structural)]
pub enum CacheControlFormat {
    Anthropic,
}

impl View for CacheControlFormat {
    type V = CacheControlFormat;

    open spec fn view(&self) -> CacheControlFormat {
        *self
    }
}

impl DeepView for CacheControlFormat {
    type V = CacheControlFormat;

    open spec fn deep_view(&self) -> CacheControlFormat {
        *self
    }
}

/// How tools are added in the course of a conversation.
#[derive(Clone, Copy, Debug, PartialEq, Eq, Structural)]
pub enum DeferredToolsMode {
    Kimi,
}

impl View for DeferredToolsMode {
    type V = DeferredToolsMode;

    open spec fn view(&self) -> DeferredToolsMode {
        *self
    }
}

impl DeepView for DeferredToolsMode {
    type V = DeferredToolsMode;

    open spec fn deep_view(&self) -> DeferredToolsMode {
        *self
    }
}

/// What a chat-template variable stands for.
#[derive(Clone, Copy, Debug, PartialEq, Eq, Structural)]
pub enum ThinkingVariable {
    Enabled,
    Budget,
    Effort,
}

impl View for ThinkingVariable {
    type V = ThinkingVariable;

    open spec fn view(&self) -> ThinkingVariable {
        *self
    }
}

impl DeepView for ThinkingVariable {
    type V = ThinkingVariable;

    open spec fn deep_view(&self) -> ThinkingVariable {
        *self
    }
}

/// The notation of a grammar.
#[derive(Clone, Copy, Debug, PartialEq, Eq, Structural)]
pub enum GrammarSyntax {
    Lark,
    Regex,
}

impl View for GrammarSyntax {
    type V = GrammarSyntax;

    open spec fn view(&self) -> GrammarSyntax {
        *self
    }
}

impl DeepView for GrammarSyntax {
    type V = GrammarSyntax;

    open spec fn deep_view(&self) -> GrammarSyntax {
        *self
    }
}

/// A value of a chat template: a constant or a variable.
#[derive(Debug, PartialEq)]
pub enum ChatTemplateKwargValue {
    Text(String),
    Number(JsonNumber),
    Boolean(bool),
    Null,
    Variable { variable: ThinkingVariable, omit_when_off: Option<bool> },
}

/// The model of [`ChatTemplateKwargValue`].
pub enum ChatTemplateKwargValueV {
    Text(Seq<char>),
    Number(JsonNumberV),
    Boolean(bool),
    Null,
    Variable { variable: ThinkingVariable, omit_when_off: Option<bool> },
}

impl View for ChatTemplateKwargValue {
    type V = ChatTemplateKwargValueV;

    open spec fn view(&self) -> ChatTemplateKwargValueV {
        match self {
            ChatTemplateKwargValue::Text(x0) => ChatTemplateKwargValueV::Text(x0.deep_view()),
            ChatTemplateKwargValue::Number(x0) => ChatTemplateKwargValueV::Number(x0.deep_view()),
            ChatTemplateKwargValue::Boolean(x0) => ChatTemplateKwargValueV::Boolean(x0.deep_view()),
            ChatTemplateKwargValue::Null => ChatTemplateKwargValueV::Null,
            ChatTemplateKwargValue::Variable { variable, omit_when_off } => ChatTemplateKwargValueV::Variable { variable: variable.deep_view(), omit_when_off: omit_when_off.deep_view() },
        }
    }
}

impl DeepView for ChatTemplateKwargValue {
    type V = ChatTemplateKwargValueV;

    open spec fn deep_view(&self) -> ChatTemplateKwargValueV {
        self@
    }
}

impl Clone for ChatTemplateKwargValue {
    fn clone(&self) -> (r: Self)
        ensures
            r@ == self@,
    {
        match self {
            ChatTemplateKwargValue::Text(x0) => ChatTemplateKwargValue::Text(x0.clone()),
            ChatTemplateKwargValue::Number(x0) => ChatTemplateKwargValue::Number(x0.clone()),
            ChatTemplateKwargValue::Boolean(x0) => ChatTemplateKwargValue::Boolean(*x0),
            ChatTemplateKwargValue::Null => ChatTemplateKwargValue::Null,
            ChatTemplateKwargValue::Variable { variable, omit_when_off } => ChatTemplateKwargValue::Variable { variable: *variable, omit_when_off: *omit_when_off },
        }
    }
}

impl Duplicate for ChatTemplateKwargValue {
    fn duplicate(&self) -> (r: Self) {
        self.clone()
    }
}

/// The providers that a Vercel gateway may use.
#[derive(Debug, PartialEq)]
pub struct VercelGatewayRouting {
    pub only: Option<Vec<String>>,
    pub order: Option<Vec<String>>,
}

/// The model of [`VercelGatewayRouting`].
pub struct VercelGatewayRoutingV {
    pub only: Option<Seq<Seq<char>>>,
    pub order: Option<Seq<Seq<char>>>,
}

impl View for VercelGatewayRouting {
    type V = VercelGatewayRoutingV;

    open spec fn view(&self) -> VercelGatewayRoutingV {
        VercelGatewayRoutingV {
            only: self.only.deep_view(),
            order: self.order.deep_view(),
        }
    }
}

impl DeepView for VercelGatewayRouting {
    type V = VercelGatewayRoutingV;

    open spec fn deep_view(&self) -> VercelGatewayRoutingV {
        self@
    }
}

impl Clone for VercelGatewayRouting {
    fn clone(&self) -> (r: Self)
        ensures
            r@ == self@,
    {
        let r = VercelGatewayRouting {
            only: self.only.clone(),
            order: self.order.clone(),
        };
        proof {
            if self.only is Some {
                assert(r.only->Some_0.deep_view() =~= self.only->Some_0.deep_view());
            }
            if self.order is Some {
                assert(r.order->Some_0.deep_view() =~= self.order->Some_0.deep_view());
            }
        }
        r
    }
}

impl Default for VercelGatewayRouting {
    fn default() -> (r: Self)
        ensures
            r.only is None,
            r.order is None,
    {
        VercelGatewayRouting {
            only: None,
            order: None,
        }
    }
}

/// What is configured of a chat-completions provider.
#[derive(Debug, PartialEq)]
pub struct OpenAICompletionsCompat {
    pub supports_store: Option<bool>,
    pub supports_developer_role: Option<bool>,
    pub supports_reasoning_effort: Option<bool>,
    pub supports_usage_in_streaming: Option<bool>,
    pub supports_finish_reason: Option<bool>,
    pub max_tokens_field: Option<MaxTokensField>,
    pub requires_tool_result_name: Option<bool>,
    pub requires_assistant_after_tool_result: Option<bool>,
    pub requires_thinking_as_text: Option<bool>,
    pub requires_reasoning_content_on_assistant_messages: Option<bool>,
    pub thinking_format: Option<ThinkingFormat>,
    pub chat_template_kwargs: Option<Vec<(String, ChatTemplateKwargValue)>>,
    pub chat_template_args: Option<Vec<(String, ChatTemplateKwargValue)>>,
    /// Forwarded as it is.
    pub open_router_routing: Option<Json>,
    pub vercel_gateway_routing: Option<VercelGatewayRouting>,
    pub zai_tool_stream: Option<bool>,
    pub thinking_token_budget_field: Option<ThinkingTokenBudgetField>,
    pub supports_thinking_token_budget: Option<bool>,
    pub supports_open_ai_grammar_tools: Option<bool>,
    pub supports_strict_mode: Option<bool>,
    pub cache_control_format: Option<CacheControlFormat>,
    pub send_session_affinity_headers: Option<bool>,
    pub deferred_tools_mode: Option<DeferredToolsMode>,
    pub session_affinity_format: Option<SessionAffinityFormat>,
    pub supports_long_cache_retention: Option<bool>,
}

/// The model of [`OpenAICompletionsCompat`].
pub struct OpenAICompletionsCompatV {
    pub supports_store: Option<bool>,
    pub supports_developer_role: Option<bool>,
    pub supports_reasoning_effort: Option<bool>,
    pub supports_usage_in_streaming: Option<bool>,
    pub supports_finish_reason: Option<bool>,
    pub max_tokens_field: Option<MaxTokensField>,
    pub requires_tool_result_name: Option<bool>,
    pub requires_assistant_after_tool_result: Option<bool>,
    pub requires_thinking_as_text: Option<bool>,
    pub requires_reasoning_content_on_assistant_messages: Option<bool>,
    pub thinking_format: Option<ThinkingFormat>,
    pub chat_template_kwargs: Option<Seq<(Seq<char>, ChatTemplateKwargValueV)>>,
    pub chat_template_args: Option<Seq<(Seq<char>, ChatTemplateKwargValueV)>>,
    pub open_router_routing: Option<JsonV>,
    pub vercel_gateway_routing: Option<VercelGatewayRoutingV>,
    pub zai_tool_stream: Option<bool>,
    pub thinking_token_budget_field: Option<ThinkingTokenBudgetField>,
    pub supports_thinking_token_budget: Option<bool>,
    pub supports_open_ai_grammar_tools: Option<bool>,
    pub supports_strict_mode: Option<bool>,
    pub cache_control_format: Option<CacheControlFormat>,
    pub send_session_affinity_headers: Option<bool>,
    pub deferred_tools_mode: Option<DeferredToolsMode>,
    pub session_affinity_format: Option<SessionAffinityFormat>,
    pub supports_long_cache_retention: Option<bool>,
}

impl View for OpenAICompletionsCompat {
    type V = OpenAICompletionsCompatV;

    open spec fn view(&self) -> OpenAICompletionsCompatV {
        OpenAICompletionsCompatV {
            supports_store: self.supports_store.deep_view(),
            supports_developer_role: self.supports_developer_role.deep_view(),
            supports_reasoning_effort: self.supports_reasoning_effort.deep_view(),
            supports_usage_in_streaming: self.supports_usage_in_streaming.deep_view(),
            supports_finish_reason: self.supports_finish_reason.deep_view(),
            max_tokens_field: self.max_tokens_field.deep_view(),
            requires_tool_result_name: self.requires_tool_result_name.deep_view(),
            requires_assistant_after_tool_result: self.requires_assistant_after_tool_result.deep_view(),
            requires_thinking_as_text: self.requires_thinking_as_text.deep_view(),
            requires_reasoning_content_on_assistant_messages: self.requires_reasoning_content_on_assistant_messages.deep_view(),
            thinking_format: self.thinking_format.deep_view(),
            chat_template_kwargs: self.chat_template_kwargs.deep_view(),
            chat_template_args: self.chat_template_args.deep_view(),
            open_router_routing: self.open_router_routing.deep_view(),
            vercel_gateway_routing: self.vercel_gateway_routing.deep_view(),
            zai_tool_stream: self.zai_tool_stream.deep_view(),
            thinking_token_budget_field: self.thinking_token_budget_field.deep_view(),
            supports_thinking_token_budget: self.supports_thinking_token_budget.deep_view(),
            supports_open_ai_grammar_tools: self.supports_open_ai_grammar_tools.deep_view(),
            supports_strict_mode: self.supports_strict_mode.deep_view(),
            cache_control_format: self.cache_control_format.deep_view(),
            send_session_affinity_headers: self.send_session_affinity_headers.deep_view(),
            deferred_tools_mode: self.deferred_tools_mode.deep_view(),
            session_affinity_format: self.session_affinity_format.deep_view(),
            supports_long_cache_retention: self.supports_long_cache_retention.deep_view(),
        }
    }
}

impl DeepView for OpenAICompletionsCompat {
    type V = OpenAICompletionsCompatV;

    open spec fn deep_view(&self) -> OpenAICompletionsCompatV {
        self@
    }
}

impl Clone for OpenAICompletionsCompat {
    fn clone(&self) -> (r: Self)
        ensures
            r@ == self@,
    {
        OpenAICompletionsCompat {
            supports_store: self.supports_store,
            supports_developer_role: self.supports_developer_role,
            supports_reasoning_effort: self.supports_reasoning_effort,
            supports_usage_in_streaming: self.supports_usage_in_streaming,
            supports_finish_reason: self.supports_finish_reason,
            max_tokens_field: self.max_tokens_field,
            requires_tool_result_name: self.requires_tool_result_name,
            requires_assistant_after_tool_result: self.requires_assistant_after_tool_result,
            requires_thinking_as_text: self.requires_thinking_as_text,
            requires_reasoning_content_on_assistant_messages: self.requires_reasoning_content_on_assistant_messages,
            thinking_format: self.thinking_format,
            chat_template_kwargs: copy_optional_list(&self.chat_template_kwargs),
            chat_template_args: copy_optional_list(&self.chat_template_args),
            open_router_routing: self.open_router_routing.clone(),
            vercel_gateway_routing: self.vercel_gateway_routing.clone(),
            zai_tool_stream: self.zai_tool_stream,
            thinking_token_budget_field: self.thinking_token_budget_field,
            supports_thinking_token_budget: self.supports_thinking_token_budget,
            supports_open_ai_grammar_tools: self.supports_open_ai_grammar_tools,
            supports_strict_mode: self.supports_strict_mode,
            cache_control_format: self.cache_control_format,
            send_session_affinity_headers: self.send_session_affinity_headers,
            deferred_tools_mode: self.deferred_tools_mode,
            session_affinity_format: self.session_affinity_format,
            supports_long_cache_retention: self.supports_long_cache_retention,
        }
    }
}

impl Default for OpenAICompletionsCompat {
    fn default() -> (r: Self)
        ensures
            r.supports_store is None,
            r.supports_developer_role is None,
            r.supports_reasoning_effort is None,
            r.supports_usage_in_streaming is None,
            r.supports_finish_reason is None,
            r.max_tokens_field is None,
            r.requires_tool_result_name is None,
            r.requires_assistant_after_tool_result is None,
            r.requires_thinking_as_text is None,
            r.requires_reasoning_content_on_assistant_messages is None,
            r.thinking_format is None,
            r.chat_template_kwargs is None,
            r.chat_template_args is None,
            r.open_router_routing is None,
            r.vercel_gateway_routing is None,
            r.zai_tool_stream is None,
            r.thinking_token_budget_field is None,
            r.supports_thinking_token_budget is None,
            r.supports_open_ai_grammar_tools is None,
            r.supports_strict_mode is None,
            r.cache_control_format is None,
            r.send_session_affinity_headers is None,
            r.deferred_tools_mode is None,
            r.session_affinity_format is None,
            r.supports_long_cache_retention is None,
    {
        OpenAICompletionsCompat {
            supports_store: None,
            supports_developer_role: None,
            supports_reasoning_effort: None,
            supports_usage_in_streaming: None,
            supports_finish_reason: None,
            max_tokens_field: None,
            requires_tool_result_name: None,
            requires_assistant_after_tool_result: None,
            requires_thinking_as_text: None,
            requires_reasoning_content_on_assistant_messages: None,
            thinking_format: None,
            chat_template_kwargs: None,
            chat_template_args: None,
            open_router_routing: None,
            vercel_gateway_routing: None,
            zai_tool_stream: None,
            thinking_token_budget_field: None,
            supports_thinking_token_budget: None,
            supports_open_ai_grammar_tools: None,
            supports_strict_mode: None,
            cache_control_format: None,
            send_session_affinity_headers: None,
            deferred_tools_mode: None,
            session_affinity_format: None,
            supports_long_cache_retention: None,
        }
    }
}

/// What is configured of a Responses provider.
#[derive(Debug, PartialEq)]
pub struct OpenAIResponsesCompat {
    pub supports_developer_role: Option<bool>,
    pub session_affinity_format: Option<SessionAffinityFormat>,
    pub supports_long_cache_retention: Option<bool>,
    pub supports_strict_mode: Option<bool>,
    pub supports_open_ai_grammar_tools: Option<bool>,
    pub supports_additional_tools: Option<bool>,
    pub supports_tool_search: Option<bool>,
    pub supports_explicit_prompt_cache_mode: Option<bool>,
}

/// The model of [`OpenAIResponsesCompat`].
pub struct OpenAIResponsesCompatV {
    pub supports_developer_role: Option<bool>,
    pub session_affinity_format: Option<SessionAffinityFormat>,
    pub supports_long_cache_retention: Option<bool>,
    pub supports_strict_mode: Option<bool>,
    pub supports_open_ai_grammar_tools: Option<bool>,
    pub supports_additional_tools: Option<bool>,
    pub supports_tool_search: Option<bool>,
    pub supports_explicit_prompt_cache_mode: Option<bool>,
}

impl View for OpenAIResponsesCompat {
    type V = OpenAIResponsesCompatV;

    open spec fn view(&self) -> OpenAIResponsesCompatV {
        OpenAIResponsesCompatV {
            supports_developer_role: self.supports_developer_role.deep_view(),
            session_affinity_format: self.session_affinity_format.deep_view(),
            supports_long_cache_retention: self.supports_long_cache_retention.deep_view(),
            supports_strict_mode: self.supports_strict_mode.deep_view(),
            supports_open_ai_grammar_tools: self.supports_open_ai_grammar_tools.deep_view(),
            supports_additional_tools: self.supports_additional_tools.deep_view(),
            supports_tool_search: self.supports_tool_search.deep_view(),
            supports_explicit_prompt_cache_mode: self.supports_explicit_prompt_cache_mode.deep_view(),
        }
    }
}

impl DeepView for OpenAIResponsesCompat {
    type V = OpenAIResponsesCompatV;

    open spec fn deep_view(&self) -> OpenAIResponsesCompatV {
        self@
    }
}

impl Clone for OpenAIResponsesCompat {
    fn clone(&self) -> (r: Self)
        ensures
            r@ == self@,
    {
        OpenAIResponsesCompat {
            supports_developer_role: self.supports_developer_role,
            session_affinity_format: self.session_affinity_format,
            supports_long_cache_retention: self.supports_long_cache_retention,
            supports_strict_mode: self.supports_strict_mode,
            supports_open_ai_grammar_tools: self.supports_open_ai_grammar_tools,
            supports_additional_tools: self.supports_additional_tools,
            supports_tool_search: self.supports_tool_search,
            supports_explicit_prompt_cache_mode: self.supports_explicit_prompt_cache_mode,
        }
    }
}

impl Default for OpenAIResponsesCompat {
    fn default() -> (r: Self)
        ensures
            r.supports_developer_role is None,
            r.session_affinity_format is None,
            r.supports_long_cache_retention is None,
            r.supports_strict_mode is None,
            r.supports_open_ai_grammar_tools is None,
            r.supports_additional_tools is None,
            r.supports_tool_search is None,
            r.supports_explicit_prompt_cache_mode is None,
    {
        OpenAIResponsesCompat {
            supports_developer_role: None,
            session_affinity_format: None,
            supports_long_cache_retention: None,
            supports_strict_mode: None,
            supports_open_ai_grammar_tools: None,
            supports_additional_tools: None,
            supports_tool_search: None,
            supports_explicit_prompt_cache_mode: None,
        }
    }
}

/// What is configured of a provider.
#[derive(Debug, PartialEq)]
pub enum ModelCompat {
    OpenAICompletions(OpenAICompletionsCompat),
    OpenAIResponses(OpenAIResponsesCompat),
}

/// The model of [`ModelCompat`].
pub enum ModelCompatV {
    OpenAICompletions(OpenAICompletionsCompatV),
    OpenAIResponses(OpenAIResponsesCompatV),
}

impl View for ModelCompat {
    type V = ModelCompatV;

    open spec fn view(&self) -> ModelCompatV {
        match self {
            ModelCompat::OpenAICompletions(x0) => ModelCompatV::OpenAICompletions(x0.deep_view()),
            ModelCompat::OpenAIResponses(x0) => ModelCompatV::OpenAIResponses(x0.deep_view()),
        }
    }
}

impl DeepView for ModelCompat {
    type V = ModelCompatV;

    open spec fn deep_view(&self) -> ModelCompatV {
        self@
    }
}

impl Clone for ModelCompat {
    fn clone(&self) -> (r: Self)
        ensures
            r@ == self@,
    {
        match self {
            ModelCompat::OpenAICompletions(x0) => ModelCompat::OpenAICompletions(x0.clone()),
            ModelCompat::OpenAIResponses(x0) => ModelCompat::OpenAIResponses(x0.clone()),
        }
    }
}

/// The provider's names of the thinking levels; a null where it has none.
#[derive(Debug, PartialEq)]
pub struct ThinkingLevelMap {
    pub off: Option<Option<String>>,
    pub minimal: Option<Option<String>>,
    pub low: Option<Option<String>>,
    pub medium: Option<Option<String>>,
    pub high: Option<Option<String>>,
    pub xhigh: Option<Option<String>>,
    pub max: Option<Option<String>>,
}

/// The model of [`ThinkingLevelMap`].
pub struct ThinkingLevelMapV {
    pub off: Option<Option<Seq<char>>>,
    pub minimal: Option<Option<Seq<char>>>,
    pub low: Option<Option<Seq<char>>>,
    pub medium: Option<Option<Seq<char>>>,
    pub high: Option<Option<Seq<char>>>,
    pub xhigh: Option<Option<Seq<char>>>,
    pub max: Option<Option<Seq<char>>>,
}

impl View for ThinkingLevelMap {
    type V = ThinkingLevelMapV;

    open spec fn view(&self) -> ThinkingLevelMapV {
        ThinkingLevelMapV {
            off: self.off.deep_view(),
            minimal: self.minimal.deep_view(),
            low: self.low.deep_view(),
            medium: self.medium.deep_view(),
            high: self.high.deep_view(),
            xhigh: self.xhigh.deep_view(),
            max: self.max.deep_view(),
        }
    }
}

impl DeepView for ThinkingLevelMap {
    type V = ThinkingLevelMapV;

    open spec fn deep_view(&self) -> ThinkingLevelMapV {
        self@
    }
}

impl Clone for ThinkingLevelMap {
    fn clone(&self) -> (r: Self)
        ensures
            r@ == self@,
    {
        ThinkingLevelMap {
            off: self.off.clone(),
            minimal: self.minimal.clone(),
            low: self.low.clone(),
            medium: self.medium.clone(),
            high: self.high.clone(),
            xhigh: self.xhigh.clone(),
            max: self.max.clone(),
        }
    }
}

impl Default for ThinkingLevelMap {
    fn default() -> (r: Self)
        ensures
            r.off is None,
            r.minimal is None,
            r.low is None,
            r.medium is None,
            r.high is None,
            r.xhigh is None,
            r.max is None,
    {
        ThinkingLevelMap {
            off: None,
            minimal: None,
            low: None,
            medium: None,
            high: None,
            xhigh: None,
            max: None,
        }
    }
}

/// A model of a provider.
#[derive(Debug, PartialEq)]
pub struct Model {
    pub id: String,
    pub name: String,
    pub api: String,
    pub provider: String,
    pub base_url: String,
    pub reasoning: bool,
    pub thinking_level_map: Option<ThinkingLevelMap>,
    pub input: Vec<ModelInput>,
    /// Zero where it is not known.
    pub context_window: u64,
    pub max_tokens: u64,
    pub sampling_params: Option<JsonObject>,
    pub headers: Option<Vec<(String, String)>>,
    pub compat: Option<ModelCompat>,
}

/// The model of [`Model`].
pub struct ModelV {
    pub id: Seq<char>,
    pub name: Seq<char>,
    pub api: Seq<char>,
    pub provider: Seq<char>,
    pub base_url: Seq<char>,
    pub reasoning: bool,
    pub thinking_level_map: Option<ThinkingLevelMapV>,
    pub input: Seq<ModelInput>,
    pub context_window: u64,
    pub max_tokens: u64,
    pub sampling_params: Option<Seq<(Seq<char>, JsonV)>>,
    pub headers: Option<Seq<(Seq<char>, Seq<char>)>>,
    pub compat: Option<ModelCompatV>,
}

impl View for Model {
    type V = ModelV;

    open spec fn view(&self) -> ModelV {
        ModelV {
            id: self.id.deep_view(),
            name: self.name.deep_view(),
            api: self.api.deep_view(),
            provider: self.provider.deep_view(),
            base_url: self.base_url.deep_view(),
            reasoning: self.reasoning.deep_view(),
            thinking_level_map: self.thinking_level_map.deep_view(),
            input: self.input.deep_view(),
            context_window: self.context_window.deep_view(),
            max_tokens: self.max_tokens.deep_view(),
            sampling_params: self.sampling_params.deep_view(),
            headers: self.headers.deep_view(),
            compat: self.compat.deep_view(),
        }
    }
}

impl DeepView for Model {
    type V = ModelV;

    open spec fn deep_view(&self) -> ModelV {
        self@
    }
}

impl Clone for Model {
    fn clone(&self) -> (r: Self)
        ensures
            r@ == self@,
    {
        let r = Model {
            id: self.id.clone(),
            name: self.name.clone(),
            api: self.api.clone(),
            provider: self.provider.clone(),
            base_url: self.base_url.clone(),
            reasoning: self.reasoning,
            thinking_level_map: self.thinking_level_map.clone(),
            input: self.input.clone(),
            context_window: self.context_window,
            max_tokens: self.max_tokens,
            sampling_params: copy_optional_list(&self.sampling_params),
            headers: copy_optional_list(&self.headers),
            compat: self.compat.clone(),
        };
        proof {
            assert(r.input.deep_view() =~= self.input.deep_view());
        }
        r
    }
}

/// A grammar that a tool's input follows.
#[derive(Debug, PartialEq)]
pub struct ToolGrammar {
    pub syntax: GrammarSyntax,
    pub definition: String,
    /// The argument that holds the input.
    pub input_property: String,
}

/// The model of [`ToolGrammar`].
pub struct ToolGrammarV {
    pub syntax: GrammarSyntax,
    pub definition: Seq<char>,
    pub input_property: Seq<char>,
}

impl View for ToolGrammar {
    type V = ToolGrammarV;

    open spec fn view(&self) -> ToolGrammarV {
        ToolGrammarV {
            syntax: self.syntax.deep_view(),
            definition: self.definition.deep_view(),
            input_property: self.input_property.deep_view(),
        }
    }
}

impl DeepView for ToolGrammar {
    type V = ToolGrammarV;

    open spec fn deep_view(&self) -> ToolGrammarV {
        self@
    }
}

impl Clone for ToolGrammar {
    fn clone(&self) -> (r: Self)
        ensures
            r@ == self@,
    {
        ToolGrammar {
            syntax: self.syntax,
            definition: self.definition.clone(),
            input_property: self.input_property.clone(),
        }
    }
}

/// A tool.
#[derive(Debug, PartialEq)]
pub struct Tool {
    pub name: String,
    pub description: String,
    /// The schema of the arguments.
    pub parameters: Json,
    /// The schema that is sent where sampling is strict.
    pub strict_parameters: Json,
    /// Whether sampling is strict, where the tool decides that.
    pub strict: Option<bool>,
    /// The grammar that the input is sampled from, where there is one.
    pub grammar: Option<ToolGrammar>,
}

/// The model of [`Tool`].
pub struct ToolV {
    pub name: Seq<char>,
    pub description: Seq<char>,
    pub parameters: JsonV,
    pub strict_parameters: JsonV,
    pub strict: Option<bool>,
    pub grammar: Option<ToolGrammarV>,
}

impl View for Tool {
    type V = ToolV;

    open spec fn view(&self) -> ToolV {
        ToolV {
            name: self.name.deep_view(),
            description: self.description.deep_view(),
            parameters: self.parameters.deep_view(),
            strict_parameters: self.strict_parameters.deep_view(),
            strict: self.strict.deep_view(),
            grammar: self.grammar.deep_view(),
        }
    }
}

impl DeepView for Tool {
    type V = ToolV;

    open spec fn deep_view(&self) -> ToolV {
        self@
    }
}

impl Clone for Tool {
    fn clone(&self) -> (r: Self)
        ensures
            r@ == self@,
    {
        Tool {
            name: self.name.clone(),
            description: self.description.clone(),
            parameters: self.parameters.clone(),
            strict_parameters: self.strict_parameters.clone(),
            strict: self.strict,
            grammar: self.grammar.clone(),
        }
    }
}

impl Duplicate for Tool {
    fn duplicate(&self) -> (r: Self) {
        self.clone()
    }
}

/// What a request is about.
#[derive(Debug, PartialEq)]
pub struct Context {
    pub system_prompt: Option<String>,
    pub messages: Vec<Message>,
    pub tools: Option<Vec<Tool>>,
}

/// The model of [`Context`].
pub struct ContextV {
    pub system_prompt: Option<Seq<char>>,
    pub messages: Seq<MessageV>,
    pub tools: Option<Seq<ToolV>>,
}

impl View for Context {
    type V = ContextV;

    open spec fn view(&self) -> ContextV {
        ContextV {
            system_prompt: self.system_prompt.deep_view(),
            messages: self.messages.deep_view(),
            tools: self.tools.deep_view(),
        }
    }
}

impl DeepView for Context {
    type V = ContextV;

    open spec fn deep_view(&self) -> ContextV {
        self@
    }
}

impl Clone for Context {
    fn clone(&self) -> (r: Self)
        ensures
            r@ == self@,
    {
        let r = Context {
            system_prompt: self.system_prompt.clone(),
            messages: self.messages.clone(),
            tools: self.tools.clone(),
        };
        proof {
            assert(r.messages.deep_view() =~= self.messages.deep_view());
            if self.tools is Some {
                assert(r.tools->Some_0.deep_view() =~= self.tools->Some_0.deep_view());
            }
        }
        r
    }
}

/// Reasoning budgets by level, in tokens.
#[derive(Clone, Copy, Debug, PartialEq, Eq, Structural)]
pub struct ThinkingBudgets {
    pub minimal: Option<u64>,
    pub low: Option<u64>,
    pub medium: Option<u64>,
    pub high: Option<u64>,
}

impl View for ThinkingBudgets {
    type V = ThinkingBudgets;

    open spec fn view(&self) -> ThinkingBudgets {
        *self
    }
}

impl DeepView for ThinkingBudgets {
    type V = ThinkingBudgets;

    open spec fn deep_view(&self) -> ThinkingBudgets {
        *self
    }
}

impl Default for ThinkingBudgets {
    fn default() -> (r: Self)
        ensures
            r == (ThinkingBudgets { minimal: None, low: None, medium: None, high: None }),
    {
        ThinkingBudgets { minimal: None, low: None, medium: None, high: None }
    }
}

/// What concerns the request itself.
#[derive(Debug, PartialEq)]
pub struct RequestOptions {
    pub api_key: Option<String>,
    /// Headers to set, or to leave out where there is no value.
    pub headers: Option<Vec<(String, Option<String>)>>,
}

/// The model of [`RequestOptions`].
pub struct RequestOptionsV {
    pub api_key: Option<Seq<char>>,
    pub headers: Option<Seq<(Seq<char>, Option<Seq<char>>)>>,
}

impl View for RequestOptions {
    type V = RequestOptionsV;

    open spec fn view(&self) -> RequestOptionsV {
        RequestOptionsV {
            api_key: self.api_key.deep_view(),
            headers: self.headers.deep_view(),
        }
    }
}

impl DeepView for RequestOptions {
    type V = RequestOptionsV;

    open spec fn deep_view(&self) -> RequestOptionsV {
        self@
    }
}

impl Clone for RequestOptions {
    fn clone(&self) -> (r: Self)
        ensures
            r@ == self@,
    {
        RequestOptions {
            api_key: self.api_key.clone(),
            headers: copy_optional_list(&self.headers),
        }
    }
}

impl Default for RequestOptions {
    fn default() -> (r: Self)
        ensures
            r.api_key is None,
            r.headers is None,
    {
        RequestOptions {
            api_key: None,
            headers: None,
        }
    }
}

/// What every API takes.
#[derive(Debug, PartialEq)]
pub struct StreamOptions {
    pub request: RequestOptions,
    pub temperature: Option<JsonNumber>,
    pub max_tokens: Option<u64>,
    pub session_id: Option<String>,
    pub cache_retention: Option<CacheRetention>,
    pub sampling_params: Option<JsonObject>,
    pub metadata: Option<JsonObject>,
}

/// The model of [`StreamOptions`].
pub struct StreamOptionsV {
    pub request: RequestOptionsV,
    pub temperature: Option<JsonNumberV>,
    pub max_tokens: Option<u64>,
    pub session_id: Option<Seq<char>>,
    pub cache_retention: Option<CacheRetention>,
    pub sampling_params: Option<Seq<(Seq<char>, JsonV)>>,
    pub metadata: Option<Seq<(Seq<char>, JsonV)>>,
}

impl View for StreamOptions {
    type V = StreamOptionsV;

    open spec fn view(&self) -> StreamOptionsV {
        StreamOptionsV {
            request: self.request.deep_view(),
            temperature: self.temperature.deep_view(),
            max_tokens: self.max_tokens.deep_view(),
            session_id: self.session_id.deep_view(),
            cache_retention: self.cache_retention.deep_view(),
            sampling_params: self.sampling_params.deep_view(),
            metadata: self.metadata.deep_view(),
        }
    }
}

impl DeepView for StreamOptions {
    type V = StreamOptionsV;

    open spec fn deep_view(&self) -> StreamOptionsV {
        self@
    }
}

impl Clone for StreamOptions {
    fn clone(&self) -> (r: Self)
        ensures
            r@ == self@,
    {
        StreamOptions {
            request: self.request.clone(),
            temperature: self.temperature.clone(),
            max_tokens: self.max_tokens,
            session_id: self.session_id.clone(),
            cache_retention: self.cache_retention,
            sampling_params: copy_optional_list(&self.sampling_params),
            metadata: copy_optional_list(&self.metadata),
        }
    }
}

impl Default for StreamOptions {
    fn default() -> (r: Self)
        ensures
            call_ensures(RequestOptions::default, (), r.request),
            r.temperature is None,
            r.max_tokens is None,
            r.session_id is None,
            r.cache_retention is None,
            r.sampling_params is None,
            r.metadata is None,
    {
        StreamOptions {
            request: RequestOptions::default(),
            temperature: None,
            max_tokens: None,
            session_id: None,
            cache_retention: None,
            sampling_params: None,
            metadata: None,
        }
    }
}

/// What a caller who knows no API asks for.
#[derive(Debug, PartialEq)]
pub struct SimpleStreamOptions {
    pub stream: StreamOptions,
    pub reasoning: Option<ThinkingLevel>,
    pub thinking_budgets: Option<ThinkingBudgets>,
    pub tool_choice: Option<ToolChoice>,
}

/// The model of [`SimpleStreamOptions`].
pub struct SimpleStreamOptionsV {
    pub stream: StreamOptionsV,
    pub reasoning: Option<ThinkingLevel>,
    pub thinking_budgets: Option<ThinkingBudgets>,
    pub tool_choice: Option<ToolChoice>,
}

impl View for SimpleStreamOptions {
    type V = SimpleStreamOptionsV;

    open spec fn view(&self) -> SimpleStreamOptionsV {
        SimpleStreamOptionsV {
            stream: self.stream.deep_view(),
            reasoning: self.reasoning.deep_view(),
            thinking_budgets: self.thinking_budgets.deep_view(),
            tool_choice: self.tool_choice.deep_view(),
        }
    }
}

impl DeepView for SimpleStreamOptions {
    type V = SimpleStreamOptionsV;

    open spec fn deep_view(&self) -> SimpleStreamOptionsV {
        self@
    }
}

impl Clone for SimpleStreamOptions {
    fn clone(&self) -> (r: Self)
        ensures
            r@ == self@,
    {
        SimpleStreamOptions {
            stream: self.stream.clone(),
            reasoning: self.reasoning,
            thinking_budgets: self.thinking_budgets,
            tool_choice: self.tool_choice,
        }
    }
}

impl Default for SimpleStreamOptions {
    fn default() -> (r: Self)
        ensures
            call_ensures(StreamOptions::default, (), r.stream),
            r.reasoning is None,
            r.thinking_budgets is None,
            r.tool_choice is None,
    {
        SimpleStreamOptions {
            stream: StreamOptions::default(),
            reasoning: None,
            thinking_budgets: None,
            tool_choice: None,
        }
    }
}

impl ThinkingContent {
    /// Reasoning that is not signed.
    pub fn new(thinking: &str) -> (r: Self)
        ensures
            r@ == (ThinkingContentV {
                thinking: thinking@,
                thinking_signature: None,
                redacted: None,
            }),
    {
        ThinkingContent {
            thinking: thinking.to_owned(),
            thinking_signature: None,
            redacted: None,
        }
    }
}

impl ImageContent {
    /// An image.
    pub fn new(data: &str, mime_type: &str) -> (r: Self)
        ensures
            r@ == (ImageContentV { data: data@, mime_type: mime_type@ }),
    {
        ImageContent { data: data.to_owned(), mime_type: mime_type.to_owned() }
    }
}

impl ToolCall {
    /// A call that is not signed.
    pub fn new(id: &str, name: &str, arguments: Json) -> (r: Self)
        ensures
            r@ == (ToolCallV {
                id: id@,
                name: name@,
                arguments: arguments@,
                thought_signature: None,
                namespace: None,
            }),
    {
        ToolCall {
            id: id.to_owned(),
            name: name.to_owned(),
            arguments,
            thought_signature: None,
            namespace: None,
        }
    }
}

} // verus!
