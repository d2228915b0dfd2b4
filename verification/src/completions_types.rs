//! The types of the chat-completions API.
use crate::assoc::copy_list;
use crate::json::{Json, JsonNumber, JsonNumberV, JsonObject, JsonV};
use crate::types::{
    CacheControlFormat, ChatTemplateKwargValue, ChatTemplateKwargValueV, DeferredToolsMode,
    GrammarSyntax, MaxTokensField, SessionAffinityFormat, StreamOptions, StreamOptionsV,
    ThinkingBudgets, ThinkingFormat, ThinkingLevel, ThinkingTokenBudgetField, VercelGatewayRouting,
    VercelGatewayRoutingV,
};
use vstd::prelude::*;

verus! {

/// Whether the model may or must call tools.
#[derive(Clone, Copy, Debug, PartialEq, Eq, Structural)]
pub enum OpenAIChatToolChoiceMode {
    Never,
    Auto,
    Required,
}

impl View for OpenAIChatToolChoiceMode {
    type V = OpenAIChatToolChoiceMode;

    open spec fn view(&self) -> OpenAIChatToolChoiceMode {
        *self
    }
}

impl DeepView for OpenAIChatToolChoiceMode {
    type V = OpenAIChatToolChoiceMode;

    open spec fn deep_view(&self) -> OpenAIChatToolChoiceMode {
        *self
    }
}

/// The tool that is chosen.
#[derive(Debug, PartialEq)]
pub struct OpenAIChatToolChoiceFunction {
    pub name: String,
}

/// The model of [`OpenAIChatToolChoiceFunction`].
pub struct OpenAIChatToolChoiceFunctionV {
    pub name: Seq<char>,
}

impl View for OpenAIChatToolChoiceFunction {
    type V = OpenAIChatToolChoiceFunctionV;

    open spec fn view(&self) -> OpenAIChatToolChoiceFunctionV {
        OpenAIChatToolChoiceFunctionV {
            name: self.name.deep_view(),
        }
    }
}

impl DeepView for OpenAIChatToolChoiceFunction {
    type V = OpenAIChatToolChoiceFunctionV;

    open spec fn deep_view(&self) -> OpenAIChatToolChoiceFunctionV {
        self@
    }
}

impl Clone for OpenAIChatToolChoiceFunction {
    fn clone(&self) -> (r: Self)
        ensures
            r@ == self@,
    {
        OpenAIChatToolChoiceFunction {
            name: self.name.clone(),
        }
    }
}

/// The kind of a function.
#[derive(Clone, Copy, Debug, PartialEq, Eq, Structural)]
pub enum FunctionToolType {
    Function,
}

impl View for FunctionToolType {
    type V = FunctionToolType;

    open spec fn view(&self) -> FunctionToolType {
        *self
    }
}

impl DeepView for FunctionToolType {
    type V = FunctionToolType;

    open spec fn deep_view(&self) -> FunctionToolType {
        *self
    }
}

/// The kind of a custom tool.
#[derive(Clone, Copy, Debug, PartialEq, Eq, Structural)]
pub enum CustomToolType {
    Custom,
}

impl View for CustomToolType {
    type V = CustomToolType;

    open spec fn view(&self) -> CustomToolType {
        *self
    }
}

impl DeepView for CustomToolType {
    type V = CustomToolType;

    open spec fn deep_view(&self) -> CustomToolType {
        *self
    }
}

/// Which tools the model calls.
#[allow(inconsistent_fields)]
#[derive(Debug, PartialEq)]
pub enum OpenAIChatToolChoice {
    Mode(OpenAIChatToolChoiceMode),
    Function { kind: FunctionToolType, function: OpenAIChatToolChoiceFunction },
    Custom { kind: CustomToolType, custom: OpenAIChatToolChoiceFunction },
}

/// The model of [`OpenAIChatToolChoice`].
#[allow(inconsistent_fields)]
pub enum OpenAIChatToolChoiceV {
    Mode(OpenAIChatToolChoiceMode),
    Function { kind: FunctionToolType, function: OpenAIChatToolChoiceFunctionV },
    Custom { kind: CustomToolType, custom: OpenAIChatToolChoiceFunctionV },
}

impl View for OpenAIChatToolChoice {
    type V = OpenAIChatToolChoiceV;

    open spec fn view(&self) -> OpenAIChatToolChoiceV {
        match self {
            OpenAIChatToolChoice::Mode(x0) => OpenAIChatToolChoiceV::Mode(x0.deep_view()),
            OpenAIChatToolChoice::Function { kind, function } => OpenAIChatToolChoiceV::Function { kind: kind.deep_view(), function: function.deep_view() },
            OpenAIChatToolChoice::Custom { kind, custom } => OpenAIChatToolChoiceV::Custom { kind: kind.deep_view(), custom: custom.deep_view() },
        }
    }
}

impl DeepView for OpenAIChatToolChoice {
    type V = OpenAIChatToolChoiceV;

    open spec fn deep_view(&self) -> OpenAIChatToolChoiceV {
        self@
    }
}

impl Clone for OpenAIChatToolChoice {
    fn clone(&self) -> (r: Self)
        ensures
            r@ == self@,
    {
        match self {
            OpenAIChatToolChoice::Mode(x0) => OpenAIChatToolChoice::Mode(*x0),
            OpenAIChatToolChoice::Function { kind, function } => OpenAIChatToolChoice::Function { kind: *kind, function: function.clone() },
            OpenAIChatToolChoice::Custom { kind, custom } => OpenAIChatToolChoice::Custom { kind: *kind, custom: custom.clone() },
        }
    }
}

/// What a chat-completions request asks for.
#[derive(Debug, PartialEq)]
pub struct OpenAICompletionsOptions {
    pub stream: StreamOptions,
    pub tool_choice: Option<OpenAIChatToolChoice>,
    pub reasoning_effort: Option<ThinkingLevel>,
    pub thinking_budgets: Option<ThinkingBudgets>,
}

/// The model of [`OpenAICompletionsOptions`].
pub struct OpenAICompletionsOptionsV {
    pub stream: StreamOptionsV,
    pub tool_choice: Option<OpenAIChatToolChoiceV>,
    pub reasoning_effort: Option<ThinkingLevel>,
    pub thinking_budgets: Option<ThinkingBudgets>,
}

impl View for OpenAICompletionsOptions {
    type V = OpenAICompletionsOptionsV;

    open spec fn view(&self) -> OpenAICompletionsOptionsV {
        OpenAICompletionsOptionsV {
            stream: self.stream.deep_view(),
            tool_choice: self.tool_choice.deep_view(),
            reasoning_effort: self.reasoning_effort.deep_view(),
            thinking_budgets: self.thinking_budgets.deep_view(),
        }
    }
}

impl DeepView for OpenAICompletionsOptions {
    type V = OpenAICompletionsOptionsV;

    open spec fn deep_view(&self) -> OpenAICompletionsOptionsV {
        self@
    }
}

impl Clone for OpenAICompletionsOptions {
    fn clone(&self) -> (r: Self)
        ensures
            r@ == self@,
    {
        OpenAICompletionsOptions {
            stream: self.stream.clone(),
            tool_choice: self.tool_choice.clone(),
            reasoning_effort: self.reasoning_effort,
            thinking_budgets: self.thinking_budgets,
        }
    }
}

impl Default for OpenAICompletionsOptions {
    fn default() -> (r: Self)
        ensures
            call_ensures(StreamOptions::default, (), r.stream),
            r.tool_choice is None,
            r.reasoning_effort is None,
            r.thinking_budgets is None,
    {
        OpenAICompletionsOptions {
            stream: StreamOptions::default(),
            tool_choice: None,
            reasoning_effort: None,
            thinking_budgets: None,
        }
    }
}

/// What a chat-completions provider takes.
#[derive(Debug, PartialEq)]
pub struct ResolvedCompat {
    pub supports_store: bool,
    pub supports_developer_role: bool,
    pub supports_reasoning_effort: bool,
    pub supports_usage_in_streaming: bool,
    pub supports_finish_reason: bool,
    pub max_tokens_field: MaxTokensField,
    pub requires_tool_result_name: bool,
    pub requires_assistant_after_tool_result: bool,
    pub requires_thinking_as_text: bool,
    pub requires_reasoning_content_on_assistant_messages: bool,
    pub thinking_format: ThinkingFormat,
    pub chat_template_kwargs: Vec<(String, ChatTemplateKwargValue)>,
    pub chat_template_args: Vec<(String, ChatTemplateKwargValue)>,
    pub open_router_routing: Option<Json>,
    pub vercel_gateway_routing: Option<VercelGatewayRouting>,
    pub zai_tool_stream: bool,
    pub thinking_token_budget_field: Option<ThinkingTokenBudgetField>,
    pub supports_thinking_token_budget: Option<bool>,
    pub supports_open_ai_grammar_tools: bool,
    pub supports_strict_mode: bool,
    pub cache_control_format: Option<CacheControlFormat>,
    pub send_session_affinity_headers: bool,
    pub deferred_tools_mode: Option<DeferredToolsMode>,
    pub session_affinity_format: SessionAffinityFormat,
    pub supports_long_cache_retention: bool,
}

/// The model of [`ResolvedCompat`].
pub struct ResolvedCompatV {
    pub supports_store: bool,
    pub supports_developer_role: bool,
    pub supports_reasoning_effort: bool,
    pub supports_usage_in_streaming: bool,
    pub supports_finish_reason: bool,
    pub max_tokens_field: MaxTokensField,
    pub requires_tool_result_name: bool,
    pub requires_assistant_after_tool_result: bool,
    pub requires_thinking_as_text: bool,
    pub requires_reasoning_content_on_assistant_messages: bool,
    pub thinking_format: ThinkingFormat,
    pub chat_template_kwargs: Seq<(Seq<char>, ChatTemplateKwargValueV)>,
    pub chat_template_args: Seq<(Seq<char>, ChatTemplateKwargValueV)>,
    pub open_router_routing: Option<JsonV>,
    pub vercel_gateway_routing: Option<VercelGatewayRoutingV>,
    pub zai_tool_stream: bool,
    pub thinking_token_budget_field: Option<ThinkingTokenBudgetField>,
    pub supports_thinking_token_budget: Option<bool>,
    pub supports_open_ai_grammar_tools: bool,
    pub supports_strict_mode: bool,
    pub cache_control_format: Option<CacheControlFormat>,
    pub send_session_affinity_headers: bool,
    pub deferred_tools_mode: Option<DeferredToolsMode>,
    pub session_affinity_format: SessionAffinityFormat,
    pub supports_long_cache_retention: bool,
}

impl View for ResolvedCompat {
    type V = ResolvedCompatV;

    open spec fn view(&self) -> ResolvedCompatV {
        ResolvedCompatV {
            supports_store: self.supports_store.deep_view(),
            supports_developer_role: self.supports_developer_role.deep_view(),
            supports_reasoning_effort: self.supports_reasoning_effort.deep_view(),
            supports_usage_in_streaming: self.supports_usage_in_streaming.deep_view(),
            supports_finish_reason: self.supports_finish_reason.deep_view(),
            max_tokens_field: self.max_tokens_field.deep_view(),
            requires_tool_result_name: self.requires_tool_result_name.deep_view(),
            requires_assistant_after_tool_result: self.requires_assistant_after_tool_result.deep_view(),
            requires_thinking_as_text: self.requires_thinking_as_text.deep_view(),
            requires_reasoning_content_on_assistant_messages: self.requires_reasoning_content_on_assistant_messages.deep_view(),
            thinking_format: self.thinking_format.deep_view(),
            chat_template_kwargs: self.chat_template_kwargs.deep_view(),
            chat_template_args: self.chat_template_args.deep_view(),
            open_router_routing: self.open_router_routing.deep_view(),
            vercel_gateway_routing: self.vercel_gateway_routing.deep_view(),
            zai_tool_stream: self.zai_tool_stream.deep_view(),
            thinking_token_budget_field: self.thinking_token_budget_field.deep_view(),
            supports_thinking_token_budget: self.supports_thinking_token_budget.deep_view(),
            supports_open_ai_grammar_tools: self.supports_open_ai_grammar_tools.deep_view(),
            supports_strict_mode: self.supports_strict_mode.deep_view(),
            cache_control_format: self.cache_control_format.deep_view(),
            send_session_affinity_headers: self.send_session_affinity_headers.deep_view(),
            deferred_tools_mode: self.deferred_tools_mode.deep_view(),
            session_affinity_format: self.session_affinity_format.deep_view(),
            supports_long_cache_retention: self.supports_long_cache_retention.deep_view(),
        }
    }
}

impl DeepView for ResolvedCompat {
    type V = ResolvedCompatV;

    open spec fn deep_view(&self) -> ResolvedCompatV {
        self@
    }
}

/// The kind of a cache breakpoint.
#[derive(Clone, Copy, Debug, PartialEq, Eq, Structural)]
pub enum CacheControlType {
    Ephemeral,
}

impl View for CacheControlType {
    type V = CacheControlType;

    open spec fn view(&self) -> CacheControlType {
        *self
    }
}

impl DeepView for CacheControlType {
    type V = CacheControlType;

    open spec fn deep_view(&self) -> CacheControlType {
        *self
    }
}

/// A cache breakpoint.
#[derive(Debug, PartialEq)]
pub struct CompatCacheControl {
    pub kind: CacheControlType,
    pub ttl: Option<String>,
}

/// The model of [`CompatCacheControl`].
pub struct CompatCacheControlV {
    pub kind: CacheControlType,
    pub ttl: Option<Seq<char>>,
}

impl View for CompatCacheControl {
    type V = CompatCacheControlV;

    open spec fn view(&self) -> CompatCacheControlV {
        CompatCacheControlV {
            kind: self.kind.deep_view(),
            ttl: self.ttl.deep_view(),
        }
    }
}

impl DeepView for CompatCacheControl {
    type V = CompatCacheControlV;

    open spec fn deep_view(&self) -> CompatCacheControlV {
        self@
    }
}

impl Clone for CompatCacheControl {
    fn clone(&self) -> (r: Self)
        ensures
            r@ == self@,
    {
        CompatCacheControl {
            kind: self.kind,
            ttl: self.ttl.clone(),
        }
    }
}

/// Where an image is.
#[derive(Debug, PartialEq)]
pub struct WireImageUrl {
    pub url: String,
}

/// The model of [`WireImageUrl`].
pub struct WireImageUrlV {
    pub url: Seq<char>,
}

impl View for WireImageUrl {
    type V = WireImageUrlV;

    open spec fn view(&self) -> WireImageUrlV {
        WireImageUrlV {
            url: self.url.deep_view(),
        }
    }
}

impl DeepView for WireImageUrl {
    type V = WireImageUrlV;

    open spec fn deep_view(&self) -> WireImageUrlV {
        self@
    }
}

impl Clone for WireImageUrl {
    fn clone(&self) -> (r: Self)
        ensures
            r@ == self@,
    {
        WireImageUrl {
            url: self.url.clone(),
        }
    }
}

/// A part of a message.
#[allow(inconsistent_fields)]
#[derive(Debug, PartialEq)]
pub enum WireContentPart {
    Text { text: String, cache_control: Option<CompatCacheControl> },
    ImageUrl { image_url: WireImageUrl },
}

/// The model of [`WireContentPart`].
#[allow(inconsistent_fields)]
pub enum WireContentPartV {
    Text { text: Seq<char>, cache_control: Option<CompatCacheControlV> },
    ImageUrl { image_url: WireImageUrlV },
}

impl View for WireContentPart {
    type V = WireContentPartV;

    open spec fn view(&self) -> WireContentPartV {
        match self {
            WireContentPart::Text { text, cache_control } => WireContentPartV::Text { text: text.deep_view(), cache_control: cache_control.deep_view() },
            WireContentPart::ImageUrl { image_url } => WireContentPartV::ImageUrl { image_url: image_url.deep_view() },
        }
    }
}

impl DeepView for WireContentPart {
    type V = WireContentPartV;

    open spec fn deep_view(&self) -> WireContentPartV {
        self@
    }
}

impl Clone for WireContentPart {
    fn clone(&self) -> (r: Self)
        ensures
            r@ == self@,
    {
        match self {
            WireContentPart::Text { text, cache_control } => WireContentPart::Text { text: text.clone(), cache_control: cache_control.clone() },
            WireContentPart::ImageUrl { image_url } => WireContentPart::ImageUrl { image_url: image_url.clone() },
        }
    }
}

/// The content of a message.
#[derive(Debug, PartialEq)]
pub enum WireContent {
    Plain(String),
    Parts(Vec<WireContentPart>),
}

/// The model of [`WireContent`].
pub enum WireContentV {
    Plain(Seq<char>),
    Parts(Seq<WireContentPartV>),
}

impl View for WireContent {
    type V = WireContentV;

    open spec fn view(&self) -> WireContentV {
        match self {
            WireContent::Plain(x0) => WireContentV::Plain(x0.deep_view()),
            WireContent::Parts(x0) => WireContentV::Parts(x0.deep_view()),
        }
    }
}

impl DeepView for WireContent {
    type V = WireContentV;

    open spec fn deep_view(&self) -> WireContentV {
        self@
    }
}

impl Clone for WireContent {
    fn clone(&self) -> (r: Self)
        ensures
            r@ == self@,
    {
        match self {
            WireContent::Plain(x0) => WireContent::Plain(x0.clone()),
            WireContent::Parts(x0) => {
                let y0 = x0.clone();
                assert(y0.deep_view() =~= x0.deep_view());
                WireContent::Parts(y0)
            },
        }
    }
}

/// A call of a function.
#[derive(Debug, PartialEq)]
pub struct WireFunctionCall {
    pub name: String,
    pub arguments: String,
}

/// The model of [`WireFunctionCall`].
pub struct WireFunctionCallV {
    pub name: Seq<char>,
    pub arguments: Seq<char>,
}

impl View for WireFunctionCall {
    type V = WireFunctionCallV;

    open spec fn view(&self) -> WireFunctionCallV {
        WireFunctionCallV {
            name: self.name.deep_view(),
            arguments: self.arguments.deep_view(),
        }
    }
}

impl DeepView for WireFunctionCall {
    type V = WireFunctionCallV;

    open spec fn deep_view(&self) -> WireFunctionCallV {
        self@
    }
}

impl Clone for WireFunctionCall {
    fn clone(&self) -> (r: Self)
        ensures
            r@ == self@,
    {
        WireFunctionCall {
            name: self.name.clone(),
            arguments: self.arguments.clone(),
        }
    }
}

/// A call of a custom tool.
#[derive(Debug, PartialEq)]
pub struct WireCustomCall {
    pub name: String,
    pub input: String,
}

/// The model of [`WireCustomCall`].
pub struct WireCustomCallV {
    pub name: Seq<char>,
    pub input: Seq<char>,
}

impl View for WireCustomCall {
    type V = WireCustomCallV;

    open spec fn view(&self) -> WireCustomCallV {
        WireCustomCallV {
            name: self.name.deep_view(),
            input: self.input.deep_view(),
        }
    }
}

impl DeepView for WireCustomCall {
    type V = WireCustomCallV;

    open spec fn deep_view(&self) -> WireCustomCallV {
        self@
    }
}

impl Clone for WireCustomCall {
    fn clone(&self) -> (r: Self)
        ensures
            r@ == self@,
    {
        WireCustomCall {
            name: self.name.clone(),
            input: self.input.clone(),
        }
    }
}

/// A call that the model made.
#[allow(inconsistent_fields)]
#[derive(Debug, PartialEq)]
pub enum WireAssistantToolCall {
    Function { id: String, function: WireFunctionCall },
    Custom { id: String, custom: WireCustomCall },
}

/// The model of [`WireAssistantToolCall`].
#[allow(inconsistent_fields)]
pub enum WireAssistantToolCallV {
    Function { id: Seq<char>, function: WireFunctionCallV },
    Custom { id: Seq<char>, custom: WireCustomCallV },
}

impl View for WireAssistantToolCall {
    type V = WireAssistantToolCallV;

    open spec fn view(&self) -> WireAssistantToolCallV {
        match self {
            WireAssistantToolCall::Function { id, function } => WireAssistantToolCallV::Function { id: id.deep_view(), function: function.deep_view() },
            WireAssistantToolCall::Custom { id, custom } => WireAssistantToolCallV::Custom { id: id.deep_view(), custom: custom.deep_view() },
        }
    }
}

impl DeepView for WireAssistantToolCall {
    type V = WireAssistantToolCallV;

    open spec fn deep_view(&self) -> WireAssistantToolCallV {
        self@
    }
}

impl Clone for WireAssistantToolCall {
    fn clone(&self) -> (r: Self)
        ensures
            r@ == self@,
    {
        match self {
            WireAssistantToolCall::Function { id, function } => WireAssistantToolCall::Function { id: id.clone(), function: function.clone() },
            WireAssistantToolCall::Custom { id, custom } => WireAssistantToolCall::Custom { id: id.clone(), custom: custom.clone() },
        }
    }
}

/// A function.
#[derive(Debug, PartialEq)]
pub struct WireFunctionDefinition {
    pub name: String,
    pub description: String,
    pub parameters: Json,
    pub strict: Option<bool>,
}

/// The model of [`WireFunctionDefinition`].
pub struct WireFunctionDefinitionV {
    pub name: Seq<char>,
    pub description: Seq<char>,
    pub parameters: JsonV,
    pub strict: Option<bool>,
}

impl View for WireFunctionDefinition {
    type V = WireFunctionDefinitionV;

    open spec fn view(&self) -> WireFunctionDefinitionV {
        WireFunctionDefinitionV {
            name: self.name.deep_view(),
            description: self.description.deep_view(),
            parameters: self.parameters.deep_view(),
            strict: self.strict.deep_view(),
        }
    }
}

impl DeepView for WireFunctionDefinition {
    type V = WireFunctionDefinitionV;

    open spec fn deep_view(&self) -> WireFunctionDefinitionV {
        self@
    }
}

impl Clone for WireFunctionDefinition {
    fn clone(&self) -> (r: Self)
        ensures
            r@ == self@,
    {
        WireFunctionDefinition {
            name: self.name.clone(),
            description: self.description.clone(),
            parameters: self.parameters.clone(),
            strict: self.strict,
        }
    }
}

/// The kind of a custom input format.
#[derive(Clone, Copy, Debug, PartialEq, Eq, Structural)]
pub enum GrammarType {
    Grammar,
}

impl View for GrammarType {
    type V = GrammarType;

    open spec fn view(&self) -> GrammarType {
        *self
    }
}

impl DeepView for GrammarType {
    type V = GrammarType;

    open spec fn deep_view(&self) -> GrammarType {
        *self
    }
}

/// A grammar.
#[derive(Debug, PartialEq)]
pub struct WireGrammar {
    pub syntax: GrammarSyntax,
    pub definition: String,
}

/// The model of [`WireGrammar`].
pub struct WireGrammarV {
    pub syntax: GrammarSyntax,
    pub definition: Seq<char>,
}

impl View for WireGrammar {
    type V = WireGrammarV;

    open spec fn view(&self) -> WireGrammarV {
        WireGrammarV {
            syntax: self.syntax.deep_view(),
            definition: self.definition.deep_view(),
        }
    }
}

impl DeepView for WireGrammar {
    type V = WireGrammarV;

    open spec fn deep_view(&self) -> WireGrammarV {
        self@
    }
}

impl Clone for WireGrammar {
    fn clone(&self) -> (r: Self)
        ensures
            r@ == self@,
    {
        WireGrammar {
            syntax: self.syntax,
            definition: self.definition.clone(),
        }
    }
}

/// The format of a custom tool's input.
#[derive(Debug, PartialEq)]
pub struct WireCustomFormat {
    pub kind: GrammarType,
    pub grammar: WireGrammar,
}

/// The model of [`WireCustomFormat`].
pub struct WireCustomFormatV {
    pub kind: GrammarType,
    pub grammar: WireGrammarV,
}

impl View for WireCustomFormat {
    type V = WireCustomFormatV;

    open spec fn view(&self) -> WireCustomFormatV {
        WireCustomFormatV {
            kind: self.kind.deep_view(),
            grammar: self.grammar.deep_view(),
        }
    }
}

impl DeepView for WireCustomFormat {
    type V = WireCustomFormatV;

    open spec fn deep_view(&self) -> WireCustomFormatV {
        self@
    }
}

impl Clone for WireCustomFormat {
    fn clone(&self) -> (r: Self)
        ensures
            r@ == self@,
    {
        WireCustomFormat {
            kind: self.kind,
            grammar: self.grammar.clone(),
        }
    }
}

/// A custom tool.
#[derive(Debug, PartialEq)]
pub struct WireCustomDefinition {
    pub name: String,
    pub description: String,
    pub format: WireCustomFormat,
}

/// The model of [`WireCustomDefinition`].
pub struct WireCustomDefinitionV {
    pub name: Seq<char>,
    pub description: Seq<char>,
    pub format: WireCustomFormatV,
}

impl View for WireCustomDefinition {
    type V = WireCustomDefinitionV;

    open spec fn view(&self) -> WireCustomDefinitionV {
        WireCustomDefinitionV {
            name: self.name.deep_view(),
            description: self.description.deep_view(),
            format: self.format.deep_view(),
        }
    }
}

impl DeepView for WireCustomDefinition {
    type V = WireCustomDefinitionV;

    open spec fn deep_view(&self) -> WireCustomDefinitionV {
        self@
    }
}

impl Clone for WireCustomDefinition {
    fn clone(&self) -> (r: Self)
        ensures
            r@ == self@,
    {
        WireCustomDefinition {
            name: self.name.clone(),
            description: self.description.clone(),
            format: self.format.clone(),
        }
    }
}

/// What a tool is.
#[allow(inconsistent_fields)]
#[derive(Debug, PartialEq)]
pub enum WireToolDefinition {
    Function { function: WireFunctionDefinition },
    Custom { custom: WireCustomDefinition },
}

/// The model of [`WireToolDefinition`].
#[allow(inconsistent_fields)]
pub enum WireToolDefinitionV {
    Function { function: WireFunctionDefinitionV },
    Custom { custom: WireCustomDefinitionV },
}

impl View for WireToolDefinition {
    type V = WireToolDefinitionV;

    open spec fn view(&self) -> WireToolDefinitionV {
        match self {
            WireToolDefinition::Function { function } => WireToolDefinitionV::Function { function: function.deep_view() },
            WireToolDefinition::Custom { custom } => WireToolDefinitionV::Custom { custom: custom.deep_view() },
        }
    }
}

impl DeepView for WireToolDefinition {
    type V = WireToolDefinitionV;

    open spec fn deep_view(&self) -> WireToolDefinitionV {
        self@
    }
}

impl Clone for WireToolDefinition {
    fn clone(&self) -> (r: Self)
        ensures
            r@ == self@,
    {
        match self {
            WireToolDefinition::Function { function } => WireToolDefinition::Function { function: function.clone() },
            WireToolDefinition::Custom { custom } => WireToolDefinition::Custom { custom: custom.clone() },
        }
    }
}

/// A tool as the API takes it.
#[derive(Debug, PartialEq)]
pub struct WireTool {
    pub definition: WireToolDefinition,
    pub cache_control: Option<CompatCacheControl>,
}

/// The model of [`WireTool`].
pub struct WireToolV {
    pub definition: WireToolDefinitionV,
    pub cache_control: Option<CompatCacheControlV>,
}

impl View for WireTool {
    type V = WireToolV;

    open spec fn view(&self) -> WireToolV {
        WireToolV {
            definition: self.definition.deep_view(),
            cache_control: self.cache_control.deep_view(),
        }
    }
}

impl DeepView for WireTool {
    type V = WireToolV;

    open spec fn deep_view(&self) -> WireToolV {
        self@
    }
}

impl Clone for WireTool {
    fn clone(&self) -> (r: Self)
        ensures
            r@ == self@,
    {
        WireTool {
            definition: self.definition.clone(),
            cache_control: self.cache_control.clone(),
        }
    }
}

/// A message as the API takes it.
#[allow(inconsistent_fields)]
#[derive(Debug, PartialEq)]
pub enum WireMessage {
    System { content: Option<WireContent>, tools: Option<Vec<WireTool>> },
    Developer { content: WireContent },
    User { content: WireContent },
    Assistant { content: Option<WireContent>, tool_calls: Option<Vec<WireAssistantToolCall>>, reasoning: Option<String>, reasoning_content: Option<String>, reasoning_text: Option<String>, reasoning_details: Option<Vec<Json>> },
    Tool { content: WireContent, tool_call_id: String, name: Option<String> },
}

/// The model of [`WireMessage`].
#[allow(inconsistent_fields)]
pub enum WireMessageV {
    System { content: Option<WireContentV>, tools: Option<Seq<WireToolV>> },
    Developer { content: WireContentV },
    User { content: WireContentV },
    Assistant { content: Option<WireContentV>, tool_calls: Option<Seq<WireAssistantToolCallV>>, reasoning: Option<Seq<char>>, reasoning_content: Option<Seq<char>>, reasoning_text: Option<Seq<char>>, reasoning_details: Option<Seq<JsonV>> },
    Tool { content: WireContentV, tool_call_id: Seq<char>, name: Option<Seq<char>> },
}

impl View for WireMessage {
    type V = WireMessageV;

    open spec fn view(&self) -> WireMessageV {
        match self {
            WireMessage::System { content, tools } => WireMessageV::System { content: content.deep_view(), tools: tools.deep_view() },
            WireMessage::Developer { content } => WireMessageV::Developer { content: content.deep_view() },
            WireMessage::User { content } => WireMessageV::User { content: content.deep_view() },
            WireMessage::Assistant { content, tool_calls, reasoning, reasoning_content, reasoning_text, reasoning_details } => WireMessageV::Assistant { content: content.deep_view(), tool_calls: tool_calls.deep_view(), reasoning: reasoning.deep_view(), reasoning_content: reasoning_content.deep_view(), reasoning_text: reasoning_text.deep_view(), reasoning_details: reasoning_details.deep_view() },
            WireMessage::Tool { content, tool_call_id, name } => WireMessageV::Tool { content: content.deep_view(), tool_call_id: tool_call_id.deep_view(), name: name.deep_view() },
        }
    }
}

impl DeepView for WireMessage {
    type V = WireMessageV;

    open spec fn deep_view(&self) -> WireMessageV {
        self@
    }
}

impl Clone for WireMessage {
    fn clone(&self) -> (r: Self)
        ensures
            r@ == self@,
    {
        match self {
            WireMessage::System { content, tools } => {
                let y_content = content.clone();
                let y_tools = tools.clone();
                assert(y_tools.deep_view() =~= tools.deep_view());
                WireMessage::System { content: y_content, tools: y_tools }
            },
            WireMessage::Developer { content } => WireMessage::Developer { content: content.clone() },
            WireMessage::User { content } => WireMessage::User { content: content.clone() },
            WireMessage::Assistant { content, tool_calls, reasoning, reasoning_content, reasoning_text, reasoning_details } => {
                let y_content = content.clone();
                let y_tool_calls = tool_calls.clone();
                let y_reasoning = reasoning.clone();
                let y_reasoning_content = reasoning_content.clone();
                let y_reasoning_text = reasoning_text.clone();
                let y_reasoning_details = reasoning_details.clone();
                assert(y_tool_calls.deep_view() =~= tool_calls.deep_view());
                assert(y_reasoning_details.deep_view() =~= reasoning_details.deep_view());
                WireMessage::Assistant { content: y_content, tool_calls: y_tool_calls, reasoning: y_reasoning, reasoning_content: y_reasoning_content, reasoning_text: y_reasoning_text, reasoning_details: y_reasoning_details }
            },
            WireMessage::Tool { content, tool_call_id, name } => WireMessage::Tool { content: content.clone(), tool_call_id: tool_call_id.clone(), name: name.clone() },
        }
    }
}

/// What a stream tells beside the answer.
#[derive(Debug, PartialEq)]
pub struct WireStreamOptions {
    pub include_usage: bool,
}

/// The model of [`WireStreamOptions`].
pub struct WireStreamOptionsV {
    pub include_usage: bool,
}

impl View for WireStreamOptions {
    type V = WireStreamOptionsV;

    open spec fn view(&self) -> WireStreamOptionsV {
        WireStreamOptionsV {
            include_usage: self.include_usage.deep_view(),
        }
    }
}

impl DeepView for WireStreamOptions {
    type V = WireStreamOptionsV;

    open spec fn deep_view(&self) -> WireStreamOptionsV {
        self@
    }
}

impl Clone for WireStreamOptions {
    fn clone(&self) -> (r: Self)
        ensures
            r@ == self@,
    {
        WireStreamOptions {
            include_usage: self.include_usage,
        }
    }
}

/// A chat-completions request.
#[derive(Debug, PartialEq)]
pub struct WireRequest {
    pub model: String,
    pub messages: Vec<WireMessage>,
    pub stream: bool,
    pub prompt_cache_key: Option<String>,
    pub prompt_cache_retention: Option<String>,
    pub stream_options: Option<WireStreamOptions>,
    pub store: Option<bool>,
    pub max_tokens: Option<u64>,
    pub max_completion_tokens: Option<u64>,
    pub temperature: Option<JsonNumber>,
    pub tools: Option<Vec<WireTool>>,
    pub tool_choice: Option<OpenAIChatToolChoice>,
    /// What only some providers take.
    pub dialect: JsonObject,
}

/// The model of [`WireRequest`].
pub struct WireRequestV {
    pub model: Seq<char>,
    pub messages: Seq<WireMessageV>,
    pub stream: bool,
    pub prompt_cache_key: Option<Seq<char>>,
    pub prompt_cache_retention: Option<Seq<char>>,
    pub stream_options: Option<WireStreamOptionsV>,
    pub store: Option<bool>,
    pub max_tokens: Option<u64>,
    pub max_completion_tokens: Option<u64>,
    pub temperature: Option<JsonNumberV>,
    pub tools: Option<Seq<WireToolV>>,
    pub tool_choice: Option<OpenAIChatToolChoiceV>,
    pub dialect: Seq<(Seq<char>, JsonV)>,
}

impl View for WireRequest {
    type V = WireRequestV;

    open spec fn view(&self) -> WireRequestV {
        WireRequestV {
            model: self.model.deep_view(),
            messages: self.messages.deep_view(),
            stream: self.stream.deep_view(),
            prompt_cache_key: self.prompt_cache_key.deep_view(),
            prompt_cache_retention: self.prompt_cache_retention.deep_view(),
            stream_options: self.stream_options.deep_view(),
            store: self.store.deep_view(),
            max_tokens: self.max_tokens.deep_view(),
            max_completion_tokens: self.max_completion_tokens.deep_view(),
            temperature: self.temperature.deep_view(),
            tools: self.tools.deep_view(),
            tool_choice: self.tool_choice.deep_view(),
            dialect: self.dialect.deep_view(),
        }
    }
}

impl DeepView for WireRequest {
    type V = WireRequestV;

    open spec fn deep_view(&self) -> WireRequestV {
        self@
    }
}

impl Clone for WireRequest {
    fn clone(&self) -> (r: Self)
        ensures
            r@ == self@,
    {
        let r = WireRequest {
            model: self.model.clone(),
            messages: self.messages.clone(),
            stream: self.stream,
            prompt_cache_key: self.prompt_cache_key.clone(),
            prompt_cache_retention: self.prompt_cache_retention.clone(),
            stream_options: self.stream_options.clone(),
            store: self.store,
            max_tokens: self.max_tokens,
            max_completion_tokens: self.max_completion_tokens,
            temperature: self.temperature.clone(),
            tools: self.tools.clone(),
            tool_choice: self.tool_choice.clone(),
            dialect: copy_list(&self.dialect),
        };
        proof {
            assert(r.messages.deep_view() =~= self.messages.deep_view());
            if self.tools is Some {
                assert(r.tools->Some_0.deep_view() =~= self.tools->Some_0.deep_view());
            }
            assert(r.dialect.deep_view() =~= self.dialect.deep_view());
        }
        r
    }
}

} // verus!
