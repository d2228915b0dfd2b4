//! The Responses API: what is asked of it and how.
use crate::completions_request::{sampled, sent_number, with_sampling};
use crate::completions_messages::all_tools;
use crate::constrained_sampling::{
    create_grammar_tool_input_properties, input_properties, outcome,
};
use crate::headers::{
    cached_session, client_key, create_request_headers, endpoint, endpoint_url,
    get_client_api_key, request_headers, resolve_cache_retention, retention, ClientHeaders,
    PreparedRequest, PreparedRequestV,
};
use crate::js::to_js_number;
use crate::json::{add_field, object, string, Json, JsonNumber, JsonNumberV, JsonV};
use crate::openai_prompt_cache::{cache_key, clamp_open_ai_prompt_cache_key};
use crate::openai_responses_shared::{
    ConvertResponsesMessagesOptions, ConvertResponsesMessagesOptionsV,
    ConvertResponsesToolsOptions, ConvertResponsesToolsOptionsV, DeferredResponsesToolsMode,
    OpenAIResponsesError, ResponseInputItem, ResponseInputItemV, ResponseReasoningSummary,
    ResponseServiceTier, ResponseServiceTierV, ResponseTool, ResponseToolChoice,
    ResponseToolChoiceMode, ResponseToolChoiceV, ResponseToolV,
};
use crate::provider_error::{OpenAiSseError, OpenAiSseErrorV};
use crate::responses_input::{
    convert_responses_messages, convert_responses_tools, converted, response_tools,
};
use crate::simple_options::{base_options, build_base_options, model_level_to_thinking, request_level};
use crate::text::{contains, has_part, same};
use crate::thinking_parameters::{
    effort_or_own, mapped_off, off_is_null, off_mapping, off_name, resolve_nullish_effort,
};
use crate::transform_messages::ResponsesToolCallIds;
use crate::types::{
    CacheRetention, Context, ContextV, Model, ModelCompat, ModelCompatV, ModelThinkingLevel,
    ModelV, SessionAffinityFormat, SimpleStreamOptions, SimpleStreamOptionsV, StreamOptions,
    StreamOptionsV, ThinkingLevel, Tool, ToolChoice, ToolV,
};
use crate::wire::{add_optional, no_fields, with, ToJson};
use vstd::prelude::*;

verus! {

/// What a Responses request asks for.
#[derive(Debug, PartialEq)]
pub struct OpenAIResponsesOptions {
    pub stream: StreamOptions,
    pub reasoning_effort: Option<ThinkingLevel>,
    pub reasoning_summary: Option<Option<ResponseReasoningSummary>>,
    pub service_tier: Option<Option<ResponseServiceTier>>,
    pub tool_choice: Option<ResponseToolChoice>,
}

/// The model of [`OpenAIResponsesOptions`].
pub struct OpenAIResponsesOptionsV {
    pub stream: StreamOptionsV,
    pub reasoning_effort: Option<ThinkingLevel>,
    pub reasoning_summary: Option<Option<ResponseReasoningSummary>>,
    pub service_tier: Option<Option<ResponseServiceTierV>>,
    pub tool_choice: Option<ResponseToolChoiceV>,
}

impl View for OpenAIResponsesOptions {
    type V = OpenAIResponsesOptionsV;

    open spec fn view(&self) -> OpenAIResponsesOptionsV {
        OpenAIResponsesOptionsV {
            stream: self.stream.deep_view(),
            reasoning_effort: self.reasoning_effort.deep_view(),
            reasoning_summary: self.reasoning_summary.deep_view(),
            service_tier: self.service_tier.deep_view(),
            tool_choice: self.tool_choice.deep_view(),
        }
    }
}

impl DeepView for OpenAIResponsesOptions {
    type V = OpenAIResponsesOptionsV;

    open spec fn deep_view(&self) -> OpenAIResponsesOptionsV {
        self@
    }
}

impl Clone for OpenAIResponsesOptions {
    fn clone(&self) -> (r: Self)
        ensures
            r@ == self@,
    {
        OpenAIResponsesOptions {
            stream: self.stream.clone(),
            reasoning_effort: self.reasoning_effort,
            reasoning_summary: self.reasoning_summary.clone(),
            service_tier: self.service_tier.clone(),
            tool_choice: self.tool_choice.clone(),
        }
    }
}

impl Default for OpenAIResponsesOptions {
    fn default() -> (r: Self)
        ensures
            call_ensures(StreamOptions::default, (), r.stream),
            r.reasoning_effort is None,
            r.reasoning_summary is None,
            r.service_tier is None,
            r.tool_choice is None,
    {
        OpenAIResponsesOptions {
            stream: StreamOptions::default(),
            reasoning_effort: None,
            reasoning_summary: None,
            service_tier: None,
            tool_choice: None,
        }
    }
}

/// How prompts are cached.
#[derive(Clone, Copy, Debug, PartialEq, Eq, Structural)]
pub enum PromptCacheMode {
    Explicit,
}

impl View for PromptCacheMode {
    type V = PromptCacheMode;

    open spec fn view(&self) -> PromptCacheMode {
        *self
    }
}

impl DeepView for PromptCacheMode {
    type V = PromptCacheMode;

    open spec fn deep_view(&self) -> PromptCacheMode {
        *self
    }
}

/// How prompts are cached.
#[derive(Debug, PartialEq)]
pub struct PromptCacheOptions {
    pub mode: PromptCacheMode,
}

/// The model of [`PromptCacheOptions`].
pub struct PromptCacheOptionsV {
    pub mode: PromptCacheMode,
}

impl View for PromptCacheOptions {
    type V = PromptCacheOptionsV;

    open spec fn view(&self) -> PromptCacheOptionsV {
        PromptCacheOptionsV {
            mode: self.mode.deep_view(),
        }
    }
}

impl DeepView for PromptCacheOptions {
    type V = PromptCacheOptionsV;

    open spec fn deep_view(&self) -> PromptCacheOptionsV {
        self@
    }
}

impl Clone for PromptCacheOptions {
    fn clone(&self) -> (r: Self)
        ensures
            r@ == self@,
    {
        PromptCacheOptions {
            mode: self.mode,
        }
    }
}

/// How the model is told to reason.
#[derive(Debug, PartialEq)]
pub struct ResponseReasoning {
    pub effort: String,
    pub summary: Option<ResponseReasoningSummary>,
}

/// The model of [`ResponseReasoning`].
pub struct ResponseReasoningV {
    pub effort: Seq<char>,
    pub summary: Option<ResponseReasoningSummary>,
}

impl View for ResponseReasoning {
    type V = ResponseReasoningV;

    open spec fn view(&self) -> ResponseReasoningV {
        ResponseReasoningV {
            effort: self.effort.deep_view(),
            summary: self.summary.deep_view(),
        }
    }
}

impl DeepView for ResponseReasoning {
    type V = ResponseReasoningV;

    open spec fn deep_view(&self) -> ResponseReasoningV {
        self@
    }
}

impl Clone for ResponseReasoning {
    fn clone(&self) -> (r: Self)
        ensures
            r@ == self@,
    {
        ResponseReasoning {
            effort: self.effort.clone(),
            summary: self.summary,
        }
    }
}

/// A Responses request.
#[derive(Debug, PartialEq)]
pub struct WireRequest {
    pub model: String,
    pub input: Vec<ResponseInputItem>,
    pub stream: bool,
    pub prompt_cache_key: Option<String>,
    pub prompt_cache_retention: Option<String>,
    pub prompt_cache_options: Option<PromptCacheOptions>,
    pub store: bool,
    pub max_output_tokens: Option<u64>,
    pub temperature: Option<JsonNumber>,
    pub service_tier: Option<Option<ResponseServiceTier>>,
    pub tools: Option<Vec<ResponseTool>>,
    pub tool_choice: Option<ResponseToolChoice>,
    pub reasoning: Option<ResponseReasoning>,
    /// What the response holds beside the answer.
    pub included: Option<Vec<String>>,
}

/// The model of [`WireRequest`].
pub struct WireRequestV {
    pub model: Seq<char>,
    pub input: Seq<ResponseInputItemV>,
    pub stream: bool,
    pub prompt_cache_key: Option<Seq<char>>,
    pub prompt_cache_retention: Option<Seq<char>>,
    pub prompt_cache_options: Option<PromptCacheOptionsV>,
    pub store: bool,
    pub max_output_tokens: Option<u64>,
    pub temperature: Option<JsonNumberV>,
    pub service_tier: Option<Option<ResponseServiceTierV>>,
    pub tools: Option<Seq<ResponseToolV>>,
    pub tool_choice: Option<ResponseToolChoiceV>,
    pub reasoning: Option<ResponseReasoningV>,
    pub included: Option<Seq<Seq<char>>>,
}

impl View for WireRequest {
    type V = WireRequestV;

    open spec fn view(&self) -> WireRequestV {
        WireRequestV {
            model: self.model.deep_view(),
            input: self.input.deep_view(),
            stream: self.stream.deep_view(),
            prompt_cache_key: self.prompt_cache_key.deep_view(),
            prompt_cache_retention: self.prompt_cache_retention.deep_view(),
            prompt_cache_options: self.prompt_cache_options.deep_view(),
            store: self.store.deep_view(),
            max_output_tokens: self.max_output_tokens.deep_view(),
            temperature: self.temperature.deep_view(),
            service_tier: self.service_tier.deep_view(),
            tools: self.tools.deep_view(),
            tool_choice: self.tool_choice.deep_view(),
            reasoning: self.reasoning.deep_view(),
            included: self.included.deep_view(),
        }
    }
}

impl DeepView for WireRequest {
    type V = WireRequestV;

    open spec fn deep_view(&self) -> WireRequestV {
        self@
    }
}

impl Clone for WireRequest {
    fn clone(&self) -> (r: Self)
        ensures
            r@ == self@,
    {
        let r = WireRequest {
            model: self.model.clone(),
            input: self.input.clone(),
            stream: self.stream,
            prompt_cache_key: self.prompt_cache_key.clone(),
            prompt_cache_retention: self.prompt_cache_retention.clone(),
            prompt_cache_options: self.prompt_cache_options.clone(),
            store: self.store,
            max_output_tokens: self.max_output_tokens,
            temperature: self.temperature.clone(),
            service_tier: self.service_tier.clone(),
            tools: self.tools.clone(),
            tool_choice: self.tool_choice.clone(),
            reasoning: self.reasoning.clone(),
            included: self.included.clone(),
        };
        proof {
            assert(r.input.deep_view() =~= self.input.deep_view());
            if self.tools is Some {
                assert(r.tools->Some_0.deep_view() =~= self.tools->Some_0.deep_view());
            }
            if self.included is Some {
                assert(r.included->Some_0.deep_view() =~= self.included->Some_0.deep_view());
            }
        }
        r
    }
}

impl ToJson for PromptCacheMode {
    open spec fn wire(v: PromptCacheMode) -> JsonV {
        match v {
            PromptCacheMode::Explicit => JsonV::Str("explicit"@),
        }
    }

    fn to_json(&self) -> (r: Json) {
        match self {
            PromptCacheMode::Explicit => string("explicit"),
        }
    }
}

impl ToJson for PromptCacheOptions {
    open spec fn wire(v: PromptCacheOptionsV) -> JsonV {
        JsonV::Object(
            seq![
                ("mode"@, PromptCacheMode::wire(v.mode)),
            ],
        )
    }

    fn to_json(&self) -> (r: Json) {
        let mut fields = no_fields();
        add_field(&mut fields, "mode", self.mode.to_json());
        assert(fields.deep_view() =~= Self::wire(self@)->Object_0);
        object(fields)
    }
}

impl ToJson for ResponseReasoning {
    open spec fn wire(v: ResponseReasoningV) -> JsonV {
        JsonV::Object(
            with::<ResponseReasoningSummary>(seq![
                ("effort"@, String::wire(v.effort)),
            ], "summary"@, v.summary),
        )
    }

    fn to_json(&self) -> (r: Json) {
        let mut fields = no_fields();
        add_field(&mut fields, "effort", self.effort.to_json());
        add_optional(&mut fields, "summary", &self.summary);
        assert(fields.deep_view() =~= Self::wire(self@)->Object_0);
        object(fields)
    }
}

impl ToJson for WireRequest {
    open spec fn wire(v: WireRequestV) -> JsonV {
        let fields = seq![
            ("model"@, String::wire(v.model)),
            ("input"@, Vec::<ResponseInputItem>::wire(v.input)),
            ("stream"@, bool::wire(v.stream)),
        ];
        let fields = with::<String>(fields, "prompt_cache_key"@, v.prompt_cache_key);
        let fields = with::<String>(fields, "prompt_cache_retention"@, v.prompt_cache_retention);
        let fields = with::<PromptCacheOptions>(fields, "prompt_cache_options"@, v.prompt_cache_options);
        let fields = fields.push(("store"@, bool::wire(v.store)));
        let fields = with::<u64>(fields, "max_output_tokens"@, v.max_output_tokens);
        let fields = with::<JsonNumber>(fields, "temperature"@, v.temperature);
        let fields = with::<Option<ResponseServiceTier>>(fields, "service_tier"@, v.service_tier);
        let fields = with::<Vec<ResponseTool>>(fields, "tools"@, v.tools);
        let fields = with::<ResponseToolChoice>(fields, "tool_choice"@, v.tool_choice);
        let fields = with::<ResponseReasoning>(fields, "reasoning"@, v.reasoning);
        JsonV::Object(with::<Vec<String>>(fields, "include"@, v.included))
    }

    fn to_json(&self) -> (r: Json) {
        let mut fields = no_fields();
        add_field(&mut fields, "model", self.model.to_json());
        add_field(&mut fields, "input", self.input.to_json());
        add_field(&mut fields, "stream", self.stream.to_json());
        assert(fields.deep_view() =~= seq![
            ("model"@, String::wire(self@.model)),
            ("input"@, Vec::<ResponseInputItem>::wire(self@.input)),
            ("stream"@, bool::wire(self@.stream)),
        ]);
        add_optional(&mut fields, "prompt_cache_key", &self.prompt_cache_key);
        add_optional(&mut fields, "prompt_cache_retention", &self.prompt_cache_retention);
        add_optional(&mut fields, "prompt_cache_options", &self.prompt_cache_options);
        add_field(&mut fields, "store", self.store.to_json());
        add_optional(&mut fields, "max_output_tokens", &self.max_output_tokens);
        add_optional(&mut fields, "temperature", &self.temperature);
        add_optional(&mut fields, "service_tier", &self.service_tier);
        add_optional(&mut fields, "tools", &self.tools);
        add_optional(&mut fields, "tool_choice", &self.tool_choice);
        add_optional(&mut fields, "reasoning", &self.reasoning);
        add_optional(&mut fields, "include", &self.included);
        object(fields)
    }
}

/// The fewest tokens that an answer may be bounded by.
pub const OPENAI_RESPONSES_MIN_OUTPUT_TOKENS: u64 = 16;

/// The Responses API.
#[derive(Clone, Copy, Debug, PartialEq, Eq, Structural)]
pub struct OpenAIResponsesApi;

impl Default for OpenAIResponsesApi {
    fn default() -> (r: Self)
        ensures
            r == OpenAIResponsesApi,
    {
        OpenAIResponsesApi
    }
}

/// The Responses API.
pub fn open_ai_responses_api() -> (r: OpenAIResponsesApi)
    ensures
        r == OpenAIResponsesApi,
{
    OpenAIResponsesApi
}

/// The options of a caller who asks for nothing that only this API has.
pub open spec fn from_stream_options(stream: StreamOptionsV) -> OpenAIResponsesOptionsV {
    OpenAIResponsesOptionsV {
        stream,
        reasoning_effort: None,
        reasoning_summary: None,
        service_tier: None,
        tool_choice: None,
    }
}

impl OpenAIResponsesOptions {
    /// The options of a caller who asks for nothing that only this API has.
    pub fn from_stream(stream: StreamOptions) -> (r: Self)
        ensures
            r@ == from_stream_options(stream@),
    {
        OpenAIResponsesOptions {
            stream,
            reasoning_effort: None,
            reasoning_summary: None,
            service_tier: None,
            tool_choice: None,
        }
    }
}

/// The choice of tools of a caller who knows no API.
pub open spec fn lowered_choice(choice: Option<ToolChoice>) -> Option<ResponseToolChoiceV> {
    match choice {
        Some(ToolChoice::Auto) => Some(ResponseToolChoiceV::Mode(ResponseToolChoiceMode::Auto)),
        Some(ToolChoice::Never) => Some(ResponseToolChoiceV::Mode(ResponseToolChoiceMode::Never)),
        None => None,
    }
}

/// What [`stream_simple`] returns.
pub open spec fn lowered(
    model: ModelV,
    estimated: u64,
    level: Option<ModelThinkingLevel>,
    options: SimpleStreamOptionsV,
) -> OpenAIResponsesOptionsV {
    OpenAIResponsesOptionsV {
        stream: base_options(model, estimated, Some(options), options.stream.request.api_key),
        reasoning_effort: match level {
            Some(level) => request_level(level),
            None => None,
        },
        reasoning_summary: None,
        service_tier: None,
        tool_choice: lowered_choice(options.tool_choice),
    }
}

/// The options of a request for a caller who knows no API. `estimated` is about how many tokens the
/// context takes, and `level` the level that was asked for as far as the model has it.
pub fn stream_simple(
    model: &Model,
    estimated: u64,
    level: Option<ModelThinkingLevel>,
    options: &SimpleStreamOptions,
) -> (r: OpenAIResponsesOptions)
    ensures
        r@ == lowered(model@, estimated, level, options@),
{
    let api_key = match &options.stream.request.api_key {
        Some(key) => Some(key.as_str()),
        None => None,
    };
    OpenAIResponsesOptions {
        stream: build_base_options(model, estimated, Some(options), api_key),
        reasoning_effort: match level {
            Some(level) => model_level_to_thinking(level),
            None => None,
        },
        reasoning_summary: None,
        service_tier: None,
        tool_choice: match options.tool_choice {
            Some(ToolChoice::Auto) => Some(ResponseToolChoice::Mode(ResponseToolChoiceMode::Auto)),
            Some(ToolChoice::Never) => Some(
                ResponseToolChoice::Mode(ResponseToolChoiceMode::Never),
            ),
            None => None,
        },
    }
}

/// What a Responses provider takes.
#[derive(Clone, Copy, Debug, PartialEq, Eq, Structural)]
pub struct ResolvedCompat {
    pub session_affinity_format: SessionAffinityFormat,
    pub supports_long_cache_retention: bool,
    pub supports_strict_mode: bool,
    pub supports_open_ai_grammar_tools: bool,
    pub supports_additional_tools: bool,
    pub supports_tool_search: bool,
    pub supports_explicit_prompt_cache_mode: bool,
}

/// The headers that tie requests to a session, as far as the provider's name and address tell.
pub open spec fn detected_format(model: ModelV) -> SessionAffinityFormat {
    if model.provider == "openrouter"@ || has_part(model.base_url, "openrouter.ai"@) {
        SessionAffinityFormat::Openrouter
    } else {
        SessionAffinityFormat::Openai
    }
}

fn detect_session_affinity_format(model: &Model) -> (r: SessionAffinityFormat)
    ensures
        r == detected_format(model@),
{
    if same(model.provider.as_str(), "openrouter") || contains(
        model.base_url.as_str(),
        "openrouter.ai",
    ) {
        SessionAffinityFormat::Openrouter
    } else {
        SessionAffinityFormat::Openai
    }
}

/// What the provider of a model takes: what is configured, or else the default. What is configured
/// for the other API counts as far as both have it.
pub open spec fn resolved(model: ModelV) -> ResolvedCompat {
    let (format, retention, strict, grammar, additional, search, explicit) = match model.compat {
        Some(ModelCompatV::OpenAIResponses(compat)) => (
            compat.session_affinity_format,
            compat.supports_long_cache_retention,
            compat.supports_strict_mode,
            compat.supports_open_ai_grammar_tools,
            compat.supports_additional_tools,
            compat.supports_tool_search,
            compat.supports_explicit_prompt_cache_mode,
        ),
        Some(ModelCompatV::OpenAICompletions(compat)) => (
            compat.session_affinity_format,
            compat.supports_long_cache_retention,
            compat.supports_strict_mode,
            compat.supports_open_ai_grammar_tools,
            None,
            None,
            None,
        ),
        None => (None, None, None, None, None, None, None),
    };
    ResolvedCompat {
        session_affinity_format: match format {
            Some(format) => format,
            None => detected_format(model),
        },
        supports_long_cache_retention: retention != Some(false),
        supports_strict_mode: strict == Some(true),
        supports_open_ai_grammar_tools: grammar == Some(true),
        supports_additional_tools: additional == Some(true),
        supports_tool_search: search == Some(true),
        supports_explicit_prompt_cache_mode: explicit == Some(true),
    }
}

fn flag_or(flag: Option<bool>, default: bool) -> (r: bool)
    ensures
        r == match flag {
            Some(b) => b,
            None => default,
        },
{
    match flag {
        Some(b) => b,
        None => default,
    }
}

/// What the provider of a model takes.
pub fn get_compat(model: &Model) -> (r: ResolvedCompat)
    ensures
        r == resolved(model@),
{
    let (format, retention, strict, grammar, additional, search, explicit) = match &model.compat {
        Some(ModelCompat::OpenAIResponses(compat)) => (
            compat.session_affinity_format,
            compat.supports_long_cache_retention,
            compat.supports_strict_mode,
            compat.supports_open_ai_grammar_tools,
            compat.supports_additional_tools,
            compat.supports_tool_search,
            compat.supports_explicit_prompt_cache_mode,
        ),
        Some(ModelCompat::OpenAICompletions(compat)) => (
            compat.session_affinity_format,
            compat.supports_long_cache_retention,
            compat.supports_strict_mode,
            compat.supports_open_ai_grammar_tools,
            None,
            None,
            None,
        ),
        None => (None, None, None, None, None, None, None),
    };
    ResolvedCompat {
        session_affinity_format: match format {
            Some(format) => format,
            None => detect_session_affinity_format(model),
        },
        supports_long_cache_retention: flag_or(retention, true),
        supports_strict_mode: flag_or(strict, false),
        supports_open_ai_grammar_tools: flag_or(grammar, false),
        supports_additional_tools: flag_or(additional, false),
        supports_tool_search: flag_or(search, false),
        supports_explicit_prompt_cache_mode: flag_or(explicit, false),
    }
}

/// The headers of a Responses request.
pub fn create_headers(
    model: &Model,
    client: &ClientHeaders,
    api_key: &str,
    given: &Option<Vec<(String, Option<String>)>>,
    session_id: Option<&str>,
    compat: &ResolvedCompat,
) -> (r: Vec<(String, String)>)
    ensures
        r.deep_view() == request_headers(
            model@,
            client,
            api_key@,
            given.deep_view(),
            match session_id {
                Some(id) => Some(id@),
                None => None,
            },
            compat.session_affinity_format,
            false,
        ),
{
    create_request_headers(
        model,
        client,
        api_key,
        given,
        session_id,
        compat.session_affinity_format,
        false,
    )
}

/// How tools are added in the course of a conversation, where the provider takes that.
pub open spec fn deferred_mode(compat: ResolvedCompat) -> Option<DeferredResponsesToolsMode> {
    if compat.supports_additional_tools {
        Some(DeferredResponsesToolsMode::AdditionalTools)
    } else if compat.supports_tool_search {
        Some(DeferredResponsesToolsMode::ToolSearch)
    } else {
        None
    }
}

/// How tools are added in the course of a conversation, where the provider takes that.
pub fn deferred_tools_mode(compat: &ResolvedCompat) -> (r: Option<DeferredResponsesToolsMode>)
    ensures
        r == deferred_mode(*compat),
{
    if compat.supports_additional_tools {
        Some(DeferredResponsesToolsMode::AdditionalTools)
    } else if compat.supports_tool_search {
        Some(DeferredResponsesToolsMode::ToolSearch)
    } else {
        None
    }
}

/// How tools are converted.
pub open spec fn tool_options(compat: ResolvedCompat) -> ConvertResponsesToolsOptionsV {
    ConvertResponsesToolsOptionsV {
        strict: None,
        supports_strict_mode: Some(compat.supports_strict_mode),
        supports_open_ai_grammar_tools: Some(compat.supports_open_ai_grammar_tools),
        defer_loading: false,
    }
}

/// How messages are converted.
pub open spec fn message_options(
    compat: ResolvedCompat,
    properties: Seq<(Seq<char>, Seq<char>)>,
    deferred: Seq<(Seq<char>, ToolV)>,
) -> ConvertResponsesMessagesOptionsV {
    ConvertResponsesMessagesOptionsV {
        include_system_prompt: None,
        grammar_tool_input_properties: Some(properties),
        deferred_tools: Some(deferred),
        deferred_tools_mode: deferred_mode(compat),
        tool_options: tool_options(compat),
    }
}

/// How the model is told to reason, where it is told.
pub open spec fn sent_reasoning(model: ModelV, options: OpenAIResponsesOptionsV) -> Option<
    ResponseReasoningV,
> {
    let summary = match options.reasoning_summary {
        Some(summary) => summary,
        None => None,
    };
    if !model.reasoning {
        None
    } else if options.reasoning_effort is Some || summary is Some {
        Some(
            ResponseReasoningV {
                effort: match options.reasoning_effort {
                    Some(level) => effort_or_own(model, level),
                    None => "medium"@,
                },
                summary: match summary {
                    Some(summary) => Some(summary),
                    None => Some(ResponseReasoningSummary::Auto),
                },
            },
        )
    } else if model.provider != "github-copilot"@ && off_mapping(model) != Some(
        None::<Seq<char>>,
    ) {
        Some(
            ResponseReasoningV {
                effort: match off_name(model) {
                    Some(name) => name,
                    None => "none"@,
                },
                summary: None,
            },
        )
    } else {
        None
    }
}

/// What the response holds beside the answer: encrypted reasoning, where there is any.
pub open spec fn sent_included(model: ModelV, options: OpenAIResponsesOptionsV) -> Option<
    Seq<Seq<char>>,
> {
    let asked = options.reasoning_effort is Some || options.reasoning_summary matches Some(Some(_));
    if model.reasoning && (asked || model.provider == "xai"@) {
        Some(seq!["reasoning.encrypted_content"@])
    } else {
        None
    }
}

/// The bound of an answer that is sent: none where no tokens are asked for, and never below the
/// fewest.
pub open spec fn sent_tokens(options: OpenAIResponsesOptionsV) -> Option<u64> {
    match options.stream.max_tokens {
        Some(tokens) => if tokens == 0 {
            None
        } else if tokens < OPENAI_RESPONSES_MIN_OUTPUT_TOKENS {
            Some(OPENAI_RESPONSES_MIN_OUTPUT_TOKENS)
        } else {
            Some(tokens)
        },
        None => None,
    }
}

/// The request for a conversation, or why there is none.
pub open spec fn request(
    model: ModelV,
    context: ContextV,
    options: OpenAIResponsesOptionsV,
    compat: ResolvedCompat,
    retention: CacheRetention,
    properties: Seq<(Seq<char>, Seq<char>)>,
    immediate: Seq<ToolV>,
    deferred: Seq<(Seq<char>, ToolV)>,
    ids: &ResponsesToolCallIds,
    now: i64,
) -> Result<WireRequestV, Seq<char>> {
    match converted(model, context, ids, message_options(compat, properties, deferred), now) {
        Err(e) => Err(e),
        Ok(input) => Ok(
            WireRequestV {
                model: model.id,
                input,
                stream: true,
                prompt_cache_key: if retention == CacheRetention::Never {
                    None
                } else {
                    cache_key(options.stream.session_id)
                },
                prompt_cache_retention: if retention == CacheRetention::Long
                    && compat.supports_long_cache_retention {
                    Some("24h"@)
                } else {
                    None
                },
                prompt_cache_options: if retention == CacheRetention::Never
                    && compat.supports_explicit_prompt_cache_mode {
                    Some(PromptCacheOptionsV { mode: PromptCacheMode::Explicit })
                } else {
                    None
                },
                store: false,
                max_output_tokens: sent_tokens(options),
                temperature: sent_number(options.stream.temperature),
                service_tier: options.service_tier,
                tools: if immediate.len() > 0 {
                    Some(response_tools(immediate, tool_options(compat)))
                } else {
                    None
                },
                tool_choice: options.tool_choice,
                reasoning: sent_reasoning(model, options),
                included: sent_included(model, options),
            },
        ),
    }
}

/// The providers whose calls have an identifier of their own for the item.
pub fn open_ai_tool_call_ids() -> (r: ResponsesToolCallIds)
    ensures
        r.allowed_tool_call_providers.deep_view() == seq!["openai"@, "openai-codex"@, "opencode"@],
{
    let mut allowed: Vec<String> = Vec::new();
    allowed.push("openai".to_owned());
    allowed.push("openai-codex".to_owned());
    allowed.push("opencode".to_owned());
    assert(allowed.deep_view() =~= seq!["openai"@, "openai-codex"@, "opencode"@]);
    ResponsesToolCallIds { allowed_tool_call_providers: allowed }
}

fn make_reasoning(model: &Model, options: &OpenAIResponsesOptions) -> (r: Option<
    ResponseReasoning,
>)
    ensures
        r.deep_view() == sent_reasoning(model@, options@),
{
    let summary = match options.reasoning_summary {
        Some(summary) => summary,
        None => None,
    };
    if !model.reasoning {
        return None;
    }
    if options.reasoning_effort.is_some() || summary.is_some() {
        let effort = match options.reasoning_effort {
            Some(level) => resolve_nullish_effort(model, level),
            None => "medium".to_owned(),
        };
        return Some(
            ResponseReasoning {
                effort,
                summary: match summary {
                    Some(summary) => Some(summary),
                    None => Some(ResponseReasoningSummary::Auto),
                },
            },
        );
    }
    if !same(model.provider.as_str(), "github-copilot") && !off_is_null(model) {
        let effort = match mapped_off(model) {
            Some(name) => name,
            None => "none".to_owned(),
        };
        return Some(ResponseReasoning { effort, summary: None });
    }
    None
}

fn make_included(model: &Model, options: &OpenAIResponsesOptions) -> (r: Option<Vec<String>>)
    ensures
        r.deep_view() == sent_included(model@, options@),
{
    let summarised = match options.reasoning_summary {
        Some(Some(_)) => true,
        _ => false,
    };
    if model.reasoning && (options.reasoning_effort.is_some() || summarised || same(
        model.provider.as_str(),
        "xai",
    )) {
        let mut r: Vec<String> = Vec::new();
        r.push("reasoning.encrypted_content".to_owned());
        assert(r.deep_view() =~= seq!["reasoning.encrypted_content"@]);
        Some(r)
    } else {
        None
    }
}

fn make_message_options(
    compat: &ResolvedCompat,
    properties: &Vec<(String, String)>,
    deferred: &Vec<(String, Tool)>,
) -> (r: ConvertResponsesMessagesOptions)
    ensures
        r@ == message_options(*compat, properties.deep_view(), deferred.deep_view()),
{
    ConvertResponsesMessagesOptions {
        include_system_prompt: None,
        grammar_tool_input_properties: Some(crate::assoc::copy_list(properties)),
        deferred_tools: Some(crate::assoc::copy_list(deferred)),
        deferred_tools_mode: deferred_tools_mode(compat),
        tool_options: make_tool_options(compat),
    }
}

fn make_tool_options(compat: &ResolvedCompat) -> (r: ConvertResponsesToolsOptions)
    ensures
        r@ == tool_options(*compat),
{
    ConvertResponsesToolsOptions {
        strict: None,
        supports_strict_mode: Some(compat.supports_strict_mode),
        supports_open_ai_grammar_tools: Some(compat.supports_open_ai_grammar_tools),
        defer_loading: false,
    }
}

/// The request for a conversation, or why there is none. The tools are those that are listed at
/// once, and, by name, those that are added in the course of the conversation.
pub fn build_request(
    model: &Model,
    context: &Context,
    options: &OpenAIResponsesOptions,
    compat: &ResolvedCompat,
    retention: CacheRetention,
    properties: &Vec<(String, String)>,
    immediate: &Vec<Tool>,
    deferred: &Vec<(String, Tool)>,
    ids: &ResponsesToolCallIds,
    now: i64,
) -> (r: Result<WireRequest, OpenAIResponsesError>)
    ensures
        outcome(r) == request(
            model@,
            context@,
            options@,
            *compat,
            retention,
            properties.deep_view(),
            immediate.deep_view(),
            deferred.deep_view(),
            ids,
            now,
        ),
{
    let how = make_message_options(compat, properties, deferred);
    let input = match convert_responses_messages(model, context, ids, &how, now) {
        Ok(input) => input,
        Err(e) => {
            return Err(e);
        },
    };
    let prompt_cache_key = if retention == CacheRetention::Never {
        None
    } else {
        match &options.stream.session_id {
            Some(id) => clamp_open_ai_prompt_cache_key(Some(id.as_str())),
            None => None,
        }
    };
    let max_output_tokens = match options.stream.max_tokens {
        Some(tokens) => if tokens == 0 {
            None
        } else if tokens < OPENAI_RESPONSES_MIN_OUTPUT_TOKENS {
            Some(OPENAI_RESPONSES_MIN_OUTPUT_TOKENS)
        } else {
            Some(tokens)
        },
        None => None,
    };
    Ok(
        WireRequest {
            model: model.id.clone(),
            input,
            stream: true,
            prompt_cache_key,
            prompt_cache_retention: if retention == CacheRetention::Long
                && compat.supports_long_cache_retention {
                Some("24h".to_owned())
            } else {
                None
            },
            prompt_cache_options: if retention == CacheRetention::Never
                && compat.supports_explicit_prompt_cache_mode {
                Some(PromptCacheOptions { mode: PromptCacheMode::Explicit })
            } else {
                None
            },
            store: false,
            max_output_tokens,
            temperature: match &options.stream.temperature {
                Some(n) => Some(to_js_number(n)),
                None => None,
            },
            service_tier: options.service_tier.clone(),
            tools: if immediate.len() > 0 {
                Some(convert_responses_tools(immediate, &make_tool_options(compat)))
            } else {
                None
            },
            tool_choice: options.tool_choice.clone(),
            reasoning: make_reasoning(model, options),
            included: make_included(model, options),
        },
    )
}

/// What [`build_params`] returns.
pub open spec fn body(
    model: ModelV,
    context: ContextV,
    options: OpenAIResponsesOptionsV,
    compat: ResolvedCompat,
    retention: CacheRetention,
    properties: Seq<(Seq<char>, Seq<char>)>,
    immediate: Seq<ToolV>,
    deferred: Seq<(Seq<char>, ToolV)>,
    ids: &ResponsesToolCallIds,
    now: i64,
) -> Result<JsonV, Seq<char>> {
    match request(
        model,
        context,
        options,
        compat,
        retention,
        properties,
        immediate,
        deferred,
        ids,
        now,
    ) {
        Err(e) => Err(e),
        Ok(request) => Ok(sampled(WireRequest::wire(request), options.stream.sampling_params)),
    }
}

/// The body of a request, with the caller's sampling parameters put over it, or why there is none.
pub fn build_params(
    model: &Model,
    context: &Context,
    options: &OpenAIResponsesOptions,
    compat: &ResolvedCompat,
    retention: CacheRetention,
    properties: &Vec<(String, String)>,
    immediate: &Vec<Tool>,
    deferred: &Vec<(String, Tool)>,
    ids: &ResponsesToolCallIds,
    now: i64,
) -> (r: Result<Json, OpenAIResponsesError>)
    ensures
        outcome(r) == body(
            model@,
            context@,
            options@,
            *compat,
            retention,
            properties.deep_view(),
            immediate.deep_view(),
            deferred.deep_view(),
            ids,
            now,
        ),
{
    match build_request(
        model,
        context,
        options,
        compat,
        retention,
        properties,
        immediate,
        deferred,
        ids,
        now,
    ) {
        Err(e) => Err(e),
        Ok(request) => Ok(with_sampling(request.to_json(), &options.stream)),
    }
}

/// The request that a run makes, or why it makes none. `environment` is what the variable
/// `PI_CACHE_RETENTION` holds; the tools are those that are listed at once and those that are added
/// in the course of the conversation.
pub open spec fn prepared(
    model: ModelV,
    context: ContextV,
    options: OpenAIResponsesOptionsV,
    client: &ClientHeaders,
    environment: Option<Seq<char>>,
    immediate: Seq<ToolV>,
    deferred: Seq<(Seq<char>, ToolV)>,
    ids: &ResponsesToolCallIds,
    now: i64,
) -> Result<PreparedRequestV, Seq<char>> {
    let compat = resolved(model);
    let properties = input_properties(
        all_tools(context.tools),
        compat.supports_open_ai_grammar_tools,
    );
    let kept = retention(options.stream.cache_retention, environment);
    let given = options.stream.request.headers;
    match client_key(model.provider, options.stream.request.api_key, given) {
        Err(e) => Err(e),
        Ok(key) => match body(
            model,
            context,
            options,
            compat,
            kept,
            properties,
            immediate,
            deferred,
            ids,
            now,
        ) {
            Err(e) => Err(e),
            Ok(params) => Ok(
                PreparedRequestV {
                    url: endpoint(model.base_url, "/responses"@),
                    headers: request_headers(
                        model,
                        client,
                        key,
                        given,
                        cached_session(options.stream.session_id, kept),
                        compat.session_affinity_format,
                        false,
                    ),
                    params,
                    properties,
                },
            ),
        },
    }
}

/// The request that a run makes, or why it makes none. `environment` is what the variable
/// `PI_CACHE_RETENTION` holds; the tools are those that are listed at once and those that are added
/// in the course of the conversation.
pub fn prepare_request(
    model: &Model,
    context: &Context,
    options: &OpenAIResponsesOptions,
    client: &ClientHeaders,
    environment: Option<&str>,
    immediate: &Vec<Tool>,
    deferred: &Vec<(String, Tool)>,
    ids: &ResponsesToolCallIds,
    now: i64,
) -> (r: Result<PreparedRequest, String>)
    ensures
        outcome(r) == prepared(
            model@,
            context@,
            options@,
            client,
            match environment {
                Some(value) => Some(value@),
                None => None,
            },
            immediate.deep_view(),
            deferred.deep_view(),
            ids,
            now,
        ),
{
    let key = match get_client_api_key(
        model.provider.as_str(),
        &options.stream.request.api_key,
        &options.stream.request.headers,
    ) {
        Ok(key) => key,
        Err(e) => {
            return Err(e);
        },
    };
    let compat = get_compat(model);
    let properties = create_grammar_tool_input_properties(
        &context.tools,
        compat.supports_open_ai_grammar_tools,
    );
    let kept = resolve_cache_retention(options.stream.cache_retention, environment);
    let session = match &options.stream.session_id {
        Some(id) => if kept == CacheRetention::Never {
            None
        } else {
            Some(id.as_str())
        },
        None => None,
    };
    let headers = create_headers(
        model,
        client,
        key.as_str(),
        &options.stream.request.headers,
        session,
        &compat,
    );
    match build_params(
        model,
        context,
        options,
        &compat,
        kept,
        &properties,
        immediate,
        deferred,
        ids,
        now,
    ) {
        Ok(params) => Ok(
            PreparedRequest {
                url: endpoint_url(model.base_url.as_str(), "/responses"),
                headers,
                params,
                properties,
            },
        ),
        Err(e) => Err(e.message()),
    }
}

/// What a tier costs, in tenths of the price of the default one.
pub open spec fn tier_tenths(model: ModelV, tier: Option<ResponseServiceTierV>) -> u64 {
    match tier {
        Some(ResponseServiceTierV::Flex) => 5,
        Some(ResponseServiceTierV::Priority) => if model.id == "gpt-5.5"@ {
            25
        } else {
            20
        },
        _ => 10,
    }
}

/// What a tier costs, in tenths of the price of the default one.
pub fn service_tier_cost_multiplier(model: &Model, tier: &Option<ResponseServiceTier>) -> (r: u64)
    ensures
        r == tier_tenths(model@, tier.deep_view()),
{
    match tier {
        Some(ResponseServiceTier::Flex) => 5,
        Some(ResponseServiceTier::Priority) => if same(model.id.as_str(), "gpt-5.5") {
            25
        } else {
            20
        },
        _ => 10,
    }
}

/// What the run is told of a stream that failed: nothing where the caller gave it up.
pub open spec fn stream_failure(error: OpenAiSseErrorV) -> Option<Seq<char>> {
    if error.aborted {
        None
    } else {
        Some(error.message)
    }
}

/// What the run is told of a stream that failed: nothing where the caller gave it up.
pub fn response_stream_error(error: &OpenAiSseError) -> (r: Option<OpenAIResponsesError>)
    ensures
        r.deep_view() == stream_failure(error@),
{
    if error.aborted {
        None
    } else {
        Some(OpenAIResponsesError::new(error.message.clone()))
    }
}

/// An answer is never bounded by fewer tokens than the API takes, and by no more than were asked
/// for where those are enough.
pub proof fn law_bound_is_taken(options: OpenAIResponsesOptionsV)
    ensures
        sent_tokens(options) matches Some(tokens) ==> tokens >= OPENAI_RESPONSES_MIN_OUTPUT_TOKENS,
        options.stream.max_tokens matches Some(tokens) ==> (tokens
            >= OPENAI_RESPONSES_MIN_OUTPUT_TOKENS ==> sent_tokens(options) == Some(tokens)),
        sent_tokens(options) is None <==> options.stream.max_tokens is None
            || options.stream.max_tokens == Some(0u64),
{
}

} // verus!
