//! What the providers of the chat-completions API take.
use crate::completions_types::{ResolvedCompat, ResolvedCompatV};
use crate::text::{
    begins, contains, has_part, lowered, same, starts_with, to_lower,
};
use crate::types::{
    CacheControlFormat, MaxTokensField, Model, ModelCompat, ModelCompatV, ModelV,
    OpenAICompletionsCompat, OpenAICompletionsCompatV, SessionAffinityFormat, ThinkingFormat,
};
use vstd::prelude::*;

verus! {

/// Which providers a model is served by, by the provider's name or the address.
#[derive(Clone, Copy, Debug, PartialEq, Eq, Structural)]
pub struct Served {
    /// Z.ai.
    pub zai: bool,
    /// Together.
    pub together: bool,
    /// Moonshot.
    pub moonshot: bool,
    /// OpenRouter.
    pub open_router: bool,
    /// Cloudflare Workers AI.
    pub cloudflare_workers: bool,
    /// Cloudflare AI Gateway.
    pub cloudflare_gateway: bool,
    /// NVIDIA.
    pub nvidia: bool,
    /// Ant Ling.
    pub ant_ling: bool,
    /// DeepSeek.
    pub deepseek: bool,
    /// Cerebras.
    pub cerebras: bool,
    /// xAI.
    pub grok: bool,
    /// Chutes.
    pub chutes: bool,
    /// OpenCode.
    pub opencode: bool,
}

/// Which providers a model is served by.
pub open spec fn served(model: ModelV) -> Served {
    Served {
        zai: model.provider == "zai"@ || model.provider == "zai-coding-cn"@ || has_part(model.base_url, "api.z.ai"@) || has_part(model.base_url, "open.bigmodel.cn"@),
        together: model.provider == "together"@ || has_part(model.base_url, "api.together.ai"@) || has_part(model.base_url, "api.together.xyz"@),
        moonshot: model.provider == "moonshotai"@ || model.provider == "moonshotai-cn"@ || has_part(model.base_url, "api.moonshot."@),
        open_router: model.provider == "openrouter"@ || has_part(model.base_url, "openrouter.ai"@),
        cloudflare_workers: model.provider == "cloudflare-workers-ai"@ || has_part(model.base_url, "api.cloudflare.com"@),
        cloudflare_gateway: model.provider == "cloudflare-ai-gateway"@ || has_part(model.base_url, "gateway.ai.cloudflare.com"@),
        nvidia: model.provider == "nvidia"@ || has_part(model.base_url, "integrate.api.nvidia.com"@),
        ant_ling: model.provider == "ant-ling"@ || has_part(model.base_url, "api.ant-ling.com"@),
        deepseek: model.provider == "deepseek"@ || has_part(lowered(model.base_url), "deepseek.com"@),
        cerebras: model.provider == "cerebras"@ || has_part(model.base_url, "cerebras.ai"@),
        grok: model.provider == "xai"@ || has_part(model.base_url, "api.x.ai"@),
        chutes: has_part(model.base_url, "chutes.ai"@),
        opencode: model.provider == "opencode"@ || has_part(model.base_url, "opencode.ai"@),
    }
}

fn detect_served(model: &Model) -> (r: Served)
    ensures
        r == served(model@),
{
    let provider = model.provider.as_str();
    let base_url = model.base_url.as_str();
    let lower_base_url = to_lower(base_url);
    Served {
        zai: same(provider, "zai") || same(provider, "zai-coding-cn") || contains(base_url, "api.z.ai") || contains(base_url, "open.bigmodel.cn"),
        together: same(provider, "together") || contains(base_url, "api.together.ai") || contains(base_url, "api.together.xyz"),
        moonshot: same(provider, "moonshotai") || same(provider, "moonshotai-cn") || contains(base_url, "api.moonshot."),
        open_router: same(provider, "openrouter") || contains(base_url, "openrouter.ai"),
        cloudflare_workers: same(provider, "cloudflare-workers-ai") || contains(base_url, "api.cloudflare.com"),
        cloudflare_gateway: same(provider, "cloudflare-ai-gateway") || contains(base_url, "gateway.ai.cloudflare.com"),
        nvidia: same(provider, "nvidia") || contains(base_url, "integrate.api.nvidia.com"),
        ant_ling: same(provider, "ant-ling") || contains(base_url, "api.ant-ling.com"),
        deepseek: same(provider, "deepseek") || contains(lower_base_url.as_str(), "deepseek.com"),
        cerebras: same(provider, "cerebras") || contains(base_url, "cerebras.ai"),
        grok: same(provider, "xai") || contains(base_url, "api.x.ai"),
        chutes: contains(base_url, "chutes.ai"),
        opencode: same(provider, "opencode") || contains(base_url, "opencode.ai"),
    }
}

impl Served {
    /// Whether one of the providers takes less than OpenAI's own API.
    pub open spec fn non_standard(self) -> bool {
        self.nvidia || self.cerebras || self.grok || self.together || self.chutes || self.deepseek
            || self.zai || self.moonshot || self.opencode || self.cloudflare_workers
            || self.cloudflare_gateway || self.ant_ling
    }

    /// Whether one of the providers bounds an answer by the older field.
    pub open spec fn old_token_field(self) -> bool {
        self.chutes || self.deepseek || self.moonshot || self.cloudflare_gateway || self.together
            || self.nvidia || self.ant_ling || self.zai
    }

    fn is_non_standard(self) -> (r: bool)
        ensures
            r == self.non_standard(),
    {
        self.nvidia || self.cerebras || self.grok || self.together || self.chutes || self.deepseek
            || self.zai || self.moonshot || self.opencode || self.cloudflare_workers
            || self.cloudflare_gateway || self.ant_ling
    }

    fn has_old_token_field(self) -> (r: bool)
        ensures
            r == self.old_token_field(),
    {
        self.chutes || self.deepseek || self.moonshot || self.cloudflare_gateway || self.together
            || self.nvidia || self.ant_ling || self.zai
    }
}

/// What the provider of a model takes, as far as its name and address tell.
pub open spec fn detected(model: ModelV) -> ResolvedCompatV {
    let s = served(model);
    let trusted_role = begins(model.id, "anthropic/"@) || begins(model.id, "openai/"@);
    let anthropic = model.provider == "openrouter"@ && begins(model.id, "anthropic/"@);
    ResolvedCompatV {
        supports_store: !s.non_standard(),
        supports_developer_role: (s.open_router && trusted_role) || (!s.non_standard() && !s.open_router),
        supports_reasoning_effort: !s.grok && !s.zai && !s.moonshot && !s.together
            && !s.cloudflare_gateway && !s.nvidia && !s.ant_ling,
        supports_usage_in_streaming: true,
        supports_finish_reason: true,
        max_tokens_field: if s.old_token_field() {
            MaxTokensField::MaxTokens
        } else {
            MaxTokensField::MaxCompletionTokens
        },
        requires_tool_result_name: false,
        requires_assistant_after_tool_result: false,
        requires_thinking_as_text: false,
        requires_reasoning_content_on_assistant_messages: s.deepseek,
        thinking_format: if s.deepseek {
            ThinkingFormat::Deepseek
        } else if s.zai {
            ThinkingFormat::Zai
        } else if s.together {
            ThinkingFormat::Together
        } else if s.ant_ling {
            ThinkingFormat::AntLing
        } else if s.open_router {
            ThinkingFormat::Openrouter
        } else {
            ThinkingFormat::Openai
        },
        chat_template_kwargs: Seq::empty(),
        chat_template_args: Seq::empty(),
        open_router_routing: None,
        vercel_gateway_routing: None,
        zai_tool_stream: false,
        thinking_token_budget_field: None,
        supports_thinking_token_budget: Some(false),
        supports_open_ai_grammar_tools: false,
        supports_strict_mode: !s.moonshot && !s.together && !s.cloudflare_gateway && !s.nvidia,
        cache_control_format: if anthropic {
            Some(CacheControlFormat::Anthropic)
        } else {
            None
        },
        send_session_affinity_headers: false,
        deferred_tools_mode: None,
        session_affinity_format: if s.open_router {
            SessionAffinityFormat::Openrouter
        } else {
            SessionAffinityFormat::Openai
        },
        supports_long_cache_retention: !(s.together || s.cloudflare_workers || s.cloudflare_gateway
            || s.nvidia || s.ant_ling),
    }
}

fn detect_compat(model: &Model) -> (r: ResolvedCompat)
    ensures
        r@ == detected(model@),
{
    let s = detect_served(model);
    let trusted_role = starts_with(model.id.as_str(), "anthropic/") || starts_with(
        model.id.as_str(),
        "openai/",
    );
    let anthropic = same(model.provider.as_str(), "openrouter") && starts_with(
        model.id.as_str(),
        "anthropic/",
    );
    let r = ResolvedCompat {
        supports_store: !s.is_non_standard(),
        supports_developer_role: (s.open_router && trusted_role) || (!s.is_non_standard() && !s.open_router),
        supports_reasoning_effort: !s.grok && !s.zai && !s.moonshot && !s.together
            && !s.cloudflare_gateway && !s.nvidia && !s.ant_ling,
        supports_usage_in_streaming: true,
        supports_finish_reason: true,
        max_tokens_field: if s.has_old_token_field() {
            MaxTokensField::MaxTokens
        } else {
            MaxTokensField::MaxCompletionTokens
        },
        requires_tool_result_name: false,
        requires_assistant_after_tool_result: false,
        requires_thinking_as_text: false,
        requires_reasoning_content_on_assistant_messages: s.deepseek,
        thinking_format: if s.deepseek {
            ThinkingFormat::Deepseek
        } else if s.zai {
            ThinkingFormat::Zai
        } else if s.together {
            ThinkingFormat::Together
        } else if s.ant_ling {
            ThinkingFormat::AntLing
        } else if s.open_router {
            ThinkingFormat::Openrouter
        } else {
            ThinkingFormat::Openai
        },
        chat_template_kwargs: Vec::new(),
        chat_template_args: Vec::new(),
        open_router_routing: None,
        vercel_gateway_routing: None,
        zai_tool_stream: false,
        thinking_token_budget_field: None,
        supports_thinking_token_budget: Some(false),
        supports_open_ai_grammar_tools: false,
        supports_strict_mode: !s.moonshot && !s.together && !s.cloudflare_gateway && !s.nvidia,
        cache_control_format: if anthropic {
            Some(CacheControlFormat::Anthropic)
        } else {
            None
        },
        send_session_affinity_headers: false,
        deferred_tools_mode: None,
        session_affinity_format: if s.open_router {
            SessionAffinityFormat::Openrouter
        } else {
            SessionAffinityFormat::Openai
        },
        supports_long_cache_retention: !(s.together || s.cloudflare_workers || s.cloudflare_gateway
            || s.nvidia || s.ant_ling),
    };
    assert(r.chat_template_kwargs.deep_view() =~= Seq::empty());
    assert(r.chat_template_args.deep_view() =~= Seq::empty());
    r
}

/// What is configured, or else what was found.
pub open spec fn over<T>(configured: Option<T>, found: T) -> T {
    match configured {
        Some(v) => v,
        None => found,
    }
}

/// What is configured, or else what was found.
pub open spec fn over_optional<T>(configured: Option<T>, found: Option<T>) -> Option<T> {
    match configured {
        Some(v) => Some(v),
        None => found,
    }
}

fn choose_over<T: DeepView>(configured: Option<T>, found: T) -> (r: T)
    ensures
        r.deep_view() == over(configured.deep_view(), found.deep_view()),
{
    match configured {
        Some(v) => v,
        None => found,
    }
}

fn choose_optional<T: DeepView>(configured: Option<T>, found: Option<T>) -> (r: Option<T>)
    ensures
        r.deep_view() == over_optional(configured.deep_view(), found.deep_view()),
{
    match configured {
        Some(v) => Some(v),
        None => found,
    }
}

/// What was found of a provider with what is configured put over it.
#[verifier::opaque]
pub open spec fn applied(found: ResolvedCompatV, compat: OpenAICompletionsCompatV) -> ResolvedCompatV {
    ResolvedCompatV {
        supports_store: over(compat.supports_store, found.supports_store),
        supports_developer_role: over(compat.supports_developer_role, found.supports_developer_role),
        supports_reasoning_effort: over(compat.supports_reasoning_effort, found.supports_reasoning_effort),
        supports_usage_in_streaming: over(compat.supports_usage_in_streaming, found.supports_usage_in_streaming),
        supports_finish_reason: over(compat.supports_finish_reason, found.supports_finish_reason),
        max_tokens_field: over(compat.max_tokens_field, found.max_tokens_field),
        requires_tool_result_name: over(compat.requires_tool_result_name, found.requires_tool_result_name),
        requires_assistant_after_tool_result: over(compat.requires_assistant_after_tool_result, found.requires_assistant_after_tool_result),
        requires_thinking_as_text: over(compat.requires_thinking_as_text, found.requires_thinking_as_text),
        requires_reasoning_content_on_assistant_messages: over(compat.requires_reasoning_content_on_assistant_messages, found.requires_reasoning_content_on_assistant_messages),
        thinking_format: over(compat.thinking_format, found.thinking_format),
        chat_template_kwargs: over(compat.chat_template_kwargs, found.chat_template_kwargs),
        chat_template_args: over(compat.chat_template_args, found.chat_template_args),
        open_router_routing: over_optional(compat.open_router_routing, found.open_router_routing),
        vercel_gateway_routing: over_optional(compat.vercel_gateway_routing, found.vercel_gateway_routing),
        zai_tool_stream: over(compat.zai_tool_stream, found.zai_tool_stream),
        thinking_token_budget_field: over_optional(compat.thinking_token_budget_field, found.thinking_token_budget_field),
        supports_thinking_token_budget: over_optional(compat.supports_thinking_token_budget, found.supports_thinking_token_budget),
        supports_open_ai_grammar_tools: over(compat.supports_open_ai_grammar_tools, found.supports_open_ai_grammar_tools),
        supports_strict_mode: over(compat.supports_strict_mode, found.supports_strict_mode),
        cache_control_format: over_optional(compat.cache_control_format, found.cache_control_format),
        send_session_affinity_headers: over(compat.send_session_affinity_headers, found.send_session_affinity_headers),
        deferred_tools_mode: over_optional(compat.deferred_tools_mode, found.deferred_tools_mode),
        session_affinity_format: over(compat.session_affinity_format, found.session_affinity_format),
        supports_long_cache_retention: over(compat.supports_long_cache_retention, found.supports_long_cache_retention),
    }
}

fn apply_compat(found: ResolvedCompat, compat: OpenAICompletionsCompat) -> (r: ResolvedCompat)
    ensures
        r@ == applied(found@, compat@),
{
    proof {
        reveal(applied);
    }
    ResolvedCompat {
        supports_store: choose_over(compat.supports_store, found.supports_store),
        supports_developer_role: choose_over(compat.supports_developer_role, found.supports_developer_role),
        supports_reasoning_effort: choose_over(compat.supports_reasoning_effort, found.supports_reasoning_effort),
        supports_usage_in_streaming: choose_over(compat.supports_usage_in_streaming, found.supports_usage_in_streaming),
        supports_finish_reason: choose_over(compat.supports_finish_reason, found.supports_finish_reason),
        max_tokens_field: choose_over(compat.max_tokens_field, found.max_tokens_field),
        requires_tool_result_name: choose_over(compat.requires_tool_result_name, found.requires_tool_result_name),
        requires_assistant_after_tool_result: choose_over(compat.requires_assistant_after_tool_result, found.requires_assistant_after_tool_result),
        requires_thinking_as_text: choose_over(compat.requires_thinking_as_text, found.requires_thinking_as_text),
        requires_reasoning_content_on_assistant_messages: choose_over(compat.requires_reasoning_content_on_assistant_messages, found.requires_reasoning_content_on_assistant_messages),
        thinking_format: choose_over(compat.thinking_format, found.thinking_format),
        chat_template_kwargs: choose_over(compat.chat_template_kwargs, found.chat_template_kwargs),
        chat_template_args: choose_over(compat.chat_template_args, found.chat_template_args),
        open_router_routing: choose_optional(compat.open_router_routing, found.open_router_routing),
        vercel_gateway_routing: choose_optional(compat.vercel_gateway_routing, found.vercel_gateway_routing),
        zai_tool_stream: choose_over(compat.zai_tool_stream, found.zai_tool_stream),
        thinking_token_budget_field: choose_optional(compat.thinking_token_budget_field, found.thinking_token_budget_field),
        supports_thinking_token_budget: choose_optional(compat.supports_thinking_token_budget, found.supports_thinking_token_budget),
        supports_open_ai_grammar_tools: choose_over(compat.supports_open_ai_grammar_tools, found.supports_open_ai_grammar_tools),
        supports_strict_mode: choose_over(compat.supports_strict_mode, found.supports_strict_mode),
        cache_control_format: choose_optional(compat.cache_control_format, found.cache_control_format),
        send_session_affinity_headers: choose_over(compat.send_session_affinity_headers, found.send_session_affinity_headers),
        deferred_tools_mode: choose_optional(compat.deferred_tools_mode, found.deferred_tools_mode),
        session_affinity_format: choose_over(compat.session_affinity_format, found.session_affinity_format),
        supports_long_cache_retention: choose_over(compat.supports_long_cache_retention, found.supports_long_cache_retention),
    }
}

/// What is configured of a provider for this API. What is configured for the other API counts as
/// far as both have it.
pub open spec fn configured(compat: ModelCompatV) -> OpenAICompletionsCompatV {
    match compat {
        ModelCompatV::OpenAICompletions(compat) => compat,
        ModelCompatV::OpenAIResponses(compat) => OpenAICompletionsCompatV {
            supports_store: None,
            supports_developer_role: compat.supports_developer_role,
            supports_reasoning_effort: None,
            supports_usage_in_streaming: None,
            supports_finish_reason: None,
            max_tokens_field: None,
            requires_tool_result_name: None,
            requires_assistant_after_tool_result: None,
            requires_thinking_as_text: None,
            requires_reasoning_content_on_assistant_messages: None,
            thinking_format: None,
            chat_template_kwargs: None,
            chat_template_args: None,
            open_router_routing: None,
            vercel_gateway_routing: None,
            zai_tool_stream: None,
            thinking_token_budget_field: None,
            supports_thinking_token_budget: None,
            supports_open_ai_grammar_tools: compat.supports_open_ai_grammar_tools,
            supports_strict_mode: compat.supports_strict_mode,
            cache_control_format: None,
            send_session_affinity_headers: None,
            deferred_tools_mode: None,
            session_affinity_format: compat.session_affinity_format,
            supports_long_cache_retention: compat.supports_long_cache_retention,
        },
    }
}

fn configured_compat(compat: &ModelCompat) -> (r: OpenAICompletionsCompat)
    ensures
        r@ == configured(compat@),
{
    match compat {
        ModelCompat::OpenAICompletions(compat) => compat.clone(),
        ModelCompat::OpenAIResponses(compat) => {
            let mut r = OpenAICompletionsCompat::default();
            r.supports_developer_role = compat.supports_developer_role;
            r.supports_open_ai_grammar_tools = compat.supports_open_ai_grammar_tools;
            r.supports_strict_mode = compat.supports_strict_mode;
            r.session_affinity_format = compat.session_affinity_format;
            r.supports_long_cache_retention = compat.supports_long_cache_retention;
            r
        },
    }
}

/// What [`get_compat`] returns.
pub open spec fn resolved(model: ModelV) -> ResolvedCompatV {
    match model.compat {
        Some(compat) => applied(detected(model), configured(compat)),
        None => detected(model),
    }
}

/// What the provider of a model takes: what its name and address tell, with what is configured put
/// over it.
pub fn get_compat(model: &Model) -> (r: ResolvedCompat)
    ensures
        r@ == resolved(model@),
{
    let found = detect_compat(model);
    match &model.compat {
        Some(compat) => apply_compat(found, configured_compat(compat)),
        None => found,
    }
}

} // verus!
