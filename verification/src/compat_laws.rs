//! What a provider of chat completions is taken to support.
use crate::completions_compat::{detected, resolved};
use crate::completions_types::ResolvedCompatV;
use crate::text::{begins, has_part, lowered};
use crate::types::{
    CacheControlFormat, MaxTokensField, ModelCompatV, ModelV, OpenAICompletionsCompatV,
    SessionAffinityFormat, ThinkingFormat,
};
use vstd::prelude::*;

verus! {

/// Whether a model is served under a name or an address.
pub open spec fn under(model: ModelV, name: Seq<char>, address: Seq<char>) -> bool {
    model.provider == name || has_part(model.base_url, address)
}

/// Whether Z.ai serves a model.
pub open spec fn by_zai(model: ModelV) -> bool {
    under(model, "zai"@, "api.z.ai"@) || under(model, "zai-coding-cn"@, "open.bigmodel.cn"@)
}

/// Whether Together serves a model.
pub open spec fn by_together(model: ModelV) -> bool {
    under(model, "together"@, "api.together.ai"@) || has_part(
        model.base_url,
        "api.together.xyz"@,
    )
}

/// Whether Moonshot serves a model.
pub open spec fn by_moonshot(model: ModelV) -> bool {
    under(model, "moonshotai"@, "api.moonshot."@) || model.provider == "moonshotai-cn"@
}

/// Whether OpenRouter serves a model.
pub open spec fn by_open_router(model: ModelV) -> bool {
    under(model, "openrouter"@, "openrouter.ai"@)
}

/// Whether Cloudflare's workers serve a model.
pub open spec fn by_cloudflare_workers(model: ModelV) -> bool {
    under(model, "cloudflare-workers-ai"@, "api.cloudflare.com"@)
}

/// Whether Cloudflare's gateway serves a model.
pub open spec fn by_cloudflare_gateway(model: ModelV) -> bool {
    under(model, "cloudflare-ai-gateway"@, "gateway.ai.cloudflare.com"@)
}

/// Whether NVIDIA serves a model.
pub open spec fn by_nvidia(model: ModelV) -> bool {
    under(model, "nvidia"@, "integrate.api.nvidia.com"@)
}

/// Whether Ant Ling serves a model.
pub open spec fn by_ant_ling(model: ModelV) -> bool {
    under(model, "ant-ling"@, "api.ant-ling.com"@)
}

/// Whether DeepSeek serves a model.
pub open spec fn by_deepseek(model: ModelV) -> bool {
    model.provider == "deepseek"@ || has_part(lowered(model.base_url), "deepseek.com"@)
}

/// Whether Cerebras serves a model.
pub open spec fn by_cerebras(model: ModelV) -> bool {
    under(model, "cerebras"@, "cerebras.ai"@)
}

/// Whether xAI serves a model.
pub open spec fn by_grok(model: ModelV) -> bool {
    under(model, "xai"@, "api.x.ai"@)
}

/// Whether Chutes serves a model.
pub open spec fn by_chutes(model: ModelV) -> bool {
    has_part(model.base_url, "chutes.ai"@)
}

/// Whether OpenCode serves a model.
pub open spec fn by_opencode(model: ModelV) -> bool {
    under(model, "opencode"@, "opencode.ai"@)
}

/// Whether a provider is known to take less than OpenAI does.
pub open spec fn by_a_stranger(model: ModelV) -> bool {
    ||| by_zai(model)
    ||| by_together(model)
    ||| by_moonshot(model)
    ||| by_cloudflare_workers(model)
    ||| by_cloudflare_gateway(model)
    ||| by_nvidia(model)
    ||| by_ant_ling(model)
    ||| by_deepseek(model)
    ||| by_cerebras(model)
    ||| by_grok(model)
    ||| by_chutes(model)
    ||| by_opencode(model)
}

/// What is found of a provider by its name and its address, where the model says nothing.
pub proof fn law_support_is_found(model: ModelV)
    requires
        model.compat is None,
    ensures
        ({
            let found = resolved(model);
            &&& found.supports_store == !by_a_stranger(model)
            &&& found.supports_developer_role == if by_open_router(model) && (begins(
                model.id,
                "anthropic/"@,
            ) || begins(model.id, "openai/"@)) {
                true
            } else {
                !by_a_stranger(model) && !by_open_router(model)
            }
            &&& found.supports_reasoning_effort == !(by_grok(model) || by_zai(model)
                || by_moonshot(model) || by_together(model) || by_cloudflare_gateway(model)
                || by_nvidia(model) || by_ant_ling(model))
            &&& found.supports_usage_in_streaming
            &&& found.supports_finish_reason
            &&& found.max_tokens_field == if by_chutes(model) || by_deepseek(model) || by_moonshot(
                model,
            ) || by_cloudflare_gateway(model) || by_together(model) || by_nvidia(model)
                || by_ant_ling(model) || by_zai(model) {
                MaxTokensField::MaxTokens
            } else {
                MaxTokensField::MaxCompletionTokens
            }
            &&& !found.requires_tool_result_name
            &&& !found.requires_assistant_after_tool_result
            &&& !found.requires_thinking_as_text
            &&& found.requires_reasoning_content_on_assistant_messages == by_deepseek(model)
            &&& found.thinking_format == if by_deepseek(model) {
                ThinkingFormat::Deepseek
            } else if by_zai(model) {
                ThinkingFormat::Zai
            } else if by_together(model) {
                ThinkingFormat::Together
            } else if by_ant_ling(model) {
                ThinkingFormat::AntLing
            } else if by_open_router(model) {
                ThinkingFormat::Openrouter
            } else {
                ThinkingFormat::Openai
            }
            &&& found.chat_template_kwargs.len() == 0
            &&& found.chat_template_args.len() == 0
            &&& found.open_router_routing is None
            &&& found.vercel_gateway_routing is None
            &&& !found.zai_tool_stream
            &&& found.thinking_token_budget_field is None
            &&& found.supports_thinking_token_budget == Some(false)
            &&& !found.supports_open_ai_grammar_tools
            &&& found.supports_strict_mode == !(by_moonshot(model) || by_together(model)
                || by_cloudflare_gateway(model) || by_nvidia(model))
            &&& found.cache_control_format == if model.provider == "openrouter"@ && begins(
                model.id,
                "anthropic/"@,
            ) {
                Some(CacheControlFormat::Anthropic)
            } else {
                None
            }
            &&& !found.send_session_affinity_headers
            &&& found.deferred_tools_mode is None
            &&& found.session_affinity_format == if by_open_router(model) {
                SessionAffinityFormat::Openrouter
            } else {
                SessionAffinityFormat::Openai
            }
            &&& found.supports_long_cache_retention == !(by_together(model)
                || by_cloudflare_workers(model) || by_cloudflare_gateway(model) || by_nvidia(model)
                || by_ant_ling(model))
        }),
{
}

/// Whether what a model says of its provider holds in `found`, each word of it.
pub open spec fn holds(found: ResolvedCompatV, said: OpenAICompletionsCompatV) -> bool {
    &&& said.supports_store matches Some(b) ==> found.supports_store == b
    &&& said.supports_developer_role matches Some(b) ==> found.supports_developer_role == b
    &&& said.supports_reasoning_effort matches Some(b) ==> found.supports_reasoning_effort == b
    &&& said.supports_usage_in_streaming matches Some(b) ==> found.supports_usage_in_streaming == b
    &&& said.supports_finish_reason matches Some(b) ==> found.supports_finish_reason == b
    &&& said.max_tokens_field matches Some(f) ==> found.max_tokens_field == f
    &&& said.requires_tool_result_name matches Some(b) ==> found.requires_tool_result_name == b
    &&& said.requires_assistant_after_tool_result matches Some(b)
        ==> found.requires_assistant_after_tool_result == b
    &&& said.requires_thinking_as_text matches Some(b) ==> found.requires_thinking_as_text == b
    &&& said.requires_reasoning_content_on_assistant_messages matches Some(b)
        ==> found.requires_reasoning_content_on_assistant_messages == b
    &&& said.thinking_format matches Some(f) ==> found.thinking_format == f
    &&& said.chat_template_kwargs matches Some(v) ==> found.chat_template_kwargs == v
    &&& said.chat_template_args matches Some(v) ==> found.chat_template_args == v
    &&& said.open_router_routing is Some ==> found.open_router_routing == said.open_router_routing
    &&& said.vercel_gateway_routing is Some ==> found.vercel_gateway_routing
        == said.vercel_gateway_routing
    &&& said.zai_tool_stream matches Some(b) ==> found.zai_tool_stream == b
    &&& said.thinking_token_budget_field is Some ==> found.thinking_token_budget_field
        == said.thinking_token_budget_field
    &&& said.supports_thinking_token_budget is Some ==> found.supports_thinking_token_budget
        == said.supports_thinking_token_budget
    &&& said.supports_open_ai_grammar_tools matches Some(b)
        ==> found.supports_open_ai_grammar_tools == b
    &&& said.supports_strict_mode matches Some(b) ==> found.supports_strict_mode == b
    &&& said.cache_control_format is Some ==> found.cache_control_format
        == said.cache_control_format
    &&& said.send_session_affinity_headers matches Some(b) ==> found.send_session_affinity_headers
        == b
    &&& said.deferred_tools_mode is Some ==> found.deferred_tools_mode == said.deferred_tools_mode
    &&& said.session_affinity_format matches Some(f) ==> found.session_affinity_format == f
    &&& said.supports_long_cache_retention matches Some(b) ==> found.supports_long_cache_retention
        == b
}

/// Whether what a model does not say of its provider is as it was found.
pub open spec fn as_found(
    now: ResolvedCompatV,
    found: ResolvedCompatV,
    said: OpenAICompletionsCompatV,
) -> bool {
    &&& said.supports_store is None ==> now.supports_store == found.supports_store
    &&& said.supports_developer_role is None ==> now.supports_developer_role
        == found.supports_developer_role
    &&& said.supports_reasoning_effort is None ==> now.supports_reasoning_effort
        == found.supports_reasoning_effort
    &&& said.supports_usage_in_streaming is None ==> now.supports_usage_in_streaming
        == found.supports_usage_in_streaming
    &&& said.supports_finish_reason is None ==> now.supports_finish_reason
        == found.supports_finish_reason
    &&& said.max_tokens_field is None ==> now.max_tokens_field == found.max_tokens_field
    &&& said.requires_tool_result_name is None ==> now.requires_tool_result_name
        == found.requires_tool_result_name
    &&& said.requires_assistant_after_tool_result is None
        ==> now.requires_assistant_after_tool_result == found.requires_assistant_after_tool_result
    &&& said.requires_thinking_as_text is None ==> now.requires_thinking_as_text
        == found.requires_thinking_as_text
    &&& said.requires_reasoning_content_on_assistant_messages is None
        ==> now.requires_reasoning_content_on_assistant_messages
        == found.requires_reasoning_content_on_assistant_messages
    &&& said.thinking_format is None ==> now.thinking_format == found.thinking_format
    &&& said.chat_template_kwargs is None ==> now.chat_template_kwargs == found.chat_template_kwargs
    &&& said.chat_template_args is None ==> now.chat_template_args == found.chat_template_args
    &&& said.open_router_routing is None ==> now.open_router_routing == found.open_router_routing
    &&& said.vercel_gateway_routing is None ==> now.vercel_gateway_routing
        == found.vercel_gateway_routing
    &&& said.zai_tool_stream is None ==> now.zai_tool_stream == found.zai_tool_stream
    &&& said.thinking_token_budget_field is None ==> now.thinking_token_budget_field
        == found.thinking_token_budget_field
    &&& said.supports_thinking_token_budget is None ==> now.supports_thinking_token_budget
        == found.supports_thinking_token_budget
    &&& said.supports_open_ai_grammar_tools is None ==> now.supports_open_ai_grammar_tools
        == found.supports_open_ai_grammar_tools
    &&& said.supports_strict_mode is None ==> now.supports_strict_mode
        == found.supports_strict_mode
    &&& said.cache_control_format is None ==> now.cache_control_format == found.cache_control_format
    &&& said.send_session_affinity_headers is None ==> now.send_session_affinity_headers
        == found.send_session_affinity_headers
    &&& said.deferred_tools_mode is None ==> now.deferred_tools_mode == found.deferred_tools_mode
    &&& said.session_affinity_format is None ==> now.session_affinity_format
        == found.session_affinity_format
    &&& said.supports_long_cache_retention is None ==> now.supports_long_cache_retention
        == found.supports_long_cache_retention
}

/// What a model says of its provider counts, and of the rest what is found.
pub proof fn law_model_has_the_last_word(model: ModelV)
    ensures
        model.compat matches Some(ModelCompatV::OpenAICompletions(said)) ==> holds(
            resolved(model),
            said,
        ) && as_found(resolved(model), resolved(ModelV { compat: None, ..model }), said),
        model.compat matches Some(ModelCompatV::OpenAIResponses(said)) ==> {
            let now = resolved(model);
            let found = resolved(ModelV { compat: None, ..model });
            &&& now.supports_developer_role == match said.supports_developer_role {
                Some(b) => b,
                None => found.supports_developer_role,
            }
            &&& now.supports_open_ai_grammar_tools == match said.supports_open_ai_grammar_tools {
                Some(b) => b,
                None => found.supports_open_ai_grammar_tools,
            }
            &&& now.supports_strict_mode == match said.supports_strict_mode {
                Some(b) => b,
                None => found.supports_strict_mode,
            }
            &&& now.session_affinity_format == match said.session_affinity_format {
                Some(f) => f,
                None => found.session_affinity_format,
            }
            &&& now.supports_long_cache_retention == match said.supports_long_cache_retention {
                Some(b) => b,
                None => found.supports_long_cache_retention,
            }
            &&& now.supports_store == found.supports_store
            &&& now.supports_reasoning_effort == found.supports_reasoning_effort
            &&& now.max_tokens_field == found.max_tokens_field
            &&& now.thinking_format == found.thinking_format
            &&& now.cache_control_format == found.cache_control_format
        },
{
    reveal(crate::completions_compat::applied);
    let silent = ModelV { compat: None, ..model };
    assert(detected(model) == detected(silent));
}

} // verus!
