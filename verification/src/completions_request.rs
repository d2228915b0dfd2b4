//! Chat-completions requests.
use crate::assoc;
use crate::assoc::{put, put_all};
use crate::cache_control::{
    apply_anthropic_cache_control, breakpoint, first_marked, get_compat_cache_control, last_marked,
    marked_tools,
};
use crate::completions_messages::{
    all_tools, convert_messages_wire, convert_tools, converted, deferred_names,
    get_deferred_tool_names, wire_tools,
};
use crate::completions_types::{
    OpenAICompletionsOptions, OpenAICompletionsOptionsV, ResolvedCompat, ResolvedCompatV,
    WireRequest, WireRequestV, WireStreamOptions, WireStreamOptionsV,
};
use crate::constrained_sampling::outcome;
use crate::js::{js_number, to_js_number};
use crate::json::{
    extend, member, object, Json, JsonNumber, JsonNumberV, JsonObject, JsonV,
};
use crate::openai_prompt_cache::{cache_key, clamp_open_ai_prompt_cache_key};
use crate::responses_stream::{has_call, has_tool_call};
use crate::simple_options::{
    budget, clamp_thinking_budget_to_answer_room, roomy_budget, thinking_budget_for_level,
};
use crate::text::{contains, has_part};
use crate::thinking_parameters::{apply_thinking_parameters, single, thinking_fields};
use crate::tool_call_ids::contains_name;
use crate::types::{
    CacheRetention, Context, ContextV, DeferredToolsMode,
    MaxTokensField, Message, MessageV, Model, ModelV, StreamOptions, ThinkingTokenBudgetField,
    Tool, ToolV, VercelGatewayRouting, VercelGatewayRoutingV,
};
use crate::wire::{add_optional, no_fields, with, ToJson};
use vstd::prelude::*;

verus! {

/// Whether a message calls a tool or answers a call.
pub open spec fn concerns_tools(message: MessageV) -> bool {
    match message {
        MessageV::ToolResult(_) => true,
        MessageV::Assistant(turn) => has_call(turn.content),
        MessageV::User(_) => false,
    }
}

/// Whether a conversation has used tools.
pub open spec fn tool_history(messages: Seq<MessageV>) -> bool {
    exists|i: int| 0 <= i < messages.len() && #[trigger] concerns_tools(messages[i])
}

/// Whether a conversation has used tools.
pub fn has_tool_history(messages: &Vec<Message>) -> (r: bool)
    ensures
        r == tool_history(messages.deep_view()),
{
    let mut i: usize = 0;
    while i < messages.len()
        invariant
            i <= messages@.len(),
            forall|k: int| 0 <= k < i ==> !#[trigger] concerns_tools(messages.deep_view()[k]),
        decreases messages@.len() - i,
    {
        let found = match &messages[i] {
            Message::ToolResult(_) => true,
            Message::Assistant(turn) => has_tool_call(&turn.content),
            Message::User(_) => false,
        };
        assert(found == concerns_tools(messages.deep_view()[i as int]));
        if found {
            return true;
        }
        i += 1;
    }
    false
}

/// Tools without those of the names.
pub open spec fn tools_except(tools: Seq<ToolV>, names: Seq<Seq<char>>) -> Seq<ToolV>
    decreases tools.len(),
{
    if tools.len() == 0 {
        Seq::empty()
    } else {
        let rest = tools_except(tools.drop_last(), names);
        if names.contains(tools.last().name) {
            rest
        } else {
            rest.push(tools.last())
        }
    }
}

/// The tools that a request lists: those that no result has yet to add.
pub open spec fn active_tools(context: ContextV, compat: ResolvedCompatV) -> Seq<ToolV> {
    tools_except(
        all_tools(context.tools),
        if compat.deferred_tools_mode == Some(DeferredToolsMode::Kimi) {
            deferred_names(context.messages)
        } else {
            Seq::empty()
        },
    )
}

fn collect_active_tools(context: &Context, compat: &ResolvedCompat) -> (r: Vec<Tool>)
    ensures
        r.deep_view() == active_tools(context@, compat@),
{
    let names = match compat.deferred_tools_mode {
        Some(DeferredToolsMode::Kimi) => get_deferred_tool_names(&context.messages),
        None => Vec::new(),
    };
    assert(compat.deferred_tools_mode is None ==> names.deep_view() =~= Seq::empty());
    let ghost left_out = names.deep_view();
    let mut r: Vec<Tool> = Vec::new();
    assert(r.deep_view() =~= Seq::empty());
    if let Some(tools) = &context.tools {
        let ghost all = tools.deep_view();
        let mut i: usize = 0;
        assert(all.take(0) =~= Seq::empty());
        while i < tools.len()
            invariant
                all == tools.deep_view(),
                left_out == names.deep_view(),
                i <= tools@.len(),
                r.deep_view() == tools_except(all.take(i as int), left_out),
            decreases tools@.len() - i,
        {
            let ghost before = r.deep_view();
            assert(all.take(i + 1).drop_last() =~= all.take(i as int));
            assert(all.take(i + 1).last() == tools@[i as int]@);
            if !contains_name(&names, tools[i].name.as_str()) {
                r.push(tools[i].clone());
                assert(r.deep_view() =~= before.push(tools@[i as int]@));
            }
            i += 1;
        }
        assert(all.take(i as int) =~= all);
    }
    r
}

/// The field that bounds the reasoning, where the provider has one.
pub open spec fn budget_field(compat: ResolvedCompatV) -> Option<Seq<char>> {
    match compat.thinking_token_budget_field {
        Some(ThinkingTokenBudgetField::ThinkingTokenBudget) => Some("thinking_token_budget"@),
        Some(ThinkingTokenBudgetField::ThinkingBudget) => Some("thinking_budget"@),
        Some(ThinkingTokenBudgetField::ThinkingBudgetTokens) => Some("thinking_budget_tokens"@),
        None => if compat.supports_thinking_token_budget == Some(true) {
            Some("thinking_token_budget"@)
        } else {
            None
        },
    }
}

fn find_budget_field(compat: &ResolvedCompat) -> (r: Option<String>)
    ensures
        r.deep_view() == budget_field(compat@),
{
    match compat.thinking_token_budget_field {
        Some(ThinkingTokenBudgetField::ThinkingTokenBudget) => Some(
            "thinking_token_budget".to_owned(),
        ),
        Some(ThinkingTokenBudgetField::ThinkingBudget) => Some("thinking_budget".to_owned()),
        Some(ThinkingTokenBudgetField::ThinkingBudgetTokens) => Some(
            "thinking_budget_tokens".to_owned(),
        ),
        None => match compat.supports_thinking_token_budget {
            Some(true) => Some("thinking_token_budget".to_owned()),
            _ => None,
        },
    }
}

/// The bound of an answer that is sent; none where no tokens are asked for.
pub open spec fn sent_tokens(options: OpenAICompletionsOptionsV) -> Option<u64> {
    match options.stream.max_tokens {
        Some(tokens) => if tokens != 0 {
            Some(tokens)
        } else {
            None
        },
        None => None,
    }
}

/// The tokens that the model may reason for: none where it does not reason, or where nothing is
/// left beside the answer.
pub open spec fn clamped_budget(model: ModelV, options: OpenAICompletionsOptionsV) -> Option<u64> {
    match options.reasoning_effort {
        Some(level) => {
            let ceiling = match sent_tokens(options) {
                Some(tokens) => tokens,
                None => model.max_tokens,
            };
            let tokens = roomy_budget(
                budget(level, options.thinking_budgets) as int,
                ceiling as int,
            );
            if model.reasoning && tokens > 0 {
                Some(tokens as u64)
            } else {
                None
            }
        },
        None => None,
    }
}

fn resolve_clamped_thinking_budget(model: &Model, options: &OpenAICompletionsOptions) -> (r: Option<
    u64,
>)
    ensures
        r == clamped_budget(model@, options@),
{
    match options.reasoning_effort {
        Some(level) => {
            if !model.reasoning {
                return None;
            }
            let ceiling: u64 = match options.stream.max_tokens {
                Some(tokens) => if tokens != 0 {
                    tokens
                } else {
                    model.max_tokens
                },
                None => model.max_tokens,
            };
            let wanted = match &options.thinking_budgets {
                Some(budgets) => thinking_budget_for_level(level, Some(budgets)),
                None => thinking_budget_for_level(level, None),
            };
            let tokens = clamp_thinking_budget_to_answer_room(wanted, ceiling);
            if tokens > 0 {
                Some(tokens)
            } else {
                None
            }
        },
        None => None,
    }
}

/// The routing of a Vercel gateway as it is sent.
pub open spec fn gateway(routing: VercelGatewayRoutingV) -> Seq<(Seq<char>, JsonV)> {
    with::<Vec<String>>(
        with::<Vec<String>>(Seq::empty(), "only"@, routing.only),
        "order"@,
        routing.order,
    )
}

/// What only some providers take.
pub open spec fn dialect(
    model: ModelV,
    context: ContextV,
    options: OpenAICompletionsOptionsV,
    compat: ResolvedCompatV,
) -> Seq<(Seq<char>, JsonV)> {
    let start: Seq<(Seq<char>, JsonV)> = Seq::empty();
    let tools = if compat.zai_tool_stream && active_tools(context, compat).len() > 0 {
        put(start, "tool_stream"@, JsonV::Bool(true))
    } else {
        start
    };
    let tokens = clamped_budget(model, options);
    let thinking = thinking_fields(model, options.reasoning_effort, compat, tokens, tools);
    let bounded = match (budget_field(compat), tokens) {
        (Some(field), Some(tokens)) => put(
            thinking,
            field,
            JsonV::Number(JsonNumberV::Unsigned(tokens)),
        ),
        _ => thinking,
    };
    let routed = match compat.open_router_routing {
        Some(routing) => put(bounded, "provider"@, routing),
        None => bounded,
    };
    match compat.vercel_gateway_routing {
        Some(routing) => if gateway(routing).len() > 0 {
            put(
                routed,
                "providerOptions"@,
                single("gateway"@, JsonV::Object(gateway(routing))),
            )
        } else {
            routed
        },
        None => routed,
    }
}

/// The key of the provider's prompt cache, where the provider is told one.
pub open spec fn sent_cache_key(
    model: ModelV,
    options: OpenAICompletionsOptionsV,
    compat: ResolvedCompatV,
    retention: CacheRetention,
) -> Option<Seq<char>> {
    if (has_part(model.base_url, "api.openai.com"@) && retention != CacheRetention::Never) || (
    retention == CacheRetention::Long && compat.supports_long_cache_retention) {
        cache_key(options.stream.session_id)
    } else {
        None
    }
}

/// A number as it is sent, where there is one.
pub open spec fn sent_number(n: Option<JsonNumberV>) -> Option<JsonNumberV> {
    match n {
        Some(n) => Some(js_number(n)),
        None => None,
    }
}

/// The request for a conversation, or why there is none.
pub open spec fn request(
    model: ModelV,
    context: ContextV,
    options: OpenAICompletionsOptionsV,
    compat: ResolvedCompatV,
    retention: CacheRetention,
    properties: Seq<(Seq<char>, Seq<char>)>,
    now: i64,
) -> Result<WireRequestV, Seq<char>> {
    match converted(model, context, compat, properties, now) {
        Err(e) => Err(e),
        Ok(messages) => {
            let active = active_tools(context, compat);
            let tools = if active.len() > 0 {
                Some(wire_tools(active, compat))
            } else if tool_history(context.messages) {
                Some(Seq::empty())
            } else {
                None
            };
            let at = breakpoint(compat, retention);
            Ok(
                WireRequestV {
                    model: model.id,
                    messages: match at {
                        Some(at) => last_marked(first_marked(messages, at), at),
                        None => messages,
                    },
                    stream: true,
                    prompt_cache_key: sent_cache_key(model, options, compat, retention),
                    prompt_cache_retention: if retention == CacheRetention::Long
                        && compat.supports_long_cache_retention {
                        Some("24h"@)
                    } else {
                        None
                    },
                    stream_options: if compat.supports_usage_in_streaming {
                        Some(WireStreamOptionsV { include_usage: true })
                    } else {
                        None
                    },
                    store: if compat.supports_store {
                        Some(false)
                    } else {
                        None
                    },
                    max_tokens: if compat.max_tokens_field == MaxTokensField::MaxTokens {
                        sent_tokens(options)
                    } else {
                        None
                    },
                    max_completion_tokens: if compat.max_tokens_field
                        == MaxTokensField::MaxCompletionTokens {
                        sent_tokens(options)
                    } else {
                        None
                    },
                    temperature: sent_number(options.stream.temperature),
                    tools: match at {
                        Some(at) => marked_tools(tools, at),
                        None => tools,
                    },
                    tool_choice: options.tool_choice,
                    dialect: dialect(model, context, options, compat),
                },
            )
        },
    }
}

/// A request with a caller's sampling parameters put over it.
pub open spec fn sampled(value: JsonV, sampling: Option<Seq<(Seq<char>, JsonV)>>) -> JsonV {
    match (value, sampling) {
        (JsonV::Object(fields), Some(sampling)) => JsonV::Object(put_all(fields, sampling)),
        _ => value,
    }
}

/// The body of a request: the request with the caller's sampling parameters put over it.
pub open spec fn body(
    model: ModelV,
    context: ContextV,
    options: OpenAICompletionsOptionsV,
    compat: ResolvedCompatV,
    retention: CacheRetention,
    properties: Seq<(Seq<char>, Seq<char>)>,
    now: i64,
) -> Result<JsonV, Seq<char>> {
    match request(model, context, options, compat, retention, properties, now) {
        Err(e) => Err(e),
        Ok(request) => Ok(sampled(WireRequest::wire(request), options.stream.sampling_params)),
    }
}

fn make_gateway(routing: &VercelGatewayRouting) -> (r: JsonObject)
    ensures
        r.deep_view() == gateway(routing@),
{
    let mut r = no_fields();
    add_optional(&mut r, "only", &routing.only);
    add_optional(&mut r, "order", &routing.order);
    r
}

fn make_dialect(
    model: &Model,
    options: &OpenAICompletionsOptions,
    compat: &ResolvedCompat,
    listed: bool,
    Ghost(context): Ghost<ContextV>,
) -> (r: JsonObject)
    requires
        listed == (active_tools(context, compat@).len() > 0),
    ensures
        r.deep_view() == dialect(model@, context, options@, compat@),
{
    let mut r = no_fields();
    if compat.zai_tool_stream && listed {
        assoc::insert(&mut r, "tool_stream".to_owned(), Json::Bool(true));
    }
    let tokens = resolve_clamped_thinking_budget(model, options);
    apply_thinking_parameters(model, options.reasoning_effort, compat, tokens, &mut r);
    if let Some(field) = find_budget_field(compat) {
        if let Some(tokens) = tokens {
            assoc::insert(&mut r, field, Json::Number(JsonNumber::Unsigned(tokens)));
        }
    }
    if let Some(routing) = &compat.open_router_routing {
        assoc::insert(&mut r, "provider".to_owned(), routing.clone());
    }
    if let Some(routing) = &compat.vercel_gateway_routing {
        let members = make_gateway(routing);
        if members.len() > 0 {
            let mut outer = no_fields();
            crate::json::add_field(&mut outer, "gateway", object(members));
            assert(outer.deep_view() =~= seq![("gateway"@, JsonV::Object(gateway(routing@)))]);
            assoc::insert(&mut r, "providerOptions".to_owned(), object(outer));
        }
    }
    r
}

fn make_cache_key(
    model: &Model,
    options: &OpenAICompletionsOptions,
    compat: &ResolvedCompat,
    retention: CacheRetention,
) -> (r: Option<String>)
    ensures
        r.deep_view() == sent_cache_key(model@, options@, compat@, retention),
{
    if (contains(model.base_url.as_str(), "api.openai.com") && retention != CacheRetention::Never)
        || (retention == CacheRetention::Long && compat.supports_long_cache_retention) {
        match &options.stream.session_id {
            Some(id) => clamp_open_ai_prompt_cache_key(Some(id.as_str())),
            None => None,
        }
    } else {
        None
    }
}

fn make_number(n: &Option<JsonNumber>) -> (r: Option<JsonNumber>)
    ensures
        r.deep_view() == sent_number(n.deep_view()),
{
    match n {
        Some(n) => Some(to_js_number(n)),
        None => None,
    }
}

/// The request for a conversation, or why there is none.
pub fn build_request(
    model: &Model,
    context: &Context,
    options: &OpenAICompletionsOptions,
    compat: &ResolvedCompat,
    retention: CacheRetention,
    properties: &Vec<(String, String)>,
    now: i64,
) -> (r: Result<WireRequest, String>)
    ensures
        outcome(r) == request(
            model@,
            context@,
            options@,
            compat@,
            retention,
            properties.deep_view(),
            now,
        ),
{
    let mut messages = match convert_messages_wire(model, context, compat, properties, now) {
        Ok(messages) => messages,
        Err(e) => {
            return Err(e);
        },
    };
    let active = collect_active_tools(context, compat);
    let listed = active.len() > 0;
    let mut tools = if listed {
        Some(convert_tools(&active, compat))
    } else if has_tool_history(&context.messages) {
        Some(Vec::new())
    } else {
        None
    };
    proof {
        if !listed && tools is Some {
            assert(tools->Some_0.deep_view() =~= Seq::empty());
        }
    }
    if let Some(at) = get_compat_cache_control(compat, retention) {
        apply_anthropic_cache_control(&mut messages, &mut tools, &at);
    }
    let tokens = match options.stream.max_tokens {
        Some(tokens) => if tokens != 0 {
            Some(tokens)
        } else {
            None
        },
        None => None,
    };
    let old_field = compat.max_tokens_field == MaxTokensField::MaxTokens;
    let long = retention == CacheRetention::Long && compat.supports_long_cache_retention;
    Ok(
        WireRequest {
            model: model.id.clone(),
            messages,
            stream: true,
            prompt_cache_key: make_cache_key(model, options, compat, retention),
            prompt_cache_retention: if long {
                Some("24h".to_owned())
            } else {
                None
            },
            stream_options: if compat.supports_usage_in_streaming {
                Some(WireStreamOptions { include_usage: true })
            } else {
                None
            },
            store: if compat.supports_store {
                Some(false)
            } else {
                None
            },
            max_tokens: if old_field {
                tokens
            } else {
                None
            },
            max_completion_tokens: if old_field {
                None
            } else {
                tokens
            },
            temperature: make_number(&options.stream.temperature),
            tools,
            tool_choice: options.tool_choice.clone(),
            dialect: make_dialect(model, options, compat, listed, Ghost(context@)),
        },
    )
}

/// The body of a request, or why there is none.
pub fn build_params(
    model: &Model,
    context: &Context,
    options: &OpenAICompletionsOptions,
    compat: &ResolvedCompat,
    retention: CacheRetention,
    properties: &Vec<(String, String)>,
    now: i64,
) -> (r: Result<Json, String>)
    ensures
        outcome(r) == body(
            model@,
            context@,
            options@,
            compat@,
            retention,
            properties.deep_view(),
            now,
        ),
{
    match build_request(model, context, options, compat, retention, properties, now) {
        Err(e) => Err(e),
        Ok(request) => Ok(with_sampling(request.to_json(), &options.stream)),
    }
}

/// Puts the caller's sampling parameters over the body of a request.
pub fn with_sampling(value: Json, options: &StreamOptions) -> (r: Json)
    ensures
        r@ == sampled(value@, options@.sampling_params),
{
    match &options.sampling_params {
        Some(sampling) => match value {
            Json::Object(fields) => {
                let mut fields = fields;
                assert(value@->Object_0 =~= fields.deep_view());
                extend(&mut fields, sampling);
                object(fields)
            },
            other => other,
        },
        None => value,
    }
}

/// A sampling parameter that a caller sets is sent as it is, whatever else the request holds; the
/// other members stay.
pub proof fn law_sampling_reaches_the_request(
    value: JsonV,
    sampling: Seq<(Seq<char>, JsonV)>,
    key: Seq<char>,
)
    requires
        value is Object,
        assoc::distinct(sampling),
    ensures
        member(sampled(value, Some(sampling)), key) == match assoc::lookup(sampling, key) {
            Some(v) => Some(v),
            None => member(value, key),
        },
{
    assoc::lemma_put_all(value->Object_0, sampling, key);
}

} // verus!
