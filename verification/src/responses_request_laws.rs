//! What stands in the body of a Responses request.
use crate::assoc::{distinct, lemma_key_index, lemma_put_all, lookup};
use crate::json::{member, JsonNumber, JsonNumberV, JsonV};
use crate::openai_responses::{
    body, message_options, request, resolved, sent_included, sent_reasoning, tool_options,
    OpenAIResponsesOptionsV,
    PromptCacheOptions, ResolvedCompat, ResponseReasoning, WireRequest, WireRequestV,
};
use crate::openai_responses_shared::{
    DeferredResponsesToolsMode, ResponseInputItem, ResponseReasoningSummary, ResponseServiceTier,
    ResponseServiceTierV, ResponseTool, ResponseToolChoice,
};
use crate::request_laws::{lemma_push, lemma_with, off_word, one_member, sent_word};
use crate::responses_input::{converted, response_tool};
use crate::text::has_part;
use crate::transform_messages::ResponsesToolCallIds;
use crate::types::{
    CacheRetention, ContextV, ModelCompatV, ModelV, SessionAffinityFormat, ToolV,
};
use crate::wire::{wires, with, ToJson};
use vstd::prelude::*;

verus! {

/// The names of the members differ.
proof fn lemma_names()
    ensures
        "model"@.len() == 5 && "model"@[0] == 'm',
        "input"@.len() == 5 && "input"@[0] == 'i',
        "stream"@.len() == 6,
        "prompt_cache_key"@.len() == 16,
        "prompt_cache_retention"@.len() == 22,
        "prompt_cache_options"@.len() == 20,
        "store"@.len() == 5 && "store"@[0] == 's',
        "max_output_tokens"@.len() == 17,
        "temperature"@.len() == 11 && "temperature"@[1] == 'e',
        "service_tier"@.len() == 12,
        "tools"@.len() == 5 && "tools"@[0] == 't',
        "tool_choice"@.len() == 11 && "tool_choice"@[1] == 'o',
        "reasoning"@.len() == 9,
        "include"@.len() == 7,
{
    reveal_strlit("model");
    reveal_strlit("input");
    reveal_strlit("stream");
    reveal_strlit("prompt_cache_key");
    reveal_strlit("prompt_cache_retention");
    reveal_strlit("prompt_cache_options");
    reveal_strlit("store");
    reveal_strlit("max_output_tokens");
    reveal_strlit("temperature");
    reveal_strlit("service_tier");
    reveal_strlit("tools");
    reveal_strlit("tool_choice");
    reveal_strlit("reasoning");
    reveal_strlit("include");
}

/// A member where it is there.
spec fn found<T: ToJson>(value: Option<T::V>) -> Option<JsonV> {
    match value {
        Some(v) => Some(T::wire(v)),
        None => None,
    }
}

/// What the members of a request hold.
#[verifier::rlimit(60)]
#[verifier::spinoff_prover]
proof fn lemma_members(v: WireRequestV, key: Seq<char>)
    ensures
        key == "model"@ ==> member(WireRequest::wire(v), key) == Some(JsonV::Str(v.model)),
        key == "input"@ ==> member(WireRequest::wire(v), key) == Some(
            Vec::<ResponseInputItem>::wire(v.input),
        ),
        key == "stream"@ ==> member(WireRequest::wire(v), key) == Some(JsonV::Bool(v.stream)),
        key == "prompt_cache_key"@ ==> member(WireRequest::wire(v), key) == found::<String>(
            v.prompt_cache_key,
        ),
        key == "prompt_cache_retention"@ ==> member(WireRequest::wire(v), key) == found::<String>(
            v.prompt_cache_retention,
        ),
        key == "prompt_cache_options"@ ==> member(WireRequest::wire(v), key) == found::<
            PromptCacheOptions,
        >(v.prompt_cache_options),
        key == "store"@ ==> member(WireRequest::wire(v), key) == Some(JsonV::Bool(v.store)),
        key == "max_output_tokens"@ ==> member(WireRequest::wire(v), key) == found::<u64>(
            v.max_output_tokens,
        ),
        key == "temperature"@ ==> member(WireRequest::wire(v), key) == found::<JsonNumber>(
            v.temperature,
        ),
        key == "service_tier"@ ==> member(WireRequest::wire(v), key) == found::<
            Option<ResponseServiceTier>,
        >(v.service_tier),
        key == "tools"@ ==> member(WireRequest::wire(v), key) == found::<Vec<ResponseTool>>(
            v.tools,
        ),
        key == "tool_choice"@ ==> member(WireRequest::wire(v), key) == found::<
            ResponseToolChoice,
        >(v.tool_choice),
        key == "reasoning"@ ==> member(WireRequest::wire(v), key) == found::<ResponseReasoning>(
            v.reasoning,
        ),
        key == "include"@ ==> member(WireRequest::wire(v), key) == found::<Vec<String>>(
            v.included,
        ),
{
    lemma_names();
    let start: Seq<(Seq<char>, JsonV)> = Seq::empty();
    lemma_key_index(start, key, 0);
    let f0 = start.push(("model"@, String::wire(v.model)));
    lemma_push(start, "model"@, String::wire(v.model), key);
    let f1 = f0.push(("input"@, Vec::<ResponseInputItem>::wire(v.input)));
    lemma_push(f0, "input"@, Vec::<ResponseInputItem>::wire(v.input), key);
    let f2 = f1.push(("stream"@, bool::wire(v.stream)));
    lemma_push(f1, "stream"@, bool::wire(v.stream), key);
    assert(seq![
        ("model"@, String::wire(v.model)),
        ("input"@, Vec::<ResponseInputItem>::wire(v.input)),
        ("stream"@, bool::wire(v.stream)),
    ] =~= f2);
    lemma_with::<String>(f2, "prompt_cache_key"@, v.prompt_cache_key, key);
    let f3 = with::<String>(f2, "prompt_cache_key"@, v.prompt_cache_key);
    lemma_with::<String>(f3, "prompt_cache_retention"@, v.prompt_cache_retention, key);
    let f4 = with::<String>(f3, "prompt_cache_retention"@, v.prompt_cache_retention);
    lemma_with::<PromptCacheOptions>(f4, "prompt_cache_options"@, v.prompt_cache_options, key);
    let f5 = with::<PromptCacheOptions>(f4, "prompt_cache_options"@, v.prompt_cache_options);
    lemma_push(f5, "store"@, bool::wire(v.store), key);
    let f6 = f5.push(("store"@, bool::wire(v.store)));
    lemma_with::<u64>(f6, "max_output_tokens"@, v.max_output_tokens, key);
    let f7 = with::<u64>(f6, "max_output_tokens"@, v.max_output_tokens);
    lemma_with::<JsonNumber>(f7, "temperature"@, v.temperature, key);
    let f8 = with::<JsonNumber>(f7, "temperature"@, v.temperature);
    lemma_with::<Option<ResponseServiceTier>>(f8, "service_tier"@, v.service_tier, key);
    let f9 = with::<Option<ResponseServiceTier>>(f8, "service_tier"@, v.service_tier);
    lemma_with::<Vec<ResponseTool>>(f9, "tools"@, v.tools, key);
    let f10 = with::<Vec<ResponseTool>>(f9, "tools"@, v.tools);
    lemma_with::<ResponseToolChoice>(f10, "tool_choice"@, v.tool_choice, key);
    let f11 = with::<ResponseToolChoice>(f10, "tool_choice"@, v.tool_choice);
    lemma_with::<ResponseReasoning>(f11, "reasoning"@, v.reasoning, key);
    let f12 = with::<ResponseReasoning>(f11, "reasoning"@, v.reasoning);
    lemma_with::<Vec<String>>(f12, "include"@, v.included, key);
}

/// Whether the caller's own sampling parameters leave a member alone.
pub open spec fn leaves_alone(options: OpenAIResponsesOptionsV, key: Seq<char>) -> bool {
    options.stream.sampling_params matches Some(sampling) ==> distinct(sampling) && lookup(
        sampling,
        key,
    ) is None
}

proof fn lemma_body(
    model: ModelV,
    context: ContextV,
    options: OpenAIResponsesOptionsV,
    compat: ResolvedCompat,
    retention: CacheRetention,
    properties: Seq<(Seq<char>, Seq<char>)>,
    immediate: Seq<ToolV>,
    deferred: Seq<(Seq<char>, ToolV)>,
    ids: &ResponsesToolCallIds,
    now: i64,
    key: Seq<char>,
)
    requires
        body(
            model,
            context,
            options,
            compat,
            retention,
            properties,
            immediate,
            deferred,
            ids,
            now,
        ) is Ok,
        leaves_alone(options, key),
    ensures
        member(
            body(
                model,
                context,
                options,
                compat,
                retention,
                properties,
                immediate,
                deferred,
                ids,
                now,
            )->Ok_0,
            key,
        ) == member(
            WireRequest::wire(
                request(
                    model,
                    context,
                    options,
                    compat,
                    retention,
                    properties,
                    immediate,
                    deferred,
                    ids,
                    now,
                )->Ok_0,
            ),
            key,
        ),
{
    let sent = request(
        model,
        context,
        options,
        compat,
        retention,
        properties,
        immediate,
        deferred,
        ids,
        now,
    )->Ok_0;
    if let Some(sampling) = options.stream.sampling_params {
        lemma_put_all(WireRequest::wire(sent)->Object_0, sampling, key);
    }
}

/// The word for how a summary of the reasoning is to be.
pub open spec fn summary_word(summary: ResponseReasoningSummary) -> Seq<char> {
    match summary {
        ResponseReasoningSummary::Auto => "auto"@,
        ResponseReasoningSummary::Detailed => "detailed"@,
        ResponseReasoningSummary::Concise => "concise"@,
    }
}

/// How the reasoning of a model is asked for: with the word for the level, which is medium where
/// only a summary is asked for, and with a summary; where neither is asked for, with the word for
/// none, unless the provider or the model takes no such word.
pub open spec fn reasoning_asked(model: ModelV, options: OpenAIResponsesOptionsV) -> Option<JsonV> {
    let summary = match options.reasoning_summary {
        Some(Some(summary)) => Some(summary),
        _ => None,
    };
    if !model.reasoning {
        None
    } else if options.reasoning_effort is Some || summary is Some {
        Some(
            JsonV::Object(
                seq![
                    (
                        "effort"@,
                        JsonV::Str(
                            match options.reasoning_effort {
                                Some(level) => sent_word(model, level),
                                None => "medium"@,
                            },
                        ),
                    ),
                    (
                        "summary"@,
                        JsonV::Str(
                            match summary {
                                Some(summary) => summary_word(summary),
                                None => "auto"@,
                            },
                        ),
                    ),
                ],
            ),
        )
    } else if model.provider == "github-copilot"@ || off_word(model) == Some(None::<Seq<char>>) {
        None
    } else {
        Some(
            one_member(
                "effort"@,
                JsonV::Str(
                    match off_word(model) {
                        Some(Some(word)) => word,
                        _ => "none"@,
                    },
                ),
            ),
        )
    }
}

proof fn lemma_reasoning_asked(model: ModelV, options: OpenAIResponsesOptionsV)
    ensures
        found::<ResponseReasoning>(sent_reasoning(model, options)) == reasoning_asked(
            model,
            options,
        ),
{
    if let Some(reasoning) = sent_reasoning(model, options) {
        let effort = seq![("effort"@, JsonV::Str(reasoning.effort))];
        let written = match reasoning.summary {
            Some(summary) => effort.push(("summary"@, JsonV::Str(summary_word(summary)))),
            None => effort,
        };
        assert(ResponseReasoning::wire(reasoning) == JsonV::Object(written));
        if let Some(level) = options.reasoning_effort {
            assert(reasoning.effort == sent_word(model, level));
        }
        assert(reasoning_asked(model, options) is Some);
        assert(reasoning_asked(model, options)->Some_0 is Object);
        assert(reasoning_asked(model, options)->Some_0->Object_0 =~= written);
    }
}

/// What a response is asked to hold besides its answer.
pub open spec fn extra_asked(model: ModelV, options: OpenAIResponsesOptionsV) -> Option<JsonV> {
    let asks = options.reasoning_effort is Some || options.reasoning_summary matches Some(Some(_));
    if model.reasoning && (asks || model.provider == "xai"@) {
        Some(JsonV::Array(seq![JsonV::Str("reasoning.encrypted_content"@)]))
    } else {
        None
    }
}

proof fn lemma_included(model: ModelV, options: OpenAIResponsesOptionsV)
    ensures
        found::<Vec<String>>(sent_included(model, options)) == extra_asked(model, options),
{
    assert(wires::<String>(seq!["reasoning.encrypted_content"@]) =~= seq![
        JsonV::Str("reasoning.encrypted_content"@),
    ]);
}

/// What a request holds: the model, that the answer is streamed and not stored, how long it may be,
/// how the cache is used, how the reasoning is asked for, and what the caller asks for.
#[verifier::rlimit(60)]
#[verifier::spinoff_prover]
pub proof fn law_members(
    model: ModelV,
    context: ContextV,
    options: OpenAIResponsesOptionsV,
    compat: ResolvedCompat,
    retention: CacheRetention,
    properties: Seq<(Seq<char>, Seq<char>)>,
    immediate: Seq<ToolV>,
    deferred: Seq<(Seq<char>, ToolV)>,
    ids: &ResponsesToolCallIds,
    now: i64,
    key: Seq<char>,
)
    requires
        body(
            model,
            context,
            options,
            compat,
            retention,
            properties,
            immediate,
            deferred,
            ids,
            now,
        ) is Ok,
        leaves_alone(options, key),
    ensures
        ({
            let sent = member(
                body(
                    model,
                    context,
                    options,
                    compat,
                    retention,
                    properties,
                    immediate,
                    deferred,
                    ids,
                    now,
                )->Ok_0,
                key,
            );
            &&& key == "model"@ ==> sent == Some(JsonV::Str(model.id))
            &&& key == "stream"@ ==> sent == Some(JsonV::Bool(true))
            &&& key == "store"@ ==> sent == Some(JsonV::Bool(false))
            &&& key == "max_output_tokens"@ ==> sent == match options.stream.max_tokens {
                Some(tokens) if tokens > 0 => Some(
                    JsonV::Number(
                        JsonNumberV::Unsigned(
                            if tokens < 16 {
                                16
                            } else {
                                tokens
                            },
                        ),
                    ),
                ),
                _ => None,
            }
            &&& key == "prompt_cache_key"@ ==> sent == match options.stream.session_id {
                Some(id) if retention != CacheRetention::Never => Some(
                    JsonV::Str(
                        if id.len() <= 64 {
                            id
                        } else {
                            id.take(64)
                        },
                    ),
                ),
                _ => None,
            }
            &&& key == "prompt_cache_retention"@ ==> sent == if retention == CacheRetention::Long
                && compat.supports_long_cache_retention {
                Some(JsonV::Str("24h"@))
            } else {
                None
            }
            &&& key == "prompt_cache_options"@ ==> sent == if retention == CacheRetention::Never
                && compat.supports_explicit_prompt_cache_mode {
                Some(one_member("mode"@, JsonV::Str("explicit"@)))
            } else {
                None
            }
            &&& key == "reasoning"@ ==> sent == reasoning_asked(model, options)
            &&& key == "include"@ ==> sent == extra_asked(model, options)
            &&& key == "temperature"@ ==> {
                &&& options.stream.temperature is None <==> sent is None
                &&& options.stream.temperature matches Some(JsonNumberV::Unsigned(n)) ==> sent
                    == Some(JsonV::Number(JsonNumberV::Unsigned(n)))
            }
            &&& key == "service_tier"@ ==> sent == match options.service_tier {
                None => None,
                Some(None) => Some(JsonV::Null),
                Some(Some(tier)) => Some(
                    JsonV::Str(
                        match tier {
                            ResponseServiceTierV::Auto => "auto"@,
                            ResponseServiceTierV::Standard => "default"@,
                            ResponseServiceTierV::Flex => "flex"@,
                            ResponseServiceTierV::Scale => "scale"@,
                            ResponseServiceTierV::Priority => "priority"@,
                            ResponseServiceTierV::Other(name) => name,
                        },
                    ),
                ),
            }
            &&& key == "tool_choice"@ ==> {
                &&& options.tool_choice is None ==> sent is None
                &&& options.tool_choice matches Some(choice) ==> sent == Some(
                    ResponseToolChoice::wire(choice),
                )
            }
            &&& key == "tools"@ ==> {
                &&& immediate.len() == 0 ==> sent is None
                &&& immediate.len() > 0 ==> (sent matches Some(JsonV::Array(offered))
                    && offered.len() == immediate.len() && forall|i: int|
                    0 <= i < offered.len() ==> #[trigger] offered[i] == ResponseTool::wire(
                        response_tool(immediate[i], tool_options(compat)),
                    ))
            }
        }),
{
    lemma_names();
    lemma_body(
        model,
        context,
        options,
        compat,
        retention,
        properties,
        immediate,
        deferred,
        ids,
        now,
        key,
    );
    let sent = request(
        model,
        context,
        options,
        compat,
        retention,
        properties,
        immediate,
        deferred,
        ids,
        now,
    )->Ok_0;
    lemma_members(sent, key);
    lemma_reasoning_asked(model, options);
    lemma_included(model, options);
}

/// The input of a request is what the conversation is turned into, item by item.
pub proof fn law_input_is_sent(
    model: ModelV,
    context: ContextV,
    options: OpenAIResponsesOptionsV,
    compat: ResolvedCompat,
    retention: CacheRetention,
    properties: Seq<(Seq<char>, Seq<char>)>,
    immediate: Seq<ToolV>,
    deferred: Seq<(Seq<char>, ToolV)>,
    ids: &ResponsesToolCallIds,
    now: i64,
)
    requires
        leaves_alone(options, "input"@),
    ensures
        match (
            body(
                model,
                context,
                options,
                compat,
                retention,
                properties,
                immediate,
                deferred,
                ids,
                now,
            ),
            converted(model, context, ids, message_options(compat, properties, deferred), now),
        ) {
            (Ok(v), Ok(input)) => member(v, "input"@) matches Some(JsonV::Array(sent))
                && sent.len() == input.len() && forall|i: int|
                0 <= i < sent.len() ==> #[trigger] sent[i] == ResponseInputItem::wire(input[i]),
            (Err(e), Err(f)) => e == f,
            _ => false,
        },
{
    let written = body(
        model,
        context,
        options,
        compat,
        retention,
        properties,
        immediate,
        deferred,
        ids,
        now,
    );
    if written is Ok {
        lemma_names();
        lemma_body(
            model,
            context,
            options,
            compat,
            retention,
            properties,
            immediate,
            deferred,
            ids,
            now,
            "input"@,
        );
        lemma_members(
            request(
                model,
                context,
                options,
                compat,
                retention,
                properties,
                immediate,
                deferred,
                ids,
                now,
            )->Ok_0,
            "input"@,
        );
    }
}

/// What the conversion of messages and tools is told: the free-form inputs, the tools that are
/// deferred, how those are added, and which ways to describe a tool the provider takes.
pub proof fn law_conversion_is_told(
    compat: ResolvedCompat,
    properties: Seq<(Seq<char>, Seq<char>)>,
    deferred: Seq<(Seq<char>, ToolV)>,
)
    ensures
        ({
            let told = message_options(compat, properties, deferred);
            &&& told.grammar_tool_input_properties == Some(properties)
            &&& told.deferred_tools == Some(deferred)
            &&& told.include_system_prompt is None
            &&& compat.supports_additional_tools ==> told.deferred_tools_mode == Some(
                DeferredResponsesToolsMode::AdditionalTools,
            )
            &&& !compat.supports_additional_tools && compat.supports_tool_search
                ==> told.deferred_tools_mode == Some(DeferredResponsesToolsMode::ToolSearch)
            &&& !compat.supports_additional_tools && !compat.supports_tool_search
                ==> told.deferred_tools_mode is None
            &&& told.tool_options == tool_options(compat)
            &&& told.tool_options.strict is None
            &&& told.tool_options.supports_strict_mode == Some(compat.supports_strict_mode)
            &&& told.tool_options.supports_open_ai_grammar_tools == Some(
                compat.supports_open_ai_grammar_tools,
            )
            &&& !told.tool_options.defer_loading
        }),
{
}

/// What a provider is taken to support where a model does not say: long retention, and nothing
/// besides. Sessions go the way of OpenRouter where it serves the model.
pub proof fn law_support_is_found(model: ModelV)
    ensures
        ({
            let found = resolved(model);
            &&& model.compat is None ==> {
                &&& found.supports_long_cache_retention
                &&& !found.supports_strict_mode
                &&& !found.supports_open_ai_grammar_tools
                &&& !found.supports_additional_tools
                &&& !found.supports_tool_search
                &&& !found.supports_explicit_prompt_cache_mode
                &&& found.session_affinity_format == if model.provider == "openrouter"@
                    || has_part(model.base_url, "openrouter.ai"@) {
                    SessionAffinityFormat::Openrouter
                } else {
                    SessionAffinityFormat::Openai
                }
            }
            &&& model.compat matches Some(ModelCompatV::OpenAIResponses(said)) ==> {
                &&& said.supports_long_cache_retention matches Some(b)
                    ==> found.supports_long_cache_retention == b
                &&& said.supports_strict_mode matches Some(b) ==> found.supports_strict_mode == b
                &&& said.supports_open_ai_grammar_tools matches Some(b)
                    ==> found.supports_open_ai_grammar_tools == b
                &&& said.supports_additional_tools matches Some(b)
                    ==> found.supports_additional_tools == b
                &&& said.supports_tool_search matches Some(b) ==> found.supports_tool_search == b
                &&& said.supports_explicit_prompt_cache_mode matches Some(b)
                    ==> found.supports_explicit_prompt_cache_mode == b
                &&& said.session_affinity_format matches Some(format)
                    ==> found.session_affinity_format == format
            }
            &&& model.compat matches Some(ModelCompatV::OpenAICompletions(said)) ==> {
                &&& said.supports_long_cache_retention matches Some(b)
                    ==> found.supports_long_cache_retention == b
                &&& said.supports_strict_mode matches Some(b) ==> found.supports_strict_mode == b
                &&& said.supports_open_ai_grammar_tools matches Some(b)
                    ==> found.supports_open_ai_grammar_tools == b
                &&& said.session_affinity_format matches Some(format)
                    ==> found.session_affinity_format == format
                &&& !found.supports_additional_tools
                &&& !found.supports_tool_search
                &&& !found.supports_explicit_prompt_cache_mode
            }
        }),
{
}

} // verus!
