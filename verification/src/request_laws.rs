//! What stands in the body of a chat-completions request.
use crate::assoc::{
    distinct, key_index, lemma_key_index, lemma_key_index_props, lemma_put, lemma_put_all,
    lemma_put_distinct, lookup, put, put_all,
};
use crate::completions_messages::{
    all_tools, converted, deferred_names, with_names, wire_tool,
};
use crate::completions_request::{
    active_tools, body, budget_field, clamped_budget, concerns_tools, dialect, gateway, request,
    tool_history, tools_except,
};
use crate::completions_types::{
    OpenAIChatToolChoice, OpenAICompletionsOptionsV, ResolvedCompatV, 
    WireGrammar, WireMessage, WireRequestV, WireStreamOptions, WireTool, WireToolDefinitionV,
};
use crate::completions_wire::known_fields;
use crate::json::{member, Json, JsonNumber, JsonNumberV, JsonV};
use crate::order::{by_name, passed};
use crate::responses_input::added_names;
use crate::text::has_part;
use crate::thinking_parameters::{
    level_name, named_effort, put_text, put_values, sent_values, single, template_value,
    template_values, thinking_fields,
};
use crate::types::{
    CacheRetention, ChatTemplateKwargValueV, ContextV, DeferredToolsMode, GrammarSyntax, MaxTokensField, MessageV, ModelV,
    ThinkingBudgets, ThinkingFormat, ThinkingLevel, ThinkingTokenBudgetField, ThinkingVariable, ToolGrammarV,
    ToolV,
};
use crate::wire::{wires, with, ToJson};
use vstd::prelude::*;

verus! {

/// A pair at the end is found where its key was not there before.
pub proof fn lemma_push<K, V>(list: Seq<(K, V)>, key: K, value: V, other: K)
    ensures
        lookup(list.push((key, value)), other) == match lookup(list, other) {
            Some(v) => Some(v),
            None => if other == key {
                Some(value)
            } else {
                None
            },
        },
{
    let after = list.push((key, value));
    lemma_key_index_props(list, other);
    let j = key_index(list, other) as int;
    if j < list.len() {
        lemma_key_index(after, other, j);
    } else {
        assert forall|k: int| 0 <= k < list.len() implies after[k].0 != other by {
            assert(list[k].0 != other);
        }
        lemma_key_index(
            after,
            other,
            if other == key {
                list.len() as int
            } else {
                after.len() as int
            },
        );
    }
}

/// A member that may be left out is found where it is there.
pub proof fn lemma_with<T: ToJson>(
    fields: Seq<(Seq<char>, JsonV)>,
    key: Seq<char>,
    value: Option<T::V>,
    other: Seq<char>,
)
    ensures
        lookup(with::<T>(fields, key, value), other) == match lookup(fields, other) {
            Some(v) => Some(v),
            None => if other == key && value is Some {
                Some(T::wire(value->Some_0))
            } else {
                None
            },
        },
{
    if let Some(v) = value {
        lemma_push(fields, key, T::wire(v), other);
    }
}

/// The members that any request may have.
pub open spec fn is_plain_member(key: Seq<char>) -> bool {
    ||| key == "model"@
    ||| key == "messages"@
    ||| key == "stream"@
    ||| key == "prompt_cache_key"@
    ||| key == "prompt_cache_retention"@
    ||| key == "stream_options"@
    ||| key == "store"@
    ||| key == "max_tokens"@
    ||| key == "max_completion_tokens"@
    ||| key == "temperature"@
    ||| key == "tools"@
    ||| key == "tool_choice"@
}

/// The members in which reasoning is asked for.
pub open spec fn is_reasoning_member(key: Seq<char>) -> bool {
    ||| key == "reasoning_effort"@
    ||| key == "reasoning"@
    ||| key == "thinking"@
    ||| key == "enable_thinking"@
    ||| key == "chat_template_kwargs"@
    ||| key == "chat_template_args"@
}

/// The further members that only some providers know.
pub open spec fn is_provider_member(key: Seq<char>) -> bool {
    ||| key == "tool_stream"@
    ||| key == "thinking_token_budget"@
    ||| key == "thinking_budget"@
    ||| key == "thinking_budget_tokens"@
    ||| key == "provider"@
    ||| key == "providerOptions"@
}

/// The names of the members differ.
proof fn lemma_names()
    ensures
        "model"@.len() == 5 && "model"@[0] == 'm',
        "messages"@.len() == 8 && "messages"@[0] == 'm',
        "stream"@.len() == 6,
        "prompt_cache_key"@.len() == 16 && "prompt_cache_key"@[0] == 'p',
        "prompt_cache_retention"@.len() == 22 && "prompt_cache_retention"@[0] == 'p',
        "stream_options"@.len() == 14,
        "store"@.len() == 5 && "store"@[0] == 's',
        "max_tokens"@.len() == 10,
        "max_completion_tokens"@.len() == 21 && "max_completion_tokens"@[0] == 'm',
        "temperature"@.len() == 11 && "temperature"@[1] == 'e',
        "tools"@.len() == 5 && "tools"@[0] == 't',
        "tool_choice"@.len() == 11 && "tool_choice"@[1] == 'o' && "tool_choice"@[5] == 'c',
        "reasoning_effort"@.len() == 16 && "reasoning_effort"@[0] == 'r',
        "reasoning"@.len() == 9,
        "thinking"@.len() == 8 && "thinking"@[0] == 't',
        "enable_thinking"@.len() == 15 && "enable_thinking"@[0] == 'e',
        "chat_template_kwargs"@.len() == 20,
        "chat_template_args"@.len() == 18,
        "tool_stream"@.len() == 11 && "tool_stream"@[1] == 'o' && "tool_stream"@[5] == 's',
        "thinking_token_budget"@.len() == 21 && "thinking_token_budget"@[0] == 't',
        "thinking_budget"@.len() == 15 && "thinking_budget"@[0] == 't',
        "thinking_budget_tokens"@.len() == 22 && "thinking_budget_tokens"@[0] == 't',
        "provider"@.len() == 8 && "provider"@[0] == 'p',
        "providerOptions"@.len() == 15 && "providerOptions"@[0] == 'p',
{
    reveal_strlit("model");
    reveal_strlit("messages");
    reveal_strlit("stream");
    reveal_strlit("prompt_cache_key");
    reveal_strlit("prompt_cache_retention");
    reveal_strlit("stream_options");
    reveal_strlit("store");
    reveal_strlit("max_tokens");
    reveal_strlit("max_completion_tokens");
    reveal_strlit("temperature");
    reveal_strlit("tools");
    reveal_strlit("tool_choice");
    reveal_strlit("reasoning_effort");
    reveal_strlit("reasoning");
    reveal_strlit("thinking");
    reveal_strlit("enable_thinking");
    reveal_strlit("chat_template_kwargs");
    reveal_strlit("chat_template_args");
    reveal_strlit("tool_stream");
    reveal_strlit("thinking_token_budget");
    reveal_strlit("thinking_budget");
    reveal_strlit("thinking_budget_tokens");
    reveal_strlit("provider");
    reveal_strlit("providerOptions");
}

/// What the members that any request may have hold.
#[verifier::rlimit(60)]
#[verifier::spinoff_prover]
proof fn lemma_known(v: WireRequestV, key: Seq<char>)
    ensures
        !is_plain_member(key) ==> lookup(known_fields(v), key) is None,
        key == "model"@ ==> lookup(known_fields(v), key) == Some(JsonV::Str(v.model)),
        key == "messages"@ ==> lookup(known_fields(v), key) == Some(
            Vec::<WireMessage>::wire(v.messages),
        ),
        key == "stream"@ ==> lookup(known_fields(v), key) == Some(JsonV::Bool(v.stream)),
        key == "prompt_cache_key"@ ==> lookup(known_fields(v), key) == match v.prompt_cache_key {
            Some(x) => Some(JsonV::Str(x)),
            None => None,
        },
        key == "prompt_cache_retention"@ ==> lookup(known_fields(v), key)
            == match v.prompt_cache_retention {
            Some(x) => Some(JsonV::Str(x)),
            None => None,
        },
        key == "stream_options"@ ==> lookup(known_fields(v), key) == match v.stream_options {
            Some(x) => Some(WireStreamOptions::wire(x)),
            None => None,
        },
        key == "store"@ ==> lookup(known_fields(v), key) == match v.store {
            Some(x) => Some(JsonV::Bool(x)),
            None => None,
        },
        key == "max_tokens"@ ==> lookup(known_fields(v), key) == match v.max_tokens {
            Some(x) => Some(JsonV::Number(JsonNumberV::Unsigned(x))),
            None => None,
        },
        key == "max_completion_tokens"@ ==> lookup(known_fields(v), key)
            == match v.max_completion_tokens {
            Some(x) => Some(JsonV::Number(JsonNumberV::Unsigned(x))),
            None => None,
        },
        key == "temperature"@ ==> lookup(known_fields(v), key) == match v.temperature {
            Some(x) => Some(JsonV::Number(x)),
            None => None,
        },
        key == "tools"@ ==> lookup(known_fields(v), key) == match v.tools {
            Some(x) => Some(Vec::<WireTool>::wire(x)),
            None => None,
        },
        key == "tool_choice"@ ==> lookup(known_fields(v), key) == match v.tool_choice {
            Some(x) => Some(OpenAIChatToolChoice::wire(x)),
            None => None,
        },
{
    lemma_names();
    let start: Seq<(Seq<char>, JsonV)> = Seq::empty();
    lemma_key_index(start, key, 0);
    let f0 = start.push(("model"@, String::wire(v.model)));
    lemma_push(start, "model"@, String::wire(v.model), key);
    let f1 = f0.push(("messages"@, Vec::<WireMessage>::wire(v.messages)));
    lemma_push(f0, "messages"@, Vec::<WireMessage>::wire(v.messages), key);
    let f2 = f1.push(("stream"@, bool::wire(v.stream)));
    lemma_push(f1, "stream"@, bool::wire(v.stream), key);
    assert(seq![
        ("model"@, String::wire(v.model)),
        ("messages"@, Vec::<WireMessage>::wire(v.messages)),
        ("stream"@, bool::wire(v.stream)),
    ] =~= f2);
    lemma_with::<String>(f2, "prompt_cache_key"@, v.prompt_cache_key, key);
    let f3 = with::<String>(f2, "prompt_cache_key"@, v.prompt_cache_key);
    lemma_with::<String>(f3, "prompt_cache_retention"@, v.prompt_cache_retention, key);
    let f4 = with::<String>(f3, "prompt_cache_retention"@, v.prompt_cache_retention);
    lemma_with::<WireStreamOptions>(f4, "stream_options"@, v.stream_options, key);
    let f5 = with::<WireStreamOptions>(f4, "stream_options"@, v.stream_options);
    lemma_with::<bool>(f5, "store"@, v.store, key);
    let f6 = with::<bool>(f5, "store"@, v.store);
    lemma_with::<u64>(f6, "max_tokens"@, v.max_tokens, key);
    let f7 = with::<u64>(f6, "max_tokens"@, v.max_tokens);
    lemma_with::<u64>(f7, "max_completion_tokens"@, v.max_completion_tokens, key);
    let f8 = with::<u64>(f7, "max_completion_tokens"@, v.max_completion_tokens);
    lemma_with::<JsonNumber>(f8, "temperature"@, v.temperature, key);
    let f9 = with::<JsonNumber>(f8, "temperature"@, v.temperature);
    lemma_with::<Vec<WireTool>>(f9, "tools"@, v.tools, key);
    let f10 = with::<Vec<WireTool>>(f9, "tools"@, v.tools);
    lemma_with::<OpenAIChatToolChoice>(f10, "tool_choice"@, v.tool_choice, key);
}

proof fn lemma_put_text(
    fields: Seq<(Seq<char>, JsonV)>,
    key: Seq<char>,
    value: Option<Seq<char>>,
    other: Seq<char>,
)
    ensures
        lookup(put_text(fields, key, value), other) == if other == key && value is Some {
            Some(JsonV::Str(value->Some_0))
        } else {
            lookup(fields, other)
        },
        distinct(fields) ==> distinct(put_text(fields, key, value)),
{
    if let Some(text) = value {
        lemma_put(fields, key, JsonV::Str(text), other);
        if distinct(fields) {
            lemma_put_distinct(fields, key, JsonV::Str(text));
        }
    }
}

proof fn lemma_put_values(
    fields: Seq<(Seq<char>, JsonV)>,
    key: Seq<char>,
    values: Seq<(Seq<char>, JsonV)>,
    other: Seq<char>,
)
    ensures
        lookup(put_values(fields, key, values), other) == if other == key && values.len() > 0 {
            Some(JsonV::Object(values))
        } else {
            lookup(fields, other)
        },
        distinct(fields) ==> distinct(put_values(fields, key, values)),
{
    if values.len() > 0 {
        lemma_put(fields, key, JsonV::Object(values), other);
        if distinct(fields) {
            lemma_put_distinct(fields, key, JsonV::Object(values));
        }
    }
}

proof fn lemma_put_both(
    fields: Seq<(Seq<char>, JsonV)>,
    key: Seq<char>,
    value: JsonV,
    other: Seq<char>,
)
    ensures
        lookup(put(fields, key, value), other) == if other == key {
            Some(value)
        } else {
            lookup(fields, other)
        },
        distinct(fields) ==> distinct(put(fields, key, value)),
{
    lemma_put(fields, key, value, other);
    if distinct(fields) {
        lemma_put_distinct(fields, key, value);
    }
}

/// The word for a level of thinking.
pub open spec fn level_word(level: ThinkingLevel) -> Seq<char> {
    match level {
        ThinkingLevel::Minimal => "minimal"@,
        ThinkingLevel::Low => "low"@,
        ThinkingLevel::Medium => "medium"@,
        ThinkingLevel::High => "high"@,
        ThinkingLevel::Xhigh => "xhigh"@,
        ThinkingLevel::Max => "max"@,
    }
}

/// What a model says of a level: nothing, that it has none, or its own word for it.
pub open spec fn own_word(model: ModelV, level: ThinkingLevel) -> Option<Option<Seq<char>>> {
    match (model.thinking_level_map, level) {
        (None, _) => None,
        (Some(map), ThinkingLevel::Minimal) => map.minimal,
        (Some(map), ThinkingLevel::Low) => map.low,
        (Some(map), ThinkingLevel::Medium) => map.medium,
        (Some(map), ThinkingLevel::High) => map.high,
        (Some(map), ThinkingLevel::Xhigh) => map.xhigh,
        (Some(map), ThinkingLevel::Max) => map.max,
    }
}

/// What a model says of thinking that is switched off.
pub open spec fn off_word(model: ModelV) -> Option<Option<Seq<char>>> {
    match model.thinking_level_map {
        Some(map) => map.off,
        None => None,
    }
}

/// The word under which a level is sent: the model's own, else the common one.
pub open spec fn sent_word(model: ModelV, level: ThinkingLevel) -> Seq<char> {
    match own_word(model, level) {
        Some(Some(word)) => word,
        _ => level_word(level),
    }
}

/// The word under which a level is sent, if the model has the level at all.
pub open spec fn known_word(model: ModelV, effort: Option<ThinkingLevel>) -> Option<Seq<char>> {
    match effort {
        Some(level) => match own_word(model, level) {
            Some(word) => word,
            None => Some(level_word(level)),
        },
        None => None,
    }
}

/// The model's own word for thinking that is switched off.
pub open spec fn known_off_word(model: ModelV) -> Option<Seq<char>> {
    match off_word(model) {
        Some(Some(word)) => Some(word),
        _ => None,
    }
}

/// A text as a member.
pub open spec fn text_member(text: Option<Seq<char>>) -> Option<JsonV> {
    match text {
        Some(text) => Some(JsonV::Str(text)),
        None => None,
    }
}

/// An object with one member.
pub open spec fn one_member(key: Seq<char>, value: JsonV) -> JsonV {
    JsonV::Object(seq![(key, value)])
}

/// The level that is asked for, where the provider takes OpenAI's way to name one.
pub open spec fn level_member(
    model: ModelV,
    effort: Option<ThinkingLevel>,
    compat: ResolvedCompatV,
) -> Option<JsonV> {
    match effort {
        Some(level) => if compat.supports_reasoning_effort {
            Some(JsonV::Str(sent_word(model, level)))
        } else {
            None
        },
        None => None,
    }
}

/// The level that is asked for, or the word for none; nothing where the model cannot be told to
/// think at no level.
pub open spec fn level_or_off(model: ModelV, effort: Option<ThinkingLevel>) -> Option<Seq<char>> {
    match effort {
        Some(level) => Some(sent_word(model, level)),
        None => match off_word(model) {
            Some(word) => word,
            None => Some("none"@),
        },
    }
}

/// What a member in which reasoning is asked for holds.
pub open spec fn asked(
    key: Seq<char>,
    model: ModelV,
    effort: Option<ThinkingLevel>,
    compat: ResolvedCompatV,
    budget: Option<u64>,
) -> Option<JsonV> {
    if !model.reasoning {
        None
    } else {
        match compat.thinking_format {
            ThinkingFormat::Openai => if key == "reasoning_effort"@
                && compat.supports_reasoning_effort {
                match effort {
                    Some(level) => Some(JsonV::Str(sent_word(model, level))),
                    None => text_member(known_off_word(model)),
                }
            } else {
                None
            },
            ThinkingFormat::Zai => if key == "thinking"@ {
                Some(
                    if effort is Some {
                        JsonV::Object(
                            seq![
                                ("type"@, JsonV::Str("enabled"@)),
                                ("clear_thinking"@, JsonV::Bool(false)),
                            ],
                        )
                    } else {
                        one_member("type"@, JsonV::Str("disabled"@))
                    },
                )
            } else if key == "reasoning_effort"@ && compat.supports_reasoning_effort {
                text_member(known_word(model, effort))
            } else {
                None
            },
            ThinkingFormat::Qwen => if key == "enable_thinking"@ {
                Some(JsonV::Bool(effort is Some))
            } else if key == "reasoning_effort"@ {
                level_member(model, effort, compat)
            } else {
                None
            },
            ThinkingFormat::QwenChatTemplate => if key == "chat_template_kwargs"@ {
                Some(
                    JsonV::Object(
                        seq![
                            ("enable_thinking"@, JsonV::Bool(effort is Some)),
                            ("preserve_thinking"@, JsonV::Bool(true)),
                        ],
                    ),
                )
            } else {
                None
            },
            ThinkingFormat::ChatTemplate => if key == "chat_template_kwargs"@ && template_values(
                model,
                effort,
                compat.chat_template_kwargs,
                budget,
            ).len() > 0 {
                Some(
                    JsonV::Object(
                        template_values(model, effort, compat.chat_template_kwargs, budget),
                    ),
                )
            } else {
                None
            },
            ThinkingFormat::Baseten => if key == "chat_template_args"@ && template_values(
                model,
                effort,
                compat.chat_template_args,
                budget,
            ).len() > 0 {
                Some(
                    JsonV::Object(
                        template_values(model, effort, compat.chat_template_args, budget),
                    ),
                )
            } else if key == "reasoning_effort"@ && compat.supports_reasoning_effort {
                text_member(
                    if effort is Some {
                        known_word(model, effort)
                    } else {
                        known_off_word(model)
                    },
                )
            } else {
                None
            },
            ThinkingFormat::Deepseek => if key == "thinking"@ {
                if effort is Some {
                    Some(one_member("type"@, JsonV::Str("enabled"@)))
                } else if off_word(model) == Some(None::<Seq<char>>) {
                    None
                } else {
                    Some(one_member("type"@, JsonV::Str("disabled"@)))
                }
            } else if key == "reasoning_effort"@ {
                level_member(model, effort, compat)
            } else {
                None
            },
            ThinkingFormat::Openrouter => if key == "reasoning"@ {
                match level_or_off(model, effort) {
                    Some(word) => Some(one_member("effort"@, JsonV::Str(word))),
                    None => None,
                }
            } else {
                None
            },
            ThinkingFormat::AntLing => if key == "reasoning"@ && effort is Some {
                match own_word(model, effort->Some_0) {
                    Some(Some(word)) => Some(one_member("effort"@, JsonV::Str(word))),
                    _ => None,
                }
            } else {
                None
            },
            ThinkingFormat::Together => if key == "reasoning"@ {
                Some(one_member("enabled"@, JsonV::Bool(effort is Some)))
            } else if key == "reasoning_effort"@ {
                level_member(model, effort, compat)
            } else {
                None
            },
            ThinkingFormat::StringThinking => if key == "thinking"@ {
                text_member(level_or_off(model, effort))
            } else {
                None
            },
        }
    }
}

proof fn lemma_asked(
    key: Seq<char>,
    model: ModelV,
    effort: Option<ThinkingLevel>,
    compat: ResolvedCompatV,
    budget: Option<u64>,
    fields: Seq<(Seq<char>, JsonV)>,
)
    requires
        distinct(fields),
        lookup(fields, key) is Some ==> !is_reasoning_member(key),
    ensures
        distinct(thinking_fields(model, effort, compat, budget, fields)),
        is_reasoning_member(key) ==> lookup(
            thinking_fields(model, effort, compat, budget, fields),
            key,
        ) == asked(key, model, effort, compat, budget),
        !is_reasoning_member(key) ==> lookup(
            thinking_fields(model, effort, compat, budget, fields),
            key,
        ) == lookup(fields, key),
{
    lemma_names();
    if model.reasoning {
        match compat.thinking_format {
            ThinkingFormat::Zai => {
                let value = if effort is Some {
                    JsonV::Object(
                        seq![
                            ("type"@, JsonV::Str("enabled"@)),
                            ("clear_thinking"@, JsonV::Bool(false)),
                        ],
                    )
                } else {
                    single("type"@, JsonV::Str("disabled"@))
                };
                lemma_put_both(fields, "thinking"@, value, key);
                let switched = put(fields, "thinking"@, value);
                lemma_put_text(switched, "reasoning_effort"@, known_word(model, effort), key);
            },
            ThinkingFormat::Qwen => {
                lemma_put_both(fields, "enable_thinking"@, JsonV::Bool(effort is Some), key);
                let switched = put(fields, "enable_thinking"@, JsonV::Bool(effort is Some));
                lemma_put_text(
                    switched,
                    "reasoning_effort"@,
                    named_effort(model, effort, compat),
                    key,
                );
            },
            ThinkingFormat::QwenChatTemplate => {
                lemma_put_both(
                    fields,
                    "chat_template_kwargs"@,
                    JsonV::Object(
                        seq![
                            ("enable_thinking"@, JsonV::Bool(effort is Some)),
                            ("preserve_thinking"@, JsonV::Bool(true)),
                        ],
                    ),
                    key,
                );
            },
            ThinkingFormat::ChatTemplate => {
                lemma_put_values(
                    fields,
                    "chat_template_kwargs"@,
                    template_values(model, effort, compat.chat_template_kwargs, budget),
                    key,
                );
            },
            ThinkingFormat::Baseten => {
                let values = template_values(model, effort, compat.chat_template_args, budget);
                lemma_put_values(fields, "chat_template_args"@, values, key);
                let filled = put_values(fields, "chat_template_args"@, values);
                lemma_put_text(
                    filled,
                    "reasoning_effort"@,
                    if effort is Some {
                        known_word(model, effort)
                    } else {
                        known_off_word(model)
                    },
                    key,
                );
            },
            ThinkingFormat::Deepseek => {
                let on = single("type"@, JsonV::Str("enabled"@));
                let off = single("type"@, JsonV::Str("disabled"@));
                lemma_put_both(fields, "thinking"@, on, key);
                lemma_put_both(fields, "thinking"@, off, key);
                let name = named_effort(model, effort, compat);
                lemma_put_text(fields, "reasoning_effort"@, name, key);
                lemma_put_text(put(fields, "thinking"@, on), "reasoning_effort"@, name, key);
                lemma_put_text(put(fields, "thinking"@, off), "reasoning_effort"@, name, key);
            },
            ThinkingFormat::Openrouter => {
                if let Some(word) = level_or_off(model, effort) {
                    lemma_put_both(
                        fields,
                        "reasoning"@,
                        single("effort"@, JsonV::Str(word)),
                        key,
                    );
                }
            },
            ThinkingFormat::AntLing => {
                if let Some(level) = effort {
                    if let Some(Some(word)) = own_word(model, level) {
                        lemma_put_both(
                            fields,
                            "reasoning"@,
                            single("effort"@, JsonV::Str(word)),
                            key,
                        );
                    }
                }
            },
            ThinkingFormat::Together => {
                let value = single("enabled"@, JsonV::Bool(effort is Some));
                lemma_put_both(fields, "reasoning"@, value, key);
                lemma_put_text(
                    put(fields, "reasoning"@, value),
                    "reasoning_effort"@,
                    named_effort(model, effort, compat),
                    key,
                );
            },
            ThinkingFormat::StringThinking => {
                lemma_put_text(fields, "thinking"@, level_or_off(model, effort), key);
            },
            ThinkingFormat::Openai => {
                lemma_put_text(
                    fields,
                    "reasoning_effort"@,
                    if effort is Some {
                        Some(sent_word(model, effort->Some_0))
                    } else {
                        known_off_word(model)
                    },
                    key,
                );
            },
        }
    }
}

/// The name of the member that bounds the tokens of thinking, where the provider takes one.
pub open spec fn bound_name(compat: ResolvedCompatV) -> Option<Seq<char>> {
    match compat.thinking_token_budget_field {
        Some(ThinkingTokenBudgetField::ThinkingTokenBudget) => Some("thinking_token_budget"@),
        Some(ThinkingTokenBudgetField::ThinkingBudget) => Some("thinking_budget"@),
        Some(ThinkingTokenBudgetField::ThinkingBudgetTokens) => Some("thinking_budget_tokens"@),
        None => if compat.supports_thinking_token_budget == Some(true) {
            Some("thinking_token_budget"@)
        } else {
            None
        },
    }
}

/// The tokens that a level may think for: what the caller says, else 1024, 2048, 8192 or 16384.
pub open spec fn wished_tokens(level: ThinkingLevel, custom: Option<ThinkingBudgets>) -> u64 {
    let (own, common) = match level {
        ThinkingLevel::Minimal => (custom->Some_0.minimal, 1024u64),
        ThinkingLevel::Low => (custom->Some_0.low, 2048u64),
        ThinkingLevel::Medium => (custom->Some_0.medium, 8192u64),
        _ => (custom->Some_0.high, 16384u64),
    };
    if custom is Some && own is Some {
        own->Some_0
    } else {
        common
    }
}

/// The bound that is sent: what the level may think for, less where that would leave under 1024
/// tokens for the answer, and none where nothing is left.
pub open spec fn sent_bound(model: ModelV, options: OpenAICompletionsOptionsV) -> Option<u64> {
    match options.reasoning_effort {
        Some(level) => {
            let ceiling = match options.stream.max_tokens {
                Some(tokens) if tokens > 0 => tokens,
                _ => model.max_tokens,
            };
            let wished = wished_tokens(level, options.thinking_budgets);
            let room = if ceiling > 1024 {
                ceiling - 1024
            } else {
                0
            };
            if model.reasoning && wished > 0 && room > 0 {
                Some(
                    (if wished < room {
                        wished as int
                    } else {
                        room
                    }) as u64,
                )
            } else {
                None
            }
        },
        None => None,
    }
}

proof fn lemma_bound(model: ModelV, options: OpenAICompletionsOptionsV, compat: ResolvedCompatV)
    ensures
        clamped_budget(model, options) == sent_bound(model, options),
        budget_field(compat) == bound_name(compat),
{
}

proof fn lemma_dialect(
    model: ModelV,
    context: ContextV,
    options: OpenAICompletionsOptionsV,
    compat: ResolvedCompatV,
    key: Seq<char>,
)
    ensures
        distinct(dialect(model, context, options, compat)),
        is_reasoning_member(key) ==> lookup(dialect(model, context, options, compat), key) == asked(
            key,
            model,
            options.reasoning_effort,
            compat,
            sent_bound(model, options),
        ),
        is_plain_member(key) ==> lookup(dialect(model, context, options, compat), key) is None,
        is_provider_member(key) && bound_name(compat) == Some(key) && sent_bound(
            model,
            options,
        ) is Some ==> lookup(dialect(model, context, options, compat), key) == Some(
            JsonV::Number(JsonNumberV::Unsigned(sent_bound(model, options)->Some_0)),
        ),
        (key == "thinking_token_budget"@ || key == "thinking_budget"@ || key
            == "thinking_budget_tokens"@) && (bound_name(compat) != Some(key) || sent_bound(
            model,
            options,
        ) is None) ==> lookup(dialect(model, context, options, compat), key) is None,
        key == "provider"@ ==> lookup(dialect(model, context, options, compat), key)
            == compat.open_router_routing,
        key == "tool_stream"@ ==> lookup(dialect(model, context, options, compat), key)
            == if compat.zai_tool_stream && active_tools(context, compat).len() > 0 {
            Some(JsonV::Bool(true))
        } else {
            None
        },
        key == "providerOptions"@ ==> lookup(dialect(model, context, options, compat), key)
            == match compat.vercel_gateway_routing {
            Some(routing) => if gateway(routing).len() > 0 {
                Some(one_member("gateway"@, JsonV::Object(gateway(routing))))
            } else {
                None
            },
            None => None,
        },
{
    lemma_names();
    lemma_bound(model, options, compat);
    let start: Seq<(Seq<char>, JsonV)> = Seq::empty();
    lemma_key_index(start, key, 0);
    let tools = if compat.zai_tool_stream && active_tools(context, compat).len() > 0 {
        put(start, "tool_stream"@, JsonV::Bool(true))
    } else {
        start
    };
    lemma_put_both(start, "tool_stream"@, JsonV::Bool(true), key);
    let tokens = clamped_budget(model, options);
    lemma_asked(key, model, options.reasoning_effort, compat, tokens, tools);
    let thinking = thinking_fields(model, options.reasoning_effort, compat, tokens, tools);
    let bounded = match (budget_field(compat), tokens) {
        (Some(field), Some(tokens)) => put(
            thinking,
            field,
            JsonV::Number(JsonNumberV::Unsigned(tokens)),
        ),
        _ => thinking,
    };
    if let (Some(field), Some(n)) = (budget_field(compat), tokens) {
        lemma_put_both(thinking, field, JsonV::Number(JsonNumberV::Unsigned(n)), key);
    }
    let routed = match compat.open_router_routing {
        Some(routing) => put(bounded, "provider"@, routing),
        None => bounded,
    };
    if let Some(routing) = compat.open_router_routing {
        lemma_put_both(bounded, "provider"@, routing, key);
    }
    if let Some(routing) = compat.vercel_gateway_routing {
        lemma_put_both(
            routed,
            "providerOptions"@,
            single("gateway"@, JsonV::Object(gateway(routing))),
            key,
        );
    }
}

/// Whether the caller's own sampling parameters leave a member alone.
pub open spec fn leaves_alone(options: OpenAICompletionsOptionsV, key: Seq<char>) -> bool {
    options.stream.sampling_params matches Some(sampling) ==> distinct(sampling) && lookup(
        sampling,
        key,
    ) is None
}

proof fn lemma_body(
    model: ModelV,
    context: ContextV,
    options: OpenAICompletionsOptionsV,
    compat: ResolvedCompatV,
    retention: CacheRetention,
    properties: Seq<(Seq<char>, Seq<char>)>,
    now: i64,
    key: Seq<char>,
)
    requires
        body(model, context, options, compat, retention, properties, now) is Ok,
        leaves_alone(options, key),
    ensures
        request(model, context, options, compat, retention, properties, now) is Ok,
        member(
            body(model, context, options, compat, retention, properties, now)->Ok_0,
            key,
        ) == match lookup(dialect(model, context, options, compat), key) {
            Some(v) => Some(v),
            None => lookup(
                known_fields(
                    request(model, context, options, compat, retention, properties, now)->Ok_0,
                ),
                key,
            ),
        },
{
    let sent = request(model, context, options, compat, retention, properties, now)->Ok_0;
    lemma_dialect(model, context, options, compat, key);
    lemma_put_all(known_fields(sent), sent.dialect, key);
    if let Some(sampling) = options.stream.sampling_params {
        lemma_put_all(put_all(known_fields(sent), sent.dialect), sampling, key);
    }
}

/// How a provider is told to reason: by the members that its way of thinking knows, each with the
/// word for the level that is asked for, and by none of the others.
pub proof fn law_reasoning_is_asked_for(
    model: ModelV,
    context: ContextV,
    options: OpenAICompletionsOptionsV,
    compat: ResolvedCompatV,
    retention: CacheRetention,
    properties: Seq<(Seq<char>, Seq<char>)>,
    now: i64,
    key: Seq<char>,
)
    requires
        body(model, context, options, compat, retention, properties, now) is Ok,
        leaves_alone(options, key),
        is_reasoning_member(key),
    ensures
        member(
            body(model, context, options, compat, retention, properties, now)->Ok_0,
            key,
        ) == asked(key, model, options.reasoning_effort, compat, sent_bound(model, options)),
{
    lemma_names();
    lemma_body(model, context, options, compat, retention, properties, now, key);
    lemma_dialect(model, context, options, compat, key);
    lemma_known(
        request(model, context, options, compat, retention, properties, now)->Ok_0,
        key,
    );
}

/// A reasoning model without words of its own, whose provider takes OpenAI's `reasoning_effort`, is
/// asked for each level under the common word for it.
pub proof fn law_effort_is_named(
    model: ModelV,
    context: ContextV,
    options: OpenAICompletionsOptionsV,
    compat: ResolvedCompatV,
    retention: CacheRetention,
    properties: Seq<(Seq<char>, Seq<char>)>,
    now: i64,
)
    requires
        body(model, context, options, compat, retention, properties, now) is Ok,
        leaves_alone(options, "reasoning_effort"@),
        model.reasoning,
        model.thinking_level_map is None,
        compat.thinking_format == ThinkingFormat::Openai,
        compat.supports_reasoning_effort,
    ensures
        ({
            let sent = member(
                body(model, context, options, compat, retention, properties, now)->Ok_0,
                "reasoning_effort"@,
            );
            &&& options.reasoning_effort is None ==> sent is None
            &&& options.reasoning_effort == Some(ThinkingLevel::Minimal) ==> sent == Some(
                JsonV::Str("minimal"@),
            )
            &&& options.reasoning_effort == Some(ThinkingLevel::Low) ==> sent == Some(
                JsonV::Str("low"@),
            )
            &&& options.reasoning_effort == Some(ThinkingLevel::Medium) ==> sent == Some(
                JsonV::Str("medium"@),
            )
            &&& options.reasoning_effort == Some(ThinkingLevel::High) ==> sent == Some(
                JsonV::Str("high"@),
            )
            &&& options.reasoning_effort == Some(ThinkingLevel::Xhigh) ==> sent == Some(
                JsonV::Str("xhigh"@),
            )
            &&& options.reasoning_effort == Some(ThinkingLevel::Max) ==> sent == Some(
                JsonV::Str("max"@),
            )
        }),
{
    law_reasoning_is_asked_for(
        model,
        context,
        options,
        compat,
        retention,
        properties,
        now,
        "reasoning_effort"@,
    );
}

/// Different levels are sent under different words.
pub proof fn law_levels_are_told_apart(a: ThinkingLevel, b: ThinkingLevel)
    requires
        level_name(a) == level_name(b),
    ensures
        a == b,
{
    reveal_strlit("minimal");
    reveal_strlit("low");
    reveal_strlit("medium");
    reveal_strlit("high");
    reveal_strlit("xhigh");
    reveal_strlit("max");
    assert("minimal"@.len() == 7 && "low"@.len() == 3 && "medium"@.len() == 6 && "high"@.len() == 4
        && "xhigh"@.len() == 5 && "max"@.len() == 3);
    assert("low"@[0] == 'l' && "max"@[0] == 'm');
}

/// What a request holds whatever the provider: the model, that the answer is streamed, whether it is
/// stored, how long it may be, how the cache is used, and what the caller asks for.
pub proof fn law_plain_members(
    model: ModelV,
    context: ContextV,
    options: OpenAICompletionsOptionsV,
    compat: ResolvedCompatV,
    retention: CacheRetention,
    properties: Seq<(Seq<char>, Seq<char>)>,
    now: i64,
    key: Seq<char>,
)
    requires
        body(model, context, options, compat, retention, properties, now) is Ok,
        leaves_alone(options, key),
        is_plain_member(key),
    ensures
        ({
            let sent = member(
                body(model, context, options, compat, retention, properties, now)->Ok_0,
                key,
            );
            let bound = match options.stream.max_tokens {
                Some(tokens) if tokens > 0 => Some(
                    JsonV::Number(JsonNumberV::Unsigned(tokens)),
                ),
                _ => None,
            };
            let keeps_long = retention == CacheRetention::Long
                && compat.supports_long_cache_retention;
            &&& key == "model"@ ==> sent == Some(JsonV::Str(model.id))
            &&& key == "stream"@ ==> sent == Some(JsonV::Bool(true))
            &&& key == "store"@ ==> sent == if compat.supports_store {
                Some(JsonV::Bool(false))
            } else {
                None
            }
            &&& key == "max_tokens"@ ==> sent == if compat.max_tokens_field
                == MaxTokensField::MaxTokens {
                bound
            } else {
                None
            }
            &&& key == "max_completion_tokens"@ ==> sent == if compat.max_tokens_field
                == MaxTokensField::MaxCompletionTokens {
                bound
            } else {
                None
            }
            &&& key == "temperature"@ ==> {
                &&& options.stream.temperature is None <==> sent is None
                &&& options.stream.temperature matches Some(JsonNumberV::Unsigned(n)) ==> sent
                    == Some(JsonV::Number(JsonNumberV::Unsigned(n)))
                &&& options.stream.temperature matches Some(JsonNumberV::Decimal(text)) ==> (text.len()
                    > 0 && text.last() != '0' ==> sent == Some(
                    JsonV::Number(JsonNumberV::Decimal(text)),
                ))
            }
            &&& key == "stream_options"@ ==> sent == if compat.supports_usage_in_streaming {
                Some(one_member("include_usage"@, JsonV::Bool(true)))
            } else {
                None
            }
            &&& key == "prompt_cache_retention"@ ==> sent == if keeps_long {
                Some(JsonV::Str("24h"@))
            } else {
                None
            }
            &&& key == "prompt_cache_key"@ ==> sent == if keeps_long || (retention
                != CacheRetention::Never && has_part(model.base_url, "api.openai.com"@)) {
                match options.stream.session_id {
                    Some(id) => Some(
                        JsonV::Str(
                            if id.len() <= 64 {
                                id
                            } else {
                                id.take(64)
                            },
                        ),
                    ),
                    None => None,
                }
            } else {
                None
            }
            &&& key == "tool_choice"@ ==> {
                &&& options.tool_choice is None ==> sent is None
                &&& options.tool_choice matches Some(choice) ==> sent == Some(
                    OpenAIChatToolChoice::wire(choice),
                )
            }
        }),
{
    lemma_body(model, context, options, compat, retention, properties, now, key);
    lemma_dialect(model, context, options, compat, key);
    lemma_names();
    let sent = request(model, context, options, compat, retention, properties, now)->Ok_0;
    lemma_known(sent, key);
    if let Some(JsonNumberV::Decimal(text)) = options.stream.temperature {
        if text.len() > 0 && text.last() != '0' {
            reveal_strlit(".0");
            assert(".0"@.len() == 2);
            assert(".0"@[1] == '0');
            if crate::text::ends(text, ".0"@) {
                assert(text.skip(text.len() - 2)[1] == text.last());
            }
            let rest = text.skip(1);
            if text[0] == '-' && crate::text::ends(rest, ".0"@) {
                assert(rest.skip(rest.len() - 2)[1] == text.last());
            }
        }
    }
}

/// The messages of a request are those that the conversation is turned into; only where a
/// provider is told what to keep in its cache are they marked.
pub proof fn law_messages_are_sent(
    model: ModelV,
    context: ContextV,
    options: OpenAICompletionsOptionsV,
    compat: ResolvedCompatV,
    retention: CacheRetention,
    properties: Seq<(Seq<char>, Seq<char>)>,
    now: i64,
)
    requires
        leaves_alone(options, "messages"@),
        compat.cache_control_format is None || retention == CacheRetention::Never,
    ensures
        match (
            body(model, context, options, compat, retention, properties, now),
            converted(model, context, compat, properties, now),
        ) {
            (Ok(v), Ok(messages)) => member(v, "messages"@) matches Some(JsonV::Array(sent))
                && sent.len() == messages.len() && forall|i: int|
                0 <= i < sent.len() ==> #[trigger] sent[i] == WireMessage::wire(messages[i]),
            (Err(e), Err(f)) => e == f,
            _ => false,
        },
{
    if body(model, context, options, compat, retention, properties, now) is Ok {
        lemma_body(model, context, options, compat, retention, properties, now, "messages"@);
        lemma_dialect(model, context, options, compat, "messages"@);
        lemma_names();
        let sent = request(model, context, options, compat, retention, properties, now)->Ok_0;
        lemma_known(sent, "messages"@);
    }
}

proof fn lemma_all_tools_stay(tools: Seq<ToolV>)
    ensures
        tools_except(tools, Seq::empty()) == tools,
    decreases tools.len(),
{
    if tools.len() > 0 {
        lemma_all_tools_stay(tools.drop_last());
        assert(tools.drop_last().push(tools.last()) =~= tools);
    }
}

/// Whether a message is a tool's result or a turn with a call.
pub open spec fn uses_a_tool(message: MessageV) -> bool {
    match message {
        MessageV::ToolResult(_) => true,
        MessageV::Assistant(turn) => exists|b: int|
            0 <= b < turn.content.len() && #[trigger] turn.content[b] is ToolCall,
        MessageV::User(_) => false,
    }
}

/// Whether a conversation has made use of tools.
pub open spec fn uses_tools(messages: Seq<MessageV>) -> bool {
    exists|i: int| 0 <= i < messages.len() && #[trigger] uses_a_tool(messages[i])
}

proof fn lemma_uses_tools(messages: Seq<MessageV>)
    ensures
        uses_tools(messages) == tool_history(messages),
{
    assert forall|i: int| 0 <= i < messages.len() implies #[trigger] uses_a_tool(messages[i])
        == concerns_tools(messages[i]) by {}
    if uses_tools(messages) {
        let i = choose|i: int| 0 <= i < messages.len() && #[trigger] uses_a_tool(messages[i]);
        assert(concerns_tools(messages[i]));
    }
    if tool_history(messages) {
        let i = choose|i: int| 0 <= i < messages.len() && #[trigger] concerns_tools(messages[i]);
        assert(uses_a_tool(messages[i]));
    }
}

/// Every tool is offered, in order. Where there is none, but the conversation has made use of tools,
/// an empty list is sent.
pub proof fn law_tools_are_offered(
    model: ModelV,
    context: ContextV,
    options: OpenAICompletionsOptionsV,
    compat: ResolvedCompatV,
    retention: CacheRetention,
    properties: Seq<(Seq<char>, Seq<char>)>,
    now: i64,
    tools: Seq<ToolV>,
)
    requires
        body(model, context, options, compat, retention, properties, now) is Ok,
        leaves_alone(options, "tools"@),
        compat.cache_control_format is None || retention == CacheRetention::Never,
        compat.deferred_tools_mode is None,
        context.tools == Some(tools) || (context.tools is None && tools.len() == 0),
    ensures
        ({
            let sent = member(
                body(model, context, options, compat, retention, properties, now)->Ok_0,
                "tools"@,
            );
            let used = uses_tools(context.messages);
            &&& tools.len() > 0 ==> (sent matches Some(JsonV::Array(offered)) && offered.len()
                == tools.len() && forall|i: int|
                0 <= i < tools.len() ==> #[trigger] offered[i] == WireTool::wire(
                    wire_tool(tools[i], compat),
                ))
            &&& tools.len() == 0 && used ==> sent == Some(JsonV::Array(Seq::empty()))
            &&& tools.len() == 0 && !used ==> sent is None
        }),
{
    lemma_body(model, context, options, compat, retention, properties, now, "tools"@);
    lemma_dialect(model, context, options, compat, "tools"@);
    lemma_names();
    let sent = request(model, context, options, compat, retention, properties, now)->Ok_0;
    lemma_known(sent, "tools"@);
    lemma_all_tools_stay(tools);
    lemma_uses_tools(context.messages);
    assert(all_tools(context.tools) =~= tools);
    if tools.len() == 0 {
        assert(wires::<WireTool>(Seq::empty()) =~= Seq::<JsonV>::empty());
    }
}

/// A tool that came with a result is not offered from the start where the provider takes tools as
/// they come; every other tool is.
pub proof fn law_deferred_tools_wait(context: ContextV, compat: ResolvedCompatV, tool: ToolV)
    requires
        compat.deferred_tools_mode == Some(DeferredToolsMode::Kimi),
        context.tools is Some,
        context.tools->Some_0.contains(tool),
    ensures
        active_tools(context, compat).contains(tool) <==> !comes_later(
            context.messages,
            tool.name,
        ),
{
    let names = deferred_names(context.messages);
    lemma_except(context.tools->Some_0, names, tool);
    lemma_comes_later(context.messages, tool.name);
}

/// Whether a result brings a tool of a name.
pub open spec fn comes_later(messages: Seq<MessageV>, name: Seq<char>) -> bool {
    exists|i: int|
        0 <= i < messages.len() && (#[trigger] messages[i] matches MessageV::ToolResult(m)
            && m.added_tool_names matches Some(names) && names.contains(name))
}

proof fn lemma_except(tools: Seq<ToolV>, names: Seq<Seq<char>>, tool: ToolV)
    ensures
        tools_except(tools, names).contains(tool) <==> tools.contains(tool) && !names.contains(
            tool.name,
        ),
    decreases tools.len(),
{
    if tools.len() > 0 {
        let rest = tools.drop_last();
        lemma_except(rest, names, tool);
        let kept = tools_except(tools, names);
        let before = tools_except(rest, names);
        assert(tools =~= rest.push(tools.last()));
        assert(tools.contains(tool) <==> rest.contains(tool) || tools.last() == tool) by {
            if rest.contains(tool) {
                let i = choose|i: int| 0 <= i < rest.len() && rest[i] == tool;
                assert(tools[i] == tool);
            }
            if tools.last() == tool {
                assert(tools[tools.len() - 1] == tool);
            }
            if tools.contains(tool) && tools.last() != tool {
                let i = choose|i: int| 0 <= i < tools.len() && tools[i] == tool;
                assert(rest[i] == tool);
            }
        }
        if !names.contains(tools.last().name) {
            assert(kept == before.push(tools.last()));
            if before.contains(tool) {
                let i = choose|i: int| 0 <= i < before.len() && before[i] == tool;
                assert(kept[i] == tool);
            }
            if tools.last() == tool {
                assert(kept[before.len() as int] == tool);
            }
            if kept.contains(tool) && tools.last() != tool {
                let i = choose|i: int| 0 <= i < kept.len() && kept[i] == tool;
                assert(before[i] == tool);
            }
        }
    }
}

proof fn lemma_with_names(names: Seq<Seq<char>>, more: Seq<Seq<char>>, name: Seq<char>)
    ensures
        with_names(names, more).contains(name) <==> names.contains(name) || more.contains(name),
    decreases more.len(),
{
    if more.len() > 0 {
        let front = more.drop_last();
        lemma_with_names(names, front, name);
        let rest = with_names(names, front);
        let all = with_names(names, more);
        assert(more.contains(name) <==> front.contains(name) || more.last() == name) by {
            if front.contains(name) {
                let i = choose|i: int| 0 <= i < front.len() && front[i] == name;
                assert(more[i] == name);
            }
            if more.last() == name {
                assert(more[more.len() - 1] == name);
            }
            if more.contains(name) && more.last() != name {
                let i = choose|i: int| 0 <= i < more.len() && more[i] == name;
                assert(front[i] == name);
            }
        }
        if !rest.contains(more.last()) {
            assert(all == rest.push(more.last()));
            if rest.contains(name) {
                let i = choose|i: int| 0 <= i < rest.len() && rest[i] == name;
                assert(all[i] == name);
            }
            if more.last() == name {
                assert(all[rest.len() as int] == name);
            }
            if all.contains(name) && more.last() != name {
                let i = choose|i: int| 0 <= i < all.len() && all[i] == name;
                assert(rest[i] == name);
            }
        }
    }
}

proof fn lemma_comes_later(messages: Seq<MessageV>, name: Seq<char>)
    ensures
        deferred_names(messages).contains(name) <==> comes_later(messages, name),
    decreases messages.len(),
{
    if messages.len() > 0 {
        let front = messages.drop_last();
        lemma_comes_later(front, name);
        let brings = |m: MessageV|
            m matches MessageV::ToolResult(r) && r.added_tool_names matches Some(names)
                && names.contains(name);
        if comes_later(front, name) {
            let i = choose|i: int|
                0 <= i < front.len() && (#[trigger] front[i] matches MessageV::ToolResult(m)
                    && m.added_tool_names matches Some(names) && names.contains(name));
            assert(messages[i] == front[i]);
        }
        if comes_later(messages, name) && !brings(messages.last()) {
            let i = choose|i: int|
                0 <= i < messages.len() && (#[trigger] messages[i] matches MessageV::ToolResult(m)
                    && m.added_tool_names matches Some(names) && names.contains(name));
            assert(front[i] == messages[i]);
        }
        if brings(messages.last()) {
            assert(messages[messages.len() - 1] == messages.last());
        }
        if let MessageV::ToolResult(m) = messages.last() {
            lemma_with_names(deferred_names(front), added_names(m), name);
        }
    }
}

/// What the description of a function says.
pub open spec fn function_members(tool: ToolV, compat: ResolvedCompatV) -> Seq<(Seq<char>, JsonV)> {
    let strict = compat.supports_strict_mode && tool.strict == Some(true);
    let shaped = seq![
        ("name"@, JsonV::Str(tool.name)),
        ("description"@, JsonV::Str(tool.description)),
        (
            "parameters"@,
            if strict {
                tool.strict_parameters
            } else {
                tool.parameters
            },
        ),
    ];
    if compat.supports_strict_mode {
        shaped.push(("strict"@, JsonV::Bool(strict)))
    } else {
        shaped
    }
}

/// What a grammar says.
pub open spec fn grammar_members(grammar: ToolGrammarV) -> Seq<(Seq<char>, JsonV)> {
    let syntax = if grammar.syntax == GrammarSyntax::Lark {
        "lark"@
    } else {
        "regex"@
    };
    seq![("syntax"@, JsonV::Str(syntax)), ("definition"@, JsonV::Str(grammar.definition))]
}

/// A tool is offered as a function with its name, its description and its schema, or, where it
/// has a grammar that the provider takes, as a free-form tool with that grammar.
pub proof fn law_tool_is_described(tool: ToolV, compat: ResolvedCompatV)
    ensures
        !compat.supports_open_ai_grammar_tools || tool.grammar is None ==> WireTool::wire(
            wire_tool(tool, compat),
        ) == JsonV::Object(
            seq![
                ("type"@, JsonV::Str("function"@)),
                ("function"@, JsonV::Object(function_members(tool, compat))),
            ],
        ),
        compat.supports_open_ai_grammar_tools ==> (tool.grammar matches Some(grammar)
            ==> WireTool::wire(wire_tool(tool, compat)) == JsonV::Object(
            seq![
                ("type"@, JsonV::Str("custom"@)),
                (
                    "custom"@,
                    JsonV::Object(
                        seq![
                            ("name"@, JsonV::Str(tool.name)),
                            ("description"@, JsonV::Str(tool.description)),
                            (
                                "format"@,
                                JsonV::Object(
                                    seq![
                                        ("type"@, JsonV::Str("grammar"@)),
                                        ("grammar"@, JsonV::Object(grammar_members(grammar))),
                                    ],
                                ),
                            ),
                        ],
                    ),
                ),
            ],
        )),
{
    let w = wire_tool(tool, compat);
    match w.definition {
        WireToolDefinitionV::Function { function } => {
            assert(with::<bool>(
                seq![
                    ("name"@, String::wire(function.name)),
                    ("description"@, String::wire(function.description)),
                    ("parameters"@, Json::wire(function.parameters)),
                ],
                "strict"@,
                function.strict,
            ) =~= function_members(tool, compat));
        },
        WireToolDefinitionV::Custom { custom } => {
            let grammar = tool.grammar->Some_0;
            assert(WireGrammar::wire(custom.format.grammar) == JsonV::Object(
                grammar_members(grammar),
            ));
        },
    }
}

/// What a value for a template comes to: itself, or what the level of thinking makes of a variable.
/// Nothing is sent for a variable that is to be left out where thinking is off, nor for a bound or a
/// word where there is none.
pub open spec fn template_member(
    model: ModelV,
    effort: Option<ThinkingLevel>,
    value: ChatTemplateKwargValueV,
    bound: Option<u64>,
) -> Option<JsonV> {
    match value {
        ChatTemplateKwargValueV::Text(text) => Some(JsonV::Str(text)),
        ChatTemplateKwargValueV::Number(n) => Some(JsonV::Number(n)),
        ChatTemplateKwargValueV::Boolean(b) => Some(JsonV::Bool(b)),
        ChatTemplateKwargValueV::Null => Some(JsonV::Null),
        ChatTemplateKwargValueV::Variable { variable, omit_when_off } => if effort is None
            && omit_when_off == Some(true) {
            None
        } else {
            match variable {
                ThinkingVariable::Enabled => Some(JsonV::Bool(effort is Some)),
                ThinkingVariable::Budget => match bound {
                    Some(n) => Some(JsonV::Number(JsonNumberV::Unsigned(n))),
                    None => None,
                },
                ThinkingVariable::Effort => text_member(
                    if effort is Some {
                        known_word(model, effort)
                    } else {
                        known_off_word(model)
                    },
                ),
            }
        },
    }
}

proof fn lemma_sent_values(
    model: ModelV,
    effort: Option<ThinkingLevel>,
    values: Seq<(Seq<char>, ChatTemplateKwargValueV)>,
    bound: Option<u64>,
    key: Seq<char>,
)
    requires
        distinct(values),
    ensures
        lookup(sent_values(model, effort, values, bound), key) == match lookup(values, key) {
            Some(value) => template_member(model, effort, value, bound),
            None => None,
        },
    decreases values.len(),
{
    if values.len() == 0 {
        lemma_key_index(values, key, 0);
        lemma_key_index(sent_values(model, effort, values, bound), key, 0);
    } else {
        let front = values.drop_last();
        let last = values.last();
        lemma_sent_values(model, effort, front, bound, key);
        assert(values =~= front.push((last.0, last.1)));
        lemma_push(front, last.0, last.1, key);
        if key == last.0 {
            lemma_key_index_props(front, key);
            if lookup(front, key) is Some {
                let j = key_index(front, key) as int;
                assert(values[j].0 == values[values.len() - 1].0);
            }
        }
        let rest = sent_values(model, effort, front, bound);
        if let Some(v) = template_value(model, effort, last.1, bound) {
            lemma_put(rest, last.0, v, key);
        }
        assert(template_value(model, effort, last.1, bound) == template_member(
            model,
            effort,
            last.1,
            bound,
        ));
    }
}

proof fn lemma_insert_found<V>(list: Seq<(Seq<char>, V)>, i: int, pair: (Seq<char>, V), key: Seq<char>)
    requires
        0 <= i <= list.len(),
        distinct(list),
        forall|k: int| 0 <= k < list.len() ==> (#[trigger] list[k]).0 != pair.0,
    ensures
        distinct(list.insert(i, pair)),
        lookup(list.insert(i, pair), key) == if key == pair.0 {
            Some(pair.1)
        } else {
            lookup(list, key)
        },
{
    let all = list.insert(i, pair);
    assert forall|k: int| 0 <= k < all.len() implies all[k] == if k < i {
        list[k]
    } else if k == i {
        pair
    } else {
        list[k - 1]
    } by {}
    assert forall|a: int, b: int| 0 <= a < b < all.len() implies (#[trigger] all[a]).0 != (
    #[trigger] all[b]).0 by {
        let x = if a < i {
            a
        } else {
            a - 1
        };
        let y = if b < i {
            b
        } else {
            b - 1
        };
        if a == i {
            assert(list[y].0 != pair.0);
        } else if b == i {
            assert(list[x].0 != pair.0);
        } else {
            assert(list[x].0 != list[y].0);
        }
    }
    lemma_key_index_props(list, key);
    let j = key_index(list, key) as int;
    if key == pair.0 {
        assert forall|k: int| 0 <= k < i implies all[k].0 != key by {
            assert(list[k].0 != pair.0);
        }
        lemma_key_index(all, key, i);
    } else if j < list.len() {
        let at = if j < i {
            j
        } else {
            j + 1
        };
        assert forall|k: int| 0 <= k < at implies all[k].0 != key by {
            if k < i {
                assert(list[k].0 != key);
            } else if k > i {
                assert(list[k - 1].0 != key);
            }
        }
        lemma_key_index(all, key, at);
    } else {
        assert forall|k: int| 0 <= k < all.len() implies all[k].0 != key by {
            if k < i {
                assert(list[k].0 != key);
            } else if k > i {
                assert(list[k - 1].0 != key);
            }
        }
        lemma_key_index(all, key, all.len() as int);
    }
}

proof fn lemma_by_name_found<V>(list: Seq<(Seq<char>, V)>, key: Seq<char>)
    requires
        distinct(list),
    ensures
        distinct(by_name(list)),
        lookup(by_name(list), key) == lookup(list, key),
    decreases list.len(),
{
    if list.len() == 0 {
        lemma_key_index(list, key, 0);
        lemma_key_index(by_name(list), key, 0);
    } else {
        let front = list.drop_last();
        let last = list.last();
        assert(distinct(front)) by {
            assert forall|a: int, b: int| 0 <= a < b < front.len() implies (#[trigger] front[a]).0
                != (#[trigger] front[b]).0 by {
                assert(list[a].0 != list[b].0);
            }
        }
        lemma_by_name_found(front, key);
        lemma_by_name_found(front, last.0);
        let rest = by_name(front);
        lemma_key_index_props(front, last.0);
        if lookup(front, last.0) is Some {
            let j = key_index(front, last.0) as int;
            assert(list[j].0 != list[list.len() - 1].0);
        }
        lemma_key_index_props(rest, last.0);
        assert forall|k: int| 0 <= k < rest.len() implies (#[trigger] rest[k]).0 != last.0 by {
            if key_index(rest, last.0) < rest.len() {
                assert(lookup(rest, last.0) is Some);
            }
        }
        lemma_passed(rest, last.0);
        lemma_insert_found(rest, passed(rest, last.0) as int, last, key);
        assert(list =~= front.push((last.0, last.1)));
        lemma_push(front, last.0, last.1, key);
    }
}

proof fn lemma_passed<V>(list: Seq<(Seq<char>, V)>, key: Seq<char>)
    ensures
        passed(list, key) <= list.len(),
    decreases list.len(),
{
    if list.len() > 0 && !crate::order::less(key, list[0].0) {
        lemma_passed(list.drop_first(), key);
    }
}

/// A template gets each of its values under its name, with what the level of thinking makes of it.
pub proof fn law_template_is_filled(
    model: ModelV,
    effort: Option<ThinkingLevel>,
    values: Seq<(Seq<char>, ChatTemplateKwargValueV)>,
    bound: Option<u64>,
    key: Seq<char>,
)
    requires
        distinct(values),
    ensures
        lookup(template_values(model, effort, values, bound), key) == match lookup(values, key) {
            Some(value) => template_member(model, effort, value, bound),
            None => None,
        },
{
    lemma_by_name_found(values, key);
    lemma_sent_values(model, effort, by_name(values), bound, key);
}

/// A provider that routes is told where a request may go, as the model says.
pub proof fn law_routing_is_told(
    model: ModelV,
    context: ContextV,
    options: OpenAICompletionsOptionsV,
    compat: ResolvedCompatV,
    retention: CacheRetention,
    properties: Seq<(Seq<char>, Seq<char>)>,
    now: i64,
    key: Seq<char>,
)
    requires
        body(model, context, options, compat, retention, properties, now) is Ok,
        leaves_alone(options, key),
    ensures
        ({
            let sent = member(
                body(model, context, options, compat, retention, properties, now)->Ok_0,
                key,
            );
            &&& key == "provider"@ ==> sent == compat.open_router_routing
            &&& key == "providerOptions"@ ==> match compat.vercel_gateway_routing {
                Some(routing) => {
                    let only = match routing.only {
                        Some(names) => seq![("only"@, Vec::<String>::wire(names))],
                        None => Seq::empty(),
                    };
                    let routed = match routing.order {
                        Some(names) => only.push(("order"@, Vec::<String>::wire(names))),
                        None => only,
                    };
                    if routed.len() > 0 {
                        sent == Some(one_member("gateway"@, JsonV::Object(routed)))
                    } else {
                        sent is None
                    }
                },
                None => sent is None,
            }
            &&& key == "tool_stream"@ ==> sent == if compat.zai_tool_stream && active_tools(
                context,
                compat,
            ).len() > 0 {
                Some(JsonV::Bool(true))
            } else {
                None
            }
            &&& (key == "thinking_token_budget"@ || key == "thinking_budget"@ || key
                == "thinking_budget_tokens"@) ==> sent == if bound_name(compat) == Some(key) {
                match sent_bound(model, options) {
                    Some(n) => Some(JsonV::Number(JsonNumberV::Unsigned(n))),
                    None => None,
                }
            } else {
                None
            }
        }),
{
    lemma_names();
    lemma_body(model, context, options, compat, retention, properties, now, key);
    lemma_dialect(model, context, options, compat, key);
    lemma_known(
        request(model, context, options, compat, retention, properties, now)->Ok_0,
        key,
    );
    if let Some(routing) = compat.vercel_gateway_routing {
        let only = match routing.only {
            Some(names) => seq![("only"@, Vec::<String>::wire(names))],
            None => Seq::empty(),
        };
        let none: Seq<(Seq<char>, JsonV)> = Seq::empty();
        if let Some(names) = routing.only {
            assert(none.push(("only"@, Vec::<String>::wire(names))) =~= only);
        }
        assert(with::<Vec<String>>(none, "only"@, routing.only) =~= only);
    }
}

} // verus!
