//! How a chat-completions provider is told to reason.
use crate::assoc;
use crate::assoc::put;
use crate::completions_types::{ResolvedCompat, ResolvedCompatV};
use crate::json::{add_field, object, string, Json, JsonNumber, JsonNumberV, JsonObject, JsonV};
use crate::order::{by_name, sort_by_name};
use crate::types::{
    ChatTemplateKwargValue, ChatTemplateKwargValueV, Model, ModelV, ThinkingFormat, ThinkingLevel,
    ThinkingLevelMapV, ThinkingVariable,
};
use crate::wire::no_fields;
use vstd::prelude::*;

verus! {

/// The name of a level.
pub open spec fn level_name(level: ThinkingLevel) -> Seq<char> {
    match level {
        ThinkingLevel::Minimal => "minimal"@,
        ThinkingLevel::Low => "low"@,
        ThinkingLevel::Medium => "medium"@,
        ThinkingLevel::High => "high"@,
        ThinkingLevel::Xhigh => "xhigh"@,
        ThinkingLevel::Max => "max"@,
    }
}

/// The name of a level.
pub fn effort_name(level: ThinkingLevel) -> (r: String)
    ensures
        r@ == level_name(level),
{
    match level {
        ThinkingLevel::Minimal => "minimal".to_owned(),
        ThinkingLevel::Low => "low".to_owned(),
        ThinkingLevel::Medium => "medium".to_owned(),
        ThinkingLevel::High => "high".to_owned(),
        ThinkingLevel::Xhigh => "xhigh".to_owned(),
        ThinkingLevel::Max => "max".to_owned(),
    }
}

/// What a map says of a level: nothing, that the provider has none, or the provider's name.
pub open spec fn mapped(map: ThinkingLevelMapV, level: ThinkingLevel) -> Option<Option<Seq<char>>> {
    match level {
        ThinkingLevel::Minimal => map.minimal,
        ThinkingLevel::Low => map.low,
        ThinkingLevel::Medium => map.medium,
        ThinkingLevel::High => map.high,
        ThinkingLevel::Xhigh => map.xhigh,
        ThinkingLevel::Max => map.max,
    }
}

/// What is configured of a level.
pub open spec fn mapping(model: ModelV, level: ThinkingLevel) -> Option<Option<Seq<char>>> {
    match model.thinking_level_map {
        Some(map) => mapped(map, level),
        None => None,
    }
}

/// What is configured of reasoning that is off.
pub open spec fn off_mapping(model: ModelV) -> Option<Option<Seq<char>>> {
    match model.thinking_level_map {
        Some(map) => map.off,
        None => None,
    }
}

/// The provider's name of reasoning that is off.
pub open spec fn off_name(model: ModelV) -> Option<Seq<char>> {
    match off_mapping(model) {
        Some(name) => name,
        None => None,
    }
}

/// The provider's name of a level: none where it has none, and the level's own where nothing is
/// configured.
pub open spec fn defined_effort(model: ModelV, effort: Option<ThinkingLevel>) -> Option<Seq<char>> {
    match effort {
        Some(level) => match mapping(model, level) {
            Some(name) => name,
            None => Some(level_name(level)),
        },
        None => None,
    }
}

/// The provider's name of a level, or else the level's own.
pub open spec fn effort_or_own(model: ModelV, level: ThinkingLevel) -> Seq<char> {
    match mapping(model, level) {
        Some(Some(name)) => name,
        _ => level_name(level),
    }
}

/// What is configured of a level.
pub fn effort_mapping(model: &Model, level: ThinkingLevel) -> (r: Option<Option<String>>)
    ensures
        r.deep_view() == mapping(model@, level),
{
    match &model.thinking_level_map {
        Some(map) => match level {
            ThinkingLevel::Minimal => map.minimal.clone(),
            ThinkingLevel::Low => map.low.clone(),
            ThinkingLevel::Medium => map.medium.clone(),
            ThinkingLevel::High => map.high.clone(),
            ThinkingLevel::Xhigh => map.xhigh.clone(),
            ThinkingLevel::Max => map.max.clone(),
        },
        None => None,
    }
}

/// The provider's name of reasoning that is off.
pub fn mapped_off(model: &Model) -> (r: Option<String>)
    ensures
        r.deep_view() == off_name(model@),
{
    match &model.thinking_level_map {
        Some(map) => match &map.off {
            Some(name) => name.clone(),
            None => None,
        },
        None => None,
    }
}

/// Whether the provider cannot turn reasoning off.
pub fn off_is_null(model: &Model) -> (r: bool)
    ensures
        r == (off_mapping(model@) == Some(None::<Seq<char>>)),
{
    match &model.thinking_level_map {
        Some(map) => match &map.off {
            Some(name) => name.is_none(),
            None => false,
        },
        None => false,
    }
}

fn resolve_defined_effort(model: &Model, effort: Option<ThinkingLevel>) -> (r: Option<String>)
    ensures
        r.deep_view() == defined_effort(model@, effort),
{
    match effort {
        Some(level) => match effort_mapping(model, level) {
            Some(name) => name,
            None => Some(effort_name(level)),
        },
        None => None,
    }
}

/// The provider's name of a level, or else the level's own.
pub fn resolve_nullish_effort(model: &Model, level: ThinkingLevel) -> (r: String)
    ensures
        r@ == effort_or_own(model@, level),
{
    match effort_mapping(model, level) {
        Some(Some(name)) => name,
        _ => effort_name(level),
    }
}

/// A value of a chat template; none where it is left out.
pub open spec fn template_value(
    model: ModelV,
    effort: Option<ThinkingLevel>,
    value: ChatTemplateKwargValueV,
    budget: Option<u64>,
) -> Option<JsonV> {
    match value {
        ChatTemplateKwargValueV::Text(text) => Some(JsonV::Str(text)),
        ChatTemplateKwargValueV::Number(number) => Some(JsonV::Number(number)),
        ChatTemplateKwargValueV::Boolean(b) => Some(JsonV::Bool(b)),
        ChatTemplateKwargValueV::Null => Some(JsonV::Null),
        ChatTemplateKwargValueV::Variable { variable, omit_when_off } => if effort is None
            && omit_when_off == Some(true) {
            None
        } else {
            match variable {
                ThinkingVariable::Enabled => Some(JsonV::Bool(effort is Some)),
                ThinkingVariable::Budget => match budget {
                    Some(tokens) => Some(JsonV::Number(JsonNumberV::Unsigned(tokens))),
                    None => None,
                },
                ThinkingVariable::Effort => {
                    let name = if effort is Some {
                        defined_effort(model, effort)
                    } else {
                        off_name(model)
                    };
                    match name {
                        Some(name) => Some(JsonV::Str(name)),
                        None => None,
                    }
                },
            }
        },
    }
}

/// The values of a chat template that are sent, in the order of their names.
pub open spec fn template_values(
    model: ModelV,
    effort: Option<ThinkingLevel>,
    values: Seq<(Seq<char>, ChatTemplateKwargValueV)>,
    budget: Option<u64>,
) -> Seq<(Seq<char>, JsonV)> {
    sent_values(model, effort, by_name(values), budget)
}

/// The values of a chat template that are sent, in their own order.
pub open spec fn sent_values(
    model: ModelV,
    effort: Option<ThinkingLevel>,
    values: Seq<(Seq<char>, ChatTemplateKwargValueV)>,
    budget: Option<u64>,
) -> Seq<(Seq<char>, JsonV)>
    decreases values.len(),
{
    if values.len() == 0 {
        Seq::empty()
    } else {
        let rest = sent_values(model, effort, values.drop_last(), budget);
        match template_value(model, effort, values.last().1, budget) {
            Some(v) => put(rest, values.last().0, v),
            None => rest,
        }
    }
}

fn resolve_chat_template_value(
    model: &Model,
    effort: Option<ThinkingLevel>,
    value: &ChatTemplateKwargValue,
    budget: Option<u64>,
) -> (r: Option<Json>)
    ensures
        r.deep_view() == template_value(model@, effort, value@, budget),
{
    match value {
        ChatTemplateKwargValue::Text(text) => Some(string(text.as_str())),
        ChatTemplateKwargValue::Number(number) => Some(Json::Number(number.clone())),
        ChatTemplateKwargValue::Boolean(b) => Some(Json::Bool(*b)),
        ChatTemplateKwargValue::Null => Some(Json::Null),
        ChatTemplateKwargValue::Variable { variable, omit_when_off } => {
            if effort.is_none() {
                if let Some(true) = *omit_when_off {
                    return None;
                }
            }
            match variable {
                ThinkingVariable::Enabled => Some(Json::Bool(effort.is_some())),
                ThinkingVariable::Budget => match budget {
                    Some(tokens) => Some(Json::Number(JsonNumber::Unsigned(tokens))),
                    None => None,
                },
                ThinkingVariable::Effort => {
                    let name = if effort.is_some() {
                        resolve_defined_effort(model, effort)
                    } else {
                        mapped_off(model)
                    };
                    match name {
                        Some(name) => Some(string(name.as_str())),
                        None => None,
                    }
                },
            }
        },
    }
}

fn build_chat_template_values(
    model: &Model,
    effort: Option<ThinkingLevel>,
    given: &Vec<(String, ChatTemplateKwargValue)>,
    budget: Option<u64>,
) -> (r: JsonObject)
    ensures
        r.deep_view() == template_values(model@, effort, given.deep_view(), budget),
{
    let values = sort_by_name(given);
    let ghost all = values.deep_view();
    let mut r = no_fields();
    let mut i: usize = 0;
    assert(all.take(0) =~= Seq::empty());
    while i < values.len()
        invariant
            all == values.deep_view(),
            i <= values@.len(),
            r.deep_view() == sent_values(model@, effort, all.take(i as int), budget),
        decreases values@.len() - i,
    {
        assert(all.take(i + 1).drop_last() =~= all.take(i as int));
        assert(all.take(i + 1).last() == (values@[i as int].0@, values@[i as int].1@));
        if let Some(v) = resolve_chat_template_value(model, effort, &values[i].1, budget) {
            assoc::insert(&mut r, values[i].0.clone(), v);
        }
        i += 1;
    }
    assert(all.take(i as int) =~= all);
    r
}

/// Members with one more, where there is a text for it.
pub open spec fn put_text(
    fields: Seq<(Seq<char>, JsonV)>,
    key: Seq<char>,
    value: Option<Seq<char>>,
) -> Seq<(Seq<char>, JsonV)> {
    match value {
        Some(text) => put(fields, key, JsonV::Str(text)),
        None => fields,
    }
}

/// An object of one member.
pub open spec fn single(key: Seq<char>, value: JsonV) -> JsonV {
    JsonV::Object(seq![(key, value)])
}

/// Members with the values of a chat template, where there are any.
pub open spec fn put_values(
    fields: Seq<(Seq<char>, JsonV)>,
    key: Seq<char>,
    values: Seq<(Seq<char>, JsonV)>,
) -> Seq<(Seq<char>, JsonV)> {
    if values.len() > 0 {
        put(fields, key, JsonV::Object(values))
    } else {
        fields
    }
}

/// The name of an effort that is sent beside the switch, where the provider takes one.
pub open spec fn named_effort(
    model: ModelV,
    effort: Option<ThinkingLevel>,
    compat: ResolvedCompatV,
) -> Option<Seq<char>> {
    if compat.supports_reasoning_effort && effort is Some {
        Some(effort_or_own(model, effort->Some_0))
    } else {
        None
    }
}

/// The effort of a request, or what the provider calls reasoning that is off.
pub open spec fn effort_or_off(model: ModelV, effort: Option<ThinkingLevel>) -> Option<Seq<char>> {
    if effort is Some {
        Some(effort_or_own(model, effort->Some_0))
    } else if off_mapping(model) == Some(None::<Seq<char>>) {
        None
    } else {
        match off_name(model) {
            Some(name) => Some(name),
            None => Some("none"@),
        }
    }
}

/// What is sent of reasoning, by the dialect of the provider.
pub open spec fn thinking_fields(
    model: ModelV,
    effort: Option<ThinkingLevel>,
    compat: ResolvedCompatV,
    budget: Option<u64>,
    fields: Seq<(Seq<char>, JsonV)>,
) -> Seq<(Seq<char>, JsonV)> {
    if !model.reasoning {
        fields
    } else {
        match compat.thinking_format {
            ThinkingFormat::Zai => {
                let switched = put(
                    fields,
                    "thinking"@,
                    if effort is Some {
                        JsonV::Object(
                            seq![
                                ("type"@, JsonV::Str("enabled"@)),
                                ("clear_thinking"@, JsonV::Bool(false)),
                            ],
                        )
                    } else {
                        single("type"@, JsonV::Str("disabled"@))
                    },
                );
                if compat.supports_reasoning_effort {
                    put_text(switched, "reasoning_effort"@, defined_effort(model, effort))
                } else {
                    switched
                }
            },
            ThinkingFormat::Qwen => put_text(
                put(fields, "enable_thinking"@, JsonV::Bool(effort is Some)),
                "reasoning_effort"@,
                named_effort(model, effort, compat),
            ),
            ThinkingFormat::QwenChatTemplate => put(
                fields,
                "chat_template_kwargs"@,
                JsonV::Object(
                    seq![
                        ("enable_thinking"@, JsonV::Bool(effort is Some)),
                        ("preserve_thinking"@, JsonV::Bool(true)),
                    ],
                ),
            ),
            ThinkingFormat::ChatTemplate => put_values(
                fields,
                "chat_template_kwargs"@,
                template_values(model, effort, compat.chat_template_kwargs, budget),
            ),
            ThinkingFormat::Baseten => {
                let filled = put_values(
                    fields,
                    "chat_template_args"@,
                    template_values(model, effort, compat.chat_template_args, budget),
                );
                if compat.supports_reasoning_effort {
                    put_text(
                        filled,
                        "reasoning_effort"@,
                        if effort is Some {
                            defined_effort(model, effort)
                        } else {
                            off_name(model)
                        },
                    )
                } else {
                    filled
                }
            },
            ThinkingFormat::Deepseek => {
                let switched = if effort is Some {
                    put(fields, "thinking"@, single("type"@, JsonV::Str("enabled"@)))
                } else if off_mapping(model) == Some(None::<Seq<char>>) {
                    fields
                } else {
                    put(fields, "thinking"@, single("type"@, JsonV::Str("disabled"@)))
                };
                put_text(switched, "reasoning_effort"@, named_effort(model, effort, compat))
            },
            ThinkingFormat::Openrouter => match effort_or_off(model, effort) {
                Some(name) => put(fields, "reasoning"@, single("effort"@, JsonV::Str(name))),
                None => fields,
            },
            ThinkingFormat::AntLing => {
                let name = match effort {
                    Some(level) => match mapping(model, level) {
                        Some(name) => name,
                        None => None,
                    },
                    None => None,
                };
                match name {
                    Some(name) => put(fields, "reasoning"@, single("effort"@, JsonV::Str(name))),
                    None => fields,
                }
            },
            ThinkingFormat::Together => put_text(
                put(fields, "reasoning"@, single("enabled"@, JsonV::Bool(effort is Some))),
                "reasoning_effort"@,
                named_effort(model, effort, compat),
            ),
            ThinkingFormat::StringThinking => put_text(
                fields,
                "thinking"@,
                effort_or_off(model, effort),
            ),
            ThinkingFormat::Openai => if compat.supports_reasoning_effort {
                put_text(
                    fields,
                    "reasoning_effort"@,
                    if effort is Some {
                        Some(effort_or_own(model, effort->Some_0))
                    } else {
                        off_name(model)
                    },
                )
            } else {
                fields
            },
        }
    }
}

fn add_text(fields: &mut JsonObject, key: &str, value: Option<String>)
    ensures
        final(fields).deep_view() == put_text(old(fields).deep_view(), key@, value.deep_view()),
{
    if let Some(text) = value {
        assoc::insert(fields, key.to_owned(), Json::Str(text));
    }
}

fn make_single(key: &str, value: Json) -> (r: Json)
    ensures
        r@ == single(key@, value@),
{
    let ghost held = value@;
    let mut fields = no_fields();
    add_field(&mut fields, key, value);
    assert(fields.deep_view() =~= seq![(key@, held)]);
    object(fields)
}

fn add_values(fields: &mut JsonObject, key: &str, values: JsonObject)
    ensures
        final(fields).deep_view() == put_values(old(fields).deep_view(), key@, values.deep_view()),
{
    if values.len() > 0 {
        assoc::insert(fields, key.to_owned(), object(values));
    }
}

fn find_named_effort(
    model: &Model,
    effort: Option<ThinkingLevel>,
    compat: &ResolvedCompat,
) -> (r: Option<String>)
    ensures
        r.deep_view() == named_effort(model@, effort, compat@),
{
    match effort {
        Some(level) => if compat.supports_reasoning_effort {
            Some(resolve_nullish_effort(model, level))
        } else {
            None
        },
        None => None,
    }
}

fn find_effort_or_off(model: &Model, effort: Option<ThinkingLevel>) -> (r: Option<String>)
    ensures
        r.deep_view() == effort_or_off(model@, effort),
{
    match effort {
        Some(level) => Some(resolve_nullish_effort(model, level)),
        None => if off_is_null(model) {
            None
        } else {
            match mapped_off(model) {
                Some(name) => Some(name),
                None => Some("none".to_owned()),
            }
        },
    }
}

fn make_zai_switch(enabled: bool) -> (r: Json)
    ensures
        r@ == if enabled {
            JsonV::Object(
                seq![
                    ("type"@, JsonV::Str("enabled"@)),
                    ("clear_thinking"@, JsonV::Bool(false)),
                ],
            )
        } else {
            single("type"@, JsonV::Str("disabled"@))
        },
{
    if enabled {
        let mut switch = no_fields();
        add_field(&mut switch, "type", string("enabled"));
        add_field(&mut switch, "clear_thinking", Json::Bool(false));
        assert(switch.deep_view() =~= seq![
            ("type"@, JsonV::Str("enabled"@)),
            ("clear_thinking"@, JsonV::Bool(false)),
        ]);
        object(switch)
    } else {
        make_single("type", string("disabled"))
    }
}

/// Adds what is sent of reasoning, by the dialect of the provider.
pub fn apply_thinking_parameters(
    model: &Model,
    effort: Option<ThinkingLevel>,
    compat: &ResolvedCompat,
    budget: Option<u64>,
    fields: &mut JsonObject,
)
    ensures
        final(fields).deep_view() == thinking_fields(
            model@,
            effort,
            compat@,
            budget,
            old(fields).deep_view(),
        ),
{
    if !model.reasoning {
        return;
    }
    match compat.thinking_format {
        ThinkingFormat::Zai => {
            assoc::insert(fields, "thinking".to_owned(), make_zai_switch(effort.is_some()));
            if compat.supports_reasoning_effort {
                add_text(fields, "reasoning_effort", resolve_defined_effort(model, effort));
            }
        },
        ThinkingFormat::Qwen => {
            assoc::insert(fields, "enable_thinking".to_owned(), Json::Bool(effort.is_some()));
            add_text(fields, "reasoning_effort", find_named_effort(model, effort, compat));
        },
        ThinkingFormat::QwenChatTemplate => {
            let mut values = no_fields();
            add_field(&mut values, "enable_thinking", Json::Bool(effort.is_some()));
            add_field(&mut values, "preserve_thinking", Json::Bool(true));
            assert(values.deep_view() =~= seq![
                ("enable_thinking"@, JsonV::Bool(effort is Some)),
                ("preserve_thinking"@, JsonV::Bool(true)),
            ]);
            assoc::insert(fields, "chat_template_kwargs".to_owned(), object(values));
        },
        ThinkingFormat::ChatTemplate => {
            let values = build_chat_template_values(
                model,
                effort,
                &compat.chat_template_kwargs,
                budget,
            );
            add_values(fields, "chat_template_kwargs", values);
        },
        ThinkingFormat::Baseten => {
            let values = build_chat_template_values(
                model,
                effort,
                &compat.chat_template_args,
                budget,
            );
            add_values(fields, "chat_template_args", values);
            if compat.supports_reasoning_effort {
                let name = if effort.is_some() {
                    resolve_defined_effort(model, effort)
                } else {
                    mapped_off(model)
                };
                add_text(fields, "reasoning_effort", name);
            }
        },
        ThinkingFormat::Deepseek => {
            if effort.is_some() {
                assoc::insert(
                    fields,
                    "thinking".to_owned(),
                    make_single("type", string("enabled")),
                );
            } else if !off_is_null(model) {
                assoc::insert(
                    fields,
                    "thinking".to_owned(),
                    make_single("type", string("disabled")),
                );
            }
            add_text(fields, "reasoning_effort", find_named_effort(model, effort, compat));
        },
        ThinkingFormat::Openrouter => {
            if let Some(name) = find_effort_or_off(model, effort) {
                assoc::insert(
                    fields,
                    "reasoning".to_owned(),
                    make_single("effort", Json::Str(name)),
                );
            }
        },
        ThinkingFormat::AntLing => {
            if let Some(level) = effort {
                if let Some(Some(name)) = effort_mapping(model, level) {
                    assoc::insert(
                        fields,
                        "reasoning".to_owned(),
                        make_single("effort", Json::Str(name)),
                    );
                }
            }
        },
        ThinkingFormat::Together => {
            assoc::insert(
                fields,
                "reasoning".to_owned(),
                make_single("enabled", Json::Bool(effort.is_some())),
            );
            add_text(fields, "reasoning_effort", find_named_effort(model, effort, compat));
        },
        ThinkingFormat::StringThinking => {
            add_text(fields, "thinking", find_effort_or_off(model, effort));
        },
        ThinkingFormat::Openai => {
            if compat.supports_reasoning_effort {
                let name = match effort {
                    Some(level) => Some(resolve_nullish_effort(model, level)),
                    None => mapped_off(model),
                };
                add_text(fields, "reasoning_effort", name);
            }
        },
    }
}

/// Nothing is said of reasoning to a model that does not reason.
pub proof fn law_no_reasoning_no_parameters(
    model: ModelV,
    effort: Option<ThinkingLevel>,
    compat: ResolvedCompatV,
    budget: Option<u64>,
    fields: Seq<(Seq<char>, JsonV)>,
)
    requires
        !model.reasoning,
    ensures
        thinking_fields(model, effort, compat, budget, fields) == fields,
{
}

} // verus!
