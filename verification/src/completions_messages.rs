//! Conversations and tools as the chat-completions API takes them.
use crate::assoc;
use crate::assoc::lookup;
use crate::completions_types::{
    GrammarType, ResolvedCompat, ResolvedCompatV, WireAssistantToolCall, WireAssistantToolCallV,
    WireContent, WireContentPart, WireContentPartV, WireContentV, WireCustomCall, WireCustomCallV,
    WireCustomDefinition, WireCustomDefinitionV, WireCustomFormat, WireCustomFormatV,
    WireFunctionCall, WireFunctionCallV, WireFunctionDefinition, WireFunctionDefinitionV,
    WireGrammar, WireGrammarV, WireImageUrl, WireImageUrlV, WireMessage, WireMessageV, WireTool,
    WireToolDefinition, WireToolDefinitionV, WireToolV,
};
use crate::constrained_sampling::{
    get_grammar_tool_input, get_json_schema_tool_parameters, grammar_input, grammar_of, outcome,
    resolve_grammar_constrained_sampling, resolve_json_schema_strict_sampling, schema_of,
    strictness_of,
};
use crate::json::{json_parse, json_text, parse_json, write_json, Json, JsonV};
use crate::reasoning_details::{is_detail, is_open_ai_reasoning_detail};
use crate::responses_input::{
    added_names, block_texts, collect_texts, data_url, has_image, has_images, image_url,
    output_text, tool_output_text,
};
use crate::text::{blank, is_blank, join, joined, same};
use crate::tool_call_ids::contains_name;
use crate::transform_messages::{
    has_vision, is_same_model, same_model, sees_images, transform_messages, transformed,
    CompletionsToolCallIds,
};
use crate::types::{
    AssistantContent, AssistantContentV, AssistantMessage, AssistantMessageV, Context, ContextV,
    DeferredToolsMode, Message, MessageV, Model, ModelV, ThinkingContentV, Tool, ToolCall,
    ToolCallV, ToolResultMessage, ToolResultMessageV, ToolV, UserContent, UserContentBlock,
    UserContentBlockV, UserContentV,
};
use vstd::prelude::*;

verus! {

/// A text without a cache breakpoint.
pub open spec fn text_part(text: Seq<char>) -> WireContentPartV {
    WireContentPartV::Text { text, cache_control: None }
}

/// A block as a part of a message.
pub open spec fn block_part(block: UserContentBlockV) -> WireContentPartV {
    match block {
        UserContentBlockV::Text(t) => text_part(t.text),
        UserContentBlockV::Image(image) => WireContentPartV::ImageUrl {
            image_url: WireImageUrlV { url: image_url(image) },
        },
    }
}

/// The content of a user message; none where it has no block.
pub open spec fn user_content(content: UserContentV) -> Option<WireContentV> {
    match content {
        UserContentV::Text(text) => Some(WireContentV::Plain(text)),
        UserContentV::Blocks(blocks) => if blocks.len() == 0 {
            None
        } else {
            Some(WireContentV::Parts(blocks.map_values(|b: UserContentBlockV| block_part(b))))
        },
    }
}

fn make_text_part(text: String) -> (r: WireContentPart)
    ensures
        r@ == text_part(text@),
{
    WireContentPart::Text { text, cache_control: None }
}

fn make_block_part(block: &UserContentBlock) -> (r: WireContentPart)
    ensures
        r@ == block_part(block@),
{
    match block {
        UserContentBlock::Text(t) => make_text_part(t.text.clone()),
        UserContentBlock::Image(image) => WireContentPart::ImageUrl {
            image_url: WireImageUrl { url: data_url(image) },
        },
    }
}

fn make_user_content(content: &UserContent) -> (r: Option<WireContent>)
    ensures
        r.deep_view() == user_content(content@),
{
    match content {
        UserContent::Text(text) => Some(WireContent::Plain(text.clone())),
        UserContent::Blocks(blocks) => {
            if blocks.len() == 0 {
                return None;
            }
            let mut parts: Vec<WireContentPart> = Vec::new();
            let mut i: usize = 0;
            while i < blocks.len()
                invariant
                    i <= blocks@.len(),
                    parts@.len() == i,
                    forall|k: int|
                        0 <= k < i ==> (#[trigger] parts@[k])@ == block_part(blocks@[k]@),
                decreases blocks@.len() - i,
            {
                parts.push(make_block_part(&blocks[i]));
                i += 1;
            }
            assert(parts.deep_view() =~= blocks.deep_view().map_values(
                |b: UserContentBlockV| block_part(b),
            ));
            Some(WireContent::Parts(parts))
        },
    }
}

/// The texts of a turn that are not blank.
pub open spec fn spoken(content: Seq<AssistantContentV>) -> Seq<Seq<char>>
    decreases content.len(),
{
    if content.len() == 0 {
        Seq::empty()
    } else {
        let rest = spoken(content.drop_last());
        match content.last() {
            AssistantContentV::Text(t) => if blank(t.text) {
                rest
            } else {
                rest.push(t.text)
            },
            _ => rest,
        }
    }
}

/// The reasoning of a turn that is not blank.
pub open spec fn thoughts(content: Seq<AssistantContentV>) -> Seq<ThinkingContentV>
    decreases content.len(),
{
    if content.len() == 0 {
        Seq::empty()
    } else {
        let rest = thoughts(content.drop_last());
        match content.last() {
            AssistantContentV::Thinking(t) => if blank(t.thinking) {
                rest
            } else {
                rest.push(t)
            },
            _ => rest,
        }
    }
}

/// The words of reasoning.
pub open spec fn thought_texts(thoughts: Seq<ThinkingContentV>) -> Seq<Seq<char>> {
    thoughts.map_values(|t: ThinkingContentV| t.thinking)
}

fn collect_spoken(content: &Vec<AssistantContent>) -> (r: Vec<String>)
    ensures
        r.deep_view() == spoken(content.deep_view()),
{
    let ghost all = content.deep_view();
    let mut r: Vec<String> = Vec::new();
    let mut i: usize = 0;
    assert(all.take(0) =~= Seq::empty());
    assert(r.deep_view() =~= Seq::empty());
    while i < content.len()
        invariant
            all == content.deep_view(),
            i <= content@.len(),
            r.deep_view() == spoken(all.take(i as int)),
        decreases content@.len() - i,
    {
        let ghost before = r.deep_view();
        assert(all.take(i + 1).drop_last() =~= all.take(i as int));
        assert(all.take(i + 1).last() == content@[i as int]@);
        if let AssistantContent::Text(t) = &content[i] {
            if !is_blank(t.text.as_str()) {
                r.push(t.text.clone());
                assert(r.deep_view() =~= before.push(t@.text));
            }
        }
        i += 1;
    }
    assert(all.take(i as int) =~= all);
    r
}

/// The words of the reasoning of a turn, and the signature of the first.
fn collect_thoughts(content: &Vec<AssistantContent>) -> (r: (Vec<String>, Option<String>))
    ensures
        r.0.deep_view() == thought_texts(thoughts(content.deep_view())),
        thoughts(content.deep_view()).len() > 0 ==> r.1.deep_view() == thoughts(
            content.deep_view(),
        )[0].thinking_signature,
{
    let ghost all = content.deep_view();
    let mut r: Vec<String> = Vec::new();
    let mut signature: Option<String> = None;
    let mut i: usize = 0;
    assert(all.take(0) =~= Seq::empty());
    assert(r.deep_view() =~= thought_texts(Seq::empty()));
    while i < content.len()
        invariant
            all == content.deep_view(),
            i <= content@.len(),
            r.deep_view() == thought_texts(thoughts(all.take(i as int))),
            thoughts(all.take(i as int)).len() > 0 ==> signature.deep_view() == thoughts(
                all.take(i as int),
            )[0].thinking_signature,
        decreases content@.len() - i,
    {
        let ghost before = thoughts(all.take(i as int));
        assert(all.take(i + 1).drop_last() =~= all.take(i as int));
        assert(all.take(i + 1).last() == content@[i as int]@);
        if let AssistantContent::Thinking(t) = &content[i] {
            if !is_blank(t.thinking.as_str()) {
                assert(r.deep_view().len() == before.len());
                if r.len() == 0 {
                    signature = t.thinking_signature.clone();
                }
                let ghost texts = r.deep_view();
                r.push(t.thinking.clone());
                assert(r.deep_view() =~= texts.push(t@.thinking));
                assert(thought_texts(before.push(t@)) =~= texts.push(t@.thinking));
            }
        }
        i += 1;
    }
    assert(all.take(i as int) =~= all);
    (r, signature)
}

/// Texts as parts of a message.
pub open spec fn text_parts(texts: Seq<Seq<char>>) -> Seq<WireContentPartV> {
    texts.map_values(|t: Seq<char>| text_part(t))
}

/// The content of a turn. Reasoning stands before the answer where the provider takes it as text.
pub open spec fn turn_content(content: Seq<AssistantContentV>, compat: ResolvedCompatV) -> Option<
    WireContentV,
> {
    let texts = spoken(content);
    let answer = joined(texts, ""@);
    let reasons = thoughts(content);
    if reasons.len() > 0 && compat.requires_thinking_as_text {
        Some(
            WireContentV::Parts(
                seq![text_part(joined(thought_texts(reasons), "\n\n"@))] + text_parts(texts),
            ),
        )
    } else if answer.len() > 0 {
        Some(WireContentV::Plain(answer))
    } else if compat.requires_assistant_after_tool_result {
        Some(WireContentV::Plain(Seq::empty()))
    } else {
        None
    }
}

/// The field that reasoning is replayed in: the one that it came in.
pub open spec fn reasoning_field(
    content: Seq<AssistantContentV>,
    model: ModelV,
    compat: ResolvedCompatV,
) -> Option<Seq<char>> {
    let reasons = thoughts(content);
    if reasons.len() == 0 || compat.requires_thinking_as_text {
        None
    } else if model.provider == "opencode-go"@ && reasons[0].thinking_signature == Some(
        "reasoning"@,
    ) {
        Some("reasoning_content"@)
    } else {
        reasons[0].thinking_signature
    }
}

/// The reasoning that is replayed in the field `name`.
pub open spec fn reasoning_in(
    name: Seq<char>,
    content: Seq<AssistantContentV>,
    model: ModelV,
    compat: ResolvedCompatV,
) -> Option<Seq<char>> {
    if reasoning_field(content, model, compat) == Some(name) {
        Some(joined(thought_texts(thoughts(content)), "\n"@))
    } else {
        None
    }
}

/// A call as it is replayed.
pub open spec fn wire_call(call: ToolCallV, properties: Seq<(Seq<char>, Seq<char>)>) -> Result<
    WireAssistantToolCallV,
    Seq<char>,
> {
    match lookup(properties, call.name) {
        Some(property) => match grammar_input(call.name, call.arguments, property) {
            Ok(input) => Ok(
                WireAssistantToolCallV::Custom {
                    id: call.id,
                    custom: WireCustomCallV { name: call.name, input },
                },
            ),
            Err(e) => Err(e),
        },
        None => Ok(
            WireAssistantToolCallV::Function {
                id: call.id,
                function: WireFunctionCallV {
                    name: call.name,
                    arguments: json_text(call.arguments),
                },
            },
        ),
    }
}

/// A list behind others, unless it failed.
pub open spec fn prepend<T, E>(front: Seq<T>, rest: Result<Seq<T>, E>) -> Result<Seq<T>, E> {
    match rest {
        Ok(rest) => Ok(front + rest),
        Err(e) => Err(e),
    }
}

/// The calls of a turn as they are replayed, or the first failure.
pub open spec fn wire_calls(
    content: Seq<AssistantContentV>,
    properties: Seq<(Seq<char>, Seq<char>)>,
) -> Result<Seq<WireAssistantToolCallV>, Seq<char>>
    decreases content.len(),
{
    if content.len() == 0 {
        Ok(Seq::empty())
    } else {
        match content[0] {
            AssistantContentV::ToolCall(call) => match wire_call(call, properties) {
                Ok(first) => prepend(seq![first], wire_calls(content.drop_first(), properties)),
                Err(e) => Err(e),
            },
            _ => wire_calls(content.drop_first(), properties),
        }
    }
}

/// The details of reasoning that calls carry in their signatures.
pub open spec fn call_details(content: Seq<AssistantContentV>) -> Seq<JsonV>
    decreases content.len(),
{
    if content.len() == 0 {
        Seq::empty()
    } else {
        let rest = call_details(content.drop_last());
        match content.last() {
            AssistantContentV::ToolCall(call) => match call.thought_signature {
                Some(signature) => match json_parse(signature) {
                    Ok(v) => if is_detail(v) {
                        rest.push(v)
                    } else {
                        rest
                    },
                    Err(_) => rest,
                },
                None => rest,
            },
            _ => rest,
        }
    }
}

/// The details of reasoning that are replayed: those of the turn where the model itself made it,
/// or else those of its calls.
pub open spec fn replayed_details(turn: AssistantMessageV, model: ModelV, called: bool) -> Option<
    Seq<JsonV>,
> {
    if same_model(turn, model) && turn.reasoning_details is Some
        && turn.reasoning_details->Some_0.len() > 0 {
        turn.reasoning_details
    } else if called && call_details(turn.content).len() > 0 {
        Some(call_details(turn.content))
    } else {
        None
    }
}

/// Whether there is anything in a content.
pub open spec fn has_content(content: Option<WireContentV>) -> bool {
    match content {
        Some(WireContentV::Plain(text)) => text.len() > 0,
        Some(WireContentV::Parts(parts)) => parts.len() > 0,
        None => false,
    }
}

/// A turn as it is replayed; none where it holds nothing that is.
pub open spec fn wire_turn(
    turn: AssistantMessageV,
    model: ModelV,
    compat: ResolvedCompatV,
    properties: Seq<(Seq<char>, Seq<char>)>,
) -> Result<Option<WireMessageV>, Seq<char>> {
    match wire_calls(turn.content, properties) {
        Err(e) => Err(e),
        Ok(calls) => {
            let content = turn_content(turn.content, compat);
            let held = reasoning_in("reasoning_content"@, turn.content, model, compat);
            if !has_content(content) && calls.len() == 0 {
                Ok(None)
            } else {
                Ok(
                    Some(
                        WireMessageV::Assistant {
                            content,
                            tool_calls: if calls.len() > 0 {
                                Some(calls)
                            } else {
                                None
                            },
                            reasoning: reasoning_in("reasoning"@, turn.content, model, compat),
                            reasoning_content: if held is None
                                && compat.requires_reasoning_content_on_assistant_messages
                                && model.reasoning {
                                Some(Seq::empty())
                            } else {
                                held
                            },
                            reasoning_text: reasoning_in(
                                "reasoning_text"@,
                                turn.content,
                                model,
                                compat,
                            ),
                            reasoning_details: replayed_details(turn, model, calls.len() > 0),
                        },
                    ),
                )
            }
        },
    }
}

fn make_call(call: &ToolCall, properties: &Vec<(String, String)>) -> (r: Result<
    WireAssistantToolCall,
    String,
>)
    ensures
        outcome(r) == wire_call(call@, properties.deep_view()),
{
    match assoc::get(properties, call.name.as_str()) {
        Some(property) => match get_grammar_tool_input(
            call.name.as_str(),
            &call.arguments,
            property.as_str(),
        ) {
            Ok(input) => Ok(
                WireAssistantToolCall::Custom {
                    id: call.id.clone(),
                    custom: WireCustomCall { name: call.name.clone(), input },
                },
            ),
            Err(e) => Err(e),
        },
        None => Ok(
            WireAssistantToolCall::Function {
                id: call.id.clone(),
                function: WireFunctionCall {
                    name: call.name.clone(),
                    arguments: write_json(&call.arguments),
                },
            },
        ),
    }
}

fn make_calls(content: &Vec<AssistantContent>, properties: &Vec<(String, String)>) -> (r: Result<
    Vec<WireAssistantToolCall>,
    String,
>)
    ensures
        outcome(r) == wire_calls(content.deep_view(), properties.deep_view()),
{
    let ghost all = content.deep_view();
    let ghost props = properties.deep_view();
    let mut calls: Vec<WireAssistantToolCall> = Vec::new();
    let mut i: usize = 0;
    proof {
        assert(all.skip(0) =~= all);
        assert(calls.deep_view() =~= Seq::empty());
        lemma_prepend_nothing(wire_calls(all, props));
    }
    while i < content.len()
        invariant
            all == content.deep_view(),
            props == properties.deep_view(),
            i <= content@.len(),
            wire_calls(all, props) == prepend(
                calls.deep_view(),
                wire_calls(all.skip(i as int), props),
            ),
        decreases content@.len() - i,
    {
        let ghost before = calls.deep_view();
        assert(all.skip(i as int).drop_first() =~= all.skip(i + 1));
        assert(all.skip(i as int)[0] == content@[i as int]@);
        if let AssistantContent::ToolCall(call) = &content[i] {
            match make_call(call, properties) {
                Ok(first) => {
                    calls.push(first);
                    proof {
                        assert(calls.deep_view() =~= before + seq![first@]);
                        lemma_prepend(before, seq![first@], wire_calls(all.skip(i + 1), props));
                    }
                },
                Err(e) => {
                    return Err(e);
                },
            }
        }
        i += 1;
    }
    assert(all.skip(i as int) =~= Seq::empty());
    assert(calls.deep_view() + Seq::<WireAssistantToolCallV>::empty() =~= calls.deep_view());
    Ok(calls)
}

proof fn lemma_prepend_nothing<T, E>(rest: Result<Seq<T>, E>)
    ensures
        prepend(Seq::empty(), rest) == rest,
{
    if rest is Ok {
        assert(Seq::<T>::empty() + rest->Ok_0 =~= rest->Ok_0);
    }
}

proof fn lemma_prepend<T, E>(a: Seq<T>, b: Seq<T>, rest: Result<Seq<T>, E>)
    ensures
        prepend(a, prepend(b, rest)) == prepend(a + b, rest),
{
    if rest is Ok {
        assert(a + (b + rest->Ok_0) =~= (a + b) + rest->Ok_0);
    }
}

fn collect_call_details(content: &Vec<AssistantContent>) -> (r: Vec<Json>)
    ensures
        r.deep_view() == call_details(content.deep_view()),
{
    let ghost all = content.deep_view();
    let mut r: Vec<Json> = Vec::new();
    let mut i: usize = 0;
    assert(all.take(0) =~= Seq::empty());
    assert(r.deep_view() =~= Seq::empty());
    while i < content.len()
        invariant
            all == content.deep_view(),
            i <= content@.len(),
            r.deep_view() == call_details(all.take(i as int)),
        decreases content@.len() - i,
    {
        let ghost before = r.deep_view();
        assert(all.take(i + 1).drop_last() =~= all.take(i as int));
        assert(all.take(i + 1).last() == content@[i as int]@);
        if let AssistantContent::ToolCall(call) = &content[i] {
            if let Some(signature) = &call.thought_signature {
                if let Ok(v) = parse_json(signature.as_str()) {
                    if is_open_ai_reasoning_detail(&v) {
                        r.push(v);
                        assert(r.deep_view() =~= before.push(v@));
                    }
                }
            }
        }
        i += 1;
    }
    assert(all.take(i as int) =~= all);
    r
}

fn find_details(turn: &AssistantMessage, model: &Model, called: bool) -> (r: Option<Vec<Json>>)
    ensures
        r.deep_view() == replayed_details(turn@, model@, called),
{
    if is_same_model(turn, model) {
        if let Some(details) = &turn.reasoning_details {
            if details.len() > 0 {
                let r = details.clone();
                assert(r.deep_view() =~= details.deep_view());
                return Some(r);
            }
        }
    }
    if called {
        let details = collect_call_details(&turn.content);
        if details.len() > 0 {
            return Some(details);
        }
    }
    None
}

fn make_turn_content(
    spoken_texts: Vec<String>,
    thought: &Vec<String>,
    compat: &ResolvedCompat,
    Ghost(content): Ghost<Seq<AssistantContentV>>,
) -> (r: Option<WireContent>)
    requires
        spoken_texts.deep_view() == spoken(content),
        thought.deep_view() == thought_texts(thoughts(content)),
    ensures
        r.deep_view() == turn_content(content, compat@),
{
    assert(thought.deep_view().len() == thoughts(content).len());
    if thought.len() > 0 && compat.requires_thinking_as_text {
        let mut parts: Vec<WireContentPart> = Vec::new();
        parts.push(make_text_part(join(thought, "\n\n")));
        let mut i: usize = 0;
        while i < spoken_texts.len()
            invariant
                i <= spoken_texts@.len(),
                parts@.len() == i + 1,
                parts@[0]@ == text_part(joined(thought.deep_view(), "\n\n"@)),
                forall|k: int|
                    1 <= k <= i ==> (#[trigger] parts@[k])@ == text_part(spoken_texts@[k - 1]@),
            decreases spoken_texts@.len() - i,
        {
            parts.push(make_text_part(spoken_texts[i].clone()));
            i += 1;
        }
        assert(parts.deep_view() =~= seq![
            text_part(joined(thought_texts(thoughts(content)), "\n\n"@)),
        ] + text_parts(spoken(content)));
        return Some(WireContent::Parts(parts));
    }
    let answer = join(&spoken_texts, "");
    if !answer.as_str().is_empty() {
        Some(WireContent::Plain(answer))
    } else if compat.requires_assistant_after_tool_result {
        let r = WireContent::Plain(String::new());
        assert(r@->Plain_0 =~= Seq::empty());
        Some(r)
    } else {
        None
    }
}

fn is_named(field: &Option<String>, name: &str) -> (r: bool)
    ensures
        r == (field.deep_view() == Some(name@)),
{
    match field {
        Some(field) => same(field.as_str(), name),
        None => false,
    }
}

fn find_reasoning_field(
    thought: &Vec<String>,
    signature: Option<String>,
    model: &Model,
    compat: &ResolvedCompat,
    Ghost(content): Ghost<Seq<AssistantContentV>>,
) -> (r: Option<String>)
    requires
        thought.deep_view() == thought_texts(thoughts(content)),
        thoughts(content).len() > 0 ==> signature.deep_view() == thoughts(
            content,
        )[0].thinking_signature,
    ensures
        r.deep_view() == reasoning_field(content, model@, compat@),
{
    assert(thought.deep_view().len() == thoughts(content).len());
    if thought.len() == 0 || compat.requires_thinking_as_text {
        None
    } else if same(model.provider.as_str(), "opencode-go") && is_named(&signature, "reasoning") {
        Some("reasoning_content".to_owned())
    } else {
        signature
    }
}

fn make_turn(
    turn: &AssistantMessage,
    model: &Model,
    compat: &ResolvedCompat,
    properties: &Vec<(String, String)>,
) -> (r: Result<Option<WireMessage>, String>)
    ensures
        outcome(r) == wire_turn(turn@, model@, compat@, properties.deep_view()),
{
    let spoken_texts = collect_spoken(&turn.content);
    let (thought, signature) = collect_thoughts(&turn.content);
    let content = make_turn_content(spoken_texts, &thought, compat, Ghost(turn@.content));
    let calls = match make_calls(&turn.content, properties) {
        Ok(calls) => calls,
        Err(e) => {
            return Err(e);
        },
    };
    let filled = match &content {
        Some(WireContent::Plain(text)) => !text.as_str().is_empty(),
        Some(WireContent::Parts(parts)) => parts.len() > 0,
        None => false,
    };
    if !filled && calls.len() == 0 {
        return Ok(None);
    }
    let field = find_reasoning_field(&thought, signature, model, compat, Ghost(turn@.content));
    let told = join(&thought, "\n");
    let reasoning = if is_named(&field, "reasoning") {
        Some(told.clone())
    } else {
        None
    };
    let reasoning_text = if is_named(&field, "reasoning_text") {
        Some(told.clone())
    } else {
        None
    };
    let reasoning_content = if is_named(&field, "reasoning_content") {
        Some(told)
    } else if compat.requires_reasoning_content_on_assistant_messages && model.reasoning {
        let none = String::new();
        assert(none@ =~= Seq::empty());
        Some(none)
    } else {
        None
    };
    let called = calls.len() > 0;
    let reasoning_details = find_details(turn, model, called);
    let tool_calls = if called {
        Some(calls)
    } else {
        None
    };
    Ok(
        Some(
            WireMessage::Assistant {
                content,
                tool_calls,
                reasoning,
                reasoning_content,
                reasoning_text,
                reasoning_details,
            },
        ),
    )
}

/// A tool as the API takes it.
pub open spec fn wire_tool(tool: ToolV, compat: ResolvedCompatV) -> WireToolV {
    WireToolV {
        definition: match grammar_of(tool, compat.supports_open_ai_grammar_tools) {
            Some(grammar) => WireToolDefinitionV::Custom {
                custom: WireCustomDefinitionV {
                    name: tool.name,
                    description: tool.description,
                    format: WireCustomFormatV {
                        kind: GrammarType::Grammar,
                        grammar: WireGrammarV {
                            syntax: grammar.syntax,
                            definition: grammar.definition,
                        },
                    },
                },
            },
            None => {
                let strict = strictness_of(tool, compat.supports_strict_mode);
                WireToolDefinitionV::Function {
                    function: WireFunctionDefinitionV {
                        name: tool.name,
                        description: tool.description,
                        parameters: schema_of(tool, strict),
                        strict: if compat.supports_strict_mode {
                            Some(strict == Some(true))
                        } else {
                            None
                        },
                    },
                }
            },
        },
        cache_control: None,
    }
}

/// Tools as the API takes them.
pub open spec fn wire_tools(tools: Seq<ToolV>, compat: ResolvedCompatV) -> Seq<WireToolV> {
    tools.map_values(|t: ToolV| wire_tool(t, compat))
}

fn convert_tool(tool: &Tool, compat: &ResolvedCompat) -> (r: WireTool)
    ensures
        r@ == wire_tool(tool@, compat@),
{
    if let Some(grammar) = resolve_grammar_constrained_sampling(
        tool,
        compat.supports_open_ai_grammar_tools,
    ) {
        return WireTool {
            definition: WireToolDefinition::Custom {
                custom: WireCustomDefinition {
                    name: tool.name.clone(),
                    description: tool.description.clone(),
                    format: WireCustomFormat {
                        kind: GrammarType::Grammar,
                        grammar: WireGrammar {
                            syntax: grammar.syntax,
                            definition: grammar.definition.clone(),
                        },
                    },
                },
            },
            cache_control: None,
        };
    }
    let strict = resolve_json_schema_strict_sampling(tool, compat.supports_strict_mode);
    WireTool {
        definition: WireToolDefinition::Function {
            function: WireFunctionDefinition {
                name: tool.name.clone(),
                description: tool.description.clone(),
                parameters: get_json_schema_tool_parameters(tool, strict),
                strict: if compat.supports_strict_mode {
                    match strict {
                        Some(strict) => Some(strict),
                        None => Some(false),
                    }
                } else {
                    None
                },
            },
        },
        cache_control: None,
    }
}

/// Converts tools to the form that the API takes.
pub fn convert_tools(tools: &Vec<Tool>, compat: &ResolvedCompat) -> (r: Vec<WireTool>)
    ensures
        r.deep_view() == wire_tools(tools.deep_view(), compat@),
{
    let mut r: Vec<WireTool> = Vec::new();
    let mut i: usize = 0;
    while i < tools.len()
        invariant
            i <= tools@.len(),
            r@.len() == i,
            forall|k: int| 0 <= k < i ==> (#[trigger] r@[k])@ == wire_tool(tools@[k]@, compat@),
        decreases tools@.len() - i,
    {
        r.push(convert_tool(&tools[i], compat));
        i += 1;
    }
    assert(r.deep_view() =~= wire_tools(tools.deep_view(), compat@));
    r
}

/// Names with more behind them, each once.
pub open spec fn with_names(names: Seq<Seq<char>>, more: Seq<Seq<char>>) -> Seq<Seq<char>>
    decreases more.len(),
{
    if more.len() == 0 {
        names
    } else {
        let rest = with_names(names, more.drop_last());
        if rest.contains(more.last()) {
            rest
        } else {
            rest.push(more.last())
        }
    }
}

/// Adds the names that a tool result adds, each once.
fn add_names(names: &mut Vec<String>, result: &ToolResultMessage)
    ensures
        final(names).deep_view() == with_names(old(names).deep_view(), added_names(result@)),
{
    if let Some(more) = &result.added_tool_names {
        let ghost start = names.deep_view();
        let ghost all = more.deep_view();
        let mut i: usize = 0;
        assert(all.take(0) =~= Seq::empty());
        while i < more.len()
            invariant
                all == more.deep_view(),
                i <= more@.len(),
                names.deep_view() == with_names(start, all.take(i as int)),
            decreases more@.len() - i,
        {
            let ghost before = names.deep_view();
            assert(all.take(i + 1).drop_last() =~= all.take(i as int));
            assert(all.take(i + 1).last() == more@[i as int]@);
            if !contains_name(names, more[i].as_str()) {
                names.push(more[i].clone());
                assert(names.deep_view() =~= before.push(more@[i as int]@));
            }
            i += 1;
        }
        assert(all.take(i as int) =~= all);
    }
}

/// The names that the tool results of a conversation add.
pub open spec fn deferred_names(messages: Seq<MessageV>) -> Seq<Seq<char>>
    decreases messages.len(),
{
    if messages.len() == 0 {
        Seq::empty()
    } else {
        let rest = deferred_names(messages.drop_last());
        match messages.last() {
            MessageV::ToolResult(m) => with_names(rest, added_names(m)),
            _ => rest,
        }
    }
}

/// The names that the tool results of a conversation add.
pub fn get_deferred_tool_names(messages: &Vec<Message>) -> (r: Vec<String>)
    ensures
        r.deep_view() == deferred_names(messages.deep_view()),
{
    let ghost all = messages.deep_view();
    let mut r: Vec<String> = Vec::new();
    let mut i: usize = 0;
    assert(all.take(0) =~= Seq::empty());
    assert(r.deep_view() =~= Seq::empty());
    while i < messages.len()
        invariant
            all == messages.deep_view(),
            i <= messages@.len(),
            r.deep_view() == deferred_names(all.take(i as int)),
        decreases messages@.len() - i,
    {
        assert(all.take(i + 1).drop_last() =~= all.take(i as int));
        assert(all.take(i + 1).last() == messages@[i as int]@);
        if let Message::ToolResult(m) = &messages[i] {
            add_names(&mut r, m);
        }
        i += 1;
    }
    assert(all.take(i as int) =~= all);
    r
}

/// The last tool of a name.
pub open spec fn last_named(tools: Seq<ToolV>, name: Seq<char>) -> Option<ToolV>
    decreases tools.len(),
{
    if tools.len() == 0 {
        None
    } else if tools.last().name == name {
        Some(tools.last())
    } else {
        last_named(tools.drop_last(), name)
    }
}

/// The tools that have the names, in the order of the names.
pub open spec fn tools_named(tools: Seq<ToolV>, names: Seq<Seq<char>>) -> Seq<ToolV>
    decreases names.len(),
{
    if names.len() == 0 {
        Seq::empty()
    } else {
        let rest = tools_named(tools, names.drop_last());
        match last_named(tools, names.last()) {
            Some(tool) => rest.push(tool),
            None => rest,
        }
    }
}

fn find_last_named(tools: &Vec<Tool>, name: &str) -> (r: Option<Tool>)
    ensures
        r.deep_view() == last_named(tools.deep_view(), name@),
{
    let ghost all = tools.deep_view();
    let mut n: usize = tools.len();
    assert(all.take(n as int) =~= all);
    while n > 0
        invariant
            all == tools.deep_view(),
            n <= tools@.len(),
            last_named(all, name@) == last_named(all.take(n as int), name@),
        decreases n,
    {
        assert(all.take(n as int).drop_last() =~= all.take(n - 1));
        assert(all.take(n as int).last() == tools@[n - 1]@);
        if same(tools[n - 1].name.as_str(), name) {
            return Some(tools[n - 1].clone());
        }
        n -= 1;
    }
    None
}

fn get_tools_by_name(tools: &Option<Vec<Tool>>, names: &Vec<String>) -> (r: Vec<Tool>)
    ensures
        r.deep_view() == tools_named(all_tools(tools.deep_view()), names.deep_view()),
{
    let mut r: Vec<Tool> = Vec::new();
    assert(r.deep_view() =~= Seq::empty());
    let ghost listed = all_tools(tools.deep_view());
    let ghost all = names.deep_view();
    let mut i: usize = 0;
    assert(all.take(0) =~= Seq::empty());
    while i < names.len()
        invariant
            all == names.deep_view(),
            listed == all_tools(tools.deep_view()),
            i <= names@.len(),
            r.deep_view() == tools_named(listed, all.take(i as int)),
        decreases names@.len() - i,
    {
        let ghost before = r.deep_view();
        assert(all.take(i + 1).drop_last() =~= all.take(i as int));
        assert(all.take(i + 1).last() == names@[i as int]@);
        if let Some(tools) = tools {
            if let Some(tool) = find_last_named(tools, names[i].as_str()) {
                r.push(tool);
                assert(r.deep_view() =~= before.push(tool@));
            }
        }
        i += 1;
    }
    assert(all.take(i as int) =~= all);
    r
}

/// The tools of a conversation, none where it has none.
pub open spec fn all_tools(tools: Option<Seq<ToolV>>) -> Seq<ToolV> {
    match tools {
        Some(tools) => tools,
        None => Seq::empty(),
    }
}

/// A tool result as it is replayed.
pub open spec fn result_message(result: ToolResultMessageV, compat: ResolvedCompatV) -> WireMessageV {
    WireMessageV::Tool {
        content: WireContentV::Plain(
            output_text(
                joined(block_texts(result.content), "\n"@),
                has_image(result.content),
            ),
        ),
        tool_call_id: result.tool_call_id,
        name: if compat.requires_tool_result_name && result.tool_name.len() > 0 {
            Some(result.tool_name)
        } else {
            None
        },
    }
}

/// The images among blocks.
pub open spec fn only_images(content: Seq<UserContentBlockV>) -> Seq<WireContentPartV>
    decreases content.len(),
{
    if content.len() == 0 {
        Seq::empty()
    } else {
        let rest = only_images(content.drop_last());
        match content.last() {
            UserContentBlockV::Image(_) => rest.push(block_part(content.last())),
            UserContentBlockV::Text(_) => rest,
        }
    }
}

/// The images of tool results, where the model sees them.
pub open spec fn result_images(results: Seq<ToolResultMessageV>, model: ModelV) -> Seq<
    WireContentPartV,
>
    decreases results.len(),
{
    if results.len() == 0 {
        Seq::empty()
    } else {
        let rest = result_images(results.drop_last(), model);
        if sees_images(model) {
            rest + only_images(results.last().content)
        } else {
            rest
        }
    }
}

/// The names that tool results add, where the provider is told of them in the conversation.
pub open spec fn result_names(results: Seq<ToolResultMessageV>, compat: ResolvedCompatV) -> Seq<
    Seq<char>,
>
    decreases results.len(),
{
    if results.len() == 0 {
        Seq::empty()
    } else {
        let rest = result_names(results.drop_last(), compat);
        if compat.deferred_tools_mode == Some(DeferredToolsMode::Kimi) {
            with_names(rest, added_names(results.last()))
        } else {
            rest
        }
    }
}

/// The tool results that messages begin with.
pub open spec fn leading_results(messages: Seq<MessageV>) -> Seq<ToolResultMessageV>
    decreases messages.len(),
{
    if messages.len() == 0 {
        Seq::empty()
    } else {
        match messages[0] {
            MessageV::ToolResult(m) => seq![m] + leading_results(messages.drop_first()),
            _ => Seq::empty(),
        }
    }
}

/// The turn that stands between tool results and what follows them, where the provider wants one.
pub open spec fn bridge() -> WireMessageV {
    WireMessageV::Assistant {
        content: Some(WireContentV::Plain("I have processed the tool results."@)),
        tool_calls: None,
        reasoning: None,
        reasoning_content: None,
        reasoning_text: None,
        reasoning_details: None,
    }
}

/// What follows tool results: their images, and the tools that they add.
pub open spec fn after_results(
    results: Seq<ToolResultMessageV>,
    model: ModelV,
    compat: ResolvedCompatV,
    tools: Seq<ToolV>,
) -> Seq<WireMessageV> {
    let images = result_images(results, model);
    let shown = if images.len() > 0 {
        (if compat.requires_assistant_after_tool_result {
            seq![bridge()]
        } else {
            Seq::empty()
        }).push(
            WireMessageV::User {
                content: WireContentV::Parts(
                    seq![text_part("Attached image(s) from tool result:"@)] + images,
                ),
            },
        )
    } else {
        Seq::empty()
    };
    let added = tools_named(tools, result_names(results, compat));
    if added.len() > 0 {
        shown.push(WireMessageV::System { content: None, tools: Some(wire_tools(added, compat)) })
    } else {
        shown
    }
}

pub proof fn lemma_leading(messages: Seq<MessageV>)
    ensures
        leading_results(messages).len() <= messages.len(),
        messages.len() > 0 && messages[0] is ToolResult ==> leading_results(messages).len() > 0,
    decreases messages.len(),
{
    if messages.len() > 0 {
        lemma_leading(messages.drop_first());
    }
}

/// Messages as the API takes them, or the first failure. Where `answered`, the message before them
/// was a tool result.
pub open spec fn wire_messages(
    messages: Seq<MessageV>,
    answered: bool,
    model: ModelV,
    compat: ResolvedCompatV,
    tools: Seq<ToolV>,
    properties: Seq<(Seq<char>, Seq<char>)>,
) -> Result<Seq<WireMessageV>, Seq<char>>
    decreases messages.len(),
    via wire_messages_decreases
{
    if messages.len() == 0 {
        Ok(Seq::empty())
    } else {
        match messages[0] {
            MessageV::User(m) => {
                let front = if compat.requires_assistant_after_tool_result && answered {
                    seq![bridge()]
                } else {
                    Seq::empty()
                };
                match user_content(m.content) {
                    None => prepend(
                        front,
                        wire_messages(
                            messages.drop_first(),
                            answered,
                            model,
                            compat,
                            tools,
                            properties,
                        ),
                    ),
                    Some(content) => prepend(
                        front.push(WireMessageV::User { content }),
                        wire_messages(
                            messages.drop_first(),
                            false,
                            model,
                            compat,
                            tools,
                            properties,
                        ),
                    ),
                }
            },
            MessageV::Assistant(turn) => match wire_turn(turn, model, compat, properties) {
                Err(e) => Err(e),
                Ok(None) => wire_messages(
                    messages.drop_first(),
                    answered,
                    model,
                    compat,
                    tools,
                    properties,
                ),
                Ok(Some(m)) => prepend(
                    seq![m],
                    wire_messages(messages.drop_first(), false, model, compat, tools, properties),
                ),
            },
            MessageV::ToolResult(_) => {
                let results = leading_results(messages);
                prepend(
                    results.map_values(|r: ToolResultMessageV| result_message(r, compat))
                        + after_results(results, model, compat, tools),
                    wire_messages(
                        messages.skip(results.len() as int),
                        result_images(results, model).len() == 0,
                        model,
                        compat,
                        tools,
                        properties,
                    ),
                )
            },
        }
    }
}

#[via_fn]
proof fn wire_messages_decreases(
    messages: Seq<MessageV>,
    answered: bool,
    model: ModelV,
    compat: ResolvedCompatV,
    tools: Seq<ToolV>,
    properties: Seq<(Seq<char>, Seq<char>)>,
) {
    lemma_leading(messages);
}

/// The instruction that a request begins with.
pub open spec fn instructions(
    system_prompt: Option<Seq<char>>,
    model: ModelV,
    compat: ResolvedCompatV,
) -> Seq<WireMessageV> {
    match system_prompt {
        Some(prompt) => seq![
            if model.reasoning && compat.supports_developer_role {
                WireMessageV::Developer { content: WireContentV::Plain(prompt) }
            } else {
                WireMessageV::System { content: Some(WireContentV::Plain(prompt)), tools: None }
            },
        ],
        None => Seq::empty(),
    }
}

/// What [`convert_messages_wire`] returns.
pub open spec fn converted(
    model: ModelV,
    context: ContextV,
    compat: ResolvedCompatV,
    properties: Seq<(Seq<char>, Seq<char>)>,
    now: i64,
) -> Result<Seq<WireMessageV>, Seq<char>> {
    prepend(
        instructions(context.system_prompt, model, compat),
        wire_messages(
            transformed::<CompletionsToolCallIds>(context.messages, model, Some(()), now),
            false,
            model,
            compat,
            all_tools(context.tools),
            properties,
        ),
    )
}

fn make_result_message(result: &ToolResultMessage, compat: &ResolvedCompat) -> (r: WireMessage)
    ensures
        r@ == result_message(result@, compat@),
{
    let texts = collect_texts(&result.content);
    let text = join(&texts, "\n");
    let content = WireContent::Plain(tool_output_text(text, has_images(&result.content)));
    let name = if compat.requires_tool_result_name && !result.tool_name.as_str().is_empty() {
        Some(result.tool_name.clone())
    } else {
        None
    };
    WireMessage::Tool { content, tool_call_id: result.tool_call_id.clone(), name }
}

fn add_images(images: &mut Vec<WireContentPart>, content: &Vec<UserContentBlock>)
    ensures
        final(images).deep_view() == old(images).deep_view() + only_images(content.deep_view()),
{
    let ghost start = images.deep_view();
    let ghost all = content.deep_view();
    let mut i: usize = 0;
    assert(all.take(0) =~= Seq::empty());
    assert(start + only_images(all.take(0)) =~= start);
    while i < content.len()
        invariant
            all == content.deep_view(),
            i <= content@.len(),
            images.deep_view() == start + only_images(all.take(i as int)),
        decreases content@.len() - i,
    {
        let ghost before = images.deep_view();
        assert(all.take(i + 1).drop_last() =~= all.take(i as int));
        assert(all.take(i + 1).last() == content@[i as int]@);
        if let UserContentBlock::Image(_) = &content[i] {
            images.push(make_block_part(&content[i]));
            assert(images.deep_view() =~= before.push(block_part(content@[i as int]@)));
            assert(images.deep_view() =~= start + only_images(all.take(i + 1)));
        }
        i += 1;
    }
    assert(all.take(i as int) =~= all);
}

fn push_message(messages: &mut Vec<WireMessage>, message: WireMessage)
    ensures
        final(messages).deep_view() == old(messages).deep_view().push(message@),
{
    let ghost before = messages.deep_view();
    messages.push(message);
    assert(messages.deep_view() =~= before.push(message@));
}

fn make_bridge() -> (r: WireMessage)
    ensures
        r@ == bridge(),
{
    WireMessage::Assistant {
        content: Some(WireContent::Plain("I have processed the tool results.".to_owned())),
        tool_calls: None,
        reasoning: None,
        reasoning_content: None,
        reasoning_text: None,
        reasoning_details: None,
    }
}

fn push_after_results(
    params: &mut Vec<WireMessage>,
    images: Vec<WireContentPart>,
    names: &Vec<String>,
    model: &Model,
    compat: &ResolvedCompat,
    tools: &Option<Vec<Tool>>,
    Ghost(results): Ghost<Seq<ToolResultMessageV>>,
)
    requires
        images.deep_view() == result_images(results, model@),
        names.deep_view() == result_names(results, compat@),
    ensures
        final(params).deep_view() == old(params).deep_view() + after_results(
            results,
            model@,
            compat@,
            all_tools(tools.deep_view()),
        ),
{
    let ghost start = params.deep_view();
    let ghost found = images.deep_view();
    if images.len() > 0 {
        if compat.requires_assistant_after_tool_result {
            push_message(params, make_bridge());
        }
        let mut parts: Vec<WireContentPart> = Vec::new();
        parts.push(make_text_part("Attached image(s) from tool result:".to_owned()));
        let mut images = images;
        parts.append(&mut images);
        assert(parts.deep_view() =~= seq![text_part("Attached image(s) from tool result:"@)]
            + found);
        push_message(params, WireMessage::User { content: WireContent::Parts(parts) });
    }
    let added = get_tools_by_name(tools, names);
    if added.len() > 0 {
        let converted = convert_tools(&added, compat);
        push_message(params, WireMessage::System { content: None, tools: Some(converted) });
    }
    assert(params.deep_view() =~= start + after_results(
        results,
        model@,
        compat@,
        all_tools(tools.deep_view()),
    ));
}

/// Replays the tool results from `index` on. Returns the index of what follows them, and whether
/// they have no images.
fn push_results(
    params: &mut Vec<WireMessage>,
    messages: &Vec<Message>,
    index: usize,
    model: &Model,
    compat: &ResolvedCompat,
    tools: &Option<Vec<Tool>>,
) -> (r: (usize, bool))
    requires
        index < messages@.len(),
        messages@[index as int] is ToolResult,
    ensures
        ({
            let results = leading_results(messages.deep_view().skip(index as int));
            &&& r.0 == index + results.len()
            &&& index < r.0 <= messages@.len()
            &&& r.1 == (result_images(results, model@).len() == 0)
            &&& final(params).deep_view() == old(params).deep_view() + results.map_values(
                |r: ToolResultMessageV| result_message(r, compat@),
            ) + after_results(results, model@, compat@, all_tools(tools.deep_view()))
        }),
{
    let ghost all = messages.deep_view();
    let ghost results = leading_results(all.skip(index as int));
    let ghost start = params.deep_view();
    let ghost mut done: Seq<ToolResultMessageV> = Seq::empty();
    let mut images: Vec<WireContentPart> = Vec::new();
    let mut names: Vec<String> = Vec::new();
    let mut next: usize = index;
    proof {
        lemma_leading(all.skip(index as int));
        assert(all.skip(index as int)[0] == messages@[index as int]@);
        assert(images.deep_view() =~= Seq::empty());
        assert(names.deep_view() =~= Seq::empty());
        assert(done + results =~= results);
        assert(params.deep_view() =~= start + done.map_values(
            |r: ToolResultMessageV| result_message(r, compat@),
        ));
    }
    let mut more = true;
    while more
        invariant
            all == messages.deep_view(),
            index <= next <= messages@.len(),
            next == index + done.len(),
            results == done + leading_results(all.skip(next as int)),
            !more ==> leading_results(all.skip(next as int)).len() == 0,
            params.deep_view() == start + done.map_values(
                |r: ToolResultMessageV| result_message(r, compat@),
            ),
            images.deep_view() == result_images(done, model@),
            names.deep_view() == result_names(done, compat@),
        decreases
            messages@.len() - next,
            if more {
                1int
            } else {
                0
            },
    {
        if next == messages.len() {
            more = false;
        } else {
            match &messages[next] {
                Message::ToolResult(result) => {
                    let ghost before = done;
                    let ghost replayed = params.deep_view();
                    proof {
                        let rest = all.skip(next as int);
                        assert(rest.drop_first() =~= all.skip(next + 1));
                        assert(rest[0] == messages@[next as int]@);
                        done = done.push(result@);
                        assert(done.drop_last() =~= before);
                        assert(before + (seq![result@] + leading_results(all.skip(next + 1)))
                            =~= done + leading_results(all.skip(next + 1)));
                    }
                    push_message(params, make_result_message(result, compat));
                    proof {
                        assert(params.deep_view() =~= start + done.map_values(
                            |r: ToolResultMessageV| result_message(r, compat@),
                        ));
                    }
                    if let Some(DeferredToolsMode::Kimi) = compat.deferred_tools_mode {
                        add_names(&mut names, result);
                    }
                    if has_vision(model) {
                        add_images(&mut images, &result.content);
                    }
                    next += 1;
                },
                _ => {
                    assert(all.skip(next as int)[0] == messages@[next as int]@);
                    more = false;
                },
            }
        }
    }
    proof {
        assert(done =~= results);
    }
    let plain = images.len() == 0;
    push_after_results(params, images, &names, model, compat, tools, Ghost(results));
    (next, plain)
}

/// Converts a conversation to the messages of a request. Results that had to be made up carry the
/// time `now`.
pub fn convert_messages_wire(
    model: &Model,
    context: &Context,
    compat: &ResolvedCompat,
    properties: &Vec<(String, String)>,
    now: i64,
) -> (r: Result<Vec<WireMessage>, String>)
    ensures
        outcome(r) == converted(model@, context@, compat@, properties.deep_view(), now),
{
    let mut ids = Some(CompletionsToolCallIds);
    let messages = transform_messages(&context.messages, model, &mut ids, now);
    let ghost all = messages.deep_view();
    let ghost props = properties.deep_view();
    let ghost tools = all_tools(context@.tools);
    let ghost total = converted(model@, context@, compat@, props, now);
    let mut params: Vec<WireMessage> = Vec::new();
    assert(params.deep_view() =~= Seq::empty());
    if let Some(prompt) = &context.system_prompt {
        let content = WireContent::Plain(prompt.clone());
        if model.reasoning && compat.supports_developer_role {
            push_message(&mut params, WireMessage::Developer { content });
        } else {
            push_message(&mut params, WireMessage::System { content: Some(content), tools: None });
        }
    }
    proof {
        assert(params.deep_view() =~= instructions(context@.system_prompt, model@, compat@));
        assert(all.skip(0) =~= all);
    }
    let mut answered = false;
    let mut index: usize = 0;
    while index < messages.len()
        invariant
            all == messages.deep_view(),
            props == properties.deep_view(),
            tools == all_tools(context@.tools),
            index <= messages@.len(),
            total == prepend(
                params.deep_view(),
                wire_messages(all.skip(index as int), answered, model@, compat@, tools, props),
            ),
            total == converted(model@, context@, compat@, props, now),
        decreases messages@.len() - index,
    {
        let ghost before = params.deep_view();
        let ghost rest = all.skip(index as int);
        assert(rest.drop_first() =~= all.skip(index + 1));
        assert(rest[0] == messages@[index as int]@);
        match &messages[index] {
            Message::User(m) => {
                let ghost mut front: Seq<WireMessageV> = Seq::empty();
                if compat.requires_assistant_after_tool_result && answered {
                    push_message(&mut params, make_bridge());
                    proof {
                        front = seq![bridge()];
                    }
                }
                assert(params.deep_view() =~= before + front);
                match make_user_content(&m.content) {
                    None => {
                        proof {
                            lemma_prepend(
                                before,
                                front,
                                wire_messages(
                                    all.skip(index + 1),
                                    answered,
                                    model@,
                                    compat@,
                                    tools,
                                    props,
                                ),
                            );
                        }
                    },
                    Some(content) => {
                        let message = WireMessage::User { content };
                        let ghost pushed = message@;
                        push_message(&mut params, message);
                        proof {
                            assert(params.deep_view() =~= before + front.push(pushed));
                            lemma_prepend(
                                before,
                                front.push(pushed),
                                wire_messages(
                                    all.skip(index + 1),
                                    false,
                                    model@,
                                    compat@,
                                    tools,
                                    props,
                                ),
                            );
                        }
                        answered = false;
                    },
                }
                index += 1;
            },
            Message::Assistant(turn) => {
                match make_turn(turn, model, compat, properties) {
                    Err(e) => {
                        return Err(e);
                    },
                    Ok(None) => {},
                    Ok(Some(message)) => {
                        let ghost pushed = message@;
                        push_message(&mut params, message);
                        proof {
                            assert(params.deep_view() =~= before + seq![pushed]);
                            lemma_prepend(
                                before,
                                seq![pushed],
                                wire_messages(
                                    all.skip(index + 1),
                                    false,
                                    model@,
                                    compat@,
                                    tools,
                                    props,
                                ),
                            );
                        }
                        answered = false;
                    },
                }
                index += 1;
            },
            Message::ToolResult(_) => {
                let (next, plain) = push_results(
                    &mut params,
                    &messages,
                    index,
                    model,
                    compat,
                    &context.tools,
                );
                proof {
                    let results = leading_results(rest);
                    let front = results.map_values(
                        |r: ToolResultMessageV| result_message(r, compat@),
                    ) + after_results(results, model@, compat@, tools);
                    assert(rest.skip(results.len() as int) =~= all.skip(next as int));
                    assert(params.deep_view() =~= before + front);
                    lemma_prepend(
                        before,
                        front,
                        wire_messages(all.skip(next as int), plain, model@, compat@, tools, props),
                    );
                }
                answered = plain;
                index = next;
            },
        }
    }
    assert(all.skip(index as int) =~= Seq::empty());
    assert(params.deep_view() + Seq::<WireMessageV>::empty() =~= params.deep_view());
    Ok(params)
}

} // verus!
