//! What each event of a Responses stream adds to the turn.
use crate::assoc::{lemma_key_index, lemma_put, lemma_removed, lookup, put};
use crate::constrained_sampling::StreamingJson;
use crate::decode::{
    debug_text, described, first, items_of, member_faults, members_fault, mistyped, place, record_fault, Record,
};
use crate::json::{distinct_keys, json_parse, json_text, member, text_of, JsonNumberV, JsonV};
use crate::openai_responses_shared::ResponseServiceTierV;
use crate::responses_events::{
    decoded_item, indexed_item, indexed_text, message_part_fault, message_texts, output_index,
    part_texts, texts_fault, CallFields, CreatedFields, FailureFields, IndexedItem, IndexedText,
    MessageFields, OutputItemV, ReasoningFields, TextField, terminal_parts, terminal_response,
    TerminalFields, TerminalResponseV, IncompleteFields, UsageFields, InputDetailFields,
    OutputDetailFields,
};
use crate::responses_stream::{
    arguments_done_step, arguments_step, input_delta_step, input_done_step, item_done_step, opened,
    backfilled_all, failure_text, fed, finalized, processed, stream_step, text_step, thinking_step,
    OpenAIResponsesStreamOptionsV, OutputSlotV, ResponsesStreamV, ServiceTierRule,
};
use crate::text::joined;
use crate::types::{
    AssistantContentV, AssistantMessageEventV, AssistantMessageV, StopReason, TextContentV,
    TextSignaturePhase, ThinkingContentV, ToolCallV, UsageV, UsageValueV,
};
use vstd::prelude::*;

verus! {

/// Whether a value is an object in which no name occurs twice.
pub open spec fn well_keyed(v: JsonV) -> bool {
    v matches JsonV::Object(fields) && distinct_keys(fields)
}

/// Whether a value is an event of a type.
pub open spec fn is_event(v: JsonV, kind: Seq<char>) -> bool {
    well_keyed(v) && member(v, "type"@) == Some(JsonV::Str(kind))
}

/// Whether an event is about the output at `index`, which is the first where nothing is said.
pub open spec fn is_about(v: JsonV, index: u64) -> bool {
    match member(v, "output_index"@) {
        Some(given) => given == JsonV::Number(JsonNumberV::Unsigned(index)),
        None => index == 0,
    }
}

proof fn lemma_no_fault(faults: Seq<Option<Seq<char>>>)
    requires
        forall|i: int| 0 <= i < faults.len() ==> #[trigger] faults[i] is None,
    ensures
        first(faults) is None,
    decreases faults.len(),
{
    if faults.len() > 0 {
        let rest = faults.drop_last();
        assert forall|i: int| 0 <= i < rest.len() implies #[trigger] rest[i] is None by {
            assert(rest[i] == faults[i]);
        }
        lemma_no_fault(rest);
        assert(faults[faults.len() - 1] is None);
    }
}

proof fn lemma_place_props(keys: Seq<Seq<char>>, key: Seq<char>)
    ensures
        place(keys, key) <= keys.len(),
        place(keys, key) < keys.len() ==> keys[place(keys, key) as int] == key,
    decreases keys.len(),
{
    if keys.len() > 0 && keys[0] != key {
        lemma_place_props(keys.drop_first(), key);
    }
}

/// An object has no fault where none of the fields that it has is at fault.
pub proof fn lemma_faultless<R: Record>(record: &R, v: JsonV)
    requires
        well_keyed(v),
        forall|j: int|
            0 <= j < record.keys().len() ==> (member(v, #[trigger] record.keys()[j]) matches Some(x)
                ==> record.fault(j, x) is None),
    ensures
        members_fault(record, v) is None,
{
    let fields = v->Object_0;
    let faults = member_faults(record, fields);
    assert forall|i: int| 0 <= i < faults.len() implies #[trigger] faults[i] is None by {
        let m = fields[i];
        lemma_place_props(record.keys(), m.0);
        let j = place(record.keys(), m.0) as int;
        if j < record.keys().len() {
            assert(record.keys()[j] == m.0);
            lemma_key_index(fields, m.0, i);
            assert(member(v, record.keys()[j]) == Some(m.1));
        }
    }
    lemma_no_fault(faults);
}

proof fn lemma_indexed_text(v: JsonV, key: &'static str, index: u64, text: Seq<char>)
    requires
        well_keyed(v),
        is_about(v, index),
        member(v, key@) == Some(JsonV::Str(text)),
    ensures
        indexed_text(v, key) == Ok::<(u64, Seq<char>), Seq<char>>((index, text)),
{
    lemma_faultless(&(IndexedText { key }), v);
}

proof fn lemma_output_index(v: JsonV, index: u64)
    requires
        well_keyed(v),
        is_about(v, index),
    ensures
        output_index(v) == Ok::<u64, Seq<char>>(index),
{
    lemma_faultless(&IndexedItem, v);
}

/// The types of events are told apart.
proof fn lemma_kinds_differ()
    ensures
        "response.created"@.len() == 16,
        "response.output_item.added"@.len() == 26,
        "response.reasoning_summary_text.delta"@.len() == 37,
        "response.reasoning_text.delta"@.len() == 29,
        "response.reasoning_summary_part.done"@.len() == 36,
        "response.output_text.delta"@.len() == 26,
        "response.output_text.delta"@[16] == 't',
        "response.output_item.added"@[16] == 'i',
        "response.refusal.delta"@.len() == 22,
        "response.function_call_arguments.delta"@.len() == 38,
        "response.function_call_arguments.done"@.len() == 37,
        "response.function_call_arguments.done"@[9] == 'f',
        "response.reasoning_summary_text.delta"@[9] == 'r',
        "response.custom_tool_call_input.delta"@.len() == 37,
        "response.custom_tool_call_input.delta"@[9] == 'c',
        "response.custom_tool_call_input.done"@.len() == 36,
        "response.custom_tool_call_input.done"@[9] == 'c',
        "response.reasoning_summary_part.done"@[9] == 'r',
        "response.output_item.done"@.len() == 25,
        "response.completed"@.len() == 18,
        "response.incomplete"@.len() == 19,
        "response.failed"@.len() == 15,
        "error"@.len() == 5,
{
    reveal_strlit("response.created");
    reveal_strlit("response.output_item.added");
    reveal_strlit("response.reasoning_summary_text.delta");
    reveal_strlit("response.reasoning_text.delta");
    reveal_strlit("response.reasoning_summary_part.done");
    reveal_strlit("response.output_text.delta");
    reveal_strlit("response.refusal.delta");
    reveal_strlit("response.function_call_arguments.delta");
    reveal_strlit("response.function_call_arguments.done");
    reveal_strlit("response.custom_tool_call_input.delta");
    reveal_strlit("response.custom_tool_call_input.done");
    reveal_strlit("response.output_item.done");
    reveal_strlit("response.completed");
    reveal_strlit("response.incomplete");
    reveal_strlit("response.failed");
    reveal_strlit("error");
}

/// A piece of reasoning, of its summary or of its text, is added to the thinking of its block, and
/// the listener is told of that piece and of nothing else.
pub proof fn law_reasoning_is_added<P: StreamingJson>(
    s: ResponsesStreamV,
    v: JsonV,
    options: OpenAIResponsesStreamOptionsV,
    parser: &P,
    index: u64,
    at: usize,
    delta: Seq<char>,
)
    requires
        is_event(v, "response.reasoning_summary_text.delta"@) || is_event(
            v,
            "response.reasoning_text.delta"@,
        ),
        is_about(v, index),
        member(v, "delta"@) == Some(JsonV::Str(delta)),
        lookup(s.slots, index) == Some(OutputSlotV::Thinking { content_index: at }),
        at < s.output.content.len(),
        s.output.content[at as int] is Thinking,
    ensures
        ({
            let step = stream_step(s, v, options, parser);
            let old = s.output.content[at as int]->Thinking_0;
            &&& step.error is None
            &&& step.stream.output.content == s.output.content.update(
                at as int,
                AssistantContentV::Thinking(
                    ThinkingContentV { thinking: old.thinking + delta, ..old },
                ),
            )
            &&& step.stream.events == s.events.push(
                AssistantMessageEventV::ThinkingDelta { content_index: at, delta },
            )
            &&& step.stream.slots == s.slots
        }),
{
    lemma_kinds_differ();
    lemma_indexed_text(v, "delta", index, delta);
    reveal(thinking_step);
}

/// Behind each part of a summary of reasoning stands an empty line.
pub proof fn law_summary_parts_are_parted<P: StreamingJson>(
    s: ResponsesStreamV,
    v: JsonV,
    options: OpenAIResponsesStreamOptionsV,
    parser: &P,
    index: u64,
    at: usize,
)
    requires
        is_event(v, "response.reasoning_summary_part.done"@),
        is_about(v, index),
        lookup(s.slots, index) == Some(OutputSlotV::Thinking { content_index: at }),
        at < s.output.content.len(),
        s.output.content[at as int] is Thinking,
    ensures
        ({
            let step = stream_step(s, v, options, parser);
            let old = s.output.content[at as int]->Thinking_0;
            &&& step.error is None
            &&& step.stream.output.content == s.output.content.update(
                at as int,
                AssistantContentV::Thinking(
                    ThinkingContentV { thinking: old.thinking + "\n\n"@, ..old },
                ),
            )
            &&& step.stream.events == s.events.push(
                AssistantMessageEventV::ThinkingDelta { content_index: at, delta: "\n\n"@ },
            )
            &&& step.stream.slots == s.slots
        }),
{
    lemma_kinds_differ();
    lemma_output_index(v, index);
    reveal(thinking_step);
}

/// A piece of text, of an answer or of a refusal, is added to the text of its block, and the
/// listener is told of that piece and of nothing else.
pub proof fn law_text_is_added<P: StreamingJson>(
    s: ResponsesStreamV,
    v: JsonV,
    options: OpenAIResponsesStreamOptionsV,
    parser: &P,
    index: u64,
    at: usize,
    delta: Seq<char>,
)
    requires
        is_event(v, "response.output_text.delta"@) || is_event(v, "response.refusal.delta"@),
        is_about(v, index),
        member(v, "delta"@) == Some(JsonV::Str(delta)),
        lookup(s.slots, index) == Some(OutputSlotV::Text { content_index: at }),
        at < s.output.content.len(),
        s.output.content[at as int] is Text,
    ensures
        ({
            let step = stream_step(s, v, options, parser);
            let old = s.output.content[at as int]->Text_0;
            &&& step.error is None
            &&& step.stream.output.content == s.output.content.update(
                at as int,
                AssistantContentV::Text(TextContentV { text: old.text + delta, ..old }),
            )
            &&& step.stream.events == s.events.push(
                AssistantMessageEventV::TextDelta { content_index: at, delta },
            )
            &&& step.stream.slots == s.slots
        }),
{
    lemma_kinds_differ();
    lemma_indexed_text(v, "delta", index, delta);
    reveal(text_step);
}

/// What arguments read as: the object that the text is, or an object without members.
pub open spec fn read_arguments<P: StreamingJson>(parser: &P, text: Seq<char>) -> JsonV {
    if parser.reading(text) is Object {
        parser.reading(text)
    } else {
        JsonV::Object(Seq::empty())
    }
}

/// A piece of the arguments of a call is added to those that have come. The call holds what they
/// read as so far, and the listener is told of the piece.
pub proof fn law_arguments_are_added<P: StreamingJson>(
    s: ResponsesStreamV,
    v: JsonV,
    options: OpenAIResponsesStreamOptionsV,
    parser: &P,
    index: u64,
    at: usize,
    come: Seq<char>,
    delta: Seq<char>,
)
    requires
        is_event(v, "response.function_call_arguments.delta"@),
        is_about(v, index),
        member(v, "delta"@) == Some(JsonV::Str(delta)),
        lookup(s.slots, index) == Some(
            OutputSlotV::FunctionCall { content_index: at, partial_json: come },
        ),
        at < s.output.content.len(),
        s.output.content[at as int] is ToolCall,
    ensures
        ({
            let step = stream_step(s, v, options, parser);
            let old = s.output.content[at as int]->ToolCall_0;
            &&& step.error is None
            &&& step.stream.output.content == s.output.content.update(
                at as int,
                AssistantContentV::ToolCall(
                    ToolCallV { arguments: read_arguments(parser, come + delta), ..old },
                ),
            )
            &&& step.stream.events == s.events.push(
                AssistantMessageEventV::ToolCallDelta { content_index: at, delta },
            )
            &&& lookup(step.stream.slots, index) == Some(
                OutputSlotV::FunctionCall { content_index: at, partial_json: come + delta },
            )
        }),
{
    lemma_kinds_differ();
    lemma_indexed_text(v, "delta", index, delta);
    reveal(arguments_step);
    lemma_put(
        s.slots,
        index,
        OutputSlotV::FunctionCall { content_index: at, partial_json: come + delta },
        index,
    );
}

/// Where the arguments of a call are complete, they count whatever came before. The listener is told
/// of what had not come yet where they go on from what had.
pub proof fn law_arguments_are_completed<P: StreamingJson>(
    s: ResponsesStreamV,
    v: JsonV,
    options: OpenAIResponsesStreamOptionsV,
    parser: &P,
    index: u64,
    at: usize,
    come: Seq<char>,
    arguments: Seq<char>,
)
    requires
        is_event(v, "response.function_call_arguments.done"@),
        is_about(v, index),
        member(v, "arguments"@) == Some(JsonV::Str(arguments)),
        lookup(s.slots, index) == Some(
            OutputSlotV::FunctionCall { content_index: at, partial_json: come },
        ),
        at < s.output.content.len(),
        s.output.content[at as int] is ToolCall,
    ensures
        ({
            let step = stream_step(s, v, options, parser);
            let old = s.output.content[at as int]->ToolCall_0;
            &&& step.error is None
            &&& step.stream.output.content == s.output.content.update(
                at as int,
                AssistantContentV::ToolCall(
                    ToolCallV { arguments: read_arguments(parser, arguments), ..old },
                ),
            )
            &&& lookup(step.stream.slots, index) == Some(
                OutputSlotV::FunctionCall { content_index: at, partial_json: arguments },
            )
            &&& forall|rest: Seq<char>|
                #![trigger come + rest]
                rest.len() > 0 && arguments == come + rest ==> step.stream.events == s.events.push(
                    AssistantMessageEventV::ToolCallDelta { content_index: at, delta: rest },
                )
            &&& (arguments.len() <= come.len() || arguments.take(come.len() as int) != come)
                ==> step.stream.events == s.events
        }),
{
    lemma_kinds_differ();
    lemma_indexed_text(v, "arguments", index, arguments);
    reveal(arguments_done_step);
    lemma_put(
        s.slots,
        index,
        OutputSlotV::FunctionCall { content_index: at, partial_json: arguments },
        index,
    );
    let step = stream_step(s, v, options, parser);
    assert forall|rest: Seq<char>|
        #![trigger come + rest]
        rest.len() > 0 && arguments == come + rest implies step.stream.events == s.events.push(
        AssistantMessageEventV::ToolCallDelta { content_index: at, delta: rest },
    ) by {
        assert(arguments.take(come.len() as int) =~= come);
        assert(arguments.skip(come.len() as int) =~= rest);
    }
}

/// A piece of the input of a free-form call is added to the one argument of the call.
pub proof fn law_input_is_added<P: StreamingJson>(
    s: ResponsesStreamV,
    v: JsonV,
    options: OpenAIResponsesStreamOptionsV,
    parser: &P,
    index: u64,
    at: usize,
    property: Seq<char>,
    sent: Seq<char>,
    come: Seq<char>,
    delta: Seq<char>,
)
    requires
        is_event(v, "response.custom_tool_call_input.delta"@),
        is_about(v, index),
        member(v, "delta"@) == Some(JsonV::Str(delta)),
        lookup(s.slots, index) == Some(
            OutputSlotV::CustomToolCall { content_index: at, property, json_buffer: sent },
        ),
        at < s.output.content.len(),
        s.output.content[at as int] is ToolCall,
        s.output.content[at as int]->ToolCall_0.arguments == JsonV::Object(
            seq![(property, JsonV::Str(come))],
        ),
        stream_step(s, v, options, parser).error is None,
    ensures
        ({
            let step = stream_step(s, v, options, parser);
            let old = s.output.content[at as int]->ToolCall_0;
            &&& step.stream.output.content == s.output.content.update(
                at as int,
                AssistantContentV::ToolCall(
                    ToolCallV {
                        arguments: JsonV::Object(seq![(property, JsonV::Str(come + delta))]),
                        ..old
                    },
                ),
            )
            &&& step.stream.events.len() <= s.events.len() + 1
            &&& step.stream.events.len() > s.events.len() ==> (step.stream.events.last() matches AssistantMessageEventV::ToolCallDelta {
                content_index,
                ..
            } && content_index == at)
        }),
{
    lemma_kinds_differ();
    lemma_indexed_text(v, "delta", index, delta);
    reveal(input_delta_step);
    let arguments = s.output.content[at as int]->ToolCall_0.arguments;
    lemma_key_index(seq![(property, JsonV::Str(come))], property, 0);
    assert(member(arguments, property) == Some(JsonV::Str(come)));
}

/// Where the input of a free-form call is complete, it is the one argument of the call, and the
/// pieces that the listener was told of make up the whole object.
pub proof fn law_input_is_completed<P: StreamingJson>(
    s: ResponsesStreamV,
    v: JsonV,
    options: OpenAIResponsesStreamOptionsV,
    parser: &P,
    index: u64,
    at: usize,
    property: Seq<char>,
    sent: Seq<char>,
    input: Seq<char>,
)
    requires
        is_event(v, "response.custom_tool_call_input.done"@),
        is_about(v, index),
        member(v, "input"@) == Some(JsonV::Str(input)),
        lookup(s.slots, index) == Some(
            OutputSlotV::CustomToolCall { content_index: at, property, json_buffer: sent },
        ),
        at < s.output.content.len(),
        s.output.content[at as int] is ToolCall,
        stream_step(s, v, options, parser).error is None,
    ensures
        ({
            let step = stream_step(s, v, options, parser);
            let old = s.output.content[at as int]->ToolCall_0;
            let whole = JsonV::Object(seq![(property, JsonV::Str(input))]);
            &&& step.stream.output.content == s.output.content.update(
                at as int,
                AssistantContentV::ToolCall(ToolCallV { arguments: whole, ..old }),
            )
            &&& sent != json_text(whole) ==> step.stream.events.len() == s.events.len() + 1 && (
            step.stream.events.last() matches AssistantMessageEventV::ToolCallDelta {
                content_index,
                delta,
            } && content_index == at && sent + delta == json_text(whole))
            &&& sent == json_text(whole) ==> step.stream.events == s.events
        }),
{
    lemma_kinds_differ();
    lemma_indexed_text(v, "input", index, input);
    reveal(input_done_step);
    let target = json_text(JsonV::Object(seq![(property, JsonV::Str(input))]));
    if target.len() >= sent.len() {
        assert(target.take(sent.len() as int) + target.skip(sent.len() as int) =~= target);
        if target.len() == sent.len() {
            assert(target.take(sent.len() as int) =~= target);
        }
    }
}

/// Whether a member of an object is missing or text.
pub open spec fn text_or_missing(v: JsonV, key: Seq<char>) -> bool {
    member(v, key) matches Some(x) ==> x is Str
}

/// Whether `parts` are objects that hold the given texts.
pub open spec fn hold_texts(parts: Seq<JsonV>, texts: Seq<Seq<char>>) -> bool {
    &&& parts.len() == texts.len()
    &&& forall|i: int|
        #![trigger parts[i]]
        0 <= i < parts.len() ==> well_keyed(parts[i]) && member(parts[i], "text"@) == Some(
            JsonV::Str(texts[i]),
        )
}

/// Whether a member of an object is a list of the given texts, or missing where there are none.
pub open spec fn lists_texts(v: JsonV, key: Seq<char>, texts: Seq<Seq<char>>) -> bool {
    match member(v, key) {
        Some(JsonV::Array(parts)) => hold_texts(parts, texts),
        Some(_) => false,
        None => texts.len() == 0,
    }
}

/// Whether an item is reasoning with a summary and a content.
pub open spec fn is_reasoning(
    item: JsonV,
    id: Seq<char>,
    summary: Seq<Seq<char>>,
    content: Seq<Seq<char>>,
) -> bool {
    &&& is_event(item, "reasoning"@)
    &&& member(item, "id"@) == Some(JsonV::Str(id))
    &&& lists_texts(item, "summary"@, summary)
    &&& lists_texts(item, "content"@, content)
    &&& text_or_missing(item, "encrypted_content"@)
}

/// Whether `parts` are pieces of an answer or of a refusal with the given texts.
pub open spec fn speak_texts(parts: Seq<JsonV>, texts: Seq<Seq<char>>) -> bool {
    &&& parts.len() == texts.len()
    &&& forall|i: int|
        #![trigger parts[i]]
        0 <= i < parts.len() ==> well_keyed(parts[i]) && {
            ||| member(parts[i], "type"@) == Some(JsonV::Str("output_text"@)) && member(
                parts[i],
                "text"@,
            ) == Some(JsonV::Str(texts[i]))
            ||| member(parts[i], "type"@) == Some(JsonV::Str("refusal"@)) && member(
                parts[i],
                "refusal"@,
            ) == Some(JsonV::Str(texts[i]))
        }
}

/// Whether an item is a message with the given texts. Of its phase, if it has one, `phase` is the
/// name.
pub open spec fn is_message(
    item: JsonV,
    id: Seq<char>,
    phase: Option<Seq<char>>,
    texts: Seq<Seq<char>>,
) -> bool {
    &&& is_event(item, "message"@)
    &&& member(item, "id"@) == Some(JsonV::Str(id))
    &&& phase is None ==> member(item, "phase"@) is None
    &&& phase matches Some(name) ==> (name == "commentary"@ || name == "final_answer"@) && member(
        item,
        "phase"@,
    ) == Some(JsonV::Str(name))
    &&& match member(item, "content"@) {
        Some(JsonV::Array(parts)) => speak_texts(parts, texts),
        Some(_) => false,
        None => texts.len() == 0,
    }
}

/// Whether an item is a call of a sort: with arguments, or with free-form input.
pub open spec fn is_call(item: JsonV, custom: bool, call_id: Seq<char>, name: Seq<char>) -> bool {
    &&& is_event(
        item,
        if custom {
            "custom_tool_call"@
        } else {
            "function_call"@
        },
    )
    &&& member(item, "call_id"@) == Some(JsonV::Str(call_id))
    &&& member(item, "name"@) == Some(JsonV::Str(name))
    &&& text_or_missing(item, "id"@)
    &&& text_or_missing(item, "namespace"@)
    &&& text_or_missing(
        item,
        if custom {
            "input"@
        } else {
            "arguments"@
        },
    )
}

/// The identifier of a call: that of the call and that of the item, parted by a bar.
pub open spec fn call_name(item: JsonV, call_id: Seq<char>) -> Seq<char> {
    match text_of(member(item, "id"@)) {
        Some(id) => call_id + "|"@ + id,
        None => call_id + "|undefined"@,
    }
}

/// Text, or none where there is none.
pub open spec fn or_nothing(text: Option<Seq<char>>) -> Seq<char> {
    match text {
        Some(text) => text,
        None => Seq::empty(),
    }
}

proof fn lemma_item_kinds()
    ensures
        "reasoning"@.len() == 9,
        "message"@.len() == 7,
        "function_call"@.len() == 13,
        "custom_tool_call"@.len() == 16,
        "output_text"@.len() == 11,
        "refusal"@.len() == 7,
        "commentary"@.len() == 10,
        "final_answer"@.len() == 12,
{
    reveal_strlit("reasoning");
    reveal_strlit("message");
    reveal_strlit("function_call");
    reveal_strlit("custom_tool_call");
    reveal_strlit("output_text");
    reveal_strlit("refusal");
    reveal_strlit("commentary");
    reveal_strlit("final_answer");
}

proof fn lemma_texts(v: JsonV, key: Seq<char>, texts: Seq<Seq<char>>)
    requires
        lists_texts(v, key, texts),
    ensures
        member(v, key) matches Some(x) ==> texts_fault(x) is None,
        part_texts(items_of(member(v, key))) == texts,
{
    match member(v, key) {
        Some(JsonV::Array(parts)) => {
            let faults = Seq::new(
                parts.len(),
                |i: int| record_fault(&(TextField { key: "text" }), "ReasoningText"@, parts[i]),
            );
            assert forall|i: int| 0 <= i < faults.len() implies #[trigger] faults[i] is None by {
                assert(well_keyed(parts[i]));
                lemma_faultless(&(TextField { key: "text" }), parts[i]);
            }
            lemma_no_fault(faults);
            assert(part_texts(parts) =~= texts);
        },
        _ => {
            assert(part_texts(Seq::empty()) =~= texts);
        },
    }
}

proof fn lemma_reasoning_item(
    item: JsonV,
    id: Seq<char>,
    summary: Seq<Seq<char>>,
    content: Seq<Seq<char>>,
)
    requires
        is_reasoning(item, id, summary, content),
    ensures
        decoded_item(item) == Ok::<OutputItemV, Seq<char>>(
            OutputItemV::Reasoning {
                raw: item,
                id,
                summary,
                content,
                encrypted_content: text_of(member(item, "encrypted_content"@)),
            },
        ),
{
    lemma_item_kinds();
    lemma_texts(item, "summary"@, summary);
    lemma_texts(item, "content"@, content);
    lemma_faultless(&ReasoningFields, item);
}

proof fn lemma_message_item(
    item: JsonV,
    id: Seq<char>,
    phase: Option<Seq<char>>,
    texts: Seq<Seq<char>>,
)
    requires
        is_message(item, id, phase, texts),
    ensures
        decoded_item(item) matches Ok(OutputItemV::Message { id: i, phase: p, content: c }) && i
            == id && c == texts && (p == Some(TextSignaturePhase::FinalAnswer) <==> phase == Some(
            "final_answer"@,
        )) && (p == Some(TextSignaturePhase::Commentary) <==> phase == Some("commentary"@)),
{
    lemma_item_kinds();
    match member(item, "content"@) {
        Some(JsonV::Array(parts)) => {
            let faults = Seq::new(parts.len(), |i: int| message_part_fault(parts[i]));
            assert forall|i: int| 0 <= i < faults.len() implies #[trigger] faults[i] is None by {
                assert(well_keyed(parts[i]));
                if member(parts[i], "type"@) == Some(JsonV::Str("output_text"@)) {
                    lemma_faultless(&(TextField { key: "text" }), parts[i]);
                } else {
                    lemma_faultless(&(TextField { key: "refusal" }), parts[i]);
                }
            }
            lemma_no_fault(faults);
            assert(message_texts(parts) =~= texts);
        },
        _ => {
            assert(message_texts(Seq::empty()) =~= texts);
        },
    }
    lemma_faultless(&MessageFields, item);
}

proof fn lemma_call_item(item: JsonV, custom: bool, call_id: Seq<char>, name: Seq<char>)
    requires
        is_call(item, custom, call_id, name),
    ensures
        !custom ==> decoded_item(item) == Ok::<OutputItemV, Seq<char>>(
            OutputItemV::FunctionCall {
                id: text_of(member(item, "id"@)),
                call_id,
                name,
                arguments: or_nothing(text_of(member(item, "arguments"@))),
                namespace: text_of(member(item, "namespace"@)),
            },
        ),
        custom ==> decoded_item(item) == Ok::<OutputItemV, Seq<char>>(
            OutputItemV::CustomToolCall {
                id: text_of(member(item, "id"@)),
                call_id,
                name,
                input: text_of(member(item, "input"@)),
                namespace: text_of(member(item, "namespace"@)),
            },
        ),
{
    lemma_item_kinds();
    lemma_faultless(&(CallFields { custom }), item);
}

proof fn lemma_call_name(item: JsonV, call_id: Seq<char>)
    ensures
        crate::responses_stream::composite_id(call_id, text_of(member(item, "id"@))) == call_name(
            item,
            call_id,
        ),
{
    reveal_strlit("|");
    reveal_strlit("undefined");
    reveal_strlit("|undefined");
    assert("|"@ + "undefined"@ =~= "|undefined"@);
    assert(call_id + "|"@ + "undefined"@ =~= call_id + ("|"@ + "undefined"@));
}

proof fn lemma_indexed_item(v: JsonV, index: u64, item: JsonV)
    requires
        well_keyed(v),
        is_about(v, index),
        member(v, "item"@) == Some(item),
    ensures
        indexed_item(v) == Ok::<(u64, JsonV), Seq<char>>((index, item)),
{
    lemma_output_index(v, index);
}

/// A new item of reasoning opens a thinking block, and the listener is told so.
pub proof fn law_reasoning_opens_a_block<P: StreamingJson>(
    s: ResponsesStreamV,
    v: JsonV,
    options: OpenAIResponsesStreamOptionsV,
    parser: &P,
    index: u64,
    item: JsonV,
    id: Seq<char>,
    summary: Seq<Seq<char>>,
    content: Seq<Seq<char>>,
)
    requires
        is_event(v, "response.output_item.added"@),
        is_about(v, index),
        member(v, "item"@) == Some(item),
        is_reasoning(item, id, summary, content),
        s.output.content.len() < usize::MAX,
    ensures
        ({
            let step = stream_step(s, v, options, parser);
            let at = s.output.content.len() as usize;
            &&& step.error is None
            &&& step.stream.output == (AssistantMessageV {
                content: s.output.content.push(
                    AssistantContentV::Thinking(
                        ThinkingContentV {
                            thinking: Seq::empty(),
                            thinking_signature: None,
                            redacted: None,
                        },
                    ),
                ),
                ..s.output
            })
            &&& step.stream.events == s.events.push(
                AssistantMessageEventV::ThinkingStart {
                    content_index: at,
                    thinking_signature: None,
                },
            )
            &&& lookup(step.stream.slots, index) == Some(
                OutputSlotV::Thinking { content_index: at },
            )
        }),
{
    lemma_kinds_differ();
    lemma_indexed_item(v, index, item);
    lemma_reasoning_item(item, id, summary, content);
    reveal(opened);
    let at = s.output.content.len() as usize;
    lemma_put(s.slots, index, OutputSlotV::Thinking { content_index: at }, index);
}

/// A new message opens a text block, and the listener is told so. Where the message is a final
/// answer, the turn will stop.
pub proof fn law_message_opens_a_block<P: StreamingJson>(
    s: ResponsesStreamV,
    v: JsonV,
    options: OpenAIResponsesStreamOptionsV,
    parser: &P,
    index: u64,
    item: JsonV,
    id: Seq<char>,
    phase: Option<Seq<char>>,
    texts: Seq<Seq<char>>,
)
    requires
        is_event(v, "response.output_item.added"@),
        is_about(v, index),
        member(v, "item"@) == Some(item),
        is_message(item, id, phase, texts),
        s.output.content.len() < usize::MAX,
    ensures
        ({
            let step = stream_step(s, v, options, parser);
            let at = s.output.content.len() as usize;
            &&& step.error is None
            &&& step.stream.output.content == s.output.content.push(
                AssistantContentV::Text(
                    TextContentV { text: Seq::empty(), text_signature: None },
                ),
            )
            &&& step.stream.output.stop_reason == if phase == Some("final_answer"@) {
                StopReason::Stop
            } else {
                s.output.stop_reason
            }
            &&& step.stream.events == s.events.push(
                AssistantMessageEventV::TextStart { content_index: at },
            )
            &&& lookup(step.stream.slots, index) == Some(OutputSlotV::Text { content_index: at })
        }),
{
    lemma_kinds_differ();
    lemma_indexed_item(v, index, item);
    lemma_message_item(item, id, phase, texts);
    reveal(opened);
    let at = s.output.content.len() as usize;
    lemma_put(s.slots, index, OutputSlotV::Text { content_index: at }, index);
}

/// A new call with arguments opens a block with the names of the call and no arguments, and the
/// listener is told so. The arguments that come with it count as the first piece.
pub proof fn law_call_opens_a_block<P: StreamingJson>(
    s: ResponsesStreamV,
    v: JsonV,
    options: OpenAIResponsesStreamOptionsV,
    parser: &P,
    index: u64,
    item: JsonV,
    call_id: Seq<char>,
    name: Seq<char>,
)
    requires
        is_event(v, "response.output_item.added"@),
        is_about(v, index),
        member(v, "item"@) == Some(item),
        is_call(item, false, call_id, name),
        s.output.content.len() < usize::MAX,
    ensures
        ({
            let step = stream_step(s, v, options, parser);
            let at = s.output.content.len() as usize;
            let namespace = text_of(member(item, "namespace"@));
            &&& step.error is None
            &&& step.stream.output == (AssistantMessageV {
                content: s.output.content.push(
                    AssistantContentV::ToolCall(
                        ToolCallV {
                            id: call_name(item, call_id),
                            name,
                            arguments: JsonV::Object(Seq::empty()),
                            thought_signature: None,
                            namespace,
                        },
                    ),
                ),
                ..s.output
            })
            &&& step.stream.events == s.events.push(
                AssistantMessageEventV::ToolCallStart {
                    content_index: at,
                    id: call_name(item, call_id),
                    tool_name: name,
                    namespace,
                },
            )
            &&& lookup(step.stream.slots, index) == Some(
                OutputSlotV::FunctionCall {
                    content_index: at,
                    partial_json: or_nothing(text_of(member(item, "arguments"@))),
                },
            )
        }),
{
    lemma_kinds_differ();
    lemma_indexed_item(v, index, item);
    lemma_call_item(item, false, call_id, name);
    lemma_call_name(item, call_id);
    reveal(opened);
    let at = s.output.content.len() as usize;
    lemma_put(
        s.slots,
        index,
        OutputSlotV::FunctionCall {
            content_index: at,
            partial_json: or_nothing(text_of(member(item, "arguments"@))),
        },
        index,
    );
}

/// The property that holds the input of a free-form call: the one that the tool names, else `input`.
pub open spec fn input_name(options: OpenAIResponsesStreamOptionsV, name: Seq<char>) -> Seq<char> {
    match options.grammar_tool_input_properties {
        Some(properties) => match lookup(properties, name) {
            Some(property) => property,
            None => "input"@,
        },
        None => "input"@,
    }
}

/// A new free-form call opens a block with the names of the call and its input as the one argument,
/// and the listener is told so.
pub proof fn law_custom_call_opens_a_block<P: StreamingJson>(
    s: ResponsesStreamV,
    v: JsonV,
    options: OpenAIResponsesStreamOptionsV,
    parser: &P,
    index: u64,
    item: JsonV,
    call_id: Seq<char>,
    name: Seq<char>,
)
    requires
        is_event(v, "response.output_item.added"@),
        is_about(v, index),
        member(v, "item"@) == Some(item),
        is_call(item, true, call_id, name),
        s.output.content.len() < usize::MAX,
    ensures
        ({
            let step = stream_step(s, v, options, parser);
            let at = s.output.content.len() as usize;
            let namespace = text_of(member(item, "namespace"@));
            let property = input_name(options, name);
            &&& step.error is None
            &&& step.stream.output == (AssistantMessageV {
                content: s.output.content.push(
                    AssistantContentV::ToolCall(
                        ToolCallV {
                            id: call_name(item, call_id),
                            name,
                            arguments: JsonV::Object(
                                seq![
                                    (
                                        property,
                                        JsonV::Str(or_nothing(text_of(member(item, "input"@)))),
                                    ),
                                ],
                            ),
                            thought_signature: None,
                            namespace,
                        },
                    ),
                ),
                ..s.output
            })
            &&& step.stream.events == s.events.push(
                AssistantMessageEventV::ToolCallStart {
                    content_index: at,
                    id: call_name(item, call_id),
                    tool_name: name,
                    namespace,
                },
            )
            &&& lookup(step.stream.slots, index) == Some(
                OutputSlotV::CustomToolCall {
                    content_index: at,
                    property,
                    json_buffer: Seq::empty(),
                },
            )
        }),
{
    lemma_kinds_differ();
    lemma_indexed_item(v, index, item);
    lemma_call_item(item, true, call_id, name);
    lemma_call_name(item, call_id);
    reveal(opened);
    let at = s.output.content.len() as usize;
    lemma_put(
        s.slots,
        index,
        OutputSlotV::CustomToolCall {
            content_index: at,
            property: input_name(options, name),
            json_buffer: Seq::empty(),
        },
        index,
    );
}

/// Texts, each but the last with `between` behind it.
pub open spec fn strung(texts: Seq<Seq<char>>, between: Seq<char>) -> Seq<char>
    decreases texts.len(),
{
    if texts.len() == 0 {
        Seq::empty()
    } else if texts.len() == 1 {
        texts[0]
    } else {
        texts[0] + between + strung(texts.drop_first(), between)
    }
}

/// The front of a list of texts and the rest, joined, are the list joined.
pub proof fn lemma_strung(texts: Seq<Seq<char>>, between: Seq<char>)
    ensures
        joined(texts, between) == strung(texts, between),
    decreases texts.len(),
{
    if texts.len() > 1 {
        let rest = texts.drop_first();
        lemma_strung(rest, between);
        lemma_strung(texts.drop_last(), between);
        if texts.len() == 2 {
            assert(texts.drop_last()[0] == texts[0]);
            assert(rest[0] == texts[1]);
        } else {
            assert(texts.drop_last().drop_first() =~= rest.drop_last());
            lemma_strung(rest.drop_last(), between);
            assert(texts.drop_last()[0] == texts[0]);
            assert(rest.last() == texts.last());
            assert(joined(texts, between) =~= strung(texts, between));
        }
    }
}

/// Where reasoning is done, its block holds the summary, else the content, else what has come, each
/// part of which stands after an empty line. The item itself signs the block, the slot is free
/// again, and the listener is told of the end.
pub proof fn law_reasoning_is_completed<P: StreamingJson>(
    s: ResponsesStreamV,
    v: JsonV,
    options: OpenAIResponsesStreamOptionsV,
    parser: &P,
    index: u64,
    at: usize,
    item: JsonV,
    id: Seq<char>,
    summary: Seq<Seq<char>>,
    content: Seq<Seq<char>>,
)
    requires
        is_event(v, "response.output_item.done"@),
        is_about(v, index),
        member(v, "item"@) == Some(item),
        is_reasoning(item, id, summary, content),
        crate::assoc::distinct(s.slots),
        lookup(s.slots, index) == Some(OutputSlotV::Thinking { content_index: at }),
        at < s.output.content.len(),
        s.output.content[at as int] is Thinking,
    ensures
        ({
            let step = stream_step(s, v, options, parser);
            let old = s.output.content[at as int]->Thinking_0;
            let thinking = if strung(summary, "\n\n"@).len() > 0 {
                strung(summary, "\n\n"@)
            } else if strung(content, "\n\n"@).len() > 0 {
                strung(content, "\n\n"@)
            } else {
                old.thinking
            };
            &&& step.error is None
            &&& step.stream.output.content == s.output.content.update(
                at as int,
                AssistantContentV::Thinking(
                    ThinkingContentV {
                        thinking,
                        thinking_signature: Some(json_text(item)),
                        ..old
                    },
                ),
            )
            &&& step.stream.events == s.events.push(
                AssistantMessageEventV::ThinkingEnd {
                    content_index: at,
                    content: thinking,
                    content_signature: Some(json_text(item)),
                    redacted: None,
                },
            )
            &&& lookup(step.stream.slots, index) is None
            &&& lookup(step.stream.reasoning_blocks, id) == Some(at)
        }),
{
    lemma_kinds_differ();
    lemma_indexed_item(v, index, item);
    lemma_reasoning_item(item, id, summary, content);
    lemma_strung(summary, "\n\n"@);
    lemma_strung(content, "\n\n"@);
    reveal(item_done_step);
    lemma_removed(s.slots, index, index);
    lemma_put(s.reasoning_blocks, id, at, id);
}

/// Where a message is done, its block holds the texts of its parts, one behind the other, and is
/// signed with its identifier and its phase. The listener is told of the end.
pub proof fn law_message_is_completed<P: StreamingJson>(
    s: ResponsesStreamV,
    v: JsonV,
    options: OpenAIResponsesStreamOptionsV,
    parser: &P,
    index: u64,
    at: usize,
    item: JsonV,
    id: Seq<char>,
    phase: Option<Seq<char>>,
    texts: Seq<Seq<char>>,
)
    requires
        is_event(v, "response.output_item.done"@),
        is_about(v, index),
        member(v, "item"@) == Some(item),
        is_message(item, id, phase, texts),
        crate::assoc::distinct(s.slots),
        lookup(s.slots, index) == Some(OutputSlotV::Text { content_index: at }),
        at < s.output.content.len(),
        s.output.content[at as int] is Text,
    ensures
        ({
            let step = stream_step(s, v, options, parser);
            let named = seq![
                ("v"@, JsonV::Number(JsonNumberV::Unsigned(1))),
                ("id"@, JsonV::Str(id)),
            ];
            let signature = json_text(
                JsonV::Object(
                    match phase {
                        Some(name) => named.push(("phase"@, JsonV::Str(name))),
                        None => named,
                    },
                ),
            );
            &&& step.error is None
            &&& step.stream.output.content == s.output.content.update(
                at as int,
                AssistantContentV::Text(
                    TextContentV {
                        text: strung(texts, Seq::empty()),
                        text_signature: Some(signature),
                    },
                ),
            )
            &&& step.stream.output.stop_reason == if phase == Some("final_answer"@) {
                StopReason::Stop
            } else {
                s.output.stop_reason
            }
            &&& step.stream.events == s.events.push(
                AssistantMessageEventV::TextEnd {
                    content_index: at,
                    content: strung(texts, Seq::empty()),
                    content_signature: Some(signature),
                },
            )
            &&& lookup(step.stream.slots, index) is None
        }),
{
    lemma_kinds_differ();
    lemma_item_kinds();
    lemma_indexed_item(v, index, item);
    lemma_message_item(item, id, phase, texts);
    reveal_strlit("");
    assert(""@ =~= Seq::<char>::empty());
    lemma_strung(texts, ""@);
    reveal(item_done_step);
    lemma_removed(s.slots, index, index);
}

/// Where a call is done, it holds what its arguments read as: those of the item, else those that
/// have come, else none. The listener is told of the end.
pub proof fn law_call_is_completed<P: StreamingJson>(
    s: ResponsesStreamV,
    v: JsonV,
    options: OpenAIResponsesStreamOptionsV,
    parser: &P,
    index: u64,
    at: usize,
    come: Seq<char>,
    item: JsonV,
    call_id: Seq<char>,
    name: Seq<char>,
)
    requires
        is_event(v, "response.output_item.done"@),
        is_about(v, index),
        member(v, "item"@) == Some(item),
        is_call(item, false, call_id, name),
        crate::assoc::distinct(s.slots),
        lookup(s.slots, index) == Some(
            OutputSlotV::FunctionCall { content_index: at, partial_json: come },
        ),
        at < s.output.content.len(),
        s.output.content[at as int] is ToolCall,
    ensures
        ({
            let step = stream_step(s, v, options, parser);
            let old = s.output.content[at as int]->ToolCall_0;
            let said = or_nothing(text_of(member(item, "arguments"@)));
            let done = ToolCallV {
                arguments: read_arguments(
                    parser,
                    if said.len() > 0 {
                        said
                    } else if come.len() > 0 {
                        come
                    } else {
                        "{}"@
                    },
                ),
                namespace: match text_of(member(item, "namespace"@)) {
                    Some(namespace) => Some(namespace),
                    None => old.namespace,
                },
                ..old
            };
            &&& step.error is None
            &&& step.stream.output.content == s.output.content.update(
                at as int,
                AssistantContentV::ToolCall(done),
            )
            &&& step.stream.events == s.events.push(
                AssistantMessageEventV::ToolCallEnd { content_index: at, tool_call: done },
            )
            &&& lookup(step.stream.slots, index) is None
        }),
{
    lemma_kinds_differ();
    lemma_indexed_item(v, index, item);
    lemma_call_item(item, false, call_id, name);
    reveal(item_done_step);
    lemma_removed(s.slots, index, index);
    let step = stream_step(s, v, options, parser);
    let done = step.stream.output.content[at as int];
    assert(step.stream.output.content =~= s.output.content.update(at as int, done));
}

/// Where a free-form call is done, its one argument is the input of the item, else the input that
/// has come. The listener is told of the end.
pub proof fn law_custom_call_is_completed<P: StreamingJson>(
    s: ResponsesStreamV,
    v: JsonV,
    options: OpenAIResponsesStreamOptionsV,
    parser: &P,
    index: u64,
    at: usize,
    property: Seq<char>,
    sent: Seq<char>,
    come: Seq<char>,
    item: JsonV,
    call_id: Seq<char>,
    name: Seq<char>,
)
    requires
        is_event(v, "response.output_item.done"@),
        is_about(v, index),
        member(v, "item"@) == Some(item),
        is_call(item, true, call_id, name),
        crate::assoc::distinct(s.slots),
        lookup(s.slots, index) == Some(
            OutputSlotV::CustomToolCall { content_index: at, property, json_buffer: sent },
        ),
        at < s.output.content.len(),
        s.output.content[at as int] is ToolCall,
        s.output.content[at as int]->ToolCall_0.arguments == JsonV::Object(
            seq![(property, JsonV::Str(come))],
        ),
        stream_step(s, v, options, parser).error is None,
    ensures
        ({
            let step = stream_step(s, v, options, parser);
            let old = s.output.content[at as int]->ToolCall_0;
            let input = match text_of(member(item, "input"@)) {
                Some(input) => input,
                None => come,
            };
            let done = ToolCallV {
                arguments: JsonV::Object(seq![(property, JsonV::Str(input))]),
                namespace: match text_of(member(item, "namespace"@)) {
                    Some(namespace) => Some(namespace),
                    None => old.namespace,
                },
                ..old
            };
            &&& step.stream.output.content == s.output.content.update(
                at as int,
                AssistantContentV::ToolCall(done),
            )
            &&& step.stream.events.last() == (AssistantMessageEventV::ToolCallEnd {
                content_index: at,
                tool_call: done,
            })
            &&& lookup(step.stream.slots, index) is None
        }),
{
    lemma_kinds_differ();
    lemma_indexed_item(v, index, item);
    lemma_call_item(item, true, call_id, name);
    reveal(item_done_step);
    lemma_removed(s.slots, index, index);
    let arguments = s.output.content[at as int]->ToolCall_0.arguments;
    lemma_key_index(seq![(property, JsonV::Str(come))], property, 0);
    assert(member(arguments, property) == Some(JsonV::Str(come)));
    let step = stream_step(s, v, options, parser);
    let done = step.stream.output.content[at as int];
    assert(step.stream.output.content =~= s.output.content.update(at as int, done));
}

/// Where a response is created, its identifier is kept.
pub proof fn law_created_response_is_named<P: StreamingJson>(
    s: ResponsesStreamV,
    v: JsonV,
    options: OpenAIResponsesStreamOptionsV,
    parser: &P,
    response: JsonV,
    id: Seq<char>,
)
    requires
        is_event(v, "response.created"@),
        member(v, "response"@) == Some(response),
        well_keyed(response),
        member(response, "id"@) == Some(JsonV::Str(id)),
    ensures
        ({
            let step = stream_step(s, v, options, parser);
            &&& step.error is None
            &&& step.stream == ResponsesStreamV {
                output: AssistantMessageV { response_id: Some(id), ..s.output },
                ..s
            }
        }),
{
    lemma_kinds_differ();
    lemma_faultless(&CreatedFields, response);
}

/// An error event ends the stream with its code and its message.
pub proof fn law_error_event_is_told<P: StreamingJson>(
    s: ResponsesStreamV,
    v: JsonV,
    options: OpenAIResponsesStreamOptionsV,
    parser: &P,
    code: Seq<char>,
    message: Seq<char>,
)
    requires
        is_event(v, "error"@),
        member(v, "code"@) == Some(JsonV::Str(code)),
        member(v, "message"@) == Some(JsonV::Str(message)),
    ensures
        stream_step(s, v, options, parser).error == Some(
            "Error Code "@ + code + ": "@ + message,
        ),
        stream_step(s, v, options, parser).stream == s,
{
    lemma_kinds_differ();
    lemma_faultless(&FailureFields, v);
}

/// Whether a type is one of those that change a turn.
pub open spec fn is_known(kind: Seq<char>) -> bool {
    ||| kind == "response.created"@
    ||| kind == "response.output_item.added"@
    ||| kind == "response.reasoning_summary_text.delta"@
    ||| kind == "response.reasoning_text.delta"@
    ||| kind == "response.reasoning_summary_part.done"@
    ||| kind == "response.output_text.delta"@
    ||| kind == "response.refusal.delta"@
    ||| kind == "response.function_call_arguments.delta"@
    ||| kind == "response.function_call_arguments.done"@
    ||| kind == "response.custom_tool_call_input.delta"@
    ||| kind == "response.custom_tool_call_input.done"@
    ||| kind == "response.output_item.done"@
    ||| kind == "response.completed"@
    ||| kind == "response.incomplete"@
    ||| kind == "response.failed"@
    ||| kind == "error"@
}

/// An event of any other type changes nothing.
pub proof fn law_other_events_change_nothing<P: StreamingJson>(
    s: ResponsesStreamV,
    v: JsonV,
    options: OpenAIResponsesStreamOptionsV,
    parser: &P,
)
    requires
        member(v, "type"@) matches Some(JsonV::Str(kind)) ==> !is_known(kind),
    ensures
        stream_step(s, v, options, parser).stream == s,
        stream_step(s, v, options, parser).error is None,
{
}

/// Whether a member of an object is missing or a whole number.
pub open spec fn count_or_missing(v: JsonV, key: Seq<char>) -> bool {
    member(v, key) matches Some(x) ==> x matches JsonV::Number(JsonNumberV::Unsigned(_))
}

/// The whole number that a member is, or zero where it is missing.
pub open spec fn count_in(v: JsonV, key: Seq<char>) -> u64 {
    match member(v, key) {
        Some(JsonV::Number(JsonNumberV::Unsigned(n))) => n,
        _ => 0,
    }
}

/// The member of a member, where both are there.
pub open spec fn inner(v: JsonV, key: Seq<char>, name: Seq<char>) -> Option<JsonV> {
    match member(v, key) {
        Some(x) => member(x, name),
        None => None,
    }
}

/// The whole number that a member of a member is, or zero where it is missing.
pub open spec fn inner_count(v: JsonV, key: Seq<char>, name: Seq<char>) -> u64 {
    match inner(v, key, name) {
        Some(JsonV::Number(JsonNumberV::Unsigned(n))) => n,
        _ => 0,
    }
}

/// Whether a value is a report of usage.
pub open spec fn is_usage(usage: JsonV) -> bool {
    &&& well_keyed(usage)
    &&& count_or_missing(usage, "input_tokens"@)
    &&& count_or_missing(usage, "output_tokens"@)
    &&& count_or_missing(usage, "total_tokens"@)
    &&& member(usage, "input_tokens_details"@) matches Some(details) ==> well_keyed(details)
        && count_or_missing(details, "cached_tokens"@) && count_or_missing(
        details,
        "cache_write_tokens"@,
    )
    &&& member(usage, "output_tokens_details"@) matches Some(details) ==> well_keyed(details)
        && count_or_missing(details, "reasoning_tokens"@)
}

/// Whether a value is a response that may end a stream.
pub open spec fn is_response(response: JsonV) -> bool {
    &&& well_keyed(response)
    &&& text_or_missing(response, "id"@)
    &&& text_or_missing(response, "status"@)
    &&& text_or_missing(response, "service_tier"@)
    &&& member(response, "incomplete_details"@) matches Some(details) ==> well_keyed(details)
        && text_or_missing(details, "reason"@)
    &&& member(response, "error"@) matches Some(error) ==> well_keyed(error) && text_or_missing(
        error,
        "code"@,
    ) && text_or_missing(error, "message"@)
    &&& member(response, "usage"@) matches Some(usage) ==> is_usage(usage)
    &&& member(response, "output"@) matches Some(output) ==> output is Array
}

proof fn lemma_response(v: JsonV, response: JsonV)
    requires
        member(v, "response"@) == Some(response),
        is_response(response),
    ensures
        terminal_response(v) == Ok::<TerminalResponseV, Seq<char>>(terminal_parts(response)),
{
    if let Some(details) = member(response, "incomplete_details"@) {
        lemma_faultless(&IncompleteFields, details);
    }
    if let Some(error) = member(response, "error"@) {
        lemma_faultless(&FailureFields, error);
    }
    if let Some(usage) = member(response, "usage"@) {
        if let Some(details) = member(usage, "input_tokens_details"@) {
            lemma_faultless(&InputDetailFields, details);
        }
        if let Some(details) = member(usage, "output_tokens_details"@) {
            lemma_faultless(&OutputDetailFields, details);
        }
        lemma_faultless(&UsageFields, usage);
    }
    lemma_faultless(&TerminalFields, response);
}

/// What a finished response says of itself is taken over: its identifier, its usage, in which what
/// was read from a cache or written to one is no fresh input, and its status.
pub proof fn law_finished_response_is_taken<P: StreamingJson>(
    s: ResponsesStreamV,
    v: JsonV,
    options: OpenAIResponsesStreamOptionsV,
    parser: &P,
    response: JsonV,
    status: Seq<char>,
)
    requires
        is_event(v, "response.completed"@) || is_event(v, "response.incomplete"@),
        member(v, "response"@) == Some(response),
        is_response(response),
        member(response, "output"@) is None,
        member(response, "status"@) == Some(JsonV::Str(status)),
    ensures
        ({
            let step = stream_step(s, v, options, parser);
            let reason = text_of(inner(response, "incomplete_details"@, "reason"@));
            let next = step.stream.output;
            &&& step.stream.saw_terminal
            &&& step.stream.events == s.events
            &&& step.stream.slots == s.slots
            &&& next.content == s.output.content
            &&& next.response_id == match text_of(member(response, "id"@)) {
                Some(id) => Some(id),
                None => s.output.response_id,
            }
            &&& next.raw_stop_reason == Some(
                match reason {
                    Some(reason) => status + "."@ + reason,
                    None => status,
                },
            )
            &&& next.end_turn == if options.capture_end_turn {
                match member(response, "end_turn"@) {
                    Some(JsonV::Bool(b)) => Some(b),
                    _ => None,
                }
            } else {
                s.output.end_turn
            }
            &&& member(response, "usage"@) is None ==> next.usage == s.output.usage
            &&& member(response, "usage"@) matches Some(usage) ==> {
                let input = count_in(usage, "input_tokens"@);
                let read = inner_count(usage, "input_tokens_details"@, "cached_tokens"@);
                let write = inner_count(usage, "input_tokens_details"@, "cache_write_tokens"@);
                let fresh = if read + write <= input {
                    input - read - write
                } else {
                    0
                };
                next.usage == UsageV {
                    input: UsageValueV::Count(fresh as u64),
                    output: UsageValueV::Count(count_in(usage, "output_tokens"@)),
                    cache_read: UsageValueV::Count(read),
                    cache_write: UsageValueV::Count(write),
                    reasoning: Some(
                        UsageValueV::Count(
                            inner_count(usage, "output_tokens_details"@, "reasoning_tokens"@),
                        ),
                    ),
                    total_tokens: UsageValueV::Count(count_in(usage, "total_tokens"@)),
                }
            }
        }),
{
    lemma_kinds_differ();
    lemma_response(v, response);
    reveal(finalized);
    assert(terminal_parts(response).output.len() == 0);
}

/// How a finished response ends the turn: as its status says, and by the use of tools where it
/// would stop and holds a call.
pub proof fn law_finished_response_ends_the_turn<P: StreamingJson>(
    s: ResponsesStreamV,
    v: JsonV,
    options: OpenAIResponsesStreamOptionsV,
    parser: &P,
    response: JsonV,
    status: Seq<char>,
    calls: bool,
)
    requires
        is_event(v, "response.completed"@) || is_event(v, "response.incomplete"@),
        member(v, "response"@) == Some(response),
        is_response(response),
        member(response, "output"@) is None,
        member(response, "status"@) == Some(JsonV::Str(status)),
        calls <==> exists|i: int|
            0 <= i < s.output.content.len() && #[trigger] s.output.content[i] is ToolCall,
    ensures
        ({
            let step = stream_step(s, v, options, parser);
            let reason = text_of(inner(response, "incomplete_details"@, "reason"@));
            let next = step.stream.output;
            &&& status == "completed"@ || status == "in_progress"@ || status == "queued"@ ==> {
                &&& step.error is None
                &&& next.stop_reason == if calls {
                    StopReason::ToolUse
                } else {
                    StopReason::Stop
                }
                &&& next.error_message is None
            }
            &&& status == "incomplete"@ && reason == Some("max_output_tokens"@) ==> {
                &&& step.error is None
                &&& next.stop_reason == StopReason::Length
                &&& next.error_message is None
            }
            &&& status == "incomplete"@ && reason != Some("max_output_tokens"@) ==> {
                &&& step.error is None
                &&& next.stop_reason == StopReason::Error
                &&& next.error_message == Some(
                    match reason {
                        Some(reason) => "Response incomplete: "@ + reason,
                        None => "Response incomplete without a provider reason"@,
                    },
                )
            }
            &&& status == "failed"@ || status == "cancelled"@ ==> {
                &&& step.error is None
                &&& next.stop_reason == StopReason::Error
                &&& next.error_message is None
            }
            &&& status != "completed"@ && status != "in_progress"@ && status != "queued"@ && status
                != "incomplete"@ && status != "failed"@ && status != "cancelled"@
                ==> step.error == Some("Unhandled stop reason: "@ + status)
        }),
{
    lemma_kinds_differ();
    lemma_response(v, response);
    reveal(finalized);
    assert(terminal_parts(response).output.len() == 0);
    reveal_strlit("completed");
    reveal_strlit("in_progress");
    reveal_strlit("queued");
    reveal_strlit("incomplete");
    reveal_strlit("failed");
    reveal_strlit("cancelled");
    assert("completed"@.len() == 9 && "in_progress"@.len() == 11 && "queued"@.len() == 6
        && "incomplete"@.len() == 10 && "failed"@.len() == 6 && "cancelled"@.len() == 9);
    assert("completed"@[1] == 'o' && "cancelled"@[1] == 'a' && "queued"@[0] == 'q'
        && "failed"@[0] == 'f');
}

/// The tier that a response was served on: the one that it names; where it names none, the one that
/// was asked for. Codex answers to a request for a faster or a cheaper tier with the standard tier,
/// and the tier that was asked for counts.
pub proof fn law_served_tier<P: StreamingJson>(
    s: ResponsesStreamV,
    v: JsonV,
    options: OpenAIResponsesStreamOptionsV,
    parser: &P,
    response: JsonV,
)
    requires
        is_event(v, "response.completed"@) || is_event(v, "response.incomplete"@),
        member(v, "response"@) == Some(response),
        is_response(response),
        member(response, "output"@) is None,
    ensures
        ({
            let served = stream_step(s, v, options, parser).stream.service_tier;
            let asked = options.service_tier;
            let said = text_of(member(response, "service_tier"@));
            &&& said is None && options.service_tier_rule != ServiceTierRule::Said ==> served
                == asked
            &&& said is None && options.service_tier_rule == ServiceTierRule::Said ==> served
                is None
            &&& said == Some("flex"@) ==> served == Some(Some(ResponseServiceTierV::Flex))
            &&& said == Some("priority"@) ==> served == Some(Some(ResponseServiceTierV::Priority))
            &&& said == Some("auto"@) ==> served == Some(Some(ResponseServiceTierV::Auto))
            &&& said == Some("scale"@) ==> served == Some(Some(ResponseServiceTierV::Scale))
            &&& said == Some("default"@) ==> served == if options.service_tier_rule
                == ServiceTierRule::Codex && (asked == Some(Some(ResponseServiceTierV::Flex))
                || asked == Some(Some(ResponseServiceTierV::Priority))) {
                asked
            } else {
                Some(Some(ResponseServiceTierV::Standard))
            }
        }),
{
    lemma_kinds_differ();
    lemma_response(v, response);
    reveal(finalized);
    assert(terminal_parts(response).output.len() == 0);
    reveal_strlit("flex");
    reveal_strlit("priority");
    reveal_strlit("auto");
    reveal_strlit("scale");
    reveal_strlit("default");
    assert("flex"@.len() == 4 && "priority"@.len() == 8 && "auto"@.len() == 4 && "scale"@.len()
        == 5 && "default"@.len() == 7);
    assert("flex"@[0] == 'f' && "auto"@[0] == 'a');
}

/// A failed response ends the stream with the code and the message of its error, else with the
/// reason for which it is incomplete.
pub proof fn law_failed_response_is_told<P: StreamingJson>(
    s: ResponsesStreamV,
    v: JsonV,
    options: OpenAIResponsesStreamOptionsV,
    parser: &P,
    response: JsonV,
)
    requires
        is_event(v, "response.failed"@),
        member(v, "response"@) == Some(response),
        is_response(response),
    ensures
        ({
            let step = stream_step(s, v, options, parser);
            let code = or_nothing(text_of(inner(response, "error"@, "code"@)));
            let message = or_nothing(text_of(inner(response, "error"@, "message"@)));
            let reason = text_of(inner(response, "incomplete_details"@, "reason"@));
            &&& step.stream.events == s.events
            &&& step.stream.output == AssistantMessageV {
                raw_stop_reason: text_of(member(response, "status"@)),
                ..s.output
            }
            &&& member(response, "error"@) is Some ==> step.error == Some(
                (if code.len() > 0 {
                    code
                } else {
                    "unknown"@
                }) + ": "@ + if message.len() > 0 {
                    message
                } else {
                    "no message"@
                },
            )
            &&& member(response, "error"@) is None && reason is Some ==> step.error == Some(
                "incomplete: "@ + reason->Some_0,
            )
            &&& member(response, "error"@) is None && reason is None ==> step.error == Some(
                "Unknown error (no error details in response)"@,
            )
        }),
{
    lemma_kinds_differ();
    lemma_response(v, response);
    reveal(failure_text);
}

/// A stream that ends before a response was finished fails.
pub proof fn law_unfinished_stream_fails<P: StreamingJson>(
    s: ResponsesStreamV,
    items: Seq<Result<JsonV, Seq<char>>>,
    options: OpenAIResponsesStreamOptionsV,
    parser: &P,
)
    ensures
        processed(s, items, options, parser).error is None ==> processed(
            s,
            items,
            options,
            parser,
        ).stream.saw_terminal,
        items.len() == 0 && !s.saw_terminal ==> processed(s, items, options, parser).error == Some(
            "OpenAI Responses stream ended before a terminal response event"@,
        ),
{
}

/// Where a finished response brings the encrypted content of reasoning that has none yet, the
/// signature of its block is completed with it.
pub proof fn law_encrypted_content_is_filled_in<P: StreamingJson>(
    s: ResponsesStreamV,
    v: JsonV,
    options: OpenAIResponsesStreamOptionsV,
    parser: &P,
    response: JsonV,
    item: JsonV,
    id: Seq<char>,
    summary: Seq<Seq<char>>,
    content: Seq<Seq<char>>,
    encrypted: Seq<char>,
    at: usize,
    signature: Seq<char>,
    signed: Seq<(Seq<char>, JsonV)>,
)
    requires
        is_event(v, "response.completed"@),
        member(v, "response"@) == Some(response),
        is_response(response),
        member(response, "output"@) == Some(JsonV::Array(seq![item])),
        is_reasoning(item, id, summary, content),
        member(item, "encrypted_content"@) == Some(JsonV::Str(encrypted)),
        encrypted.len() > 0,
        lookup(s.reasoning_blocks, id) == Some(at),
        at < s.output.content.len(),
        s.output.content[at as int] matches AssistantContentV::Thinking(t) && t.thinking_signature
            == Some(signature),
        json_parse(signature) == Ok::<JsonV, Seq<char>>(JsonV::Object(signed)),
        lookup(signed, "encrypted_content"@) is None,
    ensures
        ({
            let next = stream_step(s, v, options, parser).stream.output;
            let old = s.output.content[at as int]->Thinking_0;
            &&& next.content == s.output.content.update(
                at as int,
                AssistantContentV::Thinking(
                    ThinkingContentV {
                        thinking_signature: Some(
                            json_text(
                                JsonV::Object(
                                    signed.push(("encrypted_content"@, JsonV::Str(encrypted))),
                                ),
                            ),
                        ),
                        ..old
                    },
                ),
            )
        }),
{
    lemma_kinds_differ();
    lemma_response(v, response);
    lemma_reasoning_item(item, id, summary, content);
    reveal(finalized);
    let items = seq![item];
    assert(items.drop_last() =~= Seq::<JsonV>::empty());
    assert(items.last() == item);
    assert(backfilled_all(s.output, s.reasoning_blocks, items.drop_last()) == (
        s.output,
        None::<Seq<char>>,
    ));
    let fields = signed;
    assert(crate::assoc::key_index(fields, "encrypted_content"@) >= fields.len()) by {
        if crate::assoc::key_index(fields, "encrypted_content"@) < fields.len() {
            assert(lookup(fields, "encrypted_content"@) is Some);
        }
    }
}

/// An event that lacks what it is about is refused, and nothing changes.
pub proof fn law_incomplete_events_are_refused<P: StreamingJson>(
    s: ResponsesStreamV,
    v: JsonV,
    options: OpenAIResponsesStreamOptionsV,
    parser: &P,
    index: u64,
)
    requires
        is_about(v, index),
    ensures
        ({
            let step = stream_step(s, v, options, parser);
            &&& (is_event(v, "response.output_text.delta"@) || is_event(
                v,
                "response.reasoning_summary_text.delta"@,
            ) || is_event(v, "response.function_call_arguments.delta"@)) && member(v, "delta"@)
                is None ==> step.stream == s && step.error == Some("missing field `delta`"@)
            &&& (is_event(v, "response.output_item.added"@) || is_event(
                v,
                "response.output_item.done"@,
            )) && member(v, "item"@) is None ==> step.stream == s && step.error == Some(
                "missing field `item`"@,
            )
            &&& (is_event(v, "response.completed"@) || is_event(v, "response.failed"@)) && member(
                v,
                "response"@,
            ) is None ==> step.stream == s && step.error == Some("missing field `response`"@)
        }),
{
    lemma_kinds_differ();
    if well_keyed(v) {
        lemma_output_index(v, index);
        if member(v, "delta"@) is None {
            lemma_faultless(&(IndexedText { key: "delta" }), v);
        }
    }
    reveal_strlit("missing field `");
    reveal_strlit("`");
    reveal_strlit("delta");
    reveal_strlit("item");
    reveal_strlit("response");
    reveal_strlit("missing field `delta`");
    reveal_strlit("missing field `item`");
    reveal_strlit("missing field `response`");
    assert("missing field `"@ + "delta"@ + "`"@ =~= "missing field `delta`"@);
    assert("missing field `"@ + "item"@ + "`"@ =~= "missing field `item`"@);
    assert("missing field `"@ + "response"@ + "`"@ =~= "missing field `response`"@);
}

/// How a value is described where another was wanted.
pub open spec fn described_as(v: JsonV) -> Seq<char> {
    match v {
        JsonV::Null => "null"@,
        JsonV::Bool(true) => "boolean `true`"@,
        JsonV::Bool(false) => "boolean `false`"@,
        JsonV::Number(JsonNumberV::Decimal(text)) => "floating point `"@ + text + "`"@,
        JsonV::Number(_) => "integer `"@ + json_text(v) + "`"@,
        JsonV::Str(text) => "string "@ + debug_text(text),
        JsonV::Array(_) => "sequence"@,
        JsonV::Object(_) => "map"@,
    }
}

proof fn lemma_described(v: JsonV)
    ensures
        described(v) == described_as(v),
{
    reveal_strlit("boolean `");
    reveal_strlit("true");
    reveal_strlit("false");
    reveal_strlit("`");
    reveal_strlit("boolean `true`");
    reveal_strlit("boolean `false`");
    assert("boolean `"@ + "true"@ + "`"@ =~= "boolean `true`"@);
    assert("boolean `"@ + "false"@ + "`"@ =~= "boolean `false`"@);
}

proof fn lemma_one_fault(faults: Seq<Option<Seq<char>>>, i: int)
    requires
        0 <= i < faults.len(),
        faults[i] is Some,
        forall|k: int| 0 <= k < faults.len() && k != i ==> #[trigger] faults[k] is None,
    ensures
        first(faults) == faults[i],
    decreases faults.len(),
{
    let rest = faults.drop_last();
    if i < rest.len() {
        assert(rest[i] == faults[i]);
        assert forall|k: int| 0 <= k < rest.len() && k != i implies #[trigger] rest[k] is None by {
            assert(rest[k] == faults[k]);
        }
        lemma_one_fault(rest, i);
    } else {
        assert forall|k: int| 0 <= k < rest.len() implies #[trigger] rest[k] is None by {
            assert(rest[k] == faults[k]);
        }
        lemma_no_fault(rest);
    }
}

proof fn lemma_places_of_delta(key: Seq<char>)
    ensures
        key == "output_index"@ ==> place(seq!["output_index"@, "delta"@], key) == 0,
        key == "delta"@ ==> place(seq!["output_index"@, "delta"@], key) == 1,
        key != "output_index"@ && key != "delta"@ ==> place(
            seq!["output_index"@, "delta"@],
            key,
        ) == 2,
{
    reveal_strlit("output_index");
    reveal_strlit("delta");
    assert("output_index"@.len() == 12 && "delta"@.len() == 5);
    let keys = seq!["output_index"@, "delta"@];
    let rest = keys.drop_first();
    assert(rest[0] == "delta"@);
    assert(rest.drop_first().len() == 0);
    assert(place(rest.drop_first(), key) == 0);
    assert(place(rest, key) == if key == "delta"@ {
        0nat
    } else {
        1
    });
    assert(keys[0] == "output_index"@);
}

proof fn lemma_wrong_delta(v: JsonV, index: u64, piece: JsonV)
    requires
        well_keyed(v),
        is_about(v, index),
        member(v, "delta"@) == Some(piece),
        !(piece is Str),
    ensures
        members_fault(&(IndexedText { key: "delta" }), v) == Some(mistyped(piece, "a string"@)),
{
    let record = IndexedText { key: "delta" };
    let fields = v->Object_0;
    let faults = member_faults(&record, fields);
    crate::assoc::lemma_key_index_props(fields, "delta"@);
    let at = crate::assoc::key_index(fields, "delta"@) as int;
    lemma_places_of_delta("delta"@);
    assert(faults[at] == Some(mistyped(piece, "a string"@)));
    assert forall|k: int| 0 <= k < faults.len() && k != at implies #[trigger] faults[k] is None by {
        let m = fields[k];
        lemma_places_of_delta(m.0);
        if m.0 == "output_index"@ {
            lemma_key_index(fields, m.0, k);
        } else if m.0 == "delta"@ {
            assert(fields[k].0 != fields[at].0);
        }
    }
    lemma_one_fault(faults, at);
}

/// A piece that is no text is refused, with what it is and what was wanted.
pub proof fn law_wrong_sorts_are_refused<P: StreamingJson>(
    s: ResponsesStreamV,
    v: JsonV,
    options: OpenAIResponsesStreamOptionsV,
    parser: &P,
    index: u64,
    piece: JsonV,
)
    requires
        is_event(v, "response.output_text.delta"@) || is_event(
            v,
            "response.reasoning_summary_text.delta"@,
        ) || is_event(v, "response.function_call_arguments.delta"@),
        is_about(v, index),
        member(v, "delta"@) == Some(piece),
        !(piece is Str),
    ensures
        stream_step(s, v, options, parser).stream == s,
        stream_step(s, v, options, parser).error == Some(
            "invalid type: "@ + described_as(piece) + ", expected "@ + "a string"@,
        ),
{
    lemma_kinds_differ();
    lemma_described(piece);
    lemma_wrong_delta(v, index, piece);
}

/// A message that is done without ever having been announced opens its block, fills it and closes it
/// at once.
pub proof fn law_unannounced_message_is_taken<P: StreamingJson>(
    s: ResponsesStreamV,
    v: JsonV,
    options: OpenAIResponsesStreamOptionsV,
    parser: &P,
    index: u64,
    item: JsonV,
    id: Seq<char>,
    phase: Option<Seq<char>>,
    texts: Seq<Seq<char>>,
)
    requires
        is_event(v, "response.output_item.done"@),
        is_about(v, index),
        member(v, "item"@) == Some(item),
        is_message(item, id, phase, texts),
        crate::assoc::distinct(s.slots),
        lookup(s.slots, index) is None,
        s.output.content.len() < usize::MAX,
    ensures
        ({
            let step = stream_step(s, v, options, parser);
            let n = s.output.content.len();
            &&& step.error is None
            &&& step.stream.output.content.len() == n + 1
            &&& step.stream.output.content.take(n as int) == s.output.content
            &&& step.stream.output.content[n as int] matches AssistantContentV::Text(t) && t.text
                == strung(texts, Seq::empty())
            &&& step.stream.events.len() == s.events.len() + 2
            &&& step.stream.events[s.events.len() as int] == (AssistantMessageEventV::TextStart {
                content_index: n as usize,
            })
            &&& step.stream.events.last() matches AssistantMessageEventV::TextEnd {
                content_index,
                content,
                ..
            } && content_index == n && content == strung(texts, Seq::empty())
            &&& lookup(step.stream.slots, index) is None
        }),
{
    lemma_kinds_differ();
    lemma_item_kinds();
    lemma_indexed_item(v, index, item);
    lemma_message_item(item, id, phase, texts);
    reveal_strlit("");
    assert(""@ =~= Seq::<char>::empty());
    lemma_strung(texts, ""@);
    reveal(item_done_step);
    reveal(opened);
    let at = s.output.content.len() as usize;
    let slot = OutputSlotV::Text { content_index: at };
    lemma_put(s.slots, index, slot, index);
    crate::assoc::lemma_put_distinct(s.slots, index, slot);
    lemma_removed(put(s.slots, index, slot), index, index);
    let step = stream_step(s, v, options, parser);
    assert(step.stream.output.content.take(at as int) =~= s.output.content);
}

/// Events are taken one after the other, and nothing is taken after a failure.
pub proof fn law_events_are_taken_in_turn<P: StreamingJson>(
    s: ResponsesStreamV,
    items: Seq<Result<JsonV, Seq<char>>>,
    last: Result<JsonV, Seq<char>>,
    options: OpenAIResponsesStreamOptionsV,
    parser: &P,
)
    ensures
        ({
            let before = fed(s, items, options, parser);
            let after = fed(s, items.push(last), options, parser);
            &&& items.len() == 0 ==> before.stream == s && before.error is None
            &&& before.error is Some ==> after == before
            &&& before.error is None ==> match last {
                Ok(v) => after == stream_step(before.stream, v, options, parser),
                Err(e) => after.stream == before.stream && after.error == Some(e),
            }
        }),
{
    assert(items.push(last).drop_last() =~= items);
}

/// An event about an output that is not open, or open as something else, changes nothing.
pub proof fn law_stray_pieces_change_nothing<P: StreamingJson>(
    s: ResponsesStreamV,
    v: JsonV,
    options: OpenAIResponsesStreamOptionsV,
    parser: &P,
    index: u64,
    delta: Seq<char>,
)
    requires
        is_about(v, index),
        member(v, "delta"@) == Some(JsonV::Str(delta)),
        lookup(s.slots, index) is None,
        is_event(v, "response.output_text.delta"@) || is_event(
            v,
            "response.reasoning_summary_text.delta"@,
        ) || is_event(v, "response.function_call_arguments.delta"@) || is_event(
            v,
            "response.custom_tool_call_input.delta"@,
        ),
    ensures
        stream_step(s, v, options, parser).stream == s,
        stream_step(s, v, options, parser).error is None,
{
    lemma_kinds_differ();
    lemma_indexed_text(v, "delta", index, delta);
    reveal(text_step);
    reveal(thinking_step);
    reveal(arguments_step);
    reveal(input_delta_step);
}

/// An error event without a code or a message is told as one that has none.
pub proof fn law_bare_error_event_is_told<P: StreamingJson>(
    s: ResponsesStreamV,
    v: JsonV,
    options: OpenAIResponsesStreamOptionsV,
    parser: &P,
)
    requires
        is_event(v, "error"@),
        member(v, "code"@) is None || member(v, "code"@) == Some(JsonV::Null),
        member(v, "message"@) is None || member(v, "message"@) == Some(JsonV::Null),
    ensures
        stream_step(s, v, options, parser).error == Some(
            "Error Code "@ + (if member(v, "code"@) is None {
                "undefined"@
            } else {
                "null"@
            }) + ": "@ + if member(v, "message"@) is None {
                "undefined"@
            } else {
                "null"@
            },
        ),
{
    lemma_kinds_differ();
    lemma_faultless(&FailureFields, v);
}

} // verus!
