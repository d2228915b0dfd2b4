//! Chat-completions turns assembled from the chunks of a stream.
use crate::assoc;
use crate::assoc::{lookup, put, removed};
use crate::completions_chunks::{
    RawChunk, RawChunkV, RawDelta, RawDeltaV, RawToolCallDelta, RawToolCallDeltaV, RawUsageV,
};
use crate::completions_usage::{chunk_usage, parse_chunk_usage};
use crate::constrained_sampling::{
    append_grammar_tool_input_json_delta, input_arguments, input_delta, make_input_arguments,
    GrammarToolInputJsonBuffer, StreamingJson,
};
use crate::json::{member, text_of, Json, JsonV};
use crate::reasoning_details::{
    encrypted, encrypted_reasoning_detail, is_detail, is_open_ai_reasoning_detail,
};
use crate::responses_stream::{
    append_text, append_thinking, call_at, empty_object, more_text, more_thinking, text_at,
    thinking_at, with_block, InputProperties,
};
use crate::text::{concat, same};
use crate::transform_messages::plain_text;
use crate::types::{
    AssistantContent, AssistantContentV, AssistantMessage, AssistantMessageEvent,
    AssistantMessageEventV, AssistantMessageV, Model, ModelV, StopReason, TextContent,
    ThinkingContent, ThinkingContentV, ToolCall, ToolCallV, Usage, UsageV,
};
use vstd::prelude::*;

verus! {

/// The input of a custom tool that is being streamed.
#[derive(Debug, PartialEq)]
pub struct CustomInputScratch {
    /// The argument that holds the input.
    pub property: String,
    pub json_buffer: GrammarToolInputJsonBuffer,
}

/// The model of [`CustomInputScratch`].
pub struct CustomInputScratchV {
    pub property: Seq<char>,
    pub json_buffer: Seq<char>,
}

impl View for CustomInputScratch {
    type V = CustomInputScratchV;

    open spec fn view(&self) -> CustomInputScratchV {
        CustomInputScratchV {
            property: self.property.deep_view(),
            json_buffer: self.json_buffer.deep_view(),
        }
    }
}

impl DeepView for CustomInputScratch {
    type V = CustomInputScratchV;

    open spec fn deep_view(&self) -> CustomInputScratchV {
        self@
    }
}

impl Clone for CustomInputScratch {
    fn clone(&self) -> (r: Self)
        ensures
            r@ == self@,
    {
        CustomInputScratch {
            property: self.property.clone(),
            json_buffer: self.json_buffer.clone(),
        }
    }
}

/// What is kept of a call that is being streamed.
#[derive(Debug, PartialEq)]
pub struct ToolScratch {
    /// The text of the arguments so far.
    pub partial_args: String,
    pub custom_input: Option<CustomInputScratch>,
}

/// The model of [`ToolScratch`].
pub struct ToolScratchV {
    pub partial_args: Seq<char>,
    pub custom_input: Option<CustomInputScratchV>,
}

impl View for ToolScratch {
    type V = ToolScratchV;

    open spec fn view(&self) -> ToolScratchV {
        ToolScratchV {
            partial_args: self.partial_args.deep_view(),
            custom_input: self.custom_input.deep_view(),
        }
    }
}

impl DeepView for ToolScratch {
    type V = ToolScratchV;

    open spec fn deep_view(&self) -> ToolScratchV {
        self@
    }
}

impl Clone for ToolScratch {
    fn clone(&self) -> (r: Self)
        ensures
            r@ == self@,
    {
        ToolScratch {
            partial_args: self.partial_args.clone(),
            custom_input: self.custom_input.clone(),
        }
    }
}

impl Default for ToolScratch {
    fn default() -> (r: Self)
        ensures
            r.partial_args@.len() == 0,
            r.custom_input is None,
    {
        ToolScratch {
            partial_args: String::new(),
            custom_input: None,
        }
    }
}

/// What the stream has brought so far.
#[derive(Debug)]
pub struct CompletionsStream {
    /// The message that is being assembled.
    pub output: AssistantMessage,
    /// The block that text goes to.
    pub text_index: Option<usize>,
    /// The block that reasoning goes to.
    pub thinking_index: Option<usize>,
    /// Whether the provider has said why the turn ends.
    pub has_finish_reason: bool,
    /// The blocks of calls, by the index in the stream.
    pub tool_by_stream_index: Vec<(u64, usize)>,
    /// The blocks of calls, by identifier.
    pub tool_by_id: Vec<(String, usize)>,
    /// What is kept of calls, by block.
    pub tool_scratch: Vec<(u64, ToolScratch)>,
    /// Encrypted reasoning whose call has not come yet, by the identifier of the call.
    pub pending_details: Vec<(String, String)>,
    /// What the listener has to be told.
    pub events: Vec<AssistantMessageEvent>,
}

/// The model of [`CompletionsStream`].
pub struct CompletionsStreamV {
    pub output: AssistantMessageV,
    pub text_index: Option<usize>,
    pub thinking_index: Option<usize>,
    pub has_finish_reason: bool,
    pub tool_by_stream_index: Seq<(u64, usize)>,
    pub tool_by_id: Seq<(Seq<char>, usize)>,
    pub tool_scratch: Seq<(u64, ToolScratchV)>,
    pub pending_details: Seq<(Seq<char>, Seq<char>)>,
    pub events: Seq<AssistantMessageEventV>,
}

impl View for CompletionsStream {
    type V = CompletionsStreamV;

    open spec fn view(&self) -> CompletionsStreamV {
        CompletionsStreamV {
            output: self.output@,
            text_index: self.text_index,
            thinking_index: self.thinking_index,
            has_finish_reason: self.has_finish_reason,
            tool_by_stream_index: self.tool_by_stream_index.deep_view(),
            tool_by_id: self.tool_by_id.deep_view(),
            tool_scratch: self.tool_scratch.deep_view(),
            pending_details: self.pending_details.deep_view(),
            events: self.events.deep_view(),
        }
    }
}

/// What a part of a chunk makes of the stream, and the failure that stopped it.
pub type Step = (CompletionsStreamV, Option<Seq<char>>);

/// Tells the listener one more thing.
pub open spec fn told(s: CompletionsStreamV, event: AssistantMessageEventV) -> CompletionsStreamV {
    CompletionsStreamV { events: s.events.push(event), ..s }
}

/// The stream with another message.
pub open spec fn with_output(s: CompletionsStreamV, output: AssistantMessageV) -> CompletionsStreamV {
    CompletionsStreamV { output, ..s }
}

/// The stream with one more block.
pub open spec fn with_new_block(s: CompletionsStreamV, block: AssistantContentV) -> CompletionsStreamV {
    with_output(s, AssistantMessageV { content: s.output.content.push(block), ..s.output })
}

/// Why a turn ends, in the words of the provider: the reason, and the error that it is.
pub open spec fn stop_of(reason: Seq<char>) -> (StopReason, Option<Seq<char>>) {
    if reason == "stop"@ || reason == "end"@ {
        (StopReason::Stop, None)
    } else if reason == "length"@ {
        (StopReason::Length, None)
    } else if reason == "function_call"@ || reason == "tool_calls"@ {
        (StopReason::ToolUse, None)
    } else {
        (StopReason::Error, Some("Provider finish_reason: "@ + reason))
    }
}

/// Why a turn ends, in the words of the provider: the reason, and the error that it is.
pub fn map_stop_reason(reason: &str) -> (r: (StopReason, Option<String>))
    ensures
        (r.0, r.1.deep_view()) == stop_of(reason@),
{
    if same(reason, "stop") || same(reason, "end") {
        (StopReason::Stop, None)
    } else if same(reason, "length") {
        (StopReason::Length, None)
    } else if same(reason, "function_call") || same(reason, "tool_calls") {
        (StopReason::ToolUse, None)
    } else {
        (StopReason::Error, Some(concat("Provider finish_reason: ", reason)))
    }
}

/// Whether a text is there and not empty.
pub open spec fn filled(s: Option<Seq<char>>) -> bool {
    s is Some && s->Some_0.len() > 0
}

fn is_filled(s: &Option<String>) -> (r: bool)
    ensures
        r == filled(s.deep_view()),
{
    match s {
        Some(s) => !s.as_str().is_empty(),
        None => false,
    }
}

/// The usage of a turn after a chunk that reports some: what can be counted exactly, or else what
/// was measured elsewhere.
pub open spec fn usage_or(raw: RawUsageV, measured: UsageV) -> UsageV {
    match chunk_usage(raw) {
        Some(usage) => usage,
        None => measured,
    }
}

/// The usage that a chunk reports: its own, or else that of its first choice.
pub open spec fn reported(chunk: RawChunkV) -> Option<RawUsageV> {
    match chunk.usage {
        Some(usage) => Some(usage),
        None => if chunk.choices.len() > 0 {
            chunk.choices[0].usage
        } else {
            None
        },
    }
}

/// What a chunk says of the response as a whole.
pub open spec fn headed(
    output: AssistantMessageV,
    model: ModelV,
    chunk: RawChunkV,
    measured: UsageV,
) -> AssistantMessageV {
    AssistantMessageV {
        response_id: if !filled(output.response_id) && chunk.id is Some {
            chunk.id
        } else {
            output.response_id
        },
        response_model: if output.response_model is None && filled(chunk.model)
            && chunk.model->Some_0 != model.id {
            chunk.model
        } else {
            output.response_model
        },
        usage: match reported(chunk) {
            Some(raw) => usage_or(raw, measured),
            None => output.usage,
        },
        ..output
    }
}

/// What the reason why a turn ends makes of it.
pub open spec fn ended(s: CompletionsStreamV, reason: Option<Seq<char>>) -> CompletionsStreamV {
    if filled(reason) {
        let (stop_reason, error_message) = stop_of(reason->Some_0);
        CompletionsStreamV {
            output: AssistantMessageV {
                raw_stop_reason: reason,
                stop_reason,
                error_message,
                ..s.output
            },
            has_finish_reason: true,
            ..s
        }
    } else {
        s
    }
}

/// The stream with a block for text.
pub open spec fn with_text_block(s: CompletionsStreamV) -> CompletionsStreamV {
    if s.text_index is Some {
        s
    } else {
        let index = s.output.content.len() as usize;
        told(
            CompletionsStreamV {
                text_index: Some(index),
                ..with_new_block(s, AssistantContentV::Text(plain_text(Seq::empty())))
            },
            AssistantMessageEventV::TextStart { content_index: index },
        )
    }
}

/// More text.
pub open spec fn text_step(s: CompletionsStreamV, content: Option<Seq<char>>) -> Step {
    if filled(content) {
        let open = with_text_block(s);
        let index = open.text_index->Some_0;
        if text_at(open.output, index) is Some {
            (
                told(
                    with_output(open, more_text(open.output, index, content->Some_0)),
                    AssistantMessageEventV::TextDelta {
                        content_index: index,
                        delta: content->Some_0,
                    },
                ),
                None,
            )
        } else {
            (open, Some("text block state is invalid"@))
        }
    } else {
        (s, None)
    }
}

/// The stream with a block for reasoning, which remembers the field that the reasoning came in.
pub open spec fn with_thinking_block(s: CompletionsStreamV, field: Seq<char>) -> CompletionsStreamV {
    if s.thinking_index is Some {
        s
    } else {
        let index = s.output.content.len() as usize;
        told(
            CompletionsStreamV {
                thinking_index: Some(index),
                ..with_new_block(
                    s,
                    AssistantContentV::Thinking(
                        ThinkingContentV {
                            thinking: Seq::empty(),
                            thinking_signature: Some(field),
                            redacted: None,
                        },
                    ),
                )
            },
            AssistantMessageEventV::ThinkingStart {
                content_index: index,
                thinking_signature: Some(field),
            },
        )
    }
}

/// The reasoning of a delta and the field that it is replayed in: the first of the fields that
/// providers use.
pub open spec fn reasoning_of(delta: RawDeltaV, model: ModelV) -> Option<(Seq<char>, Seq<char>)> {
    if filled(delta.reasoning_content) {
        Some(("reasoning_content"@, delta.reasoning_content->Some_0))
    } else if filled(delta.reasoning) {
        Some(
            (
                if model.provider == "opencode-go"@ {
                    "reasoning_content"@
                } else {
                    "reasoning"@
                },
                delta.reasoning->Some_0,
            ),
        )
    } else if filled(delta.reasoning_text) {
        Some(("reasoning_text"@, delta.reasoning_text->Some_0))
    } else {
        None
    }
}

/// More reasoning.
pub open spec fn thinking_step(s: CompletionsStreamV, delta: RawDeltaV, model: ModelV) -> Step {
    match reasoning_of(delta, model) {
        Some((field, text)) => {
            let open = with_thinking_block(s, field);
            let index = open.thinking_index->Some_0;
            if thinking_at(open.output, index) is Some {
                (
                    told(
                        with_output(open, more_thinking(open.output, index, text)),
                        AssistantMessageEventV::ThinkingDelta { content_index: index, delta: text },
                    ),
                    None,
                )
            } else {
                (open, Some("thinking block state is invalid"@))
            }
        },
        None => (s, None),
    }
}

/// The name of the tool that a delta calls.
pub open spec fn called_name(delta: RawToolCallDeltaV) -> Seq<char> {
    match (delta.function, delta.custom) {
        (Some(function), _) if function.name is Some => function.name->Some_0,
        (_, Some(custom)) if custom.name is Some => custom.name->Some_0,
        _ => Seq::empty(),
    }
}

/// The block of the call that a delta goes on with.
pub open spec fn known_call(s: CompletionsStreamV, delta: RawToolCallDeltaV) -> Option<usize> {
    let by_index = match delta.index {
        Some(index) => lookup(s.tool_by_stream_index, index),
        None => None,
    };
    match (by_index, delta.id) {
        (Some(index), _) => Some(index),
        (None, Some(id)) => lookup(s.tool_by_id, id),
        (None, None) => None,
    }
}

/// Whether a delta is one of a custom tool alone.
pub open spec fn custom_only(delta: RawToolCallDeltaV) -> bool {
    delta.custom is Some && delta.function is None
}

/// The argument that holds the input of a custom tool.
pub open spec fn input_property(properties: Seq<(Seq<char>, Seq<char>)>, name: Seq<char>) -> Seq<
    char,
> {
    match lookup(properties, name) {
        Some(property) => property,
        None => "input"@,
    }
}

/// An input of which nothing has come.
pub open spec fn no_input(property: Seq<char>) -> CustomInputScratchV {
    CustomInputScratchV { property, json_buffer: Seq::empty() }
}

/// A text that may be missing.
pub open spec fn or_empty(s: Option<Seq<char>>) -> Seq<char> {
    match s {
        Some(s) => s,
        None => Seq::empty(),
    }
}

/// The stream with the block of a call known by the index and the identifier of a delta.
pub open spec fn named_by(
    s: CompletionsStreamV,
    delta: RawToolCallDeltaV,
    at: usize,
) -> CompletionsStreamV {
    CompletionsStreamV {
        tool_by_stream_index: match delta.index {
            Some(index) => put(s.tool_by_stream_index, index, at),
            None => s.tool_by_stream_index,
        },
        tool_by_id: match delta.id {
            Some(id) => put(s.tool_by_id, id, at),
            None => s.tool_by_id,
        },
        ..s
    }
}

/// The stream with a block for the call that a delta begins.
pub open spec fn with_call_block(
    s: CompletionsStreamV,
    delta: RawToolCallDeltaV,
    properties: Seq<(Seq<char>, Seq<char>)>,
) -> CompletionsStreamV {
    let index = s.output.content.len() as usize;
    let name = called_name(delta);
    let property = input_property(properties, name);
    let call = ToolCallV {
        id: or_empty(delta.id),
        name,
        arguments: if custom_only(delta) {
            input_arguments(property, Seq::empty())
        } else {
            JsonV::Object(Seq::empty())
        },
        thought_signature: None,
        namespace: None,
    };
    let scratch = ToolScratchV {
        partial_args: Seq::empty(),
        custom_input: if custom_only(delta) {
            Some(no_input(property))
        } else {
            None
        },
    };
    let open = with_new_block(s, AssistantContentV::ToolCall(call));
    told(
        CompletionsStreamV { tool_scratch: put(open.tool_scratch, index as u64, scratch), ..open },
        AssistantMessageEventV::ToolCallStart {
            content_index: index,
            id: call.id,
            tool_name: name,
            namespace: None,
        },
    )
}

/// A call with what a delta says of it: an identifier and a name where it has none.
pub open spec fn identified(call: ToolCallV, delta: RawToolCallDeltaV) -> ToolCallV {
    let id = if call.id.len() == 0 && delta.id is Some {
        delta.id->Some_0
    } else {
        call.id
    };
    let name = if call.name.len() == 0 {
        called_name(delta)
    } else {
        call.name
    };
    ToolCallV { id, name, ..call }
}

/// The stream and the call once encrypted reasoning that waited for the call has reached it.
pub open spec fn joined_details(s: CompletionsStreamV, call: ToolCallV) -> (
    CompletionsStreamV,
    ToolCallV,
) {
    match lookup(s.pending_details, call.id) {
        Some(details) => (
            CompletionsStreamV { pending_details: removed(s.pending_details, call.id), ..s },
            ToolCallV { thought_signature: Some(details), ..call },
        ),
        None => (s, call),
    }
}

/// The call and what is kept of it, made ready for the input of a custom tool where a delta brings
/// such input first.
pub open spec fn made_custom(
    call: ToolCallV,
    scratch: ToolScratchV,
    delta: RawToolCallDeltaV,
    properties: Seq<(Seq<char>, Seq<char>)>,
) -> (ToolCallV, ToolScratchV) {
    if custom_only(delta) && scratch.custom_input is None {
        let property = input_property(properties, call.name);
        (
            ToolCallV { arguments: input_arguments(property, Seq::empty()), ..call },
            ToolScratchV { partial_args: Seq::empty(), custom_input: Some(no_input(property)) },
        )
    } else {
        (call, scratch)
    }
}

/// The call and what is kept of it after the arguments or the input of a delta, and what the
/// listener is told of them, or why they fail.
pub open spec fn extended<P: StreamingJson>(
    call: ToolCallV,
    scratch: ToolScratchV,
    delta: RawToolCallDeltaV,
    parser: &P,
) -> (ToolCallV, ToolScratchV, Result<Seq<char>, Seq<char>>) {
    let arguments = match delta.function {
        Some(function) => function.arguments,
        None => None,
    };
    let input = match delta.custom {
        Some(custom) => custom.input,
        None => None,
    };
    if filled(arguments) {
        let partial_args = scratch.partial_args + arguments->Some_0;
        (
            ToolCallV { arguments: parser.reading(partial_args), ..call },
            ToolScratchV { partial_args, ..scratch },
            Ok(arguments->Some_0),
        )
    } else if filled(input) {
        match scratch.custom_input {
            None => (call, scratch, Err("custom tool-call state is invalid"@)),
            Some(custom) => {
                let next = or_empty(text_of(member(call.arguments, custom.property)))
                    + input->Some_0;
                match input_delta(custom.json_buffer, custom.property, next, false) {
                    (sent, Ok(told)) => (
                        ToolCallV { arguments: input_arguments(custom.property, next), ..call },
                        ToolScratchV {
                            custom_input: Some(CustomInputScratchV { json_buffer: sent, ..custom }),
                            ..scratch
                        },
                        Ok(or_empty(told)),
                    ),
                    (_, Err(e)) => (call, scratch, Err(e)),
                }
            },
        }
    } else {
        (call, scratch, Ok(Seq::empty()))
    }
}

/// What is kept of the call at a block; nothing where it is new.
pub open spec fn scratch_at(s: CompletionsStreamV, at: usize) -> ToolScratchV {
    match lookup(s.tool_scratch, at as u64) {
        Some(scratch) => scratch,
        None => ToolScratchV { partial_args: Seq::empty(), custom_input: None },
    }
}

/// The stream with another call at a block, and something else kept of it.
pub open spec fn with_call(
    s: CompletionsStreamV,
    at: usize,
    call: ToolCallV,
    scratch: ToolScratchV,
) -> CompletionsStreamV {
    CompletionsStreamV {
        output: with_block(s.output, at as int, AssistantContentV::ToolCall(call)),
        tool_scratch: put(s.tool_scratch, at as u64, scratch),
        ..s
    }
}

/// A delta of the call at a block.
#[verifier::opaque]
pub open spec fn call_step<P: StreamingJson>(
    s: CompletionsStreamV,
    at: usize,
    delta: RawToolCallDeltaV,
    properties: Seq<(Seq<char>, Seq<char>)>,
    parser: &P,
) -> Step {
    let named = named_by(s, delta, at);
    match call_at(named.output, at) {
        None => (named, Some("tool-call block state is invalid"@)),
        Some(call) => {
            let (joint, call) = joined_details(named, identified(call, delta));
            let (call, scratch) = made_custom(call, scratch_at(joint, at), delta, properties);
            let (call, scratch, emitted) = extended(call, scratch, delta, parser);
            let next = with_call(joint, at, call, scratch);
            match emitted {
                Ok(text) => (
                    told(
                        next,
                        AssistantMessageEventV::ToolCallDelta { content_index: at, delta: text },
                    ),
                    None,
                ),
                Err(e) => (next, Some(e)),
            }
        },
    }
}

/// More of a call.
pub open spec fn tool_step<P: StreamingJson>(
    s: CompletionsStreamV,
    delta: RawToolCallDeltaV,
    properties: Seq<(Seq<char>, Seq<char>)>,
    parser: &P,
) -> Step {
    match known_call(s, delta) {
        Some(at) => call_step(s, at, delta, properties, parser),
        None => call_step(
            with_call_block(s, delta, properties),
            s.output.content.len() as usize,
            delta,
            properties,
            parser,
        ),
    }
}

/// More of several calls, up to the first failure.
pub open spec fn tool_steps<P: StreamingJson>(
    s: CompletionsStreamV,
    deltas: Seq<RawToolCallDeltaV>,
    properties: Seq<(Seq<char>, Seq<char>)>,
    parser: &P,
) -> Step
    decreases deltas.len(),
{
    if deltas.len() == 0 {
        (s, None)
    } else {
        match tool_step(s, deltas[0], properties, parser) {
            (next, None) => tool_steps(next, deltas.drop_first(), properties, parser),
            failed => failed,
        }
    }
}

/// A message with another signature of the call at a block.
pub open spec fn with_signature(output: AssistantMessageV, at: usize, signature: Seq<char>) -> AssistantMessageV {
    match call_at(output, at) {
        Some(call) => with_block(
            output,
            at as int,
            AssistantContentV::ToolCall(
                ToolCallV { thought_signature: Some(signature), ..call },
            ),
        ),
        None => output,
    }
}

/// A detail of reasoning: it is kept with the turn, and encrypted reasoning also with its call.
pub open spec fn detail_step(s: CompletionsStreamV, detail: JsonV) -> CompletionsStreamV {
    if !is_detail(detail) {
        s
    } else {
        let kept = with_output(
            s,
            AssistantMessageV {
                reasoning_details: Some(
                    match s.output.reasoning_details {
                        Some(details) => details.push(detail),
                        None => seq![detail],
                    },
                ),
                ..s.output
            },
        );
        match encrypted(detail) {
            Some((id, text)) => match lookup(s.tool_by_id, id) {
                Some(at) => with_output(kept, with_signature(kept.output, at, text)),
                None => CompletionsStreamV {
                    pending_details: put(s.pending_details, id, text),
                    ..kept
                },
            },
            None => kept,
        }
    }
}

/// Several details of reasoning.
pub open spec fn detail_steps(s: CompletionsStreamV, details: Seq<JsonV>) -> CompletionsStreamV
    decreases details.len(),
{
    if details.len() == 0 {
        s
    } else {
        detail_step(detail_steps(s, details.drop_last()), details.last())
    }
}

/// More of a turn: text, reasoning, calls and details of reasoning, up to the first failure.
pub open spec fn delta_step<P: StreamingJson>(
    s: CompletionsStreamV,
    delta: RawDeltaV,
    model: ModelV,
    properties: Seq<(Seq<char>, Seq<char>)>,
    parser: &P,
) -> Step {
    match text_step(s, delta.content) {
        (spoken, None) => match thinking_step(spoken, delta, model) {
            (thought, None) => match tool_steps(thought, delta.tool_calls, properties, parser) {
                (called, None) => (detail_steps(called, delta.reasoning_details), None),
                failed => failed,
            },
            failed => failed,
        },
        failed => failed,
    }
}

/// What a chunk makes of the stream, where `measured` is its usage if that cannot be counted
/// exactly.
pub open spec fn chunk_step<P: StreamingJson>(
    s: CompletionsStreamV,
    model: ModelV,
    chunk: RawChunkV,
    measured: UsageV,
    properties: Seq<(Seq<char>, Seq<char>)>,
    parser: &P,
) -> Step {
    let head = with_output(s, headed(s.output, model, chunk, measured));
    if chunk.choices.len() == 0 {
        (head, None)
    } else {
        let choice = chunk.choices[0];
        let end = ended(head, choice.finish_reason);
        match choice.delta {
            Some(delta) => delta_step(end, delta, model, properties, parser),
            None => (end, None),
        }
    }
}

/// What a function that changes the stream has done.
pub open spec fn step_of(stream: CompletionsStreamV, r: Result<(), String>) -> Step {
    (
        stream,
        match r {
            Ok(_) => None,
            Err(e) => Some(e@),
        },
    )
}

impl CompletionsStream {
    /// The stream of a turn that has brought nothing.
    pub fn new(output: AssistantMessage) -> (r: Self)
        ensures
            r@ == (CompletionsStreamV {
                output: output@,
                text_index: None,
                thinking_index: None,
                has_finish_reason: false,
                tool_by_stream_index: Seq::empty(),
                tool_by_id: Seq::empty(),
                tool_scratch: Seq::empty(),
                pending_details: Seq::empty(),
                events: Seq::empty(),
            }),
    {
        let r = CompletionsStream {
            output,
            text_index: None,
            thinking_index: None,
            has_finish_reason: false,
            tool_by_stream_index: Vec::new(),
            tool_by_id: Vec::new(),
            tool_scratch: Vec::new(),
            pending_details: Vec::new(),
            events: Vec::new(),
        };
        assert(r.tool_by_stream_index.deep_view() =~= Seq::empty());
        assert(r.tool_by_id.deep_view() =~= Seq::empty());
        assert(r.tool_scratch.deep_view() =~= Seq::empty());
        assert(r.pending_details.deep_view() =~= Seq::empty());
        assert(r.events.deep_view() =~= Seq::empty());
        r
    }

    fn tell(&mut self, event: AssistantMessageEvent)
        ensures
            final(self)@ == told(old(self)@, event@),
    {
        let ghost before = self.events.deep_view();
        self.events.push(event);
        assert(self.events.deep_view() =~= before.push(event@));
    }

    fn push_block(&mut self, block: AssistantContent) -> (r: usize)
        ensures
            final(self)@ == with_new_block(old(self)@, block@),
            r == old(self)@.output.content.len(),
    {
        let ghost before = self.output.content.deep_view();
        let r = self.output.content.len();
        self.output.content.push(block);
        assert(self.output.content.deep_view() =~= before.push(block@));
        r
    }

    fn head(&mut self, model: &Model, chunk: &RawChunk, measured: &Usage)
        ensures
            final(self)@ == with_output(
                old(self)@,
                headed(old(self)@.output, model@, chunk@, measured@),
            ),
    {
        if !is_filled(&self.output.response_id) && chunk.id.is_some() {
            self.output.response_id = chunk.id.clone();
        }
        if self.output.response_model.is_none() {
            if let Some(name) = &chunk.model {
                if !name.as_str().is_empty() && !same(name.as_str(), model.id.as_str()) {
                    self.output.response_model = Some(name.clone());
                }
            }
        }
        let raw = match &chunk.usage {
            Some(usage) => Some(usage),
            None => if chunk.choices.len() > 0 {
                match &chunk.choices[0].usage {
                    Some(usage) => Some(usage),
                    None => None,
                }
            } else {
                None
            },
        };
        if let Some(raw) = raw {
            self.output.usage = match parse_chunk_usage(raw) {
                Some(usage) => usage,
                None => measured.clone(),
            };
        }
    }

    fn end(&mut self, reason: &Option<String>)
        ensures
            final(self)@ == ended(old(self)@, reason.deep_view()),
    {
        if let Some(reason) = reason {
            if !reason.as_str().is_empty() {
                let (stop_reason, error_message) = map_stop_reason(reason.as_str());
                self.output.raw_stop_reason = Some(reason.clone());
                self.output.stop_reason = stop_reason;
                self.output.error_message = error_message;
                self.has_finish_reason = true;
            }
        }
    }

    fn ensure_text_block(&mut self) -> (r: usize)
        ensures
            final(self)@ == with_text_block(old(self)@),
            final(self)@.text_index == Some(r),
    {
        match self.text_index {
            Some(index) => index,
            None => {
                let index = self.push_block(AssistantContent::Text(TextContent::new("")));
                proof {
                    reveal_strlit("");
                    assert(""@ =~= Seq::empty());
                }
                self.text_index = Some(index);
                self.tell(AssistantMessageEvent::TextStart { content_index: index });
                index
            },
        }
    }

    fn add_text(&mut self, content: &Option<String>) -> (r: Result<(), String>)
        ensures
            step_of(final(self)@, r) == text_step(old(self)@, content.deep_view()),
    {
        if let Some(text) = content {
            if !text.as_str().is_empty() {
                let index = self.ensure_text_block();
                let present = if index < self.output.content.len() {
                    match &self.output.content[index] {
                        AssistantContent::Text(_) => true,
                        _ => false,
                    }
                } else {
                    false
                };
                if !present {
                    return Err("text block state is invalid".to_owned());
                }
                append_text(&mut self.output, index, text.as_str());
                self.tell(
                    AssistantMessageEvent::TextDelta { content_index: index, delta: text.clone() },
                );
            }
        }
        Ok(())
    }

    fn ensure_thinking_block(&mut self, field: &str) -> (r: usize)
        ensures
            final(self)@ == with_thinking_block(old(self)@, field@),
            final(self)@.thinking_index == Some(r),
    {
        match self.thinking_index {
            Some(index) => index,
            None => {
                let block = ThinkingContent {
                    thinking: String::new(),
                    thinking_signature: Some(field.to_owned()),
                    redacted: None,
                };
                assert(block@.thinking =~= Seq::empty());
                let index = self.push_block(AssistantContent::Thinking(block));
                self.thinking_index = Some(index);
                self.tell(
                    AssistantMessageEvent::ThinkingStart {
                        content_index: index,
                        thinking_signature: Some(field.to_owned()),
                    },
                );
                index
            },
        }
    }

    fn add_thinking(&mut self, delta: &RawDelta, model: &Model) -> (r: Result<(), String>)
        ensures
            step_of(final(self)@, r) == thinking_step(old(self)@, delta@, model@),
    {
        if let Some((field, text)) = find_reasoning(delta, model) {
            let index = self.ensure_thinking_block(field.as_str());
            let present = if index < self.output.content.len() {
                match &self.output.content[index] {
                    AssistantContent::Thinking(_) => true,
                    _ => false,
                }
            } else {
                false
            };
            if !present {
                return Err("thinking block state is invalid".to_owned());
            }
            append_thinking(&mut self.output, index, text.as_str());
            self.tell(AssistantMessageEvent::ThinkingDelta { content_index: index, delta: text });
        }
        Ok(())
    }
}

fn find_reasoning(delta: &RawDelta, model: &Model) -> (r: Option<(String, String)>)
    ensures
        r.deep_view() == reasoning_of(delta@, model@),
{
    if let Some(text) = &delta.reasoning_content {
        if !text.as_str().is_empty() {
            return Some(("reasoning_content".to_owned(), text.clone()));
        }
    }
    if let Some(text) = &delta.reasoning {
        if !text.as_str().is_empty() {
            let field = if same(model.provider.as_str(), "opencode-go") {
                "reasoning_content".to_owned()
            } else {
                "reasoning".to_owned()
            };
            return Some((field, text.clone()));
        }
    }
    if let Some(text) = &delta.reasoning_text {
        if !text.as_str().is_empty() {
            return Some(("reasoning_text".to_owned(), text.clone()));
        }
    }
    None
}

fn find_called_name(delta: &RawToolCallDelta) -> (r: String)
    ensures
        r@ == called_name(delta@),
{
    if let Some(function) = &delta.function {
        if let Some(name) = &function.name {
            return name.clone();
        }
    }
    if let Some(custom) = &delta.custom {
        if let Some(name) = &custom.name {
            return name.clone();
        }
    }
    let r = String::new();
    assert(r@ =~= Seq::empty());
    r
}

fn find_input_property(properties: &InputProperties, name: &str) -> (r: String)
    ensures
        r@ == input_property(properties.deep_view(), name@),
{
    match assoc::get(properties, name) {
        Some(property) => property.clone(),
        None => "input".to_owned(),
    }
}

fn text_or_empty(s: &Option<String>) -> (r: String)
    ensures
        r@ == or_empty(s.deep_view()),
{
    match s {
        Some(s) => s.clone(),
        None => {
            let r = String::new();
            assert(r@ =~= Seq::empty());
            r
        },
    }
}

fn start_input(property: &str) -> (r: CustomInputScratch)
    ensures
        r@ == no_input(property@),
{
    CustomInputScratch {
        property: property.to_owned(),
        json_buffer: GrammarToolInputJsonBuffer::default(),
    }
}

fn start_arguments(property: &str) -> (r: Json)
    ensures
        r@ == input_arguments(property@, Seq::empty()),
{
    proof {
        reveal_strlit("");
        assert(""@ =~= Seq::empty());
    }
    make_input_arguments(property, "")
}

fn extend_call<P: StreamingJson>(
    call: &mut ToolCall,
    scratch: &mut ToolScratch,
    delta: &RawToolCallDelta,
    parser: &P,
) -> (r: Result<String, String>)
    ensures
        (final(call)@, final(scratch)@, crate::constrained_sampling::outcome(r)) == extended(
            old(call)@,
            old(scratch)@,
            delta@,
            parser,
        ),
{
    let arguments = match &delta.function {
        Some(function) => &function.arguments,
        None => &None,
    };
    if let Some(arguments) = arguments {
        if !arguments.as_str().is_empty() {
            scratch.partial_args.push_str(arguments.as_str());
            call.arguments = parser.parse_streaming_json(scratch.partial_args.as_str());
            return Ok(arguments.clone());
        }
    }
    let input = match &delta.custom {
        Some(custom) => &custom.input,
        None => &None,
    };
    if let Some(input) = input {
        if !input.as_str().is_empty() {
            let custom = match &scratch.custom_input {
                Some(custom) => custom,
                None => {
                    return Err("custom tool-call state is invalid".to_owned());
                },
            };
            let property = custom.property.clone();
            let current = text_or_empty(&call.arguments.text(property.as_str()));
            let next = concat(current.as_str(), input.as_str());
            let mut buffer = custom.json_buffer.clone();
            return match append_grammar_tool_input_json_delta(
                &mut buffer,
                property.as_str(),
                next.as_str(),
                false,
            ) {
                Ok(told) => {
                    call.arguments = make_input_arguments(property.as_str(), next.as_str());
                    scratch.custom_input = Some(
                        CustomInputScratch { property, json_buffer: buffer },
                    );
                    Ok(text_or_empty(&told))
                },
                Err(e) => Err(e),
            };
        }
    }
    let r = String::new();
    assert(r@ =~= Seq::empty());
    Ok(r)
}

fn find_scratch(list: &Vec<(u64, ToolScratch)>, at: usize) -> (r: ToolScratch)
    ensures
        r@ == match lookup(list.deep_view(), at as u64) {
            Some(scratch) => scratch,
            None => ToolScratchV { partial_args: Seq::empty(), custom_input: None },
        },
{
    let i = assoc::find_number(list, at as u64);
    if i < list.len() {
        list[i].1.clone()
    } else {
        let r = ToolScratch::default();
        assert(r@.partial_args =~= Seq::empty());
        r
    }
}

impl CompletionsStream {
    fn name_call(&mut self, delta: &RawToolCallDelta, at: usize)
        ensures
            final(self)@ == named_by(old(self)@, delta@, at),
    {
        if let Some(index) = delta.index {
            assoc::insert_number(&mut self.tool_by_stream_index, index, at);
        }
        if let Some(id) = &delta.id {
            assoc::insert(&mut self.tool_by_id, id.clone(), at);
        }
    }

    fn find_call(&self, delta: &RawToolCallDelta) -> (r: Option<usize>)
        ensures
            r == known_call(self@, delta@),
    {
        if let Some(index) = delta.index {
            let i = assoc::find_number(&self.tool_by_stream_index, index);
            if i < self.tool_by_stream_index.len() {
                return Some(self.tool_by_stream_index[i].1);
            }
        }
        if let Some(id) = &delta.id {
            if let Some(at) = assoc::get(&self.tool_by_id, id.as_str()) {
                return Some(*at);
            }
        }
        None
    }

    fn open_call(&mut self, delta: &RawToolCallDelta, properties: &InputProperties) -> (r: usize)
        ensures
            final(self)@ == with_call_block(old(self)@, delta@, properties.deep_view()),
            r == old(self)@.output.content.len(),
    {
        let name = find_called_name(delta);
        let property = find_input_property(properties, name.as_str());
        let custom = delta.custom.is_some() && delta.function.is_none();
        let id = text_or_empty(&delta.id);
        let call = ToolCall {
            id: id.clone(),
            name: name.clone(),
            arguments: if custom {
                start_arguments(property.as_str())
            } else {
                empty_object()
            },
            thought_signature: None,
            namespace: None,
        };
        let scratch = ToolScratch {
            partial_args: String::new(),
            custom_input: if custom {
                Some(start_input(property.as_str()))
            } else {
                None
            },
        };
        assert(scratch@.partial_args =~= Seq::empty());
        let index = self.push_block(AssistantContent::ToolCall(call));
        assoc::insert_number(&mut self.tool_scratch, index as u64, scratch);
        self.tell(
            AssistantMessageEvent::ToolCallStart {
                content_index: index,
                id,
                tool_name: name,
                namespace: None,
            },
        );
        index
    }

    fn continue_call<P: StreamingJson>(
        &mut self,
        at: usize,
        delta: &RawToolCallDelta,
        properties: &InputProperties,
        parser: &P,
    ) -> (r: Result<(), String>)
        ensures
            step_of(final(self)@, r) == call_step(
                old(self)@,
                at,
                delta@,
                properties.deep_view(),
                parser,
            ),
    {
        proof {
            reveal(call_step);
        }
        self.name_call(delta, at);
        let ghost named = self@;
        let mut call = if at < self.output.content.len() {
            match &self.output.content[at] {
                AssistantContent::ToolCall(call) => call.clone(),
                _ => {
                    return Err("tool-call block state is invalid".to_owned());
                },
            }
        } else {
            return Err("tool-call block state is invalid".to_owned());
        };
        if call.id.as_str().is_empty() {
            if let Some(id) = &delta.id {
                call.id = id.clone();
            }
        }
        if call.name.as_str().is_empty() {
            call.name = find_called_name(delta);
        }
        let i = assoc::find(&self.pending_details, call.id.as_str());
        if i < self.pending_details.len() {
            call.thought_signature = Some(self.pending_details[i].1.clone());
            assoc::remove(&mut self.pending_details, call.id.as_str());
        }
        let mut scratch = find_scratch(&self.tool_scratch, at);
        if delta.custom.is_some() && delta.function.is_none() && scratch.custom_input.is_none() {
            let property = find_input_property(properties, call.name.as_str());
            call.arguments = start_arguments(property.as_str());
            let none = String::new();
            assert(none@ =~= Seq::empty());
            scratch = ToolScratch {
                partial_args: none,
                custom_input: Some(start_input(property.as_str())),
            };
        }
        let emitted = extend_call(&mut call, &mut scratch, delta, parser);
        let ghost last = call@;
        let ghost joint = self@;
        self.output.content.set(at, AssistantContent::ToolCall(call));
        assert(self.output@.content =~= joint.output.content.update(
            at as int,
            AssistantContentV::ToolCall(last),
        ));
        assoc::insert_number(&mut self.tool_scratch, at as u64, scratch);
        match emitted {
            Ok(text) => {
                self.tell(AssistantMessageEvent::ToolCallDelta { content_index: at, delta: text });
                Ok(())
            },
            Err(e) => Err(e),
        }
    }

    fn process_tool_delta<P: StreamingJson>(
        &mut self,
        delta: &RawToolCallDelta,
        properties: &InputProperties,
        parser: &P,
    ) -> (r: Result<(), String>)
        ensures
            step_of(final(self)@, r) == tool_step(
                old(self)@,
                delta@,
                properties.deep_view(),
                parser,
            ),
    {
        let at = match self.find_call(delta) {
            Some(at) => at,
            None => self.open_call(delta, properties),
        };
        self.continue_call(at, delta, properties, parser)
    }

    fn process_tool_deltas<P: StreamingJson>(
        &mut self,
        deltas: &Vec<RawToolCallDelta>,
        properties: &InputProperties,
        parser: &P,
    ) -> (r: Result<(), String>)
        ensures
            step_of(final(self)@, r) == tool_steps(
                old(self)@,
                deltas.deep_view(),
                properties.deep_view(),
                parser,
            ),
    {
        let ghost all = deltas.deep_view();
        let ghost props = properties.deep_view();
        let ghost start = self@;
        let mut i: usize = 0;
        assert(all.skip(0) =~= all);
        while i < deltas.len()
            invariant
                all == deltas.deep_view(),
                props == properties.deep_view(),
                start == old(self)@,
                i <= deltas@.len(),
                tool_steps(start, all, props, parser) == tool_steps(
                    self@,
                    all.skip(i as int),
                    props,
                    parser,
                ),
            decreases deltas@.len() - i,
        {
            assert(all.skip(i as int)[0] == deltas@[i as int]@);
            assert(all.skip(i as int).drop_first() =~= all.skip(i + 1));
            match self.process_tool_delta(&deltas[i], properties, parser) {
                Ok(_) => {},
                Err(e) => {
                    return Err(e);
                },
            }
            i += 1;
        }
        assert(all.skip(i as int) =~= Seq::empty());
        Ok(())
    }

    fn keep_detail(&mut self, detail: &Json)
        ensures
            final(self)@ == detail_step(old(self)@, detail@),
    {
        if !is_open_ai_reasoning_detail(detail) {
            return;
        }
        match &mut self.output.reasoning_details {
            Some(details) => {
                let ghost before = details.deep_view();
                details.push(detail.clone());
                assert(details.deep_view() =~= before.push(detail@));
            },
            None => {
                let mut details: Vec<Json> = Vec::new();
                details.push(detail.clone());
                assert(details.deep_view() =~= seq![detail@]);
                self.output.reasoning_details = Some(details);
            },
        }
        if let Some((id, text)) = encrypted_reasoning_detail(detail) {
            let ghost signature = text@;
            let i = assoc::find(&self.tool_by_id, id.as_str());
            if i < self.tool_by_id.len() {
                let at = self.tool_by_id[i].1;
                let ghost before = self.output@;
                if at < self.output.content.len() {
                    if let AssistantContent::ToolCall(call) = &mut self.output.content[at] {
                        call.thought_signature = Some(text);
                    }
                    assert(self.output@.content =~= with_signature(
                        before,
                        at,
                        signature,
                    ).content);
                }
            } else {
                assoc::insert(&mut self.pending_details, id, text);
            }
        }
    }

    fn keep_details(&mut self, details: &Vec<Json>)
        ensures
            final(self)@ == detail_steps(old(self)@, details.deep_view()),
    {
        let ghost all = details.deep_view();
        let ghost start = self@;
        let mut i: usize = 0;
        assert(all.take(0) =~= Seq::empty());
        while i < details.len()
            invariant
                all == details.deep_view(),
                start == old(self)@,
                i <= details@.len(),
                self@ == detail_steps(start, all.take(i as int)),
            decreases details@.len() - i,
        {
            assert(all.take(i + 1).drop_last() =~= all.take(i as int));
            assert(all.take(i + 1).last() == details@[i as int]@);
            self.keep_detail(&details[i]);
            i += 1;
        }
        assert(all.take(i as int) =~= all);
    }

    fn process_delta<P: StreamingJson>(
        &mut self,
        delta: &RawDelta,
        model: &Model,
        properties: &InputProperties,
        parser: &P,
    ) -> (r: Result<(), String>)
        ensures
            step_of(final(self)@, r) == delta_step(
                old(self)@,
                delta@,
                model@,
                properties.deep_view(),
                parser,
            ),
    {
        match self.add_text(&delta.content) {
            Ok(_) => {},
            Err(e) => {
                return Err(e);
            },
        }
        match self.add_thinking(delta, model) {
            Ok(_) => {},
            Err(e) => {
                return Err(e);
            },
        }
        match self.process_tool_deltas(&delta.tool_calls, properties, parser) {
            Ok(_) => {},
            Err(e) => {
                return Err(e);
            },
        }
        self.keep_details(&delta.reasoning_details);
        Ok(())
    }

    /// Takes a chunk of the stream. `measured` is the usage of the chunk where that cannot be
    /// counted exactly.
    pub fn process_chunk<P: StreamingJson>(
        &mut self,
        model: &Model,
        chunk: &RawChunk,
        measured: &Usage,
        properties: &InputProperties,
        parser: &P,
    ) -> (r: Result<(), String>)
        ensures
            step_of(final(self)@, r) == chunk_step(
                old(self)@,
                model@,
                chunk@,
                measured@,
                properties.deep_view(),
                parser,
            ),
    {
        self.head(model, chunk, measured);
        if chunk.choices.len() == 0 {
            return Ok(());
        }
        let choice = &chunk.choices[0];
        self.end(&choice.finish_reason);
        match &choice.delta {
            Some(delta) => self.process_delta(delta, model, properties, parser),
            None => Ok(()),
        }
    }
}

/// The end of the call at a block: what is still to be told of its input, or its arguments as they
/// are read when they are complete.
pub open spec fn closed_call<P: StreamingJson>(
    s: CompletionsStreamV,
    at: usize,
    call: ToolCallV,
    parser: &P,
) -> Step {
    match lookup(s.tool_scratch, at as u64) {
        Some(scratch) => match scratch.custom_input {
            Some(custom) => {
                let input = or_empty(text_of(member(call.arguments, custom.property)));
                let (sent, delta) = input_delta(custom.json_buffer, custom.property, input, true);
                let kept = CompletionsStreamV {
                    tool_scratch: put(
                        s.tool_scratch,
                        at as u64,
                        ToolScratchV {
                            custom_input: Some(
                                CustomInputScratchV { json_buffer: sent, ..custom },
                            ),
                            ..scratch
                        },
                    ),
                    ..s
                };
                match delta {
                    Ok(Some(text)) => (
                        told(
                            kept,
                            AssistantMessageEventV::ToolCallDelta {
                                content_index: at,
                                delta: text,
                            },
                        ),
                        None,
                    ),
                    Ok(None) => (kept, None),
                    Err(e) => (kept, Some(e)),
                }
            },
            None => (
                with_output(
                    s,
                    with_block(
                        s.output,
                        at as int,
                        AssistantContentV::ToolCall(
                            ToolCallV { arguments: parser.reading(scratch.partial_args), ..call },
                        ),
                    ),
                ),
                None,
            ),
        },
        None => (s, None),
    }
}

/// The end of a block.
#[verifier::opaque]
pub open spec fn block_finished<P: StreamingJson>(
    s: CompletionsStreamV,
    at: usize,
    parser: &P,
) -> Step {
    match s.output.content[at as int] {
        AssistantContentV::Text(t) => (
            told(
                s,
                AssistantMessageEventV::TextEnd {
                    content_index: at,
                    content: t.text,
                    content_signature: t.text_signature,
                },
            ),
            None,
        ),
        AssistantContentV::Thinking(t) => (
            told(
                s,
                AssistantMessageEventV::ThinkingEnd {
                    content_index: at,
                    content: t.thinking,
                    content_signature: t.thinking_signature,
                    redacted: t.redacted,
                },
            ),
            None,
        ),
        AssistantContentV::ToolCall(call) => match closed_call(s, at, call, parser) {
            (closed, None) => (
                told(
                    closed,
                    AssistantMessageEventV::ToolCallEnd {
                        content_index: at,
                        tool_call: call_at(closed.output, at)->Some_0,
                    },
                ),
                None,
            ),
            failed => failed,
        },
    }
}

/// The end of the first `n` blocks, up to the first failure.
pub open spec fn blocks_finished<P: StreamingJson>(
    s: CompletionsStreamV,
    n: nat,
    parser: &P,
) -> Step
    decreases n,
{
    if n == 0 {
        (s, None)
    } else {
        match blocks_finished(s, (n - 1) as nat, parser) {
            (before, None) => block_finished(before, (n - 1) as usize, parser),
            failed => failed,
        }
    }
}

proof fn lemma_finished_fail<P: StreamingJson>(s: CompletionsStreamV, k: nat, n: nat, parser: &P)
    requires
        k <= n,
        blocks_finished(s, k, parser).1 is Some,
    ensures
        blocks_finished(s, n, parser) == blocks_finished(s, k, parser),
    decreases n,
{
    if k < n {
        lemma_finished_fail(s, k, (n - 1) as nat, parser);
    }
}

proof fn lemma_finished_length<P: StreamingJson>(s: CompletionsStreamV, n: nat, parser: &P)
    requires
        n <= s.output.content.len(),
        s.output.content.len() <= usize::MAX,
    ensures
        blocks_finished(s, n, parser).0.output.content.len() == s.output.content.len(),
    decreases n,
{
    if n > 0 {
        lemma_finished_length(s, (n - 1) as nat, parser);
        reveal(block_finished);
    }
}

impl CompletionsStream {
    fn close_call<P: StreamingJson>(&mut self, at: usize, parser: &P) -> (r: Result<(), String>)
        requires
            at < old(self)@.output.content.len(),
            old(self)@.output.content[at as int] is ToolCall,
        ensures
            step_of(final(self)@, r) == closed_call(
                old(self)@,
                at,
                old(self)@.output.content[at as int]->ToolCall_0,
                parser,
            ),
    {
        let ghost before = self@;
        let i = assoc::find_number(&self.tool_scratch, at as u64);
        if i >= self.tool_scratch.len() {
            return Ok(());
        }
        let scratch = self.tool_scratch[i].1.clone();
        if let Some(custom) = &scratch.custom_input {
            let input = match &self.output.content[at] {
                AssistantContent::ToolCall(call) => text_or_empty(
                    &call.arguments.text(custom.property.as_str()),
                ),
                _ => String::new(),
            };
            let mut buffer = custom.json_buffer.clone();
            let delta = append_grammar_tool_input_json_delta(
                &mut buffer,
                custom.property.as_str(),
                input.as_str(),
                true,
            );
            let kept = ToolScratch {
                partial_args: scratch.partial_args.clone(),
                custom_input: Some(
                    CustomInputScratch { property: custom.property.clone(), json_buffer: buffer },
                ),
            };
            assoc::insert_number(&mut self.tool_scratch, at as u64, kept);
            return match delta {
                Ok(Some(text)) => {
                    self.tell(
                        AssistantMessageEvent::ToolCallDelta { content_index: at, delta: text },
                    );
                    Ok(())
                },
                Ok(None) => Ok(()),
                Err(e) => Err(e),
            };
        }
        let arguments = parser.parse_streaming_json(scratch.partial_args.as_str());
        let ghost read = arguments@;
        if let AssistantContent::ToolCall(call) = &mut self.output.content[at] {
            call.arguments = arguments;
        }
        assert(self.output@.content =~= before.output.content.update(
            at as int,
            AssistantContentV::ToolCall(
                ToolCallV { arguments: read, ..before.output.content[at as int]->ToolCall_0 },
            ),
        ));
        Ok(())
    }

    fn finish_block<P: StreamingJson>(&mut self, at: usize, parser: &P) -> (r: Result<(), String>)
        requires
            at < old(self)@.output.content.len(),
        ensures
            step_of(final(self)@, r) == block_finished(old(self)@, at, parser),
    {
        proof {
            reveal(block_finished);
        }
        let event = match &self.output.content[at] {
            AssistantContent::Text(t) => Some(
                AssistantMessageEvent::TextEnd {
                    content_index: at,
                    content: t.text.clone(),
                    content_signature: t.text_signature.clone(),
                },
            ),
            AssistantContent::Thinking(t) => Some(
                AssistantMessageEvent::ThinkingEnd {
                    content_index: at,
                    content: t.thinking.clone(),
                    content_signature: t.thinking_signature.clone(),
                    redacted: t.redacted,
                },
            ),
            AssistantContent::ToolCall(_) => None,
        };
        if let Some(event) = event {
            self.tell(event);
            return Ok(());
        }
        match self.close_call(at, parser) {
            Ok(_) => {},
            Err(e) => {
                return Err(e);
            },
        }
        if let AssistantContent::ToolCall(call) = &self.output.content[at] {
            let event = AssistantMessageEvent::ToolCallEnd {
                content_index: at,
                tool_call: call.clone(),
            };
            self.tell(event);
        }
        Ok(())
    }

    /// Ends every block of the turn.
    pub fn finish_blocks<P: StreamingJson>(&mut self, parser: &P) -> (r: Result<(), String>)
        ensures
            step_of(final(self)@, r) == blocks_finished(
                old(self)@,
                old(self)@.output.content.len(),
                parser,
            ),
    {
        let ghost start = self@;
        let n = self.output.content.len();
        let mut i: usize = 0;
        while i < n
            invariant
                start == old(self)@,
                n == start.output.content.len(),
                n == self@.output.content.len(),
                i <= n,
                blocks_finished(start, i as nat, parser) == (self@, None::<Seq<char>>),
            decreases n - i,
        {
            match self.finish_block(i, parser) {
                Ok(_) => {},
                Err(e) => {
                    proof {
                        lemma_finished_fail(start, (i + 1) as nat, n as nat, parser);
                    }
                    return Err(e);
                },
            }
            proof {
                lemma_finished_length(start, (i + 1) as nat, parser);
            }
            i += 1;
        }
        Ok(())
    }
}

} // verus!
