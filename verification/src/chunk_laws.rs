//! What each chunk of a chat-completions stream adds to the turn.
use crate::assoc::{lemma_put, lookup};
use crate::completions_chunks::{
    counted, raw_choice, raw_chunk, raw_delta, raw_usage,
    tool_delta, RawChunkV, RawDeltaV, RawToolCallDeltaV, RawUsageV,
};
use crate::completions_stream::{
    block_finished, call_step, chunk_step, delta_step, detail_step, detail_steps, headed, text_step,
    reported, thinking_step, tool_step, tool_steps, CompletionsStreamV,
};
use crate::completions_usage::{cached, chunk_usage, or_zero, written};
use crate::constrained_sampling::StreamingJson;
use crate::decode::items_of;
use crate::json::{json_text, member, text_of, JsonNumberV, JsonV};
use crate::text::{decimal, lemma_position};
use crate::types::{
    AssistantContentV, AssistantMessageEventV, AssistantMessageV, ModelV, StopReason,
    TextContentV, ThinkingContentV, ToolCallV, UsageV, UsageValueV,
};
use vstd::prelude::*;

verus! {

/// Whether all but the blocks and the reasoning details of two messages is the same.
pub open spec fn same_frame(a: AssistantMessageV, b: AssistantMessageV) -> bool {
    AssistantMessageV { content: b.content, reasoning_details: b.reasoning_details, ..a } == b
}

proof fn lemma_call_step_keeps_frame<P: StreamingJson>(
    s: CompletionsStreamV,
    at: usize,
    delta: RawToolCallDeltaV,
    properties: Seq<(Seq<char>, Seq<char>)>,
    parser: &P,
)
    ensures
        same_frame(s.output, call_step(s, at, delta, properties, parser).0.output),
        call_step(s, at, delta, properties, parser).0.has_finish_reason == s.has_finish_reason,
{
    reveal(call_step);
}

proof fn lemma_tool_steps_keep_frame<P: StreamingJson>(
    s: CompletionsStreamV,
    deltas: Seq<RawToolCallDeltaV>,
    properties: Seq<(Seq<char>, Seq<char>)>,
    parser: &P,
)
    ensures
        same_frame(s.output, tool_steps(s, deltas, properties, parser).0.output),
        tool_steps(s, deltas, properties, parser).0.has_finish_reason == s.has_finish_reason,
    decreases deltas.len(),
{
    if deltas.len() > 0 {
        let delta = deltas[0];
        let open = crate::completions_stream::with_call_block(s, delta, properties);
        lemma_call_step_keeps_frame(
            open,
            s.output.content.len() as usize,
            delta,
            properties,
            parser,
        );
        if let Some(at) = crate::completions_stream::known_call(s, delta) {
            lemma_call_step_keeps_frame(s, at, delta, properties, parser);
        }
        let (next, _) = tool_step(s, delta, properties, parser);
        lemma_tool_steps_keep_frame(next, deltas.drop_first(), properties, parser);
    }
}

proof fn lemma_detail_steps_keep_frame(s: CompletionsStreamV, details: Seq<JsonV>)
    ensures
        same_frame(s.output, detail_steps(s, details).output),
        detail_steps(s, details).has_finish_reason == s.has_finish_reason,
        detail_steps(s, details).events == s.events,
    decreases details.len(),
{
    if details.len() > 0 {
        lemma_detail_steps_keep_frame(s, details.drop_last());
    }
}

proof fn lemma_delta_keeps_frame<P: StreamingJson>(
    s: CompletionsStreamV,
    delta: RawDeltaV,
    model: ModelV,
    properties: Seq<(Seq<char>, Seq<char>)>,
    parser: &P,
)
    ensures
        same_frame(s.output, delta_step(s, delta, model, properties, parser).0.output),
        delta_step(s, delta, model, properties, parser).0.has_finish_reason
            == s.has_finish_reason,
{
    let (spoken, _) = text_step(s, delta.content);
    let (thought, _) = thinking_step(spoken, delta, model);
    lemma_tool_steps_keep_frame(thought, delta.tool_calls, properties, parser);
    let (called, _) = tool_steps(thought, delta.tool_calls, properties, parser);
    lemma_detail_steps_keep_frame(called, delta.reasoning_details);
}

/// The whole number that a member of an object is, if it is one.
pub open spec fn number_at(v: Option<JsonV>, key: Seq<char>) -> Option<u64> {
    match v {
        Some(v) => match member(v, key) {
            Some(JsonV::Number(JsonNumberV::Unsigned(n))) => Some(n),
            _ => None,
        },
        None => None,
    }
}

/// Whether a member is missing or a whole number.
pub open spec fn number_or_missing(v: JsonV, key: Seq<char>) -> bool {
    member(v, key) is Some ==> number_at(Some(v), key) is Some
}

/// A number, or zero where there is none.
pub open spec fn zero_or(n: Option<u64>) -> u64 {
    match n {
        Some(n) => n,
        None => 0,
    }
}

/// Whether a report of usage holds whole numbers only.
pub open spec fn whole_usage(usage: JsonV) -> bool {
    &&& usage is Object
    &&& number_or_missing(usage, "prompt_tokens"@)
    &&& number_or_missing(usage, "completion_tokens"@)
    &&& number_or_missing(usage, "cached_tokens"@)
    &&& number_or_missing(usage, "prompt_cache_hit_tokens"@)
    &&& member(usage, "prompt_tokens_details"@) matches Some(details) ==> {
        &&& details is Object
        &&& number_or_missing(details, "cached_tokens"@)
        &&& number_or_missing(details, "cache_write_tokens"@)
    }
    &&& member(usage, "completion_tokens_details"@) matches Some(details) ==> {
        &&& details is Object
        &&& number_or_missing(details, "reasoning_tokens"@)
    }
}

/// The tokens that a report says were read from a cache: by the details of the prompt, else by
/// `prompt_cache_hit_tokens`, else by `cached_tokens`.
pub open spec fn tokens_read(usage: JsonV) -> u64 {
    let detailed = number_at(member(usage, "prompt_tokens_details"@), "cached_tokens"@);
    let hit = number_at(Some(usage), "prompt_cache_hit_tokens"@);
    if detailed is Some {
        detailed->Some_0
    } else if hit is Some {
        hit->Some_0
    } else {
        zero_or(number_at(Some(usage), "cached_tokens"@))
    }
}

proof fn lemma_counted(v: JsonV, key: Seq<char>)
    requires
        number_or_missing(v, key),
    ensures
        crate::completions_chunks::may_count(member(v, key)),
        counted(member(v, key)) == match number_at(Some(v), key) {
            Some(n) => Some(UsageValueV::Count(n)),
            None => None,
        },
{
}

proof fn lemma_raw_usage(usage: JsonV)
    requires
        whole_usage(usage),
    ensures
        raw_usage(Some(usage)) matches Some(raw) && {
            &&& or_zero(raw.prompt_tokens) == UsageValueV::Count(
                zero_or(number_at(Some(usage), "prompt_tokens"@)),
            )
            &&& or_zero(raw.completion_tokens) == UsageValueV::Count(
                zero_or(number_at(Some(usage), "completion_tokens"@)),
            )
            &&& cached(raw) == UsageValueV::Count(tokens_read(usage))
            &&& written(raw) == UsageValueV::Count(
                zero_or(
                    number_at(member(usage, "prompt_tokens_details"@), "cache_write_tokens"@),
                ),
            )
            &&& or_zero(
                match raw.completion_tokens_details {
                    Some(details) => details.reasoning_tokens,
                    None => None,
                },
            ) == UsageValueV::Count(
                zero_or(
                    number_at(member(usage, "completion_tokens_details"@), "reasoning_tokens"@),
                ),
            )
        },
{
    lemma_counted(usage, "prompt_tokens"@);
    lemma_counted(usage, "completion_tokens"@);
    lemma_counted(usage, "cached_tokens"@);
    lemma_counted(usage, "prompt_cache_hit_tokens"@);
    if let Some(details) = member(usage, "prompt_tokens_details"@) {
        lemma_counted(details, "cached_tokens"@);
        lemma_counted(details, "cache_write_tokens"@);
    }
    if let Some(details) = member(usage, "completion_tokens_details"@) {
        lemma_counted(details, "reasoning_tokens"@);
    }
}

proof fn lemma_usage_of_chunk<P: StreamingJson>(
    s: CompletionsStreamV,
    model: ModelV,
    chunk: RawChunkV,
    measured: UsageV,
    properties: Seq<(Seq<char>, Seq<char>)>,
    parser: &P,
)
    ensures
        chunk_step(s, model, chunk, measured, properties, parser).0.output.usage == headed(
            s.output,
            model,
            chunk,
            measured,
        ).usage,
{
    if chunk.choices.len() > 0 {
        let head = CompletionsStreamV { output: headed(s.output, model, chunk, measured), ..s };
        let end = crate::completions_stream::ended(head, chunk.choices[0].finish_reason);
        if let Some(delta) = chunk.choices[0].delta {
            lemma_delta_keeps_frame(end, delta, model, properties, parser);
        }
    }
}

/// The usage of a chunk, or of its first choice where the chunk has none, is that of the turn: what
/// was read from a cache or written to one is no fresh input, and the total is the sum.
pub proof fn law_usage_is_taken<P: StreamingJson>(
    s: CompletionsStreamV,
    model: ModelV,
    v: JsonV,
    measured: UsageV,
    properties: Seq<(Seq<char>, Seq<char>)>,
    parser: &P,
    usage: JsonV,
)
    requires
        whole_usage(usage),
        member(v, "usage"@) == Some(usage) || (member(v, "usage"@) is None && (member(
            v,
            "choices"@,
        ) matches Some(JsonV::Array(choices)) && choices.len() > 0 && choices[0] is Object
            && member(choices[0], "usage"@) == Some(usage))),
        zero_or(number_at(Some(usage), "prompt_tokens"@)) + zero_or(
            number_at(Some(usage), "completion_tokens"@),
        ) + tokens_read(usage) + zero_or(
            number_at(member(usage, "prompt_tokens_details"@), "cache_write_tokens"@),
        ) <= 9007199254740992,
    ensures
        ({
            let prompt = zero_or(number_at(Some(usage), "prompt_tokens"@));
            let output = zero_or(number_at(Some(usage), "completion_tokens"@));
            let read = tokens_read(usage);
            let write = zero_or(
                number_at(member(usage, "prompt_tokens_details"@), "cache_write_tokens"@),
            );
            let reasoning = zero_or(
                number_at(member(usage, "completion_tokens_details"@), "reasoning_tokens"@),
            );
            let fresh = if read + write <= prompt {
                prompt - read - write
            } else {
                0
            };
            chunk_step(
                s,
                model,
                raw_chunk(v),
                measured,
                properties,
                parser,
            ).0.output.usage == UsageV {
                input: UsageValueV::Count(fresh as u64),
                output: UsageValueV::Count(output),
                cache_read: UsageValueV::Count(read),
                cache_write: UsageValueV::Count(write),
                reasoning: Some(UsageValueV::Count(reasoning)),
                total_tokens: UsageValueV::Count((fresh + output + read + write) as u64),
            }
        }),
{
    let chunk = raw_chunk(v);
    lemma_usage_of_chunk(s, model, chunk, measured, properties, parser);
    if member(v, "usage"@) is None {
        let choices = items_of(member(v, "choices"@));
        assert(chunk.choices[0] == raw_choice(choices[0]));
    }
    assert(reported(chunk) == raw_usage(Some(usage))) by {
        lemma_raw_usage(usage);
    }
    lemma_raw_usage(usage);
}

/// A chunk without usage leaves the usage of the turn as it was.
pub proof fn law_usage_stays<P: StreamingJson>(
    s: CompletionsStreamV,
    model: ModelV,
    chunk: RawChunkV,
    measured: UsageV,
    properties: Seq<(Seq<char>, Seq<char>)>,
    parser: &P,
)
    requires
        chunk.usage is None,
        chunk.choices.len() > 0 ==> chunk.choices[0].usage is None,
    ensures
        chunk_step(s, model, chunk, measured, properties, parser).0.output.usage
            == s.output.usage,
{
    lemma_usage_of_chunk(s, model, chunk, measured, properties, parser);
}

/// Whether `choice` is the first choice of a chunk.
pub open spec fn offers(v: JsonV, choice: JsonV) -> bool {
    &&& member(v, "choices"@) matches Some(JsonV::Array(choices)) && choices.len() > 0
        && choices[0] == choice
    &&& choice is Object
}

/// Whether a chunk says `delta` and nothing else.
pub open spec fn says(v: JsonV, delta: JsonV) -> bool {
    &&& v is Object
    &&& delta is Object
    &&& exists|choice: JsonV|
        #[trigger] offers(v, choice) && member(choice, "delta"@) == Some(delta) && member(
            choice,
            "finish_reason"@,
        ) is None
}

/// Whether a member of a delta is missing.
pub open spec fn lacks(delta: JsonV, key: Seq<char>) -> bool {
    member(delta, key) is None
}

/// The text of a member of a delta, if there is any.
pub open spec fn words(delta: JsonV, key: Seq<char>) -> Seq<char> {
    match member(delta, key) {
        Some(JsonV::Str(text)) => text,
        _ => Seq::empty(),
    }
}

proof fn lemma_offers(v: JsonV, choice: JsonV)
    requires
        offers(v, choice),
    ensures
        raw_chunk(v).choices.len() > 0,
        raw_chunk(v).choices[0] == raw_choice(choice),
{
    let choices = items_of(member(v, "choices"@));
    assert(choices[0] == choice);
}

proof fn lemma_says<P: StreamingJson>(
    s: CompletionsStreamV,
    model: ModelV,
    v: JsonV,
    measured: UsageV,
    properties: Seq<(Seq<char>, Seq<char>)>,
    parser: &P,
    delta: JsonV,
) -> (head: CompletionsStreamV)
    requires
        says(v, delta),
    ensures
        head == (CompletionsStreamV { output: head.output, ..s }),
        head.output == headed(s.output, model, raw_chunk(v), measured),
        head.output.content == s.output.content,
        head.output.reasoning_details == s.output.reasoning_details,
        chunk_step(s, model, raw_chunk(v), measured, properties, parser) == delta_step(
            head,
            raw_delta(Some(delta))->Some_0,
            model,
            properties,
            parser,
        ),
{
    let choice = choose|choice: JsonV|
        #[trigger] offers(v, choice) && member(choice, "delta"@) == Some(delta) && member(
            choice,
            "finish_reason"@,
        ) is None;
    lemma_offers(v, choice);
    CompletionsStreamV { output: headed(s.output, model, raw_chunk(v), measured), ..s }
}

/// The reason that a chunk gives for the end is kept as it is, and read as a stop, as too long, as
/// the use of tools, or, where it is none of these, as an error that names it.
pub proof fn law_finish_reason_is_read<P: StreamingJson>(
    s: CompletionsStreamV,
    model: ModelV,
    v: JsonV,
    measured: UsageV,
    properties: Seq<(Seq<char>, Seq<char>)>,
    parser: &P,
    choice: JsonV,
    reason: Seq<char>,
)
    requires
        offers(v, choice),
        member(choice, "finish_reason"@) == Some(JsonV::Str(reason)),
        reason.len() > 0,
    ensures
        ({
            let next = chunk_step(s, model, raw_chunk(v), measured, properties, parser).0;
            &&& next.has_finish_reason
            &&& next.output.raw_stop_reason == Some(reason)
            &&& reason == "stop"@ || reason == "end"@ ==> next.output.stop_reason
                == StopReason::Stop && next.output.error_message is None
            &&& reason == "length"@ ==> next.output.stop_reason == StopReason::Length
                && next.output.error_message is None
            &&& reason == "tool_calls"@ || reason == "function_call"@ ==> next.output.stop_reason
                == StopReason::ToolUse && next.output.error_message is None
            &&& reason != "stop"@ && reason != "end"@ && reason != "length"@ && reason
                != "tool_calls"@ && reason != "function_call"@ ==> next.output.stop_reason
                == StopReason::Error && next.output.error_message == Some(
                "Provider finish_reason: "@ + reason,
            )
        }),
{
    reveal_strlit("stop");
    reveal_strlit("end");
    reveal_strlit("length");
    reveal_strlit("tool_calls");
    reveal_strlit("function_call");
    assert("stop"@.len() == 4 && "end"@.len() == 3 && "length"@.len() == 6 && "tool_calls"@.len()
        == 10 && "function_call"@.len() == 13);
    lemma_offers(v, choice);
    let chunk = raw_chunk(v);
    let head = CompletionsStreamV { output: headed(s.output, model, chunk, measured), ..s };
    let end = crate::completions_stream::ended(head, chunk.choices[0].finish_reason);
    if let Some(delta) = chunk.choices[0].delta {
        lemma_delta_keeps_frame(end, delta, model, properties, parser);
    }
}

/// A chunk without a reason to end leaves the reason to stop as it was.
pub proof fn law_reason_stays<P: StreamingJson>(
    s: CompletionsStreamV,
    model: ModelV,
    chunk: RawChunkV,
    measured: UsageV,
    properties: Seq<(Seq<char>, Seq<char>)>,
    parser: &P,
)
    requires
        chunk.choices.len() > 0 ==> chunk.choices[0].finish_reason is None,
    ensures
        ({
            let next = chunk_step(s, model, chunk, measured, properties, parser).0;
            &&& next.has_finish_reason == s.has_finish_reason
            &&& next.output.stop_reason == s.output.stop_reason
            &&& next.output.raw_stop_reason == s.output.raw_stop_reason
            &&& next.output.error_message == s.output.error_message
        }),
{
    if chunk.choices.len() > 0 {
        let head = CompletionsStreamV { output: headed(s.output, model, chunk, measured), ..s };
        if let Some(delta) = chunk.choices[0].delta {
            lemma_delta_keeps_frame(head, delta, model, properties, parser);
        }
    }
}

/// The first identifier of a response stays, and the first name of another model than the one that
/// was asked. Nothing of whom was asked, and when, changes.
pub proof fn law_response_is_identified<P: StreamingJson>(
    s: CompletionsStreamV,
    model: ModelV,
    v: JsonV,
    measured: UsageV,
    properties: Seq<(Seq<char>, Seq<char>)>,
    parser: &P,
)
    ensures
        ({
            let next = chunk_step(s, model, raw_chunk(v), measured, properties, parser).0.output;
            let id = text_of(member(v, "id"@));
            let name = text_of(member(v, "model"@));
            &&& s.output.response_id is None && id is Some ==> next.response_id == id
            &&& (s.output.response_id matches Some(old) && old.len() > 0) || id is None
                ==> next.response_id == s.output.response_id
            &&& s.output.response_model is None && name is Some && name->Some_0.len() > 0
                && name->Some_0 != model.id ==> next.response_model == name
            &&& s.output.response_model is Some || name is None || name == Some(model.id)
                ==> next.response_model == s.output.response_model
            &&& next.api == s.output.api
            &&& next.provider == s.output.provider
            &&& next.model == s.output.model
            &&& next.timestamp == s.output.timestamp
            &&& next.end_turn == s.output.end_turn
        }),
{
    let chunk = raw_chunk(v);
    if chunk.choices.len() > 0 {
        let head = CompletionsStreamV { output: headed(s.output, model, chunk, measured), ..s };
        let end = crate::completions_stream::ended(head, chunk.choices[0].finish_reason);
        if let Some(delta) = chunk.choices[0].delta {
            lemma_delta_keeps_frame(end, delta, model, properties, parser);
        }
    }
}

/// Whether a delta holds text alone.
pub open spec fn only_text(delta: JsonV) -> bool {
    &&& lacks(delta, "reasoning_content"@)
    &&& lacks(delta, "reasoning"@)
    &&& lacks(delta, "reasoning_text"@)
    &&& lacks(delta, "tool_calls"@)
    &&& lacks(delta, "reasoning_details"@)
}

/// Text goes into the text block, which the first piece of text opens, and the listener is told of
/// each piece.
pub proof fn law_text_is_added<P: StreamingJson>(
    s: CompletionsStreamV,
    model: ModelV,
    v: JsonV,
    measured: UsageV,
    properties: Seq<(Seq<char>, Seq<char>)>,
    parser: &P,
    delta: JsonV,
)
    requires
        says(v, delta),
        only_text(delta),
        words(delta, "content"@).len() > 0,
        s.output.content.len() < usize::MAX,
        s.text_index matches Some(at) ==> at < s.output.content.len()
            && s.output.content[at as int] is Text,
    ensures
        ({
            let (next, failure) = chunk_step(s, model, raw_chunk(v), measured, properties, parser);
            let text = words(delta, "content"@);
            let n = s.output.content.len() as usize;
            &&& failure is None
            &&& s.text_index is None ==> {
                &&& next.text_index == Some(n)
                &&& next.output.content == s.output.content.push(
                    AssistantContentV::Text(TextContentV { text, text_signature: None }),
                )
                &&& next.events == s.events + seq![
                    AssistantMessageEventV::TextStart { content_index: n },
                    AssistantMessageEventV::TextDelta { content_index: n, delta: text },
                ]
            }
            &&& s.text_index matches Some(at) ==> {
                let old = s.output.content[at as int]->Text_0;
                &&& next.text_index == Some(at)
                &&& next.output.content == s.output.content.update(
                    at as int,
                    AssistantContentV::Text(TextContentV { text: old.text + text, ..old }),
                )
                &&& next.events == s.events.push(
                    AssistantMessageEventV::TextDelta { content_index: at, delta: text },
                )
            }
        }),
{
    let head = lemma_says(s, model, v, measured, properties, parser, delta);
    let raw = raw_delta(Some(delta))->Some_0;
    let text = words(delta, "content"@);
    let n = s.output.content.len() as int;
    let (next, _) = delta_step(head, raw, model, properties, parser);
    assert(raw.tool_calls.len() == 0);
    assert(raw.reasoning_details.len() == 0);
    if s.text_index is None {
        assert(next.output.content =~= s.output.content.push(
            AssistantContentV::Text(TextContentV { text, text_signature: None }),
        )) by {
            assert(Seq::<char>::empty() + text =~= text);
        }
        assert(next.events =~= s.events + seq![
            AssistantMessageEventV::TextStart { content_index: n as usize },
            AssistantMessageEventV::TextDelta { content_index: n as usize, delta: text },
        ]);
    }
}

/// Whether a delta holds reasoning alone, as `text` under `field`: the first of the three members
/// that a provider may use counts, and `opencode-go` means `reasoning_content` by `reasoning`.
pub open spec fn only_reasoning(
    delta: JsonV,
    model: ModelV,
    field: Seq<char>,
    text: Seq<char>,
) -> bool {
    &&& lacks(delta, "content"@)
    &&& lacks(delta, "tool_calls"@)
    &&& lacks(delta, "reasoning_details"@)
    &&& text.len() > 0
    &&& {
        ||| field == "reasoning_content"@ && words(delta, "reasoning_content"@) == text
        ||| words(delta, "reasoning_content"@).len() == 0 && words(delta, "reasoning"@) == text
            && (if model.provider == "opencode-go"@ {
            field == "reasoning_content"@
        } else {
            field == "reasoning"@
        })
        ||| field == "reasoning_text"@ && words(delta, "reasoning_content"@).len() == 0 && words(
            delta,
            "reasoning"@,
        ).len() == 0 && words(delta, "reasoning_text"@) == text
    }
}

/// Reasoning goes into the thinking block, which the first piece of it opens and which is signed
/// with the name of the member that it came in. The listener is told of each piece.
pub proof fn law_reasoning_is_added<P: StreamingJson>(
    s: CompletionsStreamV,
    model: ModelV,
    v: JsonV,
    measured: UsageV,
    properties: Seq<(Seq<char>, Seq<char>)>,
    parser: &P,
    delta: JsonV,
    field: Seq<char>,
    text: Seq<char>,
)
    requires
        says(v, delta),
        only_reasoning(delta, model, field, text),
        s.output.content.len() < usize::MAX,
        s.thinking_index matches Some(at) ==> at < s.output.content.len()
            && s.output.content[at as int] is Thinking,
    ensures
        ({
            let (next, failure) = chunk_step(s, model, raw_chunk(v), measured, properties, parser);
            let n = s.output.content.len() as usize;
            &&& failure is None
            &&& s.thinking_index is None ==> {
                &&& next.thinking_index == Some(n)
                &&& next.output.content == s.output.content.push(
                    AssistantContentV::Thinking(
                        ThinkingContentV {
                            thinking: text,
                            thinking_signature: Some(field),
                            redacted: None,
                        },
                    ),
                )
                &&& next.events == s.events + seq![
                    AssistantMessageEventV::ThinkingStart {
                        content_index: n,
                        thinking_signature: Some(field),
                    },
                    AssistantMessageEventV::ThinkingDelta { content_index: n, delta: text },
                ]
            }
            &&& s.thinking_index matches Some(at) ==> {
                let old = s.output.content[at as int]->Thinking_0;
                &&& next.thinking_index == Some(at)
                &&& next.output.content == s.output.content.update(
                    at as int,
                    AssistantContentV::Thinking(
                        ThinkingContentV { thinking: old.thinking + text, ..old },
                    ),
                )
                &&& next.events == s.events.push(
                    AssistantMessageEventV::ThinkingDelta { content_index: at, delta: text },
                )
            }
        }),
{
    let head = lemma_says(s, model, v, measured, properties, parser, delta);
    let raw = raw_delta(Some(delta))->Some_0;
    let n = s.output.content.len() as int;
    let (next, _) = delta_step(head, raw, model, properties, parser);
    assert(raw.tool_calls.len() == 0);
    assert(raw.reasoning_details.len() == 0);
    assert(crate::completions_stream::reasoning_of(raw, model) == Some((field, text)));
    if s.thinking_index is None {
        assert(Seq::<char>::empty() + text =~= text);
        assert(next.output.content =~= s.output.content.push(
            AssistantContentV::Thinking(
                ThinkingContentV {
                    thinking: text,
                    thinking_signature: Some(field),
                    redacted: None,
                },
            ),
        ));
        assert(next.events =~= s.events + seq![
            AssistantMessageEventV::ThinkingStart {
                content_index: n as usize,
                thinking_signature: Some(field),
            },
            AssistantMessageEventV::ThinkingDelta { content_index: n as usize, delta: text },
        ]);
    }
}

/// Whether a delta holds one piece of a tool call alone.
pub open spec fn only_call(delta: JsonV, piece: JsonV) -> bool {
    &&& lacks(delta, "content"@)
    &&& lacks(delta, "reasoning_content"@)
    &&& lacks(delta, "reasoning"@)
    &&& lacks(delta, "reasoning_text"@)
    &&& lacks(delta, "reasoning_details"@)
    &&& member(delta, "tool_calls"@) == Some(JsonV::Array(seq![piece]))
    &&& piece is Object
}

proof fn lemma_only_call<P: StreamingJson>(
    s: CompletionsStreamV,
    model: ModelV,
    v: JsonV,
    measured: UsageV,
    properties: Seq<(Seq<char>, Seq<char>)>,
    parser: &P,
    delta: JsonV,
    piece: JsonV,
) -> (head: CompletionsStreamV)
    requires
        says(v, delta),
        only_call(delta, piece),
    ensures
        head == (CompletionsStreamV { output: head.output, ..s }),
        head.output.content == s.output.content,
        head.output.reasoning_details == s.output.reasoning_details,
        chunk_step(s, model, raw_chunk(v), measured, properties, parser) == tool_step(
            head,
            tool_delta(piece),
            properties,
            parser,
        ),
{
    let head = lemma_says(s, model, v, measured, properties, parser, delta);
    let raw = raw_delta(Some(delta))->Some_0;
    assert(raw.tool_calls =~= seq![tool_delta(piece)]);
    assert(raw.reasoning_details.len() == 0);
    assert(raw.tool_calls.drop_first().len() == 0);
    let step = tool_step(head, tool_delta(piece), properties, parser);
    assert(tool_steps(head, raw.tool_calls, properties, parser) == step) by {
        if step.1 is None {
            assert(tool_steps(step.0, raw.tool_calls.drop_first(), properties, parser) == step);
        }
    }
    assert(text_step(head, raw.content) == (head, None::<Seq<char>>));
    assert(thinking_step(head, raw, model) == (head, None::<Seq<char>>));
    head
}

/// A piece of a call that is not known yet opens a block with its identifier, its name and what its
/// arguments so far read as. The listener is told of the call and of the arguments, and later
/// pieces find the call by its place in the stream and by its identifier.
pub proof fn law_call_is_opened<P: StreamingJson>(
    s: CompletionsStreamV,
    model: ModelV,
    v: JsonV,
    measured: UsageV,
    properties: Seq<(Seq<char>, Seq<char>)>,
    parser: &P,
    delta: JsonV,
    piece: JsonV,
    function: JsonV,
    index: u64,
    id: Seq<char>,
)
    requires
        says(v, delta),
        only_call(delta, piece),
        member(piece, "index"@) == Some(JsonV::Number(JsonNumberV::Unsigned(index))),
        member(piece, "id"@) == Some(JsonV::Str(id)),
        member(piece, "function"@) == Some(function),
        function is Object,
        lacks(piece, "custom"@),
        lookup(s.tool_by_stream_index, index) is None,
        lookup(s.tool_by_id, id) is None,
        lookup(s.pending_details, id) is None,
        s.output.content.len() < usize::MAX,
        words(function, "arguments"@).len() > 0,
    ensures
        ({
            let (next, failure) = chunk_step(s, model, raw_chunk(v), measured, properties, parser);
            let n = s.output.content.len() as usize;
            let arguments = words(function, "arguments"@);
            &&& failure is None
            &&& next.output.content == s.output.content.push(
                AssistantContentV::ToolCall(
                    ToolCallV {
                        id,
                        name: words(function, "name"@),
                        arguments: parser.reading(arguments),
                        thought_signature: None,
                        namespace: None,
                    },
                ),
            )
            &&& next.events == s.events + seq![
                AssistantMessageEventV::ToolCallStart {
                    content_index: n,
                    id,
                    tool_name: words(function, "name"@),
                    namespace: None,
                },
                AssistantMessageEventV::ToolCallDelta { content_index: n, delta: arguments },
            ]
            &&& lookup(next.tool_by_stream_index, index) == Some(n)
            &&& lookup(next.tool_by_id, id) == Some(n)
            &&& lookup(next.tool_scratch, n as u64) matches Some(scratch) && scratch.partial_args
                == arguments && scratch.custom_input is None
        }),
{
    reveal(call_step);
    let head = lemma_only_call(s, model, v, measured, properties, parser, delta, piece);
    let raw = tool_delta(piece);
    let n = s.output.content.len() as usize;
    let arguments = words(function, "arguments"@);
    let open = crate::completions_stream::with_call_block(head, raw, properties);
    let named = crate::completions_stream::named_by(open, raw, n);
    lemma_put(head.tool_by_stream_index, index, n, index);
    lemma_put(head.tool_by_id, id, n, id);
    let scratch = crate::completions_stream::ToolScratchV {
        partial_args: Seq::empty(),
        custom_input: None,
    };
    lemma_put(head.tool_scratch, n as u64, scratch, n as u64);
    assert(Seq::<char>::empty() + arguments =~= arguments);
    lemma_put(
        named.tool_scratch,
        n as u64,
        crate::completions_stream::ToolScratchV { partial_args: arguments, ..scratch },
        n as u64,
    );
    let (next, failure) = tool_step(head, raw, properties, parser);
    assert(failure is None);
    assert(next.output.content =~= s.output.content.push(
        AssistantContentV::ToolCall(
            ToolCallV {
                id,
                name: words(function, "name"@),
                arguments: parser.reading(arguments),
                thought_signature: None,
                namespace: None,
            },
        ),
    ));
    assert(next.events =~= s.events + seq![
        AssistantMessageEventV::ToolCallStart {
            content_index: n,
            id,
            tool_name: words(function, "name"@),
            namespace: None,
        },
        AssistantMessageEventV::ToolCallDelta { content_index: n, delta: arguments },
    ]);
}

/// A further piece of a call finds it by its place in the stream: its arguments are read anew from
/// all that has come, its identifier and its name stay, and the listener is told of the piece.
pub proof fn law_call_goes_on<P: StreamingJson>(
    s: CompletionsStreamV,
    model: ModelV,
    v: JsonV,
    measured: UsageV,
    properties: Seq<(Seq<char>, Seq<char>)>,
    parser: &P,
    delta: JsonV,
    piece: JsonV,
    function: JsonV,
    index: u64,
    at: usize,
    come: Seq<char>,
)
    requires
        says(v, delta),
        only_call(delta, piece),
        member(piece, "index"@) == Some(JsonV::Number(JsonNumberV::Unsigned(index))),
        lacks(piece, "id"@),
        member(piece, "function"@) == Some(function),
        function is Object,
        lacks(piece, "custom"@),
        words(function, "arguments"@).len() > 0,
        lookup(s.tool_by_stream_index, index) == Some(at),
        at < s.output.content.len(),
        s.output.content[at as int] matches AssistantContentV::ToolCall(call) && call.name.len()
            > 0 && lookup(s.pending_details, call.id) is None,
        lookup(s.tool_scratch, at as u64) matches Some(scratch) && scratch.partial_args == come,
    ensures
        ({
            let (next, failure) = chunk_step(s, model, raw_chunk(v), measured, properties, parser);
            let arguments = words(function, "arguments"@);
            let old = s.output.content[at as int]->ToolCall_0;
            &&& failure is None
            &&& next.output.content == s.output.content.update(
                at as int,
                AssistantContentV::ToolCall(
                    ToolCallV { arguments: parser.reading(come + arguments), ..old },
                ),
            )
            &&& next.events == s.events.push(
                AssistantMessageEventV::ToolCallDelta { content_index: at, delta: arguments },
            )
            &&& lookup(next.tool_scratch, at as u64) matches Some(scratch)
                && scratch.partial_args == come + arguments
        }),
{
    reveal(call_step);
    let head = lemma_only_call(s, model, v, measured, properties, parser, delta, piece);
    let arguments = words(function, "arguments"@);
    let old = lookup(s.tool_scratch, at as u64)->Some_0;
    lemma_put(
        head.tool_scratch,
        at as u64,
        crate::completions_stream::ToolScratchV { partial_args: come + arguments, ..old },
        at as u64,
    );
}

/// A piece without a place in the stream finds its call by its identifier.
pub proof fn law_call_is_found_by_id<P: StreamingJson>(
    s: CompletionsStreamV,
    model: ModelV,
    v: JsonV,
    measured: UsageV,
    properties: Seq<(Seq<char>, Seq<char>)>,
    parser: &P,
    delta: JsonV,
    piece: JsonV,
    id: Seq<char>,
    at: usize,
)
    requires
        says(v, delta),
        only_call(delta, piece),
        lacks(piece, "index"@),
        member(piece, "id"@) == Some(JsonV::Str(id)),
        lookup(s.tool_by_id, id) == Some(at),
        at < s.output.content.len(),
        s.output.content[at as int] is ToolCall,
    ensures
        ({
            let next = chunk_step(s, model, raw_chunk(v), measured, properties, parser).0;
            &&& next.output.content.len() == s.output.content.len()
            &&& forall|k: int|
                0 <= k < s.output.content.len() && k != at ==> next.output.content[k]
                    == #[trigger] s.output.content[k]
            &&& next.output.content[at as int] is ToolCall
        }),
{
    reveal(call_step);
    let head = lemma_only_call(s, model, v, measured, properties, parser, delta, piece);
}

/// The input of a free-form call becomes the one argument of the call, under the property that the
/// tool names, or `input` where it names none.
pub proof fn law_custom_call_is_opened<P: StreamingJson>(
    s: CompletionsStreamV,
    model: ModelV,
    v: JsonV,
    measured: UsageV,
    properties: Seq<(Seq<char>, Seq<char>)>,
    parser: &P,
    delta: JsonV,
    piece: JsonV,
    custom: JsonV,
    id: Seq<char>,
)
    requires
        says(v, delta),
        only_call(delta, piece),
        lacks(piece, "index"@),
        member(piece, "id"@) == Some(JsonV::Str(id)),
        lacks(piece, "function"@),
        member(piece, "custom"@) == Some(custom),
        custom is Object,
        lookup(s.tool_by_id, id) is None,
        lookup(s.pending_details, id) is None,
        s.output.content.len() < usize::MAX,
        words(custom, "input"@).len() > 0,
    ensures
        chunk_step(s, model, raw_chunk(v), measured, properties, parser).1 is None,
        ({
            let (next, _) = chunk_step(s, model, raw_chunk(v), measured, properties, parser);
            let n = s.output.content.len() as usize;
            let name = words(custom, "name"@);
            let property = match lookup(properties, name) {
                Some(property) => property,
                None => "input"@,
            };
            &&& next.output.content == s.output.content.push(
                AssistantContentV::ToolCall(
                    ToolCallV {
                        id,
                        name,
                        arguments: JsonV::Object(
                            seq![(property, JsonV::Str(words(custom, "input"@)))],
                        ),
                        thought_signature: None,
                        namespace: None,
                    },
                ),
            )
            &&& next.events.len() == s.events.len() + 2
            &&& next.events[s.events.len() as int] == (AssistantMessageEventV::ToolCallStart {
                content_index: n,
                id,
                tool_name: name,
                namespace: None,
            })
            &&& next.events.last() is ToolCallDelta
        }),
{
    reveal(call_step);
    let head = lemma_only_call(s, model, v, measured, properties, parser, delta, piece);
    let raw = tool_delta(piece);
    let n = s.output.content.len() as usize;
    let input = words(custom, "input"@);
    let name = words(custom, "name"@);
    let property = crate::completions_stream::input_property(properties, name);
    let scratch = crate::completions_stream::ToolScratchV {
        partial_args: Seq::empty(),
        custom_input: Some(crate::completions_stream::no_input(property)),
    };
    lemma_put(head.tool_scratch, n as u64, scratch, n as u64);
    assert(Seq::<char>::empty() + input =~= input);
    let none = crate::constrained_sampling::input_arguments(property, Seq::empty());
    assert(member(none, property) == Some(JsonV::Str(Seq::empty()))) by {
        reveal_with_fuel(crate::assoc::key_index, 2);
    }
    let target = crate::constrained_sampling::input_text(property, input, false);
    assert(target.take(0) =~= Seq::<char>::empty());
    let (next, failure) = tool_step(head, raw, properties, parser);
    assert(next.output.content =~= s.output.content.push(
        AssistantContentV::ToolCall(
            ToolCallV {
                id,
                name,
                arguments: JsonV::Object(seq![(property, JsonV::Str(input))]),
                thought_signature: None,
                namespace: None,
            },
        ),
    ));
}

/// Whether a delta holds one reasoning detail alone.
pub open spec fn only_detail(delta: JsonV, detail: JsonV) -> bool {
    &&& lacks(delta, "content"@)
    &&& lacks(delta, "reasoning_content"@)
    &&& lacks(delta, "reasoning"@)
    &&& lacks(delta, "reasoning_text"@)
    &&& lacks(delta, "tool_calls"@)
    &&& member(delta, "reasoning_details"@) == Some(JsonV::Array(seq![detail]))
}

/// Whether an object is a reasoning detail of one of the three sorts, with nothing besides.
pub open spec fn plain_detail(detail: JsonV) -> bool {
    &&& detail is Object
    &&& lacks(detail, "format"@)
    &&& lacks(detail, "index"@)
    &&& lacks(detail, "signature"@)
    &&& member(detail, "id"@) is None || member(detail, "id"@)->Some_0 is Str
    &&& {
        ||| member(detail, "type"@) == Some(JsonV::Str("reasoning.summary"@)) && member(
            detail,
            "summary"@,
        ) matches Some(JsonV::Str(_))
        ||| member(detail, "type"@) == Some(JsonV::Str("reasoning.encrypted"@)) && member(
            detail,
            "data"@,
        ) matches Some(JsonV::Str(_))
        ||| member(detail, "type"@) == Some(JsonV::Str("reasoning.text"@)) && member(
            detail,
            "text"@,
        ) matches Some(JsonV::Str(_))
    }
}

/// Reasoning details are kept in the order in which they come. An encrypted one signs the call whose
/// identifier it names, or waits for it where the call has not come yet. No block is added, and
/// the listener is told nothing.
pub proof fn law_details_are_kept<P: StreamingJson>(
    s: CompletionsStreamV,
    model: ModelV,
    v: JsonV,
    measured: UsageV,
    properties: Seq<(Seq<char>, Seq<char>)>,
    parser: &P,
    delta: JsonV,
    detail: JsonV,
)
    requires
        says(v, delta),
        only_detail(delta, detail),
        plain_detail(detail),
    ensures
        ({
            let (next, failure) = chunk_step(s, model, raw_chunk(v), measured, properties, parser);
            let sealed = member(detail, "type"@) == Some(JsonV::Str("reasoning.encrypted"@))
                && words(detail, "id"@).len() > 0 && words(detail, "data"@).len() > 0;
            let id = words(detail, "id"@);
            &&& failure is None
            &&& next.events == s.events
            &&& next.output.reasoning_details == Some(
                match s.output.reasoning_details {
                    Some(details) => details,
                    None => Seq::empty(),
                }.push(detail),
            )
            &&& !sealed ==> next.output.content == s.output.content && next.pending_details
                == s.pending_details
            &&& sealed && lookup(s.tool_by_id, id) is None ==> next.output.content
                == s.output.content && lookup(next.pending_details, id) == Some(
                json_text(detail),
            )
            &&& sealed ==> (lookup(s.tool_by_id, id) matches Some(at) ==> (at
                < s.output.content.len() ==> (s.output.content[at as int] matches AssistantContentV::ToolCall(
                call,
            ) ==> next.output.content == s.output.content.update(
                at as int,
                AssistantContentV::ToolCall(
                    ToolCallV {
                        thought_signature: Some(json_text(detail)),
                        ..call
                    },
                ),
            ))))
        }),
{
    let head = lemma_says(s, model, v, measured, properties, parser, delta);
    let raw = raw_delta(Some(delta))->Some_0;
    assert(raw.tool_calls.len() == 0);
    assert(raw.reasoning_details == seq![detail]);
    assert(seq![detail].drop_last().len() == 0);
    assert(detail_steps(head, seq![detail].drop_last()) == head);
    assert(detail_steps(head, seq![detail]) == detail_step(head, detail));
    assert(text_step(head, raw.content) == (head, None::<Seq<char>>));
    assert(thinking_step(head, raw, model) == (head, None::<Seq<char>>));
    assert(tool_steps(head, raw.tool_calls, properties, parser) == (head, None::<Seq<char>>));
    assert(Seq::<JsonV>::empty().push(detail) =~= seq![detail]);
    lemma_put(
        s.pending_details,
        words(detail, "id"@),
        json_text(detail),
        words(detail, "id"@),
    );
    reveal_strlit("reasoning.summary");
    reveal_strlit("reasoning.encrypted");
    reveal_strlit("reasoning.text");
    assert("reasoning.summary"@.len() == 17 && "reasoning.encrypted"@.len() == 19
        && "reasoning.text"@.len() == 14);
}

/// A call that comes after the detail that signs it is signed with it.
pub proof fn law_waiting_detail_signs<P: StreamingJson>(
    s: CompletionsStreamV,
    model: ModelV,
    v: JsonV,
    measured: UsageV,
    properties: Seq<(Seq<char>, Seq<char>)>,
    parser: &P,
    delta: JsonV,
    piece: JsonV,
    id: Seq<char>,
)
    requires
        says(v, delta),
        only_call(delta, piece),
        lacks(piece, "index"@),
        lacks(piece, "custom"@),
        member(piece, "id"@) == Some(JsonV::Str(id)),
        id.len() > 0,
        lookup(s.tool_by_id, id) is None,
        lookup(s.pending_details, id) is Some,
        s.output.content.len() < usize::MAX,
    ensures
        ({
            let (next, failure) = chunk_step(s, model, raw_chunk(v), measured, properties, parser);
            &&& failure is None
            &&& next.output.content.len() == s.output.content.len() + 1
            &&& next.output.content.last() matches AssistantContentV::ToolCall(call) && call.id
                == id && call.thought_signature == lookup(s.pending_details, id)
        }),
{
    reveal(call_step);
    let head = lemma_only_call(s, model, v, measured, properties, parser, delta, piece);
}

/// Usage that is no whole number is taken as it is written: a fraction counts as it is where nothing
/// is taken from it or added to it, and a text is strung together with the other numbers.
pub proof fn law_other_usage_is_taken(raw: RawUsageV, words: Seq<char>, prompt: u64)
    requires
        raw.prompt_tokens_details is None,
        raw.completion_tokens_details is None,
        raw.prompt_cache_hit_tokens is None,
        raw.cached_tokens is None,
        prompt <= 9007199254740992,
        words.len() > 0,
    ensures
        raw.prompt_tokens == Some(UsageValueV::Count(prompt)) && raw.completion_tokens == Some(
            UsageValueV::Text(words),
        ) ==> (chunk_usage(raw) matches Some(usage) && usage.input == UsageValueV::Count(prompt)
            && usage.output == UsageValueV::Text(words) && usage.total_tokens == UsageValueV::Text(
            decimal(prompt as nat) + words + decimal(0) + decimal(0),
        )),
        raw.prompt_tokens == Some(UsageValueV::Fraction(words)) && raw.completion_tokens is None && (
        forall|i: int| 0 <= i < words.len() ==> words[i] != 'e' && words[i] != 'E') ==> (
        chunk_usage(raw) matches Some(usage) && usage.output == UsageValueV::Count(0)
            && usage.input == if words[0] == '-' {
            UsageValueV::Count(0)
        } else {
            UsageValueV::Fraction(words)
        } && usage.total_tokens == usage.input),
        raw.prompt_tokens is None && raw.completion_tokens is None ==> (chunk_usage(
            raw,
        ) matches Some(usage) && usage.input == UsageValueV::Count(0) && usage.output
            == UsageValueV::Count(0) && usage.total_tokens == UsageValueV::Count(0)),
        raw.prompt_tokens == Some(UsageValueV::Text(words)) ==> chunk_usage(raw) is None,
{
    if forall|i: int| 0 <= i < words.len() ==> words[i] != 'e' && words[i] != 'E' {
        lemma_position(words, 'e', words.len() as int);
        lemma_position(words, 'E', words.len() as int);
    }
}

/// Usage that cannot be made up from what is reported is the one that was measured.
pub proof fn law_measured_usage_stands_in<P: StreamingJson>(
    s: CompletionsStreamV,
    model: ModelV,
    chunk: RawChunkV,
    measured: UsageV,
    properties: Seq<(Seq<char>, Seq<char>)>,
    parser: &P,
    raw: RawUsageV,
)
    requires
        chunk.usage == Some(raw),
        chunk_usage(raw) is None,
    ensures
        chunk_step(s, model, chunk, measured, properties, parser).0.output.usage == measured,
{
    lemma_usage_of_chunk(s, model, chunk, measured, properties, parser);
}

/// A value that is no reasoning detail of a known sort is passed over.
pub proof fn law_other_details_are_dropped<P: StreamingJson>(
    s: CompletionsStreamV,
    model: ModelV,
    v: JsonV,
    measured: UsageV,
    properties: Seq<(Seq<char>, Seq<char>)>,
    parser: &P,
    delta: JsonV,
    detail: JsonV,
)
    requires
        says(v, delta),
        only_detail(delta, detail),
        !(detail is Object) || member(detail, "type"@) is None || (member(
            detail,
            "type"@,
        ) matches Some(JsonV::Str(kind)) && kind != "reasoning.summary"@ && kind
            != "reasoning.encrypted"@ && kind != "reasoning.text"@) || (member(
            detail,
            "id"@,
        ) matches Some(id) && !(id is Str) && !(id is Null)),
    ensures
        ({
            let (next, failure) = chunk_step(s, model, raw_chunk(v), measured, properties, parser);
            &&& failure is None
            &&& next.events == s.events
            &&& next.output.content == s.output.content
            &&& next.output.reasoning_details == s.output.reasoning_details
            &&& next.pending_details == s.pending_details
        }),
{
    let head = lemma_says(s, model, v, measured, properties, parser, delta);
    let raw = raw_delta(Some(delta))->Some_0;
    assert(raw.tool_calls.len() == 0);
    assert(raw.reasoning_details == seq![detail]);
    assert(seq![detail].drop_last().len() == 0);
    assert(detail_steps(head, seq![detail].drop_last()) == head);
    assert(detail_steps(head, seq![detail]) == detail_step(head, detail));
    assert(text_step(head, raw.content) == (head, None::<Seq<char>>));
    assert(thinking_step(head, raw, model) == (head, None::<Seq<char>>));
    assert(tool_steps(head, raw.tool_calls, properties, parser) == (head, None::<Seq<char>>));
}

/// A chunk that says nothing changes no block, and the listener is told nothing.
pub proof fn law_empty_chunk_adds_nothing<P: StreamingJson>(
    s: CompletionsStreamV,
    model: ModelV,
    v: JsonV,
    measured: UsageV,
    properties: Seq<(Seq<char>, Seq<char>)>,
    parser: &P,
    delta: JsonV,
)
    requires
        (member(v, "choices"@) matches Some(JsonV::Array(choices)) && choices.len() == 0) || (says(
            v,
            delta,
        ) && only_text(delta) && words(delta, "content"@).len() == 0),
    ensures
        ({
            let (next, failure) = chunk_step(s, model, raw_chunk(v), measured, properties, parser);
            &&& failure is None
            &&& next.events == s.events
            &&& next.output.content == s.output.content
            &&& next.output.stop_reason == s.output.stop_reason
        }),
{
    if says(v, delta) && only_text(delta) && words(delta, "content"@).len() == 0 {
        let head = lemma_says(s, model, v, measured, properties, parser, delta);
        let raw = raw_delta(Some(delta))->Some_0;
        assert(raw.tool_calls.len() == 0);
        assert(raw.reasoning_details.len() == 0);
        assert(text_step(head, raw.content) == (head, None::<Seq<char>>));
        assert(thinking_step(head, raw, model) == (head, None::<Seq<char>>));
        assert(tool_steps(head, raw.tool_calls, properties, parser) == (head, None::<Seq<char>>));
    } else {
        assert(raw_chunk(v).choices.len() == 0);
    }
}

/// Pieces of several sorts in one chunk are taken in their order: text, reasoning, calls.
pub proof fn law_sorts_have_an_order<P: StreamingJson>(
    s: CompletionsStreamV,
    model: ModelV,
    v: JsonV,
    measured: UsageV,
    properties: Seq<(Seq<char>, Seq<char>)>,
    parser: &P,
    delta: JsonV,
)
    requires
        says(v, delta),
        lacks(delta, "tool_calls"@),
        lacks(delta, "reasoning_details"@),
        words(delta, "content"@).len() > 0,
        words(delta, "reasoning_content"@).len() > 0,
        s.text_index is None,
        s.thinking_index is None,
        s.output.content.len() + 1 < usize::MAX,
    ensures
        ({
            let (next, failure) = chunk_step(s, model, raw_chunk(v), measured, properties, parser);
            let n = s.output.content.len() as usize;
            &&& failure is None
            &&& next.output.content == s.output.content.push(
                AssistantContentV::Text(
                    TextContentV { text: words(delta, "content"@), text_signature: None },
                ),
            ).push(
                AssistantContentV::Thinking(
                    ThinkingContentV {
                        thinking: words(delta, "reasoning_content"@),
                        thinking_signature: Some("reasoning_content"@),
                        redacted: None,
                    },
                ),
            )
            &&& next.text_index == Some(n)
            &&& next.thinking_index == Some((n + 1) as usize)
        }),
{
    let head = lemma_says(s, model, v, measured, properties, parser, delta);
    let raw = raw_delta(Some(delta))->Some_0;
    let text = words(delta, "content"@);
    let reason = words(delta, "reasoning_content"@);
    assert(raw.tool_calls.len() == 0);
    assert(raw.reasoning_details.len() == 0);
    assert(Seq::<char>::empty() + text =~= text);
    assert(Seq::<char>::empty() + reason =~= reason);
    let spoken = text_step(head, raw.content).0;
    assert(spoken.output.content =~= s.output.content.push(
        AssistantContentV::Text(TextContentV { text, text_signature: None }),
    ));
    let thought = thinking_step(spoken, raw, model).0;
    assert(thought.output.content =~= spoken.output.content.push(
        AssistantContentV::Thinking(
            ThinkingContentV {
                thinking: reason,
                thinking_signature: Some("reasoning_content"@),
                redacted: None,
            },
        ),
    ));
}

/// Where a stream ends, each call with arguments holds what all of them read as.
pub proof fn law_finished_call_is_read<P: StreamingJson>(
    s: CompletionsStreamV,
    at: usize,
    parser: &P,
    come: Seq<char>,
)
    requires
        at < s.output.content.len(),
        s.output.content[at as int] is ToolCall,
        lookup(s.tool_scratch, at as u64) matches Some(scratch) && scratch.partial_args == come
            && scratch.custom_input is None,
    ensures
        ({
            let (next, failure) = block_finished(s, at, parser);
            let done = ToolCallV {
                arguments: parser.reading(come),
                ..s.output.content[at as int]->ToolCall_0
            };
            &&& failure is None
            &&& next.output.content == s.output.content.update(
                at as int,
                AssistantContentV::ToolCall(done),
            )
            &&& next.events == s.events.push(
                AssistantMessageEventV::ToolCallEnd { content_index: at, tool_call: done },
            )
        }),
{
    reveal(block_finished);
}

/// Whether a chunk says nothing of the response as a whole.
pub open spec fn says_nothing_else(v: JsonV) -> bool {
    &&& member(v, "id"@) is None
    &&& member(v, "model"@) is None
    &&& member(v, "usage"@) is None
    &&& forall|choice: JsonV| #[trigger] offers(v, choice) ==> member(choice, "usage"@) is None
}

/// Whether a delta holds pieces of calls alone.
pub open spec fn only_calls(delta: JsonV, pieces: Seq<JsonV>) -> bool {
    &&& lacks(delta, "content"@)
    &&& lacks(delta, "reasoning_content"@)
    &&& lacks(delta, "reasoning"@)
    &&& lacks(delta, "reasoning_text"@)
    &&& lacks(delta, "reasoning_details"@)
    &&& member(delta, "tool_calls"@) == Some(JsonV::Array(pieces))
}

proof fn lemma_only_calls<P: StreamingJson>(
    s: CompletionsStreamV,
    model: ModelV,
    v: JsonV,
    measured: UsageV,
    properties: Seq<(Seq<char>, Seq<char>)>,
    parser: &P,
    delta: JsonV,
    pieces: Seq<JsonV>,
)
    requires
        says(v, delta),
        says_nothing_else(v),
        only_calls(delta, pieces),
    ensures
        chunk_step(s, model, raw_chunk(v), measured, properties, parser) == tool_steps(
            s,
            pieces.map_values(|d: JsonV| tool_delta(d)),
            properties,
            parser,
        ),
{
    let head = lemma_says(s, model, v, measured, properties, parser, delta);
    let choice = choose|choice: JsonV|
        #[trigger] offers(v, choice) && member(choice, "delta"@) == Some(delta) && member(
            choice,
            "finish_reason"@,
        ) is None;
    lemma_offers(v, choice);
    assert(head == s);
    let raw = raw_delta(Some(delta))->Some_0;
    assert(raw.reasoning_details.len() == 0);
    assert(text_step(head, raw.content) == (head, None::<Seq<char>>));
    assert(thinking_step(head, raw, model) == (head, None::<Seq<char>>));
}

/// Two pieces of calls in one chunk count as if they had come one after the other.
pub proof fn law_pieces_may_come_together<P: StreamingJson>(
    s: CompletionsStreamV,
    model: ModelV,
    both: JsonV,
    first: JsonV,
    second: JsonV,
    measured: UsageV,
    properties: Seq<(Seq<char>, Seq<char>)>,
    parser: &P,
    deltas: (JsonV, JsonV, JsonV),
    a: JsonV,
    b: JsonV,
)
    requires
        says(both, deltas.0) && says_nothing_else(both) && only_calls(deltas.0, seq![a, b]),
        says(first, deltas.1) && says_nothing_else(first) && only_calls(deltas.1, seq![a]),
        says(second, deltas.2) && says_nothing_else(second) && only_calls(deltas.2, seq![b]),
    ensures
        ({
            let (middle, failure) = chunk_step(
                s,
                model,
                raw_chunk(first),
                measured,
                properties,
                parser,
            );
            let together = chunk_step(s, model, raw_chunk(both), measured, properties, parser);
            &&& failure is None ==> together == chunk_step(
                middle,
                model,
                raw_chunk(second),
                measured,
                properties,
                parser,
            )
            &&& failure is Some ==> together == (middle, failure)
        }),
{
    lemma_only_calls(s, model, both, measured, properties, parser, deltas.0, seq![a, b]);
    lemma_only_calls(s, model, first, measured, properties, parser, deltas.1, seq![a]);
    let (x, y) = (tool_delta(a), tool_delta(b));
    assert(seq![a, b].map_values(|d: JsonV| tool_delta(d)) =~= seq![x, y]);
    assert(seq![a].map_values(|d: JsonV| tool_delta(d)) =~= seq![x]);
    assert(seq![b].map_values(|d: JsonV| tool_delta(d)) =~= seq![y]);
    assert(seq![x, y].drop_first() =~= seq![y]);
    assert(seq![x].drop_first() =~= Seq::<RawToolCallDeltaV>::empty());
    let (middle, failure) = tool_step(s, x, properties, parser);
    assert(tool_steps(middle, seq![x].drop_first(), properties, parser) == (
        middle,
        None::<Seq<char>>,
    ));
    lemma_only_calls(middle, model, second, measured, properties, parser, deltas.2, seq![b]);
}

/// A piece that names a place in the stream and an identifier belongs to the call at that place.
pub proof fn law_place_outweighs_identifier<P: StreamingJson>(
    s: CompletionsStreamV,
    model: ModelV,
    v: JsonV,
    measured: UsageV,
    properties: Seq<(Seq<char>, Seq<char>)>,
    parser: &P,
    delta: JsonV,
    piece: JsonV,
    index: u64,
    at: usize,
)
    requires
        says(v, delta),
        only_call(delta, piece),
        member(piece, "index"@) == Some(JsonV::Number(JsonNumberV::Unsigned(index))),
        lookup(s.tool_by_stream_index, index) == Some(at),
        at < s.output.content.len(),
        s.output.content[at as int] is ToolCall,
    ensures
        ({
            let next = chunk_step(s, model, raw_chunk(v), measured, properties, parser).0;
            &&& next.output.content.len() == s.output.content.len()
            &&& forall|k: int|
                0 <= k < s.output.content.len() && k != at ==> next.output.content[k]
                    == #[trigger] s.output.content[k]
            &&& next.output.content[at as int] is ToolCall
        }),
{
    reveal(call_step);
    let head = lemma_only_call(s, model, v, measured, properties, parser, delta, piece);
}

/// An identifier or a name that comes only with a later piece is taken from it.
pub proof fn law_late_names_are_taken<P: StreamingJson>(
    s: CompletionsStreamV,
    model: ModelV,
    v: JsonV,
    measured: UsageV,
    properties: Seq<(Seq<char>, Seq<char>)>,
    parser: &P,
    delta: JsonV,
    piece: JsonV,
    function: JsonV,
    index: u64,
    id: Seq<char>,
    at: usize,
)
    requires
        says(v, delta),
        only_call(delta, piece),
        member(piece, "index"@) == Some(JsonV::Number(JsonNumberV::Unsigned(index))),
        member(piece, "id"@) == Some(JsonV::Str(id)),
        member(piece, "function"@) == Some(function),
        function is Object,
        lacks(piece, "custom"@),
        lookup(s.tool_by_stream_index, index) == Some(at),
        at < s.output.content.len(),
        s.output.content[at as int] is ToolCall,
    ensures
        ({
            let next = chunk_step(s, model, raw_chunk(v), measured, properties, parser).0;
            let old = s.output.content[at as int]->ToolCall_0;
            &&& next.output.content[at as int] matches AssistantContentV::ToolCall(call) && {
                &&& call.id == if old.id.len() == 0 {
                    id
                } else {
                    old.id
                }
                &&& call.name == if old.name.len() == 0 {
                    words(function, "name"@)
                } else {
                    old.name
                }
            }
            &&& lookup(next.tool_by_id, id) == Some(at)
        }),
{
    reveal(call_step);
    let head = lemma_only_call(s, model, v, measured, properties, parser, delta, piece);
    lemma_put(head.tool_by_id, id, at, id);
}

/// A report of usage that holds something else than numbers and texts is as good as none.
pub proof fn law_broken_usage_is_none<P: StreamingJson>(
    s: CompletionsStreamV,
    model: ModelV,
    v: JsonV,
    measured: UsageV,
    properties: Seq<(Seq<char>, Seq<char>)>,
    parser: &P,
    usage: JsonV,
    key: Seq<char>,
)
    requires
        member(v, "usage"@) == Some(usage),
        member(v, "choices"@) is None,
        !(usage is Object) || ((key == "prompt_tokens"@ || key == "completion_tokens"@ || key
            == "cached_tokens"@ || key == "prompt_cache_hit_tokens"@) && (member(
            usage,
            key,
        ) matches Some(x) && (x is Bool || x is Array || x is Object))),
    ensures
        chunk_step(s, model, raw_chunk(v), measured, properties, parser).0.output.usage
            == s.output.usage,
{
}

/// Reasoning details that come together are kept in their order.
pub proof fn law_details_may_come_together<P: StreamingJson>(
    s: CompletionsStreamV,
    model: ModelV,
    v: JsonV,
    measured: UsageV,
    properties: Seq<(Seq<char>, Seq<char>)>,
    parser: &P,
    delta: JsonV,
    a: JsonV,
    b: JsonV,
)
    requires
        says(v, delta),
        lacks(delta, "content"@),
        lacks(delta, "reasoning_content"@),
        lacks(delta, "reasoning"@),
        lacks(delta, "reasoning_text"@),
        lacks(delta, "tool_calls"@),
        member(delta, "reasoning_details"@) == Some(JsonV::Array(seq![a, b])),
        plain_detail(a),
        plain_detail(b),
    ensures
        chunk_step(
            s,
            model,
            raw_chunk(v),
            measured,
            properties,
            parser,
        ).0.output.reasoning_details == Some(
            match s.output.reasoning_details {
                Some(details) => details,
                None => Seq::empty(),
            }.push(a).push(b),
        ),
{
    let head = lemma_says(s, model, v, measured, properties, parser, delta);
    let raw = raw_delta(Some(delta))->Some_0;
    assert(raw.tool_calls.len() == 0);
    assert(raw.reasoning_details == seq![a, b]);
    assert(seq![a, b].drop_last() =~= seq![a]);
    assert(seq![a].drop_last() =~= Seq::<JsonV>::empty());
    assert(detail_steps(head, Seq::empty()) == head);
    assert(detail_steps(head, seq![a]) == detail_step(head, a));
    assert(detail_steps(head, seq![a, b]) == detail_step(detail_step(head, a), b));
    assert(text_step(head, raw.content) == (head, None::<Seq<char>>));
    assert(thinking_step(head, raw, model) == (head, None::<Seq<char>>));
    assert(tool_steps(head, raw.tool_calls, properties, parser) == (head, None::<Seq<char>>));
    assert(Seq::<JsonV>::empty().push(a) =~= seq![a]);
    reveal_strlit("reasoning.summary");
    reveal_strlit("reasoning.encrypted");
    reveal_strlit("reasoning.text");
    assert("reasoning.summary"@.len() == 17 && "reasoning.encrypted"@.len() == 19
        && "reasoning.text"@.len() == 14);
}

/// A further piece of free-form input is added to the one argument of its call.
pub proof fn law_custom_call_goes_on<P: StreamingJson>(
    s: CompletionsStreamV,
    model: ModelV,
    v: JsonV,
    measured: UsageV,
    properties: Seq<(Seq<char>, Seq<char>)>,
    parser: &P,
    delta: JsonV,
    piece: JsonV,
    custom: JsonV,
    index: u64,
    at: usize,
    property: Seq<char>,
    come: Seq<char>,
)
    requires
        says(v, delta),
        only_call(delta, piece),
        member(piece, "index"@) == Some(JsonV::Number(JsonNumberV::Unsigned(index))),
        lacks(piece, "id"@),
        lacks(piece, "function"@),
        member(piece, "custom"@) == Some(custom),
        custom is Object,
        words(custom, "input"@).len() > 0,
        lookup(s.tool_by_stream_index, index) == Some(at),
        at < s.output.content.len(),
        s.output.content[at as int] matches AssistantContentV::ToolCall(call) && call.name.len()
            > 0 && call.arguments == JsonV::Object(seq![(property, JsonV::Str(come))]) && lookup(
            s.pending_details,
            call.id,
        ) is None,
        lookup(s.tool_scratch, at as u64) matches Some(scratch) && (
        scratch.custom_input matches Some(input) && input.property == property),
        chunk_step(s, model, raw_chunk(v), measured, properties, parser).1 is None,
    ensures
        ({
            let next = chunk_step(s, model, raw_chunk(v), measured, properties, parser).0;
            let old = s.output.content[at as int]->ToolCall_0;
            &&& next.output.content == s.output.content.update(
                at as int,
                AssistantContentV::ToolCall(
                    ToolCallV {
                        arguments: JsonV::Object(
                            seq![(property, JsonV::Str(come + words(custom, "input"@)))],
                        ),
                        ..old
                    },
                ),
            )
            &&& next.events.len() == s.events.len() + 1
            &&& next.events.last() matches AssistantMessageEventV::ToolCallDelta {
                content_index,
                ..
            } && content_index == at
        }),
{
    reveal(call_step);
    let head = lemma_only_call(s, model, v, measured, properties, parser, delta, piece);
    let arguments = s.output.content[at as int]->ToolCall_0.arguments;
    crate::assoc::lemma_key_index(seq![(property, JsonV::Str(come))], property, 0);
    assert(member(arguments, property) == Some(JsonV::Str(come)));
}

/// Where a stream ends, a free-form call is told to its end: the pieces that the listener was told of
/// make up the object that the call holds.
pub proof fn law_finished_custom_call_is_told<P: StreamingJson>(
    s: CompletionsStreamV,
    at: usize,
    parser: &P,
    property: Seq<char>,
    come: Seq<char>,
    sent: Seq<char>,
    rest: Seq<char>,
)
    requires
        at < s.output.content.len(),
        s.output.content[at as int] matches AssistantContentV::ToolCall(call) && call.arguments
            == JsonV::Object(seq![(property, JsonV::Str(come))]),
        lookup(s.tool_scratch, at as u64) matches Some(scratch) && (
        scratch.custom_input matches Some(input) && input.property == property && input.json_buffer
            == sent),
        json_text(JsonV::Object(seq![(property, JsonV::Str(come))])) == sent + rest,
        rest.len() > 0,
    ensures
        ({
            let (next, failure) = block_finished(s, at, parser);
            let call = s.output.content[at as int]->ToolCall_0;
            &&& failure is None
            &&& next.output.content == s.output.content
            &&& next.events == s.events + seq![
                AssistantMessageEventV::ToolCallDelta { content_index: at, delta: rest },
                AssistantMessageEventV::ToolCallEnd { content_index: at, tool_call: call },
            ]
        }),
{
    reveal(block_finished);
    let arguments = s.output.content[at as int]->ToolCall_0.arguments;
    crate::assoc::lemma_key_index(seq![(property, JsonV::Str(come))], property, 0);
    assert(member(arguments, property) == Some(JsonV::Str(come)));
    let whole = sent + rest;
    assert(whole.take(sent.len() as int) =~= sent);
    assert(whole.skip(sent.len() as int) =~= rest);
    let call = s.output.content[at as int]->ToolCall_0;
    let next = block_finished(s, at, parser).0;
    assert(next.events =~= s.events + seq![
        AssistantMessageEventV::ToolCallDelta { content_index: at, delta: rest },
        AssistantMessageEventV::ToolCallEnd { content_index: at, tool_call: call },
    ]);
}

} // verus!
