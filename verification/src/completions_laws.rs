//! What holds of every chat-completions stream.
use crate::assoc::{key_index, lemma_key_index_props, lookup, put};
use crate::completions_chunks::{RawChunkV, RawDeltaV, RawToolCallDeltaV};
use crate::completions_stream::{
    call_step, chunk_step, detail_step, detail_steps, ended, extended, headed, identified,
    joined_details, known_call, made_custom, named_by, scratch_at, text_step, thinking_step,
    tool_step, tool_steps, with_call, with_call_block, with_output, with_text_block,
    with_thinking_block, CompletionsStreamV,
};
use crate::constrained_sampling::{StreamingJson, INPUT_CHANGED};
use crate::json::JsonV;
use crate::responses_stream::{call_at, kinds_kept, same_kind, text_at, thinking_at};
use crate::types::{
    AssistantContentV, AssistantMessageEventV, AssistantMessageV, ModelV, UsageV,
};
use vstd::prelude::*;

verus! {

/// The block that an event is about.
pub open spec fn event_block(event: AssistantMessageEventV) -> Option<usize> {
    match event {
        AssistantMessageEventV::TextStart { content_index } => Some(content_index),
        AssistantMessageEventV::TextDelta { content_index, .. } => Some(content_index),
        AssistantMessageEventV::TextEnd { content_index, .. } => Some(content_index),
        AssistantMessageEventV::ThinkingStart { content_index, .. } => Some(content_index),
        AssistantMessageEventV::ThinkingDelta { content_index, .. } => Some(content_index),
        AssistantMessageEventV::ThinkingEnd { content_index, .. } => Some(content_index),
        AssistantMessageEventV::ToolCallStart { content_index, .. } => Some(content_index),
        AssistantMessageEventV::ToolCallDelta { content_index, .. } => Some(content_index),
        AssistantMessageEventV::ToolCallEnd { content_index, .. } => Some(content_index),
        _ => None,
    }
}

/// What the listener has been told of the text of a block.
pub open spec fn told_text(events: Seq<AssistantMessageEventV>, at: usize) -> Seq<char>
    decreases events.len(),
{
    if events.len() == 0 {
        Seq::empty()
    } else {
        let rest = told_text(events.drop_last(), at);
        match events.last() {
            AssistantMessageEventV::TextDelta { content_index, delta } => if content_index == at {
                rest + delta
            } else {
                rest
            },
            _ => rest,
        }
    }
}

/// What the listener has been told of the reasoning of a block.
pub open spec fn told_thinking(events: Seq<AssistantMessageEventV>, at: usize) -> Seq<char>
    decreases events.len(),
{
    if events.len() == 0 {
        Seq::empty()
    } else {
        let rest = told_thinking(events.drop_last(), at);
        match events.last() {
            AssistantMessageEventV::ThinkingDelta { content_index, delta } => if content_index
                == at {
                rest + delta
            } else {
                rest
            },
            _ => rest,
        }
    }
}

/// Whether all blocks that are known by a key are calls.
pub open spec fn all_calls<K>(list: Seq<(K, usize)>, output: AssistantMessageV) -> bool {
    forall|i: int| 0 <= i < list.len() ==> call_at(output, (#[trigger] list[i]).1) is Some
}

/// Whether a stream is in order: the blocks that it remembers are of the right kind, and the
/// listener has been told all of the text and the reasoning that the message holds.
pub open spec fn well_formed(s: CompletionsStreamV) -> bool {
    &&& forall|i: int|
        0 <= i < s.events.len() ==> (event_block(#[trigger] s.events[i]) matches Some(at) ==> at
            < s.output.content.len())
    &&& s.text_index matches Some(at) ==> text_at(s.output, at) is Some && text_at(
        s.output,
        at,
    )->Some_0.text == told_text(s.events, at)
    &&& s.thinking_index matches Some(at) ==> thinking_at(s.output, at) is Some && thinking_at(
        s.output,
        at,
    )->Some_0.thinking == told_thinking(s.events, at)
    &&& all_calls(s.tool_by_stream_index, s.output)
    &&& all_calls(s.tool_by_id, s.output)
}

/// Whether one state of a stream goes on from another: blocks keep their place and kind, and what
/// has been told stays told.
pub open spec fn goes_on(a: CompletionsStreamV, b: CompletionsStreamV) -> bool {
    &&& kinds_kept(a.output, b.output)
    &&& a.events.is_prefix_of(b.events)
    &&& b.output.content.len() <= usize::MAX
}

proof fn lemma_goes_on(a: CompletionsStreamV, b: CompletionsStreamV, c: CompletionsStreamV)
    requires
        goes_on(a, b),
        goes_on(b, c),
    ensures
        goes_on(a, c),
{
    assert forall|i: int| 0 <= i < a.output.content.len() implies same_kind(
        #[trigger] a.output.content[i],
        c.output.content[i],
    ) by {
        assert(same_kind(a.output.content[i], b.output.content[i]));
        assert(same_kind(b.output.content[i], c.output.content[i]));
    }
    assert(a.events =~= c.events.subrange(0, a.events.len() as int)) by {
        assert(a.events =~= b.events.subrange(0, a.events.len() as int));
        assert(b.events =~= c.events.subrange(0, b.events.len() as int));
    }
}

proof fn lemma_prefix<A>(s: Seq<A>, a: A)
    ensures
        s.is_prefix_of(s),
        s.is_prefix_of(s.push(a)),
{
    assert(s =~= s.subrange(0, s.len() as int));
    assert(s =~= s.push(a).subrange(0, s.len() as int));
}

proof fn lemma_told_nothing(events: Seq<AssistantMessageEventV>, at: usize)
    requires
        forall|i: int|
            0 <= i < events.len() ==> (event_block(#[trigger] events[i]) matches Some(b) ==> b
                < at),
    ensures
        told_text(events, at) == Seq::<char>::empty(),
        told_thinking(events, at) == Seq::<char>::empty(),
    decreases events.len(),
{
    if events.len() > 0 {
        let rest = events.drop_last();
        assert forall|i: int| 0 <= i < rest.len() implies (event_block(
            #[trigger] rest[i],
        ) matches Some(b) ==> b < at) by {
            assert(rest[i] == events[i]);
        }
        lemma_told_nothing(rest, at);
        assert(event_block(events[events.len() - 1]) matches Some(b) ==> b < at);
    }
}

proof fn lemma_told_push(
    events: Seq<AssistantMessageEventV>,
    event: AssistantMessageEventV,
    at: usize,
)
    ensures
        told_text(events.push(event), at) == match event {
            AssistantMessageEventV::TextDelta { content_index, delta } if content_index == at =>
                told_text(events, at) + delta,
            _ => told_text(events, at),
        },
        told_thinking(events.push(event), at) == match event {
            AssistantMessageEventV::ThinkingDelta { content_index, delta } if content_index == at =>
                told_thinking(events, at) + delta,
            _ => told_thinking(events, at),
        },
{
    assert(events.push(event).drop_last() =~= events);
}

/// A change that tells nothing of text and reasoning, and leaves the blocks where they are.
proof fn lemma_quiet(a: CompletionsStreamV, b: CompletionsStreamV, event: Option<AssistantMessageEventV>)
    requires
        well_formed(a),
        a.output.content.len() <= usize::MAX,
        kinds_kept(a.output, b.output),
        a.output.content.len() == b.output.content.len(),
        forall|at: usize|
            text_at(a.output, at) is Some ==> #[trigger] text_at(b.output, at) == text_at(
                a.output,
                at,
            ),
        forall|at: usize|
            thinking_at(a.output, at) is Some ==> #[trigger] thinking_at(b.output, at)
                == thinking_at(a.output, at),
        b.text_index == a.text_index,
        b.thinking_index == a.thinking_index,
        all_calls(b.tool_by_stream_index, b.output),
        all_calls(b.tool_by_id, b.output),
        match event {
            Some(e) => {
                &&& b.events == a.events.push(e)
                &&& event_block(e) matches Some(at) ==> at < b.output.content.len()
                &&& !(e is TextDelta) && !(e is ThinkingDelta)
            },
            None => b.events == a.events,
        },
    ensures
        well_formed(b),
        goes_on(a, b),
{
    if let Some(e) = event {
        lemma_prefix(a.events, e);
        if let Some(at) = a.text_index {
            lemma_told_push(a.events, e, at);
        }
        if let Some(at) = a.thinking_index {
            lemma_told_push(a.events, e, at);
        }
    } else {
        lemma_prefix(a.events, arbitrary());
    }
}

proof fn lemma_all_calls_put<K>(list: Seq<(K, usize)>, key: K, at: usize, output: AssistantMessageV)
    requires
        all_calls(list, output),
        call_at(output, at) is Some,
    ensures
        all_calls(put(list, key, at), output),
{
    lemma_key_index_props(list, key);
}

proof fn lemma_all_calls_lookup<K>(list: Seq<(K, usize)>, key: K, output: AssistantMessageV)
    requires
        all_calls(list, output),
        lookup(list, key) is Some,
    ensures
        call_at(output, lookup(list, key)->Some_0) is Some,
{
    lemma_key_index_props(list, key);
    let i = key_index(list, key) as int;
    assert(call_at(output, list[i].1) is Some);
}

proof fn lemma_all_calls_kept<K>(
    list: Seq<(K, usize)>,
    a: AssistantMessageV,
    b: AssistantMessageV,
)
    requires
        all_calls(list, a),
        kinds_kept(a, b),
    ensures
        all_calls(list, b),
{
    assert forall|i: int| 0 <= i < list.len() implies call_at(b, (#[trigger] list[i]).1) is Some by {
        let at = list[i].1;
        assert(call_at(a, at) is Some);
        assert(same_kind(a.content[at as int], b.content[at as int]));
    }
}

/// A new block, of which the listener is told that it begins.
proof fn lemma_new_block(
    a: CompletionsStreamV,
    b: CompletionsStreamV,
    block: AssistantContentV,
    event: AssistantMessageEventV,
)
    requires
        well_formed(a),
        a.output.content.len() < usize::MAX,
        b.output.content == a.output.content.push(block),
        b.events == a.events.push(event),
        event_block(event) == Some(a.output.content.len() as usize),
        !(event is TextDelta) && !(event is ThinkingDelta),
        b.tool_by_stream_index == a.tool_by_stream_index,
        b.tool_by_id == a.tool_by_id,
        b.text_index == a.text_index || (a.text_index is None && block is Text && b.text_index
            == Some(a.output.content.len() as usize) && block->Text_0.text == Seq::<char>::empty()),
        b.thinking_index == a.thinking_index || (a.thinking_index is None && block is Thinking
            && b.thinking_index == Some(a.output.content.len() as usize)
            && block->Thinking_0.thinking == Seq::<char>::empty()),
    ensures
        well_formed(b),
        goes_on(a, b),
{
    let n = a.output.content.len() as usize;
    lemma_prefix(a.events, event);
    assert forall|i: int| 0 <= i < b.events.len() implies (event_block(
        #[trigger] b.events[i],
    ) matches Some(at) ==> at < b.output.content.len()) by {
        if i < a.events.len() {
            assert(b.events[i] == a.events[i]);
        }
    }
    lemma_told_nothing(a.events, n);
    if let Some(at) = b.text_index {
        lemma_told_push(a.events, event, at);
    }
    if let Some(at) = b.thinking_index {
        lemma_told_push(a.events, event, at);
    }
    lemma_all_calls_kept(a.tool_by_stream_index, a.output, b.output);
    lemma_all_calls_kept(a.tool_by_id, a.output, b.output);
}

proof fn lemma_text_step(s: CompletionsStreamV, content: Option<Seq<char>>)
    requires
        well_formed(s),
        s.output.content.len() < usize::MAX,
    ensures
        well_formed(text_step(s, content).0),
        goes_on(s, text_step(s, content).0),
        text_step(s, content).1 is None,
        text_step(s, content).0.output.content.len() <= s.output.content.len() + 1,
{
    let next = text_step(s, content).0;
    lemma_prefix(s.events, arbitrary());
    if content is Some && content->Some_0.len() > 0 {
        let open = with_text_block(s);
        if s.text_index is None {
            lemma_new_block(
                s,
                open,
                open.output.content.last(),
                open.events.last(),
            );
        }
        let at = open.text_index->Some_0;
        let event = next.events.last();
        lemma_prefix(open.events, event);
        lemma_told_push(open.events, event, at);
        if let Some(other) = open.thinking_index {
            lemma_told_push(open.events, event, other);
        }
        lemma_all_calls_kept(open.tool_by_stream_index, open.output, next.output);
        lemma_all_calls_kept(open.tool_by_id, open.output, next.output);
        assert forall|i: int| 0 <= i < next.events.len() implies (event_block(
            #[trigger] next.events[i],
        ) matches Some(b) ==> b < next.output.content.len()) by {
            if i < open.events.len() {
                assert(next.events[i] == open.events[i]);
            }
        }
        assert(goes_on(open, next));
        lemma_goes_on(s, open, next);
    }
}

proof fn lemma_thinking_step(s: CompletionsStreamV, delta: RawDeltaV, model: ModelV)
    requires
        well_formed(s),
        s.output.content.len() < usize::MAX,
    ensures
        well_formed(thinking_step(s, delta, model).0),
        goes_on(s, thinking_step(s, delta, model).0),
        thinking_step(s, delta, model).1 is None,
        thinking_step(s, delta, model).0.output.content.len() <= s.output.content.len() + 1,
{
    let next = thinking_step(s, delta, model).0;
    lemma_prefix(s.events, arbitrary());
    if let Some((field, _)) = crate::completions_stream::reasoning_of(delta, model) {
        let open = with_thinking_block(s, field);
        if s.thinking_index is None {
            lemma_new_block(
                s,
                open,
                open.output.content.last(),
                open.events.last(),
            );
        }
        let at = open.thinking_index->Some_0;
        let event = next.events.last();
        lemma_prefix(open.events, event);
        lemma_told_push(open.events, event, at);
        if let Some(other) = open.text_index {
            lemma_told_push(open.events, event, other);
        }
        lemma_all_calls_kept(open.tool_by_stream_index, open.output, next.output);
        lemma_all_calls_kept(open.tool_by_id, open.output, next.output);
        assert forall|i: int| 0 <= i < next.events.len() implies (event_block(
            #[trigger] next.events[i],
        ) matches Some(b) ==> b < next.output.content.len()) by {
            if i < open.events.len() {
                assert(next.events[i] == open.events[i]);
            }
        }
        assert(goes_on(open, next));
        lemma_goes_on(s, open, next);
    }
}

/// The failures that a delta of a call may have.
pub open spec fn call_failure(e: Option<Seq<char>>) -> bool {
    e is None || e == Some("custom tool-call state is invalid"@) || e == Some(INPUT_CHANGED@)
}

proof fn lemma_call_step<P: StreamingJson>(
    s: CompletionsStreamV,
    at: usize,
    delta: RawToolCallDeltaV,
    properties: Seq<(Seq<char>, Seq<char>)>,
    parser: &P,
)
    requires
        well_formed(s),
        s.output.content.len() <= usize::MAX,
        call_at(s.output, at) is Some,
    ensures
        well_formed(call_step(s, at, delta, properties, parser).0),
        goes_on(s, call_step(s, at, delta, properties, parser).0),
        call_failure(call_step(s, at, delta, properties, parser).1),
        call_step(s, at, delta, properties, parser).0.output.content.len()
            == s.output.content.len(),
{
    reveal(call_step);
    let named = named_by(s, delta, at);
    if let Some(index) = delta.index {
        lemma_all_calls_put(s.tool_by_stream_index, index, at, s.output);
    }
    if let Some(id) = delta.id {
        lemma_all_calls_put(s.tool_by_id, id, at, s.output);
    }
    lemma_quiet(s, named, None);
    let next = call_step(s, at, delta, properties, parser).0;
    let call = call_at(named.output, at)->Some_0;
    let (joint, call) = joined_details(named, identified(call, delta));
    let (call, scratch) = made_custom(call, scratch_at(joint, at), delta, properties);
    let (call, scratch, emitted) = extended(call, scratch, delta, parser);
    let held = with_call(joint, at, call, scratch);
    lemma_all_calls_kept(named.tool_by_stream_index, named.output, held.output);
    lemma_all_calls_kept(named.tool_by_id, named.output, held.output);
    match emitted {
        Ok(_) => {
            lemma_quiet(named, next, Some(next.events.last()));
        },
        Err(_) => {
            lemma_quiet(named, next, None);
        },
    }
    lemma_goes_on(s, named, next);
}

proof fn lemma_tool_step<P: StreamingJson>(
    s: CompletionsStreamV,
    delta: RawToolCallDeltaV,
    properties: Seq<(Seq<char>, Seq<char>)>,
    parser: &P,
)
    requires
        well_formed(s),
        s.output.content.len() < usize::MAX,
    ensures
        well_formed(tool_step(s, delta, properties, parser).0),
        goes_on(s, tool_step(s, delta, properties, parser).0),
        call_failure(tool_step(s, delta, properties, parser).1),
        tool_step(s, delta, properties, parser).0.output.content.len() <= s.output.content.len()
            + 1,
{
    match known_call(s, delta) {
        Some(at) => {
            match delta.index {
                Some(index) => {
                    if lookup(s.tool_by_stream_index, index) is Some {
                        lemma_all_calls_lookup(s.tool_by_stream_index, index, s.output);
                    } else if let Some(id) = delta.id {
                        lemma_all_calls_lookup(s.tool_by_id, id, s.output);
                    }
                },
                None => {
                    if let Some(id) = delta.id {
                        lemma_all_calls_lookup(s.tool_by_id, id, s.output);
                    }
                },
            }
            lemma_call_step(s, at, delta, properties, parser);
        },
        None => {
            let open = with_call_block(s, delta, properties);
            let at = s.output.content.len() as usize;
            lemma_new_block(s, open, open.output.content.last(), open.events.last());
            lemma_call_step(open, at, delta, properties, parser);
            lemma_goes_on(s, open, call_step(open, at, delta, properties, parser).0);
        },
    }
}

proof fn lemma_tool_steps<P: StreamingJson>(
    s: CompletionsStreamV,
    deltas: Seq<RawToolCallDeltaV>,
    properties: Seq<(Seq<char>, Seq<char>)>,
    parser: &P,
)
    requires
        well_formed(s),
        s.output.content.len() + deltas.len() <= usize::MAX,
    ensures
        well_formed(tool_steps(s, deltas, properties, parser).0),
        goes_on(s, tool_steps(s, deltas, properties, parser).0),
        call_failure(tool_steps(s, deltas, properties, parser).1),
    decreases deltas.len(),
{
    lemma_prefix(s.events, arbitrary());
    if deltas.len() > 0 {
        lemma_tool_step(s, deltas[0], properties, parser);
        let (next, failure) = tool_step(s, deltas[0], properties, parser);
        if failure is None {
            lemma_tool_steps(next, deltas.drop_first(), properties, parser);
            lemma_goes_on(
                s,
                next,
                tool_steps(next, deltas.drop_first(), properties, parser).0,
            );
        }
    }
}

proof fn lemma_detail_step(s: CompletionsStreamV, detail: JsonV)
    requires
        well_formed(s),
        s.output.content.len() <= usize::MAX,
    ensures
        well_formed(detail_step(s, detail)),
        goes_on(s, detail_step(s, detail)),
        detail_step(s, detail).output.content.len() == s.output.content.len(),
{
    let next = detail_step(s, detail);
    lemma_all_calls_kept(s.tool_by_stream_index, s.output, next.output);
    lemma_all_calls_kept(s.tool_by_id, s.output, next.output);
    lemma_quiet(s, next, None);
}

proof fn lemma_detail_steps(s: CompletionsStreamV, details: Seq<JsonV>)
    requires
        well_formed(s),
        s.output.content.len() <= usize::MAX,
    ensures
        well_formed(detail_steps(s, details)),
        goes_on(s, detail_steps(s, details)),
        detail_steps(s, details).output.content.len() == s.output.content.len(),
    decreases details.len(),
{
    lemma_prefix(s.events, arbitrary());
    if details.len() > 0 {
        let rest = details.drop_last();
        lemma_detail_steps(s, rest);
        lemma_detail_step(detail_steps(s, rest), details.last());
        lemma_goes_on(s, detail_steps(s, rest), detail_steps(s, details));
    }
}

/// Every chunk leaves the stream in order: what the listener has been told of the text and of the
/// reasoning is what the message holds, blocks keep their place and kind, and what has been told
/// stays told. A chunk fails only where input of a custom tool comes that is not expected or does not
/// go on as it began.
pub proof fn law_chunk_keeps_order<P: StreamingJson>(
    s: CompletionsStreamV,
    model: ModelV,
    chunk: RawChunkV,
    measured: UsageV,
    properties: Seq<(Seq<char>, Seq<char>)>,
    parser: &P,
)
    requires
        well_formed(s),
        chunk.choices.len() > 0 && chunk.choices[0].delta is Some ==> s.output.content.len()
            + chunk.choices[0].delta->Some_0.tool_calls.len() + 2 <= usize::MAX,
        s.output.content.len() <= usize::MAX,
    ensures
        well_formed(chunk_step(s, model, chunk, measured, properties, parser).0),
        goes_on(s, chunk_step(s, model, chunk, measured, properties, parser).0),
        call_failure(chunk_step(s, model, chunk, measured, properties, parser).1),
{
    let head = with_output(s, headed(s.output, model, chunk, measured));
    lemma_all_calls_kept(s.tool_by_stream_index, s.output, head.output);
    lemma_all_calls_kept(s.tool_by_id, s.output, head.output);
    lemma_quiet(s, head, None);
    if chunk.choices.len() > 0 {
        let choice = chunk.choices[0];
        let end = ended(head, choice.finish_reason);
        lemma_all_calls_kept(head.tool_by_stream_index, head.output, end.output);
        lemma_all_calls_kept(head.tool_by_id, head.output, end.output);
        lemma_quiet(head, end, None);
        lemma_goes_on(s, head, end);
        if let Some(delta) = choice.delta {
            lemma_text_step(end, delta.content);
            let spoken = text_step(end, delta.content).0;
            lemma_goes_on(s, end, spoken);
            lemma_thinking_step(spoken, delta, model);
            let thought = thinking_step(spoken, delta, model).0;
            lemma_goes_on(s, spoken, thought);
            lemma_tool_steps(thought, delta.tool_calls, properties, parser);
            let (called, failure) = tool_steps(thought, delta.tool_calls, properties, parser);
            lemma_goes_on(s, thought, called);
            if failure is None {
                lemma_detail_steps(called, delta.reasoning_details);
                lemma_goes_on(s, called, detail_steps(called, delta.reasoning_details));
            }
        }
    }
}

/// A stream that has brought nothing is in order.
pub proof fn law_new_stream_is_in_order(output: AssistantMessageV)
    ensures
        well_formed(
            CompletionsStreamV {
                output,
                text_index: None,
                thinking_index: None,
                has_finish_reason: false,
                tool_by_stream_index: Seq::empty(),
                tool_by_id: Seq::empty(),
                tool_scratch: Seq::empty(),
                pending_details: Seq::empty(),
                events: Seq::empty(),
            },
        ),
{
}

} // verus!
