//! What the listener is told of the ends of blocks.
use crate::assoc;
use crate::assoc::{lookup, removed};
use crate::completions_stream::{
    block_finished, blocks_finished, closed_call, CompletionsStreamV,
};
use crate::constrained_sampling::StreamingJson;
use crate::json::JsonV;
use crate::responses_events::{decoded_item, OutputItemV};
use crate::responses_stream::{
    item_done_step, opened, phase_applied, slot_fits, well_formed, OutputSlotV, ResponsesStreamV,
};
use crate::types::{AssistantContentV, AssistantMessageEventV, AssistantMessageV};
use vstd::prelude::*;

verus! {

/// Whether an event is about the end of a block.
pub open spec fn is_end(event: AssistantMessageEventV) -> bool {
    event is TextEnd || event is ThinkingEnd || event is ToolCallEnd
}

/// The events about the ends of blocks, in order.
pub open spec fn ends(events: Seq<AssistantMessageEventV>) -> Seq<AssistantMessageEventV>
    decreases events.len(),
{
    if events.len() == 0 {
        Seq::empty()
    } else {
        let rest = ends(events.drop_last());
        if is_end(events.last()) {
            rest.push(events.last())
        } else {
            rest
        }
    }
}

/// What the listener is told of the end of a block.
pub open spec fn block_end(block: AssistantContentV, at: usize) -> AssistantMessageEventV {
    match block {
        AssistantContentV::Text(t) => AssistantMessageEventV::TextEnd {
            content_index: at,
            content: t.text,
            content_signature: t.text_signature,
        },
        AssistantContentV::Thinking(t) => AssistantMessageEventV::ThinkingEnd {
            content_index: at,
            content: t.thinking,
            content_signature: t.thinking_signature,
            redacted: t.redacted,
        },
        AssistantContentV::ToolCall(c) => AssistantMessageEventV::ToolCallEnd {
            content_index: at,
            tool_call: c,
        },
    }
}

/// What the listener is told of the ends of the first `n` blocks.
pub open spec fn block_ends(content: Seq<AssistantContentV>, n: nat) -> Seq<
    AssistantMessageEventV,
> {
    Seq::new(n, |i: int| block_end(content[i], i as usize))
}

proof fn lemma_ends_push(events: Seq<AssistantMessageEventV>, event: AssistantMessageEventV)
    ensures
        ends(events.push(event)) == if is_end(event) {
            ends(events).push(event)
        } else {
            ends(events)
        },
{
    assert(events.push(event).drop_last() =~= events);
}

proof fn lemma_block_finished<P: StreamingJson>(s: CompletionsStreamV, at: usize, parser: &P)
    requires
        at < s.output.content.len(),
        block_finished(s, at, parser).1 is None,
    ensures
        ({
            let t = block_finished(s, at, parser).0;
            &&& t.output.content.len() == s.output.content.len()
            &&& forall|i: int|
                0 <= i < s.output.content.len() && i != at ==> #[trigger] t.output.content[i]
                    == s.output.content[i]
            &&& ends(t.events) == ends(s.events).push(block_end(t.output.content[at as int], at))
        }),
{
    reveal(block_finished);
    let t = block_finished(s, at, parser).0;
    match s.output.content[at as int] {
        AssistantContentV::ToolCall(call) => {
            let closed = closed_call(s, at, call, parser).0;
            if closed.events != s.events {
                lemma_ends_push(s.events, closed.events.last());
                assert(closed.events.last() is ToolCallDelta);
            }
            lemma_ends_push(closed.events, t.events.last());
        },
        _ => {
            lemma_ends_push(s.events, t.events.last());
        },
    }
}

proof fn lemma_blocks_finished<P: StreamingJson>(s: CompletionsStreamV, n: nat, parser: &P)
    requires
        n <= s.output.content.len(),
        s.output.content.len() <= usize::MAX,
        blocks_finished(s, n, parser).1 is None,
    ensures
        ({
            let t = blocks_finished(s, n, parser).0;
            &&& t.output.content.len() == s.output.content.len()
            &&& ends(t.events) == ends(s.events) + block_ends(t.output.content, n)
        }),
    decreases n,
{
    let t = blocks_finished(s, n, parser).0;
    if n == 0 {
        assert(block_ends(t.output.content, 0) =~= Seq::empty());
        assert(ends(s.events) + Seq::empty() =~= ends(s.events));
    } else {
        let before = blocks_finished(s, (n - 1) as nat, parser).0;
        lemma_blocks_finished(s, (n - 1) as nat, parser);
        lemma_block_finished(before, (n - 1) as usize, parser);
        assert(block_ends(t.output.content, n) =~= block_ends(
            before.output.content,
            (n - 1) as nat,
        ).push(block_end(t.output.content[n - 1], (n - 1) as usize)));
        assert(ends(t.events) =~= ends(s.events) + block_ends(t.output.content, n));
    }
}

/// At the end of a chat-completions stream the listener is told of the end of every block, once and
/// in order, and each time what the message then holds.
pub proof fn law_every_block_ends<P: StreamingJson>(s: CompletionsStreamV, parser: &P)
    requires
        s.output.content.len() <= usize::MAX,
        blocks_finished(s, s.output.content.len(), parser).1 is None,
    ensures
        ({
            let t = blocks_finished(s, s.output.content.len(), parser).0;
            &&& t.output.content.len() == s.output.content.len()
            &&& ends(t.events) == ends(s.events) + block_ends(
                t.output.content,
                t.output.content.len(),
            )
        }),
{
    lemma_blocks_finished(s, s.output.content.len(), parser);
}

/// Whether a slot is for items of a kind.
pub open spec fn slot_matches(item: OutputItemV, slot: OutputSlotV) -> bool {
    match (item, slot) {
        (OutputItemV::Reasoning { .. }, OutputSlotV::Thinking { .. }) => true,
        (OutputItemV::Message { .. }, OutputSlotV::Text { .. }) => true,
        (OutputItemV::FunctionCall { .. }, OutputSlotV::FunctionCall { .. }) => true,
        (OutputItemV::CustomToolCall { .. }, OutputSlotV::CustomToolCall { .. }) => true,
        _ => false,
    }
}

/// Whether an event tells the end of a block as a message holds it.
pub open spec fn tells_end(output: AssistantMessageV, event: AssistantMessageEventV) -> bool {
    match event {
        AssistantMessageEventV::TextEnd { content_index, content, content_signature } => {
            &&& content_index < output.content.len()
            &&& output.content[content_index as int] matches AssistantContentV::Text(t)
                && t.text == content && t.text_signature == content_signature
        },
        AssistantMessageEventV::ThinkingEnd {
            content_index,
            content,
            content_signature,
            redacted,
        } => {
            &&& content_index < output.content.len()
            &&& output.content[content_index as int] matches AssistantContentV::Thinking(t)
                && t.thinking == content && t.thinking_signature == content_signature
        },
        AssistantMessageEventV::ToolCallEnd { content_index, tool_call } => {
            &&& content_index < output.content.len()
            &&& output.content[content_index as int] == AssistantContentV::ToolCall(tool_call)
        },
        _ => false,
    }
}

/// Where an item of a Responses stream is done, its slot is free again, and the last that the
/// listener was told is the end of its block, as the message then holds it. That is so whether the
/// item has begun before or not.
pub proof fn law_item_end_is_told<P: StreamingJson>(
    s: ResponsesStreamV,
    index: u64,
    raw: JsonV,
    item: OutputItemV,
    properties: Option<Seq<(Seq<char>, Seq<char>)>>,
    parser: &P,
)
    requires
        well_formed(s),
        s.output.content.len() < usize::MAX,
        decoded_item(raw) == Ok::<OutputItemV, Seq<char>>(item),
        !(item is Unknown),
        lookup(s.slots, index) matches Some(slot) ==> slot_matches(item, slot),
    ensures
        ({
            let step = item_done_step(s, index, raw, properties, parser);
            step.error is None ==> {
                &&& lookup(step.stream.slots, index) is None
                &&& step.stream.events.len() > s.events.len()
                &&& tells_end(step.stream.output, step.stream.events.last())
            }
        }),
{
    reveal(item_done_step);
    reveal(opened);
    let marked = ResponsesStreamV { output: phase_applied(item, s.output), ..s };
    let open = if lookup(s.slots, index) is None {
        opened(marked, index, item, properties)
    } else {
        marked
    };
    assoc::lemma_key_index_props(s.slots, index);
    if lookup(s.slots, index) is None {
        let slot = open.slots.last().1;
        assert(open.slots == assoc::put(s.slots, index, slot));
        assoc::lemma_put(s.slots, index, slot, index);
        assoc::lemma_put_distinct(s.slots, index, slot);
        assert(slot_matches(item, slot));
        assert(slot_fits(open.output, slot));
    } else {
        let slot = lookup(s.slots, index)->Some_0;
        assert(slot_fits(s.output, s.slots[assoc::key_index(s.slots, index) as int].1));
        assert(slot_fits(open.output, slot));
    }
    assoc::lemma_removed(open.slots, index, index);
    assert(lookup(removed(open.slots, index), index) is None);
}

} // verus!
