//! What holds of every conversation that is handed to another model.
use crate::id_laws::{law_anthropic_id_is_settled, law_completions_id_is_settled};
use crate::text::blank;
use crate::transform_messages::{
    calls_of, changed_ids, content_state, failed, id_map, lowered_block, lowered_call, lowered_content,
    lowered_messages, lowered_thinking, missing_results, messages_state, plain_text, present, repair, replay_id,
    same_model, sees_images, settled, synthetic_result, transformed, visible, without_images,
    AnthropicToolCallIds, CompletionsToolCallIds, Repair, ToolCallIdNormalizer,
    NON_VISION_TOOL_IMAGE_PLACEHOLDER, NON_VISION_USER_IMAGE_PLACEHOLDER,
};
use crate::types::{
    AssistantContentV, AssistantMessageV, MessageV, ModelV, ToolCallV, UserContentBlockV,
    UserContentV,
};
use vstd::prelude::*;

verus! {

/// The identifier that a message answers.
pub open spec fn answers(message: MessageV, id: Seq<char>) -> bool {
    message matches MessageV::ToolResult(m) && m.tool_call_id == id
}

/// Whether a call of the turn at `i` has a result before any other message but results follows.
pub open spec fn answered_after(messages: Seq<MessageV>, i: int, id: Seq<char>) -> bool {
    exists|j: int|
        i < j < messages.len() && #[trigger] answers(messages[j], id) && results_between(
            messages,
            i,
            j,
        )
}

/// Whether only results stand between two messages.
pub open spec fn results_between(messages: Seq<MessageV>, i: int, j: int) -> bool {
    forall|k: int| i < k < j ==> #[trigger] messages[k] is ToolResult
}

/// Whether every call of the turn at `i` has its result.
pub open spec fn turn_answered(messages: Seq<MessageV>, i: int) -> bool {
    messages[i] matches MessageV::Assistant(turn) ==> forall|c: int|
        0 <= c < calls_of(turn.content).len() ==> answered_after(
            messages,
            i,
            (#[trigger] calls_of(turn.content)[c]).id,
        )
}

/// Whether what has been repaired so far is in order: behind `open` stand results only, the calls
/// that are pending are those of the turn before, the answers that were noted are there, and every
/// other turn has its results.
spec fn in_order(state: Repair, open: int) -> bool {
    &&& 0 <= open <= state.result.len()
    &&& forall|k: int| open <= k < state.result.len() ==> #[trigger] state.result[k] is ToolResult
    &&& state.pending.len() > 0 ==> open > 0 && (state.result[open - 1] matches MessageV::Assistant(
        turn,
    ) && calls_of(turn.content) == state.pending)
    &&& forall|a: int|
        0 <= a < state.answered.len() ==> noted(state.result, open, #[trigger] state.answered[a])
    &&& forall|i: int|
        0 <= i < state.result.len() && !(state.pending.len() > 0 && i == open - 1)
            ==> #[trigger] turn_answered(state.result, i)
}

/// Whether an answer stands at `open` or behind it.
spec fn noted(messages: Seq<MessageV>, open: int, id: Seq<char>) -> bool {
    exists|j: int| open <= j < messages.len() && #[trigger] answers(messages[j], id)
}

proof fn lemma_noted_grows(a: Seq<MessageV>, b: Seq<MessageV>, open: int, id: Seq<char>)
    requires
        noted(a, open, id),
        0 <= open,
        a.len() <= b.len(),
        forall|k: int| 0 <= k < a.len() ==> #[trigger] b[k] == a[k],
    ensures
        noted(b, open, id),
{
    let j = choose|j: int| open <= j < a.len() && #[trigger] answers(a[j], id);
    assert(answers(b[j], id));
}

proof fn lemma_answered_grows(a: Seq<MessageV>, b: Seq<MessageV>, i: int)
    requires
        0 <= i < a.len(),
        turn_answered(a, i),
        a.len() <= b.len(),
        forall|k: int| 0 <= k < a.len() ==> #[trigger] b[k] == a[k],
    ensures
        turn_answered(b, i),
{
    assert(b[i] == a[i]);
    if let MessageV::Assistant(turn) = a[i] {
        assert forall|c: int| 0 <= c < calls_of(turn.content).len() implies answered_after(
            b,
            i,
            (#[trigger] calls_of(turn.content)[c]).id,
        ) by {
            let id = calls_of(turn.content)[c].id;
            assert(answered_after(a, i, id));
            let j = choose|j: int|
                i < j < a.len() && #[trigger] answers(a[j], id) && results_between(a, i, j);
            assert(answers(b[j], id));
            assert forall|k: int| i < k < j implies #[trigger] b[k] is ToolResult by {
                assert(a[k] is ToolResult);
                assert(b[k] == a[k]);
            }
        }
    }
}

proof fn lemma_missing(pending: Seq<ToolCallV>, answered: Seq<Seq<char>>, now: i64)
    ensures
        forall|k: int|
            0 <= k < missing_results(pending, answered, now).len() ==> #[trigger] missing_results(
                pending,
                answered,
                now,
            )[k] is ToolResult,
        forall|c: int|
            0 <= c < pending.len() && !answered.contains(pending[c].id) ==> noted(
                missing_results(pending, answered, now),
                0,
                (#[trigger] pending[c]).id,
            ),
    decreases pending.len(),
{
    if pending.len() > 0 {
        let rest = pending.drop_last();
        lemma_missing(rest, answered, now);
        let before = missing_results(rest, answered, now);
        let all = missing_results(pending, answered, now);
        assert forall|c: int|
            0 <= c < pending.len() && !answered.contains(pending[c].id) implies noted(
            all,
            0,
            (#[trigger] pending[c]).id,
        ) by {
            if c < rest.len() {
                assert(rest[c] == pending[c]);
                lemma_noted_grows(before, all, 0, pending[c].id);
            } else {
                assert(answers(all[all.len() - 1], pending[c].id));
            }
        }
    }
}

proof fn lemma_settled(state: Repair, open: int, now: i64)
    requires
        in_order(state, open),
    ensures
        forall|i: int|
            0 <= i < settled(state, now).len() ==> #[trigger] turn_answered(settled(state, now), i),
        forall|k: int|
            open <= k < settled(state, now).len() ==> #[trigger] settled(
                state,
                now,
            )[k] is ToolResult,
{
    let all = settled(state, now);
    let missing = missing_results(state.pending, state.answered, now);
    let n = state.result.len() as int;
    lemma_missing(state.pending, state.answered, now);
    assert forall|k: int| open <= k < all.len() implies #[trigger] all[k] is ToolResult by {
        if k < n {
            assert(all[k] == state.result[k]);
        } else {
            assert(all[k] == missing[k - n]);
        }
    }
    assert forall|i: int| 0 <= i < all.len() implies #[trigger] turn_answered(all, i) by {
        if i >= open {
            assert(all[i] is ToolResult);
        } else if !(state.pending.len() > 0 && i == open - 1) {
            assert(turn_answered(state.result, i));
            lemma_answered_grows(state.result, all, i);
        } else {
            assert(all[i] == state.result[i]);
            let turn = all[i]->Assistant_0;
            assert forall|c: int| 0 <= c < calls_of(turn.content).len() implies answered_after(
                all,
                i,
                (#[trigger] calls_of(turn.content)[c]).id,
            ) by {
                let id = state.pending[c].id;
                if state.answered.contains(id) {
                    let a = choose|a: int| 0 <= a < state.answered.len() && state.answered[a] == id;
                    assert(noted(state.result, open, state.answered[a]));
                    let j = choose|j: int|
                        open <= j < state.result.len() && #[trigger] answers(state.result[j], id);
                    assert(answers(all[j], id));
                    assert(results_between(all, i, j));
                } else {
                    assert(noted(missing, 0, id));
                    let j = choose|j: int|
                        0 <= j < missing.len() && #[trigger] answers(missing[j], id);
                    assert(all[n + j] == missing[j]);
                    assert(answers(all[n + j], id));
                    assert(results_between(all, i, n + j));
                }
            }
        }
    }
}

proof fn lemma_repair_in_order(messages: Seq<MessageV>, now: i64) -> (open: int)
    ensures
        in_order(repair(messages, now), open),
    decreases messages.len(),
{
    let state = repair(messages, now);
    if messages.len() == 0 {
        0
    } else {
        let before = repair(messages.drop_last(), now);
        let at = lemma_repair_in_order(messages.drop_last(), now);
        lemma_settled(before, at, now);
        let base = settled(before, now);
        match messages.last() {
            MessageV::Assistant(turn) => {
                if failed(turn) {
                    base.len() as int
                } else {
                    assert forall|i: int|
                        0 <= i < state.result.len() && !(state.pending.len() > 0 && i
                            == base.len()) implies #[trigger] turn_answered(state.result, i) by {
                        if i < base.len() {
                            assert(turn_answered(base, i));
                            lemma_answered_grows(base, state.result, i);
                        }
                    }
                    base.len() as int + 1
                }
            },
            MessageV::User(_) => {
                assert forall|i: int| 0 <= i < state.result.len() implies #[trigger] turn_answered(
                    state.result,
                    i,
                ) by {
                    if i < base.len() {
                        assert(turn_answered(base, i));
                        lemma_answered_grows(base, state.result, i);
                    }
                }
                base.len() as int + 1
            },
            MessageV::ToolResult(m) => {
                assert forall|a: int| 0 <= a < state.answered.len() implies noted(
                    state.result,
                    at,
                    #[trigger] state.answered[a],
                ) by {
                    if a < before.answered.len() {
                        assert(noted(before.result, at, before.answered[a]));
                        lemma_noted_grows(before.result, state.result, at, before.answered[a]);
                    } else {
                        assert(answers(
                            state.result[state.result.len() - 1],
                            state.answered[a],
                        ));
                    }
                }
                assert forall|i: int|
                    0 <= i < state.result.len() && !(state.pending.len() > 0 && i == at
                        - 1) implies #[trigger] turn_answered(state.result, i) by {
                    if i < before.result.len() {
                        assert(turn_answered(before.result, i));
                        lemma_answered_grows(before.result, state.result, i);
                    }
                }
                at
            },
        }
    }
}

/// Every call that another model is shown has a result, and the result comes before the next turn or
/// user message.
pub proof fn law_every_call_is_answered<N: ToolCallIdNormalizer>(
    messages: Seq<MessageV>,
    model: ModelV,
    memory: Option<N::State>,
    now: i64,
)
    ensures
        forall|i: int|
            0 <= i < transformed::<N>(messages, model, memory, now).len()
                ==> #[trigger] turn_answered(transformed::<N>(messages, model, memory, now), i),
{
    let lowered = lowered_messages::<N>(messages, model, memory);
    let open = lemma_repair_in_order(lowered, now);
    lemma_settled(repair(lowered, now), open, now);
}

/// Whether all messages of a list meet a condition.
pub open spec fn all_meet(messages: Seq<MessageV>, p: spec_fn(MessageV) -> bool) -> bool {
    forall|i: int| 0 <= i < messages.len() ==> p(#[trigger] messages[i])
}

proof fn lemma_missing_meet(
    pending: Seq<ToolCallV>,
    answered: Seq<Seq<char>>,
    now: i64,
    p: spec_fn(MessageV) -> bool,
)
    requires
        forall|c: ToolCallV| p(#[trigger] synthetic_result(c, now)),
    ensures
        all_meet(missing_results(pending, answered, now), p),
    decreases pending.len(),
{
    if pending.len() > 0 {
        lemma_missing_meet(pending.drop_last(), answered, now, p);
    }
}

proof fn lemma_repair_meets(messages: Seq<MessageV>, now: i64, p: spec_fn(MessageV) -> bool)
    requires
        forall|c: ToolCallV| p(#[trigger] synthetic_result(c, now)),
        forall|i: int|
            0 <= i < messages.len() ==> p(#[trigger] messages[i]) || (messages[i] is Assistant
                && failed(messages[i]->Assistant_0)),
    ensures
        all_meet(repair(messages, now).result, p),
        all_meet(settled(repair(messages, now), now), p),
    decreases messages.len(),
{
    let state = repair(messages, now);
    if messages.len() > 0 {
        let rest = messages.drop_last();
        assert forall|i: int| 0 <= i < rest.len() implies p(#[trigger] rest[i]) || (
        rest[i] is Assistant && failed(rest[i]->Assistant_0)) by {
            assert(rest[i] == messages[i]);
        }
        lemma_repair_meets(rest, now, p);
        assert(messages[messages.len() - 1] == messages.last());
    }
    lemma_missing_meet(state.pending, state.answered, now, p);
}

/// No turn that failed is shown to a model.
pub proof fn law_no_failed_turn<N: ToolCallIdNormalizer>(
    messages: Seq<MessageV>,
    model: ModelV,
    memory: Option<N::State>,
    now: i64,
)
    ensures
        forall|i: int|
            0 <= i < transformed::<N>(messages, model, memory, now).len() ==> (
            #[trigger] transformed::<N>(messages, model, memory, now)[i] matches MessageV::Assistant(
                turn,
            ) ==> !failed(turn)),
{
    let p = |m: MessageV| m matches MessageV::Assistant(turn) ==> !failed(turn);
    let lowered = lowered_messages::<N>(messages, model, memory);
    lemma_repair_meets(lowered, now, p);
    let all = transformed::<N>(messages, model, memory, now);
    assert forall|i: int| 0 <= i < all.len() implies (#[trigger] all[i] matches MessageV::Assistant(
        turn,
    ) ==> !failed(turn)) by {
        assert(p(all[i]));
    }
}

/// Whether blocks hold no image.
pub open spec fn no_images(content: Seq<UserContentBlockV>) -> bool {
    forall|i: int| 0 <= i < content.len() ==> #[trigger] content[i] is Text
}

/// Whether a message holds no image.
pub open spec fn imageless(message: MessageV) -> bool {
    match message {
        MessageV::User(m) => match m.content {
            UserContentV::Blocks(blocks) => no_images(blocks),
            UserContentV::Text(_) => true,
        },
        MessageV::ToolResult(m) => no_images(m.content),
        MessageV::Assistant(_) => true,
    }
}

proof fn lemma_without_images(content: Seq<UserContentBlockV>, placeholder: Seq<char>)
    ensures
        no_images(without_images(content, placeholder)),
    decreases content.len(),
{
    if content.len() > 0 {
        lemma_without_images(content.drop_last(), placeholder);
    }
}

/// A model that sees no images is shown none.
pub proof fn law_no_images_for_blind_models<N: ToolCallIdNormalizer>(
    messages: Seq<MessageV>,
    model: ModelV,
    memory: Option<N::State>,
    now: i64,
)
    requires
        !sees_images(model),
    ensures
        forall|i: int|
            0 <= i < transformed::<N>(messages, model, memory, now).len() ==> imageless(
                #[trigger] transformed::<N>(messages, model, memory, now)[i],
            ),
{
    let p = |m: MessageV| imageless(m);
    let lowered = lowered_messages::<N>(messages, model, memory);
    assert forall|i: int| 0 <= i < lowered.len() implies p(#[trigger] lowered[i]) by {
        match messages[i] {
            MessageV::User(m) => {
                if let UserContentV::Blocks(blocks) = m.content {
                    lemma_without_images(
                        blocks,
                        NON_VISION_USER_IMAGE_PLACEHOLDER@,
                    );
                }
            },
            MessageV::ToolResult(m) => {
                lemma_without_images(
                    m.content,
                    NON_VISION_TOOL_IMAGE_PLACEHOLDER@,
                );
            },
            MessageV::Assistant(_) => {},
        }
    }
    lemma_repair_meets(lowered, now, p);
    let all = transformed::<N>(messages, model, memory, now);
    assert forall|i: int| 0 <= i < all.len() implies imageless(#[trigger] all[i]) by {
        assert(p(all[i]));
    }
}

/// Whether a block tells nothing: reasoning that is blank, not signed and not redacted.
pub open spec fn tells_nothing(block: AssistantContentV) -> bool {
    block matches AssistantContentV::Thinking(t) && t.redacted != Some(true) && !present(
        t.thinking_signature,
    ) && blank(t.thinking)
}

/// A model gets its own turns back as they were, signatures, identifiers and reasoning, as long as
/// every block tells something.
pub proof fn law_own_turns_come_back<N: ToolCallIdNormalizer>(
    content: Seq<AssistantContentV>,
    model: ModelV,
    source: AssistantMessageV,
    memory: Option<N::State>,
)
    requires
        same_model(source, model),
        forall|i: int| 0 <= i < content.len() ==> !tells_nothing(#[trigger] content[i]),
    ensures
        lowered_content::<N>(content, model, source, memory) == content,
    decreases content.len(),
{
    if content.len() > 0 {
        let rest = content.drop_last();
        assert forall|i: int| 0 <= i < rest.len() implies !tells_nothing(#[trigger] rest[i]) by {
            assert(rest[i] == content[i]);
        }
        law_own_turns_come_back::<N>(rest, model, source, memory);
        assert(!tells_nothing(content[content.len() - 1]));
        assert(lowered_block::<N>(content.last(), model, source, memory) == Some(content.last()));
        assert(rest.push(content.last()) =~= content);
    } else {
        assert(content =~= Seq::empty());
    }
}

/// Whether a block holds nothing that only the model it came from can read.
pub open spec fn readable(block: AssistantContentV) -> bool {
    match block {
        AssistantContentV::Thinking(_) => false,
        AssistantContentV::Text(t) => t.text_signature is None,
        AssistantContentV::ToolCall(c) => !present(c.thought_signature),
    }
}

/// Another model gets no reasoning blocks and no signatures.
pub proof fn law_foreign_turns_are_readable<N: ToolCallIdNormalizer>(
    content: Seq<AssistantContentV>,
    model: ModelV,
    source: AssistantMessageV,
    memory: Option<N::State>,
)
    requires
        !same_model(source, model),
    ensures
        forall|i: int|
            0 <= i < lowered_content::<N>(content, model, source, memory).len() ==> readable(
                #[trigger] lowered_content::<N>(content, model, source, memory)[i],
            ),
    decreases content.len(),
{
    if content.len() > 0 {
        let rest = content.drop_last();
        law_foreign_turns_are_readable::<N>(rest, model, source, memory);
        let before = lowered_content::<N>(rest, model, source, memory);
        let all = lowered_content::<N>(content, model, source, memory);
        assert forall|i: int| 0 <= i < all.len() implies readable(#[trigger] all[i]) by {
            if i < before.len() {
                assert(all[i] == before[i]);
            }
        }
    }
}

/// The messages that are no results.
pub open spec fn without_results(messages: Seq<MessageV>) -> Seq<MessageV>
    decreases messages.len(),
{
    if messages.len() == 0 {
        Seq::empty()
    } else {
        let rest = without_results(messages.drop_last());
        if messages.last() is ToolResult {
            rest
        } else {
            rest.push(messages.last())
        }
    }
}

/// The user messages and the turns that did not fail.
pub open spec fn kept_turns(messages: Seq<MessageV>) -> Seq<MessageV>
    decreases messages.len(),
{
    if messages.len() == 0 {
        Seq::empty()
    } else {
        let rest = kept_turns(messages.drop_last());
        match messages.last() {
            MessageV::ToolResult(_) => rest,
            MessageV::Assistant(turn) => if failed(turn) {
                rest
            } else {
                rest.push(messages.last())
            },
            MessageV::User(_) => rest.push(messages.last()),
        }
    }
}

proof fn lemma_results_drop_out(a: Seq<MessageV>, b: Seq<MessageV>)
    requires
        forall|k: int| 0 <= k < b.len() ==> #[trigger] b[k] is ToolResult,
    ensures
        without_results(a + b) == without_results(a),
    decreases b.len(),
{
    if b.len() > 0 {
        assert((a + b).drop_last() =~= a + b.drop_last());
        assert((a + b).last() == b[b.len() - 1]);
        assert forall|k: int| 0 <= k < b.drop_last().len() implies #[trigger] b.drop_last()[k]
            is ToolResult by {
            assert(b.drop_last()[k] == b[k]);
        }
        lemma_results_drop_out(a, b.drop_last());
    } else {
        assert(a + b =~= a);
    }
}

proof fn lemma_repair_keeps(messages: Seq<MessageV>, now: i64)
    ensures
        without_results(repair(messages, now).result) == kept_turns(messages),
        without_results(settled(repair(messages, now), now)) == kept_turns(messages),
    decreases messages.len(),
{
    let state = repair(messages, now);
    if messages.len() > 0 {
        let before = repair(messages.drop_last(), now);
        lemma_repair_keeps(messages.drop_last(), now);
        let base = settled(before, now);
        match messages.last() {
            MessageV::ToolResult(_) => {
                assert(state.result.drop_last() =~= before.result);
            },
            MessageV::Assistant(turn) => {
                if !failed(turn) {
                    assert(state.result.drop_last() =~= base);
                }
            },
            MessageV::User(_) => {
                assert(state.result.drop_last() =~= base);
            },
        }
    }
    lemma_missing(state.pending, state.answered, now);
    lemma_results_drop_out(
        state.result,
        missing_results(state.pending, state.answered, now),
    );
}

/// Besides results nothing is made up and nothing is lost: the user messages and the turns that did
/// not fail stand in their order.
pub proof fn law_turns_stay_in_order<N: ToolCallIdNormalizer>(
    messages: Seq<MessageV>,
    model: ModelV,
    memory: Option<N::State>,
    now: i64,
)
    ensures
        without_results(transformed::<N>(messages, model, memory, now)) == kept_turns(
            lowered_messages::<N>(messages, model, memory),
        ),
{
    lemma_repair_keeps(lowered_messages::<N>(messages, model, memory), now);
}

proof fn lemma_result_stays(messages: Seq<MessageV>, now: i64, i: int)
    requires
        0 <= i < messages.len(),
        messages[i] is ToolResult,
    ensures
        repair(messages, now).result.contains(messages[i]),
    decreases messages.len(),
{
    let before = repair(messages.drop_last(), now);
    let state = repair(messages, now);
    if i < messages.len() - 1 {
        let rest = messages.drop_last();
        assert(rest[i] == messages[i]);
        lemma_result_stays(rest, now, i);
        let k = choose|k: int| 0 <= k < before.result.len() && before.result[k] == messages[i];
        assert(state.result[k] == messages[i]);
    } else {
        assert(state.result[state.result.len() - 1] == messages[i]);
    }
}

/// No result is lost.
pub proof fn law_results_stay<N: ToolCallIdNormalizer>(
    messages: Seq<MessageV>,
    model: ModelV,
    memory: Option<N::State>,
    now: i64,
    i: int,
)
    requires
        0 <= i < messages.len(),
        messages[i] is ToolResult,
    ensures
        transformed::<N>(messages, model, memory, now).contains(
            lowered_messages::<N>(messages, model, memory)[i],
        ),
{
    let lowered = lowered_messages::<N>(messages, model, memory);
    lemma_result_stays(lowered, now, i);
    let state = repair(lowered, now);
    let all = settled(state, now);
    let k = choose|k: int| 0 <= k < state.result.len() && state.result[k] == lowered[i];
    assert(all[k] == lowered[i]);
}

/// Whether all of the calls have an answer.
spec fn all_answered(pending: Seq<ToolCallV>, answered: Seq<Seq<char>>) -> bool {
    forall|c: int| 0 <= c < pending.len() ==> answered.contains((#[trigger] pending[c]).id)
}

proof fn lemma_nothing_missing(pending: Seq<ToolCallV>, answered: Seq<Seq<char>>, now: i64)
    requires
        all_answered(pending, answered),
    ensures
        missing_results(pending, answered, now) == Seq::<MessageV>::empty(),
    decreases pending.len(),
{
    if pending.len() > 0 {
        let rest = pending.drop_last();
        assert forall|c: int| 0 <= c < rest.len() implies answered.contains(
            (#[trigger] rest[c]).id,
        ) by {
            assert(rest[c] == pending[c]);
        }
        lemma_nothing_missing(rest, answered, now);
        assert(answered.contains(pending[pending.len() - 1].id));
    }
}

/// Repairing further results: they are only noted.
proof fn lemma_repair_results(front: Seq<MessageV>, results: Seq<MessageV>, now: i64)
    requires
        forall|k: int| 0 <= k < results.len() ==> #[trigger] results[k] is ToolResult,
    ensures
        ({
            let before = repair(front, now);
            let after = repair(front + results, now);
            &&& after.result == before.result + results
            &&& after.pending == before.pending
            &&& after.answered == before.answered + Seq::new(
                results.len(),
                |k: int| results[k]->ToolResult_0.tool_call_id,
            )
        }),
    decreases results.len(),
{
    let before = repair(front, now);
    let after = repair(front + results, now);
    if results.len() == 0 {
        assert(front + results =~= front);
        assert(before.result + results =~= before.result);
        assert(after.answered =~= before.answered + Seq::new(
            results.len(),
            |k: int| results[k]->ToolResult_0.tool_call_id,
        ));
    } else {
        let rest = results.drop_last();
        assert((front + results).drop_last() =~= front + rest);
        assert((front + results).last() == results[results.len() - 1]);
        assert forall|k: int| 0 <= k < rest.len() implies #[trigger] rest[k] is ToolResult by {
            assert(rest[k] == results[k]);
        }
        lemma_repair_results(front, rest, now);
        assert(after.result =~= before.result + results);
        assert(after.answered =~= before.answered + Seq::new(
            results.len(),
            |k: int| results[k]->ToolResult_0.tool_call_id,
        ));
    }
}

/// Whether a state stands where another does, but for calls that are already settled.
spec fn stands_like(again: Repair, state: Repair) -> bool {
    &&& again.result == state.result
    &&& {
        ||| again.pending == state.pending && forall|id: Seq<char>|
            again.answered.contains(id) <==> state.answered.contains(id)
        ||| state.pending.len() == 0 && all_answered(again.pending, again.answered)
    }
}

/// The state after what a state is settled to: nothing is missing any more.
proof fn lemma_settled_repair(state: Repair, now: i64, later: i64)
    requires
        stands_like(repair(state.result, later), state),
    ensures
        repair(settled(state, now), later).result == settled(state, now),
        all_answered(
            repair(settled(state, now), later).pending,
            repair(settled(state, now), later).answered,
        ),
{
    let again = repair(state.result, later);
    let missing = missing_results(state.pending, state.answered, now);
    lemma_missing(state.pending, state.answered, now);
    lemma_repair_results(state.result, missing, later);
    let after = repair(settled(state, now), later);
    let added = Seq::new(missing.len(), |k: int| missing[k]->ToolResult_0.tool_call_id);
    assert forall|c: int| 0 <= c < after.pending.len() implies after.answered.contains(
        (#[trigger] after.pending[c]).id,
    ) by {
        let id = after.pending[c].id;
        if again.answered.contains(id) {
            let k = choose|k: int| 0 <= k < again.answered.len() && again.answered[k] == id;
            assert(after.answered[k] == id);
        } else {
            assert(again.pending == state.pending);
            assert(!state.answered.contains(state.pending[c].id));
            assert(noted(missing, 0, state.pending[c].id));
            let j = choose|j: int| 0 <= j < missing.len() && #[trigger] answers(missing[j], id);
            assert(added[j] == id);
            assert(after.answered[again.answered.len() + j] == id);
        }
    }
}

proof fn lemma_repair_again(messages: Seq<MessageV>, now: i64, later: i64)
    ensures
        stands_like(repair(repair(messages, now).result, later), repair(messages, now)),
    decreases messages.len(),
{
    let state = repair(messages, now);
    if messages.len() > 0 {
        let before = repair(messages.drop_last(), now);
        lemma_repair_again(messages.drop_last(), now, later);
        let base = settled(before, now);
        match messages.last() {
            MessageV::ToolResult(m) => {
                let again = repair(before.result, later);
                let after = repair(state.result, later);
                assert(state.result.drop_last() =~= before.result);
                assert(after.answered == again.answered.push(m.tool_call_id));
                assert(state.answered == before.answered.push(m.tool_call_id));
                assert forall|id: Seq<char>| again.answered.contains(id) implies after.answered.contains(id) by {
                    vstd::seq_lib::lemma_seq_contains_after_push(
                        again.answered,
                        m.tool_call_id,
                        id,
                    );
                }
                if again.pending == before.pending && (forall|id: Seq<char>|
                    again.answered.contains(id) <==> before.answered.contains(id)) {
                    assert forall|id: Seq<char>|
                        after.answered.contains(id) <==> state.answered.contains(id) by {
                        vstd::seq_lib::lemma_seq_contains_after_push(
                            again.answered,
                            m.tool_call_id,
                            id,
                        );
                        vstd::seq_lib::lemma_seq_contains_after_push(
                            before.answered,
                            m.tool_call_id,
                            id,
                        );
                    }
                } else {
                    assert(all_answered(after.pending, after.answered));
                }
            },
            MessageV::Assistant(turn) => {
                lemma_settled_repair(before, now, later);
                if failed(turn) {
                    assert(stands_like(repair(state.result, later), state));
                } else {
                    let again = repair(base, later);
                    lemma_nothing_missing(again.pending, again.answered, later);
                    assert(settled(again, later) =~= base);
                    assert(state.result.drop_last() =~= base);
                }
            },
            MessageV::User(_) => {
                lemma_settled_repair(before, now, later);
                let again = repair(base, later);
                lemma_nothing_missing(again.pending, again.answered, later);
                assert(settled(again, later) =~= base);
                assert(state.result.drop_last() =~= base);
            },
        }
    }
}

/// A conversation that has been repaired needs no repair, at whatever time.
pub proof fn law_repair_is_final(messages: Seq<MessageV>, now: i64, later: i64)
    ensures
        settled(repair(settled(repair(messages, now), now), later), later) == settled(
            repair(messages, now),
            now,
        ),
{
    let all = settled(repair(messages, now), now);
    lemma_repair_again(messages, now, later);
    lemma_settled_repair(repair(messages, now), now, later);
    let again = repair(all, later);
    lemma_nothing_missing(again.pending, again.answered, later);
    assert(settled(again, later) =~= all);
}

/// Whether the identifiers of a turn's calls stay as they are when it is replayed, where the
/// normalizer remembers `memory` at first.
pub open spec fn turn_keeps_ids<N: ToolCallIdNormalizer>(
    turn: AssistantMessageV,
    model: ModelV,
    memory: Option<N::State>,
) -> bool {
    forall|k: int|
        0 <= k < turn.content.len() ==> (#[trigger] turn.content[k] matches
            AssistantContentV::ToolCall(c) ==> replay_id::<N>(
            c,
            model,
            turn,
            content_state::<N>(turn.content.take(k), model, turn, memory),
        ) == c.id)
}

/// Whether the identifiers of all calls stay as they are when a conversation is replayed, where the
/// normalizer remembers `memory` at first.
pub open spec fn keeps_ids<N: ToolCallIdNormalizer>(
    messages: Seq<MessageV>,
    model: ModelV,
    memory: Option<N::State>,
) -> bool {
    forall|i: int|
        0 <= i < messages.len() ==> (#[trigger] messages[i] matches MessageV::Assistant(turn)
            ==> turn_keeps_ids::<N>(
            turn,
            model,
            messages_state::<N>(messages.take(i), model, memory),
        ))
}

/// Whether a block of a turn stays as it is but for the identifier of a call.
spec fn block_stays(block: AssistantContentV, own: bool) -> bool {
    match block {
        AssistantContentV::Thinking(t) => lowered_thinking(t, own) == Some(block),
        AssistantContentV::Text(t) => own || t == plain_text(t.text),
        AssistantContentV::ToolCall(c) => lowered_call(c, own, c.id) == c,
    }
}

/// Whether a message stays as it is when it is replayed, but for the identifiers of calls.
spec fn stays(message: MessageV, model: ModelV) -> bool {
    &&& visible(message, model) == message
    &&& message matches MessageV::Assistant(turn) ==> blocks_stay(turn.content, turn, model)
}

spec fn blocks_stay(
    content: Seq<AssistantContentV>,
    source: AssistantMessageV,
    model: ModelV,
) -> bool {
    forall|k: int|
        0 <= k < content.len() ==> block_stays(#[trigger] content[k], same_model(source, model))
}

proof fn lemma_no_images_stay(content: Seq<UserContentBlockV>, placeholder: Seq<char>)
    requires
        no_images(content),
    ensures
        without_images(content, placeholder) == content,
    decreases content.len(),
{
    if content.len() > 0 {
        let rest = content.drop_last();
        assert forall|i: int| 0 <= i < rest.len() implies #[trigger] rest[i] is Text by {
            assert(rest[i] == content[i]);
        }
        lemma_no_images_stay(rest, placeholder);
        assert(content[content.len() - 1] is Text);
    }
    assert(without_images(content, placeholder) =~= content);
}

proof fn lemma_visible_stays(message: MessageV, model: ModelV)
    ensures
        visible(visible(message, model), model) == visible(message, model),
{
    if !sees_images(model) {
        match message {
            MessageV::User(m) => {
                if let UserContentV::Blocks(blocks) = m.content {
                    lemma_without_images(blocks, NON_VISION_USER_IMAGE_PLACEHOLDER@);
                    lemma_no_images_stay(
                        without_images(blocks, NON_VISION_USER_IMAGE_PLACEHOLDER@),
                        NON_VISION_USER_IMAGE_PLACEHOLDER@,
                    );
                }
            },
            MessageV::ToolResult(m) => {
                lemma_without_images(m.content, NON_VISION_TOOL_IMAGE_PLACEHOLDER@);
                lemma_no_images_stay(
                    without_images(m.content, NON_VISION_TOOL_IMAGE_PLACEHOLDER@),
                    NON_VISION_TOOL_IMAGE_PLACEHOLDER@,
                );
            },
            MessageV::Assistant(_) => {},
        }
    }
}

proof fn lemma_lowered_blocks_stay<N: ToolCallIdNormalizer>(
    content: Seq<AssistantContentV>,
    model: ModelV,
    source: AssistantMessageV,
    memory: Option<N::State>,
)
    ensures
        blocks_stay(lowered_content::<N>(content, model, source, memory), source, model),
    decreases content.len(),
{
    if content.len() > 0 {
        let rest = content.drop_last();
        lemma_lowered_blocks_stay::<N>(rest, model, source, memory);
        let before = lowered_content::<N>(rest, model, source, memory);
        let all = lowered_content::<N>(content, model, source, memory);
        let own = same_model(source, model);
        let now = content_state::<N>(rest, model, source, memory);
        if let Some(block) = lowered_block::<N>(content.last(), model, source, now) {
            assert(block_stays(block, own));
        }
        assert forall|k: int| 0 <= k < all.len() implies block_stays(#[trigger] all[k], own) by {
            if k < before.len() {
                assert(all[k] == before[k]);
            }
        }
    }
}

/// Whether the identifiers of the calls among blocks stay.
spec fn content_keeps_ids<N: ToolCallIdNormalizer>(
    content: Seq<AssistantContentV>,
    model: ModelV,
    source: AssistantMessageV,
    memory: Option<N::State>,
) -> bool {
    forall|k: int|
        0 <= k < content.len() ==> (#[trigger] content[k] matches AssistantContentV::ToolCall(c)
            ==> replay_id::<N>(
            c,
            model,
            source,
            content_state::<N>(content.take(k), model, source, memory),
        ) == c.id)
}

proof fn lemma_content_stays<N: ToolCallIdNormalizer>(
    ids: Seq<(Seq<char>, Seq<char>)>,
    content: Seq<AssistantContentV>,
    model: ModelV,
    source: AssistantMessageV,
    memory: Option<N::State>,
)
    requires
        blocks_stay(content, source, model),
        content_keeps_ids::<N>(content, model, source, memory),
    ensures
        lowered_content::<N>(content, model, source, memory) == content,
        changed_ids::<N>(ids, content, model, source, memory) == ids,
    decreases content.len(),
{
    if content.len() > 0 {
        let rest = content.drop_last();
        let last = content.len() - 1;
        assert forall|k: int| 0 <= k < rest.len() implies block_stays(
            #[trigger] rest[k],
            same_model(source, model),
        ) by {
            assert(rest[k] == content[k]);
        }
        assert forall|k: int| 0 <= k < rest.len() implies (#[trigger] rest[k] matches
            AssistantContentV::ToolCall(c) ==> replay_id::<N>(
            c,
            model,
            source,
            content_state::<N>(rest.take(k), model, source, memory),
        ) == c.id) by {
            assert(rest[k] == content[k]);
            assert(rest.take(k) =~= content.take(k));
        }
        lemma_content_stays::<N>(ids, rest, model, source, memory);
        assert(block_stays(content[last], same_model(source, model)));
        assert(content.take(last) =~= rest);
        let now = content_state::<N>(rest, model, source, memory);
        assert(content[last] matches AssistantContentV::ToolCall(c) ==> replay_id::<N>(
            c,
            model,
            source,
            now,
        ) == c.id);
        assert(lowered_block::<N>(content.last(), model, source, now) == Some(content.last()));
    }
    assert(lowered_content::<N>(content, model, source, memory) =~= content);
}

proof fn lemma_no_id_map<N: ToolCallIdNormalizer>(
    messages: Seq<MessageV>,
    model: ModelV,
    memory: Option<N::State>,
)
    requires
        forall|i: int| 0 <= i < messages.len() ==> stays(#[trigger] messages[i], model),
        keeps_ids::<N>(messages, model, memory),
    ensures
        id_map::<N>(messages, model, memory) == Seq::<(Seq<char>, Seq<char>)>::empty(),
    decreases messages.len(),
{
    if messages.len() > 0 {
        let rest = messages.drop_last();
        let last = messages.len() - 1;
        lemma_front::<N>(messages, model, memory, last);
        assert(messages.take(last) =~= rest);
        lemma_no_id_map::<N>(rest, model, memory);
        assert(stays(messages[last], model));
        if let MessageV::Assistant(turn) = messages[last] {
            let now = messages_state::<N>(rest, model, memory);
            assert(turn_keeps_ids::<N>(turn, model, now));
            lemma_content_stays::<N>(Seq::empty(), turn.content, model, turn, now);
        }
    }
}

/// What holds of a conversation holds of its beginning.
proof fn lemma_front<N: ToolCallIdNormalizer>(
    messages: Seq<MessageV>,
    model: ModelV,
    memory: Option<N::State>,
    n: int,
)
    requires
        0 <= n <= messages.len(),
        forall|i: int| 0 <= i < messages.len() ==> stays(#[trigger] messages[i], model),
        keeps_ids::<N>(messages, model, memory),
    ensures
        forall|i: int| 0 <= i < n ==> stays(#[trigger] messages.take(n)[i], model),
        keeps_ids::<N>(messages.take(n), model, memory),
{
    let front = messages.take(n);
    assert forall|i: int| 0 <= i < front.len() implies (#[trigger] front[i] matches
        MessageV::Assistant(turn) ==> turn_keeps_ids::<N>(
        turn,
        model,
        messages_state::<N>(front.take(i), model, memory),
    )) by {
        assert(front[i] == messages[i]);
        assert(front.take(i) =~= messages.take(i));
    }
    assert forall|i: int| 0 <= i < n implies stays(#[trigger] front[i], model) by {
        assert(front[i] == messages[i]);
    }
}

proof fn lemma_lowered_stay<N: ToolCallIdNormalizer>(
    messages: Seq<MessageV>,
    model: ModelV,
    memory: Option<N::State>,
)
    requires
        forall|i: int| 0 <= i < messages.len() ==> stays(#[trigger] messages[i], model),
        keeps_ids::<N>(messages, model, memory),
    ensures
        lowered_messages::<N>(messages, model, memory) == messages,
{
    let lowered = lowered_messages::<N>(messages, model, memory);
    assert forall|i: int| 0 <= i < messages.len() implies lowered[i] == messages[i] by {
        let front = messages.take(i);
        lemma_front::<N>(messages, model, memory, i);
        lemma_no_id_map::<N>(front, model, memory);
        assert(stays(messages[i], model));
        if let MessageV::Assistant(turn) = messages[i] {
            let now = messages_state::<N>(front, model, memory);
            assert(turn_keeps_ids::<N>(turn, model, now));
            lemma_content_stays::<N>(Seq::empty(), turn.content, model, turn, now);
        }
    }
    assert(lowered =~= messages);
}

/// A conversation that has been handed to a model can be handed to it once more with nothing
/// changed, where the identifiers of its calls are not changed again. The normalizer remembers
/// `again` at the second time.
pub proof fn law_second_pass_changes_nothing<N: ToolCallIdNormalizer>(
    messages: Seq<MessageV>,
    model: ModelV,
    memory: Option<N::State>,
    again: Option<N::State>,
    now: i64,
    later: i64,
)
    requires
        keeps_ids::<N>(transformed::<N>(messages, model, memory, now), model, again),
    ensures
        transformed::<N>(
            transformed::<N>(messages, model, memory, now),
            model,
            again,
            later,
        ) == transformed::<N>(messages, model, memory, now),
{
    let lowered = lowered_messages::<N>(messages, model, memory);
    let all = transformed::<N>(messages, model, memory, now);
    let p = |m: MessageV| stays(m, model);
    assert forall|c: ToolCallV| p(#[trigger] synthetic_result(c, now)) by {
        let made = synthetic_result(c, now)->ToolResult_0;
        lemma_no_images_stay(made.content, NON_VISION_TOOL_IMAGE_PLACEHOLDER@);
    }
    assert forall|i: int| 0 <= i < lowered.len() implies p(#[trigger] lowered[i]) || (
    lowered[i] is Assistant && failed(lowered[i]->Assistant_0)) by {
        lemma_visible_stays(messages[i], model);
        if let MessageV::Assistant(source) = messages[i] {
            lemma_lowered_blocks_stay::<N>(
                source.content,
                model,
                source,
                messages_state::<N>(messages.take(i), model, memory),
            );
        }
    }
    lemma_repair_meets(lowered, now, p);
    assert forall|i: int| 0 <= i < all.len() implies stays(#[trigger] all[i], model) by {
        assert(p(all[i]));
    }
    lemma_lowered_stay::<N>(all, model, again);
    law_repair_is_final(lowered, now, later);
}

/// Whether a normalizer changes no identifier that it has given, whatever it remembers.
pub open spec fn settles<N: ToolCallIdNormalizer>(model: ModelV) -> bool {
    forall|
        s: N::State,
        t: N::State,
        id: Seq<char>,
        source: AssistantMessageV,
        other: AssistantMessageV,
    |
        #[trigger] N::normalized(t, N::normalized(s, id, model, source), model, other)
            == N::normalized(s, id, model, source)
}

/// Whether an identifier is not changed, whatever the normalizer remembers.
spec fn fixed<N: ToolCallIdNormalizer>(id: Seq<char>, model: ModelV) -> bool {
    forall|t: N::State, other: AssistantMessageV| #[trigger] N::normalized(t, id, model, other) == id
}

/// Whether the identifiers of the calls of another model are not changed.
spec fn foreign_ids_fixed<N: ToolCallIdNormalizer>(
    content: Seq<AssistantContentV>,
    source: AssistantMessageV,
    model: ModelV,
) -> bool {
    !same_model(source, model) ==> forall|k: int|
        0 <= k < content.len() ==> (#[trigger] content[k] matches AssistantContentV::ToolCall(c)
            ==> fixed::<N>(c.id, model))
}

proof fn lemma_given_ids<N: ToolCallIdNormalizer>(
    content: Seq<AssistantContentV>,
    model: ModelV,
    source: AssistantMessageV,
    memory: Option<N::State>,
)
    requires
        settles::<N>(model),
        memory is Some,
    ensures
        foreign_ids_fixed::<N>(
            lowered_content::<N>(content, model, source, memory),
            source,
            model,
        ),
        content_state::<N>(content, model, source, memory) is Some,
    decreases content.len(),
{
    if content.len() > 0 {
        let rest = content.drop_last();
        lemma_given_ids::<N>(rest, model, source, memory);
        let before = lowered_content::<N>(rest, model, source, memory);
        let all = lowered_content::<N>(content, model, source, memory);
        let s = content_state::<N>(rest, model, source, memory)->Some_0;
        if !same_model(source, model) {
            assert forall|k: int| 0 <= k < all.len() implies (#[trigger] all[k] matches
                AssistantContentV::ToolCall(c) ==> fixed::<N>(c.id, model)) by {
                if k < before.len() {
                    assert(all[k] == before[k]);
                } else if let AssistantContentV::ToolCall(call) = content.last() {
                    let id = N::normalized(s, call.id, model, source);
                    assert forall|t: N::State, other: AssistantMessageV| #[trigger]
                        N::normalized(t, id, model, other) == id by {}
                    assert(fixed::<N>(id, model));
                }
            }
        }
    }
}

proof fn lemma_memory_stays<N: ToolCallIdNormalizer>(
    messages: Seq<MessageV>,
    model: ModelV,
    memory: Option<N::State>,
)
    requires
        settles::<N>(model),
        memory is Some,
    ensures
        messages_state::<N>(messages, model, memory) is Some,
    decreases messages.len(),
{
    if messages.len() > 0 {
        let rest = messages.drop_last();
        lemma_memory_stays::<N>(rest, model, memory);
        if let MessageV::Assistant(a) = messages.last() {
            lemma_given_ids::<N>(
                a.content,
                model,
                a,
                messages_state::<N>(rest, model, memory),
            );
        }
    }
}

/// Identifiers that a normalizer has given stay, where it changes none that it has given.
pub proof fn law_given_ids_stay<N: ToolCallIdNormalizer>(
    messages: Seq<MessageV>,
    model: ModelV,
    memory: N::State,
    again: Option<N::State>,
    now: i64,
)
    requires
        settles::<N>(model),
    ensures
        keeps_ids::<N>(transformed::<N>(messages, model, Some(memory), now), model, again),
{
    let lowered = lowered_messages::<N>(messages, model, Some(memory));
    let all = transformed::<N>(messages, model, Some(memory), now);
    let p = |m: MessageV|
        m matches MessageV::Assistant(turn) ==> foreign_ids_fixed::<N>(turn.content, turn, model);
    assert forall|i: int| 0 <= i < lowered.len() implies p(#[trigger] lowered[i]) || (
    lowered[i] is Assistant && failed(lowered[i]->Assistant_0)) by {
        if let MessageV::Assistant(source) = messages[i] {
            let front = messages.take(i);
            lemma_memory_stays::<N>(front, model, Some(memory));
            lemma_given_ids::<N>(
                source.content,
                model,
                source,
                messages_state::<N>(front, model, Some(memory)),
            );
        }
    }
    lemma_repair_meets(lowered, now, p);
    assert forall|i: int| 0 <= i < all.len() implies (#[trigger] all[i] matches MessageV::Assistant(
        turn,
    ) ==> turn_keeps_ids::<N>(turn, model, messages_state::<N>(all.take(i), model, again))) by {
        assert(p(all[i]));
    }
}

/// The normalizers of Anthropic and of chat completions change no identifier that they have given.
pub proof fn law_normalizers_settle(model: ModelV)
    ensures
        settles::<AnthropicToolCallIds>(model),
        settles::<CompletionsToolCallIds>(model),
{
    assert forall|
        s: (),
        t: (),
        id: Seq<char>,
        source: AssistantMessageV,
        other: AssistantMessageV,
    |
        #[trigger] AnthropicToolCallIds::normalized(
            t,
            AnthropicToolCallIds::normalized(s, id, model, source),
            model,
            other,
        ) == AnthropicToolCallIds::normalized(s, id, model, source) by {
        law_anthropic_id_is_settled(id);
    }
    assert forall|
        s: (),
        t: (),
        id: Seq<char>,
        source: AssistantMessageV,
        other: AssistantMessageV,
    |
        #[trigger] CompletionsToolCallIds::normalized(
            t,
            CompletionsToolCallIds::normalized(s, id, model, source),
            model,
            other,
        ) == CompletionsToolCallIds::normalized(s, id, model, source) by {
        law_completions_id_is_settled(id, model.provider);
    }
}

} // verus!
