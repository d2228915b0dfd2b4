//! What another model is shown of a conversation, message by message.
use crate::assoc::{lemma_put, lookup};
use crate::text::blank;
use crate::tool_call_ids::{
    anthropic_id, completions_id, mistral_choice, mistral_noted, responses_id, MistralIdsV,
    MistralToolCallIdNormalizer,
};
use crate::transform_laws::{answered_after, law_every_call_is_answered, law_no_failed_turn, turn_answered};
use crate::transform_messages::{
    calls_of, changed_ids, content_state, id_map, lowered_content, lowered_messages,
    messages_state, missing_results, repair, settled, transformed, without_images,
    AnthropicToolCallIds, CompletionsToolCallIds, ResponsesToolCallIds,
    ToolCallIdNormalizer,
};
use crate::types::{
    AssistantContentV, AssistantMessageV, MessageV, ModelInput, ModelV, StopReason, TextContentV,
    ToolCallV, ToolResultMessageV, UserContentBlockV, UserContentV, UserMessageV,
};
use vstd::prelude::*;

verus! {

/// Whether the image at `i` is the first of a run of images that no placeholder announces.
pub open spec fn begins_a_run(
    content: Seq<UserContentBlockV>,
    placeholder: Seq<char>,
    i: int,
) -> bool {
    &&& content[i] is Image
    &&& i > 0 ==> (content[i - 1] matches UserContentBlockV::Text(t) && t.text != placeholder)
}

/// How many of the first `n` blocks leave something behind: each text, and each image that begins
/// a run.
pub open spec fn left_of(content: Seq<UserContentBlockV>, placeholder: Seq<char>, n: int) -> nat
    decreases n,
{
    if n <= 0 {
        0
    } else if content[n - 1] is Text || begins_a_run(content, placeholder, n - 1) {
        left_of(content, placeholder, n - 1) + 1
    } else {
        left_of(content, placeholder, n - 1)
    }
}

/// Whether `shown` is `content` with a placeholder for each run of images: every text stands where
/// it stood among what is left, and where a run of images began stands the placeholder.
pub open spec fn covers(
    shown: Seq<UserContentBlockV>,
    content: Seq<UserContentBlockV>,
    placeholder: Seq<char>,
) -> bool {
    &&& shown.len() == left_of(content, placeholder, content.len() as int)
    &&& forall|i: int|
        0 <= i < content.len() && (#[trigger] content[i]) is Text ==> {
            &&& left_of(content, placeholder, i) < shown.len()
            &&& shown[left_of(content, placeholder, i) as int] == content[i]
        }
    &&& forall|i: int|
        0 <= i < content.len() && #[trigger] begins_a_run(content, placeholder, i) ==> {
            &&& left_of(content, placeholder, i) < shown.len()
            &&& shown[left_of(content, placeholder, i) as int] == UserContentBlockV::Text(
                TextContentV { text: placeholder, text_signature: None },
            )
        }
}

proof fn lemma_left_of_front(content: Seq<UserContentBlockV>, placeholder: Seq<char>, n: int)
    requires
        0 <= n < content.len(),
    ensures
        left_of(content.drop_last(), placeholder, n) == left_of(content, placeholder, n),
    decreases n,
{
    if n > 0 {
        lemma_left_of_front(content, placeholder, n - 1);
        assert(content.drop_last()[n - 1] == content[n - 1]);
        assert(begins_a_run(content.drop_last(), placeholder, n - 1) == begins_a_run(
            content,
            placeholder,
            n - 1,
        ));
    }
}

/// Content for a model that sees no images keeps its texts, in order, and has the placeholder
/// wherever an image stood whose predecessor is neither an image nor the placeholder.
pub proof fn law_images_leave_a_placeholder(
    content: Seq<UserContentBlockV>,
    placeholder: Seq<char>,
)
    ensures
        covers(without_images(content, placeholder), content, placeholder),
    decreases content.len(),
{
    if content.len() > 0 {
        let front = content.drop_last();
        law_images_leave_a_placeholder(front, placeholder);
        let n = front.len() as int;
        lemma_left_of_front(content, placeholder, n);
        let shown = without_images(content, placeholder);
        assert forall|i: int| 0 <= i < content.len() && (#[trigger] content[i]) is Text implies {
            &&& left_of(content, placeholder, i) < shown.len()
            &&& shown[left_of(content, placeholder, i) as int] == content[i]
        } by {
            lemma_left_of_front(content, placeholder, i);
            if i < n {
                assert(front[i] == content[i]);
            }
        }
        assert forall|i: int|
            0 <= i < content.len() && #[trigger] begins_a_run(content, placeholder, i) implies {
            &&& left_of(content, placeholder, i) < shown.len()
            &&& shown[left_of(content, placeholder, i) as int] == UserContentBlockV::Text(
                TextContentV { text: placeholder, text_signature: None },
            )
        } by {
            lemma_left_of_front(content, placeholder, i);
            if i < n {
                assert(begins_a_run(front, placeholder, i));
            }
        }
    }
}

/// Content with an image never comes back without a placeholder.
pub proof fn law_no_image_is_lost(content: Seq<UserContentBlockV>, placeholder: Seq<char>, i: int)
    requires
        0 <= i < content.len(),
        content[i] is Image,
    ensures
        exists|j: int|
            0 <= j < without_images(content, placeholder).len() && (#[trigger] without_images(
                content,
                placeholder,
            )[j] matches UserContentBlockV::Text(t) && t.text == placeholder),
    decreases i,
{
    let shown = without_images(content, placeholder);
    law_images_leave_a_placeholder(content, placeholder);
    if begins_a_run(content, placeholder, i) {
        assert(shown[left_of(content, placeholder, i) as int] is Text);
    } else if content[i - 1] is Image {
        law_no_image_is_lost(content, placeholder, i - 1);
    } else {
        assert(shown[left_of(content, placeholder, i - 1) as int] == content[i - 1]);
    }
}

/// Whether `shown` is what a model is given of what a user said.
pub open spec fn user_shown(shown: UserMessageV, message: UserMessageV, model: ModelV) -> bool {
    &&& shown.timestamp == message.timestamp
    &&& match message.content {
        UserContentV::Blocks(blocks) if !model.input.contains(ModelInput::Image) => {
            &&& shown.content is Blocks
            &&& covers(
                shown.content->Blocks_0,
                blocks,
                "(image omitted: model does not support images)"@,
            )
        },
        _ => shown.content == message.content,
    }
}

/// Whether `shown` is what a model is given of a tool's result, but for the call that it names.
pub open spec fn result_shown(
    shown: ToolResultMessageV,
    message: ToolResultMessageV,
    model: ModelV,
) -> bool {
    &&& ToolResultMessageV {
        content: message.content,
        tool_call_id: message.tool_call_id,
        ..shown
    } == message
    &&& if model.input.contains(ModelInput::Image) {
        shown.content == message.content
    } else {
        covers(
            shown.content,
            message.content,
            "(tool image omitted: model does not support images)"@,
        )
    }
}

/// Whether a message reaches the model: all but turns that ended in an error or were aborted do.
pub open spec fn goes_along(message: MessageV) -> bool {
    message matches MessageV::Assistant(turn) ==> turn.stop_reason != StopReason::Error
        && turn.stop_reason != StopReason::Aborted
}

proof fn lemma_stays_in_result(messages: Seq<MessageV>, now: i64, i: int)
    requires
        0 <= i < messages.len(),
        goes_along(messages[i]),
    ensures
        repair(messages, now).result.contains(messages[i]),
    decreases messages.len(),
{
    let before = repair(messages.drop_last(), now);
    let state = repair(messages, now);
    if i < messages.len() - 1 {
        let rest = messages.drop_last();
        assert(rest[i] == messages[i]);
        lemma_stays_in_result(rest, now, i);
        let k = choose|k: int| 0 <= k < before.result.len() && before.result[k] == messages[i];
        assert(state.result[k] == messages[i]);
    } else {
        assert(state.result[state.result.len() - 1] == messages[i]);
    }
}

proof fn lemma_stays(messages: Seq<MessageV>, now: i64, i: int)
    requires
        0 <= i < messages.len(),
        goes_along(messages[i]),
    ensures
        settled(repair(messages, now), now).contains(messages[i]),
{
    lemma_stays_in_result(messages, now, i);
    let state = repair(messages, now);
    let all = settled(state, now);
    let k = choose|k: int| 0 <= k < state.result.len() && state.result[k] == messages[i];
    assert(all[k] == messages[i]);
}

/// Every message of a user reaches the model. A model that sees no images is given a placeholder
/// for each run of images.
pub proof fn law_user_messages_are_shown<N: ToolCallIdNormalizer>(
    messages: Seq<MessageV>,
    model: ModelV,
    memory: Option<N::State>,
    now: i64,
    i: int,
)
    requires
        0 <= i < messages.len(),
        messages[i] is User,
    ensures
        exists|j: int|
            0 <= j < transformed::<N>(messages, model, memory, now).len() && (
            #[trigger] transformed::<N>(messages, model, memory, now)[j] matches MessageV::User(
                shown,
            ) && user_shown(shown, messages[i]->User_0, model)),
{
    let lowered = lowered_messages::<N>(messages, model, memory);
    let all = transformed::<N>(messages, model, memory, now);
    lemma_stays(lowered, now, i);
    let j = choose|j: int| 0 <= j < all.len() && all[j] == lowered[i];
    if let UserContentV::Blocks(blocks) = messages[i]->User_0.content {
        law_images_leave_a_placeholder(blocks, "(image omitted: model does not support images)"@);
    }
    assert(all[j] matches MessageV::User(shown) && user_shown(shown, messages[i]->User_0, model));
}

/// Every result of a tool reaches the model. A model that sees no images is given a placeholder
/// for each run of images.
pub proof fn law_results_are_shown<N: ToolCallIdNormalizer>(
    messages: Seq<MessageV>,
    model: ModelV,
    memory: Option<N::State>,
    now: i64,
    i: int,
)
    requires
        0 <= i < messages.len(),
        messages[i] is ToolResult,
    ensures
        exists|j: int|
            0 <= j < transformed::<N>(messages, model, memory, now).len() && (
            #[trigger] transformed::<N>(messages, model, memory, now)[j] matches MessageV::ToolResult(
                shown,
            ) && result_shown(shown, messages[i]->ToolResult_0, model)),
{
    let lowered = lowered_messages::<N>(messages, model, memory);
    let all = transformed::<N>(messages, model, memory, now);
    lemma_stays(lowered, now, i);
    let j = choose|j: int| 0 <= j < all.len() && all[j] == lowered[i];
    let result = messages[i]->ToolResult_0;
    law_images_leave_a_placeholder(
        result.content,
        "(tool image omitted: model does not support images)"@,
    );
    assert(all[j] matches MessageV::ToolResult(shown) && result_shown(shown, result, model));
}

/// Whether a turn was spoken by this very model.
pub open spec fn own(turn: AssistantMessageV, model: ModelV) -> bool {
    turn.provider == model.provider && turn.api == model.api && turn.model == model.id
}

/// Whether a block of a turn leaves something behind. Thinking of another model that may not be
/// shown does not, nor does thinking without words, but for what its own model signed.
pub open spec fn leaves_something(block: AssistantContentV, own: bool) -> bool {
    match block {
        AssistantContentV::Thinking(t) => if t.redacted == Some(true) {
            own
        } else {
            !blank(t.thinking) || (own && (t.thinking_signature matches Some(s) && s.len() > 0))
        },
        _ => true,
    }
}

/// Whether `shown` is what a block becomes: a model gets its own blocks as they are, and of another
/// model the words of texts and of thinking as plain text and its calls without signatures.
pub open spec fn block_shown(
    shown: AssistantContentV,
    block: AssistantContentV,
    own: bool,
) -> bool {
    match block {
        AssistantContentV::Thinking(t) => if own {
            shown == block
        } else {
            shown == AssistantContentV::Text(
                TextContentV { text: t.thinking, text_signature: None },
            )
        },
        AssistantContentV::Text(t) => if own {
            shown == block
        } else {
            shown == AssistantContentV::Text(TextContentV { text: t.text, text_signature: None })
        },
        AssistantContentV::ToolCall(call) => if own {
            shown == block
        } else {
            &&& shown is ToolCall
            &&& shown->ToolCall_0.name == call.name
            &&& shown->ToolCall_0.arguments == call.arguments
            &&& shown->ToolCall_0.namespace == call.namespace
            &&& shown->ToolCall_0.thought_signature matches Some(s) ==> s.len() == 0
        },
    }
}

/// How many of the first `n` blocks leave something behind.
pub open spec fn blocks_left(content: Seq<AssistantContentV>, own: bool, n: int) -> nat
    decreases n,
{
    if n <= 0 {
        0
    } else if leaves_something(content[n - 1], own) {
        blocks_left(content, own, n - 1) + 1
    } else {
        blocks_left(content, own, n - 1)
    }
}

/// Whether `shown` is what a model is given of the blocks of a turn.
pub open spec fn content_shown(
    shown: Seq<AssistantContentV>,
    content: Seq<AssistantContentV>,
    own: bool,
) -> bool {
    &&& shown.len() == blocks_left(content, own, content.len() as int)
    &&& forall|i: int|
        0 <= i < content.len() && leaves_something(#[trigger] content[i], own) ==> {
            &&& blocks_left(content, own, i) < shown.len()
            &&& block_shown(shown[blocks_left(content, own, i) as int], content[i], own)
        }
}

proof fn lemma_blocks_left_front(content: Seq<AssistantContentV>, own: bool, n: int)
    requires
        0 <= n < content.len(),
    ensures
        blocks_left(content.drop_last(), own, n) == blocks_left(content, own, n),
    decreases n,
{
    if n > 0 {
        lemma_blocks_left_front(content, own, n - 1);
        assert(content.drop_last()[n - 1] == content[n - 1]);
    }
}

proof fn lemma_content_shown<N: ToolCallIdNormalizer>(
    content: Seq<AssistantContentV>,
    model: ModelV,
    source: AssistantMessageV,
    memory: Option<N::State>,
)
    ensures
        content_shown(
            lowered_content::<N>(content, model, source, memory),
            content,
            own(source, model),
        ),
    decreases content.len(),
{
    if content.len() > 0 {
        let own = own(source, model);
        let front = content.drop_last();
        lemma_content_shown::<N>(front, model, source, memory);
        let n = front.len() as int;
        let rest = lowered_content::<N>(front, model, source, memory);
        let shown = lowered_content::<N>(content, model, source, memory);
        lemma_blocks_left_front(content, own, n);
        assert forall|i: int|
            0 <= i < content.len() && leaves_something(#[trigger] content[i], own) implies {
            &&& blocks_left(content, own, i) < shown.len()
            &&& block_shown(shown[blocks_left(content, own, i) as int], content[i], own)
        } by {
            lemma_blocks_left_front(content, own, i);
            if i < n {
                assert(front[i] == content[i]);
                assert(shown[blocks_left(content, own, i) as int] == rest[blocks_left(
                    content,
                    own,
                    i,
                ) as int]);
            }
        }
    }
}

/// Every turn that neither failed nor was aborted reaches the model, block by block.
pub proof fn law_turns_are_shown<N: ToolCallIdNormalizer>(
    messages: Seq<MessageV>,
    model: ModelV,
    memory: Option<N::State>,
    now: i64,
    i: int,
)
    requires
        0 <= i < messages.len(),
        messages[i] is Assistant,
        goes_along(messages[i]),
    ensures
        exists|j: int|
            0 <= j < transformed::<N>(messages, model, memory, now).len() && (
            #[trigger] transformed::<N>(messages, model, memory, now)[j] matches MessageV::Assistant(
                shown,
            ) && AssistantMessageV { content: messages[i]->Assistant_0.content, ..shown }
                == messages[i]->Assistant_0 && content_shown(
                shown.content,
                messages[i]->Assistant_0.content,
                own(messages[i]->Assistant_0, model),
            )),
{
    let lowered = lowered_messages::<N>(messages, model, memory);
    let all = transformed::<N>(messages, model, memory, now);
    lemma_stays(lowered, now, i);
    let j = choose|j: int| 0 <= j < all.len() && all[j] == lowered[i];
    let turn = messages[i]->Assistant_0;
    lemma_content_shown::<N>(
        turn.content,
        model,
        turn,
        messages_state::<N>(messages.take(i), model, memory),
    );
    assert(all[j] matches MessageV::Assistant(shown) && AssistantMessageV {
        content: turn.content,
        ..shown
    } == turn && content_shown(shown.content, turn.content, own(turn, model)));
}

/// No turn that ended in an error or was aborted reaches the model.
pub proof fn law_failed_turns_are_dropped<N: ToolCallIdNormalizer>(
    messages: Seq<MessageV>,
    model: ModelV,
    memory: Option<N::State>,
    now: i64,
)
    ensures
        forall|j: int|
            0 <= j < transformed::<N>(messages, model, memory, now).len() ==> goes_along(
                #[trigger] transformed::<N>(messages, model, memory, now)[j],
            ),
{
    law_no_failed_turn::<N>(messages, model, memory, now);
}

proof fn lemma_calls_of(content: Seq<AssistantContentV>, i: int)
    requires
        0 <= i < content.len(),
        content[i] is ToolCall,
    ensures
        calls_of(content).contains(content[i]->ToolCall_0),
    decreases content.len(),
{
    let front = content.drop_last();
    let calls = calls_of(content);
    if i < front.len() {
        assert(front[i] == content[i]);
        lemma_calls_of(front, i);
        let k = choose|k: int|
            0 <= k < calls_of(front).len() && calls_of(front)[k] == content[i]->ToolCall_0;
        assert(calls[k] == content[i]->ToolCall_0);
    } else {
        assert(calls[calls.len() - 1] == content[i]->ToolCall_0);
    }
}

/// Behind every turn stands, before any message but results, a result for each call among its
/// blocks.
pub proof fn law_each_call_has_its_result<N: ToolCallIdNormalizer>(
    messages: Seq<MessageV>,
    model: ModelV,
    memory: Option<N::State>,
    now: i64,
    j: int,
    b: int,
)
    requires
        0 <= j < transformed::<N>(messages, model, memory, now).len(),
        transformed::<N>(messages, model, memory, now)[j] matches MessageV::Assistant(turn) && 0
            <= b < turn.content.len() && turn.content[b] is ToolCall,
    ensures
        answered_after(
            transformed::<N>(messages, model, memory, now),
            j,
            transformed::<N>(
                messages,
                model,
                memory,
                now,
            )[j]->Assistant_0.content[b]->ToolCall_0.id,
        ),
{
    let all = transformed::<N>(messages, model, memory, now);
    law_every_call_is_answered::<N>(messages, model, memory, now);
    assert(turn_answered(all, j));
    let content = all[j]->Assistant_0.content;
    lemma_calls_of(content, b);
    let c = choose|c: int|
        0 <= c < calls_of(content).len() && calls_of(content)[c] == content[b]->ToolCall_0;
    assert(answered_after(all, j, calls_of(content)[c].id));
}

/// Whether a message is the result that stands in for one that was never given.
pub open spec fn stands_in(message: MessageV, now: i64) -> bool {
    message matches MessageV::ToolResult(m) && {
        &&& m.content == seq![
            UserContentBlockV::Text(
                TextContentV { text: "No result provided"@, text_signature: None },
            ),
        ]
        &&& m.is_error
        &&& m.timestamp == now
        &&& m.details is None
        &&& m.usage is None
        &&& m.added_tool_names is None
    }
}

proof fn lemma_missing_stand_in(pending: Seq<ToolCallV>, answered: Seq<Seq<char>>, now: i64)
    ensures
        forall|k: int|
            0 <= k < missing_results(pending, answered, now).len() ==> stands_in(
                #[trigger] missing_results(pending, answered, now)[k],
                now,
            ),
    decreases pending.len(),
{
    if pending.len() > 0 {
        lemma_missing_stand_in(pending.drop_last(), answered, now);
        let rest = missing_results(pending.drop_last(), answered, now);
        let all = missing_results(pending, answered, now);
        assert forall|k: int| 0 <= k < all.len() implies stands_in(#[trigger] all[k], now) by {
            if k < rest.len() {
                assert(all[k] == rest[k]);
            }
        }
    }
}

proof fn lemma_nothing_made_up(messages: Seq<MessageV>, now: i64)
    ensures
        forall|k: int|
            0 <= k < repair(messages, now).result.len() ==> messages.contains(
                #[trigger] repair(messages, now).result[k],
            ) || stands_in(repair(messages, now).result[k], now),
    decreases messages.len(),
{
    if messages.len() > 0 {
        let front = messages.drop_last();
        let before = repair(front, now);
        let all = repair(messages, now).result;
        lemma_nothing_made_up(front, now);
        lemma_missing_stand_in(before.pending, before.answered, now);
        let missing = missing_results(before.pending, before.answered, now);
        assert forall|k: int| 0 <= k < all.len() implies messages.contains(#[trigger] all[k])
            || stands_in(all[k], now) by {
            if k < before.result.len() {
                assert(all[k] == before.result[k]);
                if front.contains(all[k]) {
                    let f = choose|f: int| 0 <= f < front.len() && front[f] == all[k];
                    assert(messages[f] == all[k]);
                }
            } else if k < before.result.len() + missing.len() && !(messages.last() is ToolResult) {
                assert(all[k] == missing[k - before.result.len()]);
            } else {
                assert(all[k] == messages[messages.len() - 1]);
            }
        }
    }
}

/// Nothing is made up but results for calls that were never answered, and those say so.
pub proof fn law_only_missing_results_are_made_up<N: ToolCallIdNormalizer>(
    messages: Seq<MessageV>,
    model: ModelV,
    memory: Option<N::State>,
    now: i64,
    j: int,
)
    requires
        0 <= j < transformed::<N>(messages, model, memory, now).len(),
    ensures
        lowered_messages::<N>(messages, model, memory).contains(
            transformed::<N>(messages, model, memory, now)[j],
        ) || stands_in(transformed::<N>(messages, model, memory, now)[j], now),
{
    let lowered = lowered_messages::<N>(messages, model, memory);
    let state = repair(lowered, now);
    let all = transformed::<N>(messages, model, memory, now);
    lemma_nothing_made_up(lowered, now);
    lemma_missing_stand_in(state.pending, state.answered, now);
    let missing = missing_results(state.pending, state.answered, now);
    if j < state.result.len() {
        assert(all[j] == state.result[j]);
    } else {
        assert(all[j] == missing[j - state.result.len()]);
    }
}

/// Whether a block is a call under `id`.
pub open spec fn calls_under(block: AssistantContentV, id: Seq<char>) -> bool {
    block matches AssistantContentV::ToolCall(call) && call.id == id
}

/// Whether no block calls under `id`.
pub open spec fn no_call_under(content: Seq<AssistantContentV>, id: Seq<char>) -> bool {
    forall|b: int| 0 <= b < content.len() ==> !calls_under(#[trigger] content[b], id)
}

/// Whether no turn among the messages calls under `id`.
pub open spec fn no_turn_under(messages: Seq<MessageV>, id: Seq<char>) -> bool {
    forall|i: int|
        0 <= i < messages.len() ==> (#[trigger] messages[i] matches MessageV::Assistant(turn)
            ==> no_call_under(turn.content, id))
}

proof fn lemma_ids_untouched<N: ToolCallIdNormalizer>(
    ids: Seq<(Seq<char>, Seq<char>)>,
    content: Seq<AssistantContentV>,
    model: ModelV,
    source: AssistantMessageV,
    memory: Option<N::State>,
    id: Seq<char>,
)
    requires
        no_call_under(content, id),
    ensures
        lookup(changed_ids::<N>(ids, content, model, source, memory), id) == lookup(ids, id),
    decreases content.len(),
{
    if content.len() > 0 {
        let front = content.drop_last();
        assert forall|b: int| 0 <= b < front.len() implies !calls_under(#[trigger] front[b], id) by {
            assert(front[b] == content[b]);
        }
        lemma_ids_untouched::<N>(ids, front, model, source, memory, id);
        assert(!calls_under(content[content.len() - 1], id));
        if let AssistantContentV::ToolCall(call) = content.last() {
            let now = content_state::<N>(front, model, source, memory);
            lemma_put(
                changed_ids::<N>(ids, front, model, source, memory),
                call.id,
                crate::transform_messages::replay_id::<N>(call, model, source, now),
                id,
            );
        }
    }
}

proof fn lemma_map_untouched<N: ToolCallIdNormalizer>(
    messages: Seq<MessageV>,
    model: ModelV,
    memory: Option<N::State>,
    id: Seq<char>,
)
    requires
        no_turn_under(messages, id),
    ensures
        lookup(id_map::<N>(messages, model, memory), id) is None,
    decreases messages.len(),
{
    if messages.len() > 0 {
        let front = messages.drop_last();
        assert forall|i: int| 0 <= i < front.len() implies (#[trigger] front[i] matches MessageV::Assistant(
            turn,
        ) ==> no_call_under(turn.content, id)) by {
            assert(front[i] == messages[i]);
        }
        lemma_map_untouched::<N>(front, model, memory, id);
        if let MessageV::Assistant(turn) = messages.last() {
            assert(messages[messages.len() - 1] == messages.last());
            lemma_ids_untouched::<N>(
                id_map::<N>(front, model, memory),
                turn.content,
                model,
                turn,
                messages_state::<N>(front, model, memory),
                id,
            );
        }
    }
}

/// The identifier under which the call at `b` of a turn is shown.
proof fn lemma_call_is_renamed<N: ToolCallIdNormalizer>(
    ids: Seq<(Seq<char>, Seq<char>)>,
    content: Seq<AssistantContentV>,
    model: ModelV,
    source: AssistantMessageV,
    memory: Option<N::State>,
    b: int,
)
    requires
        0 <= b < content.len(),
        content[b] is ToolCall,
        lookup(ids, content[b]->ToolCall_0.id) is None,
        forall|o: int|
            0 <= o < content.len() && o != b ==> !calls_under(
                #[trigger] content[o],
                content[b]->ToolCall_0.id,
            ),
    ensures
        blocks_left(content, own(source, model), b) < lowered_content::<N>(
            content,
            model,
            source,
            memory,
        ).len(),
        lowered_content::<N>(content, model, source, memory)[blocks_left(
            content,
            own(source, model),
            b,
        ) as int] matches AssistantContentV::ToolCall(shown) && shown.id == (match lookup(
            changed_ids::<N>(ids, content, model, source, memory),
            content[b]->ToolCall_0.id,
        ) {
            Some(renamed) => renamed,
            None => content[b]->ToolCall_0.id,
        }),
    decreases content.len(),
{
    let id = content[b]->ToolCall_0.id;
    let own = own(source, model);
    let front = content.drop_last();
    let now = content_state::<N>(front, model, source, memory);
    lemma_content_shown::<N>(front, model, source, memory);
    lemma_content_shown::<N>(content, model, source, memory);
    lemma_blocks_left_front(content, own, b);
    let shown = lowered_content::<N>(content, model, source, memory);
    let at = blocks_left(content, own, b) as int;
    assert(leaves_something(content[b], own));
    if b < front.len() {
        assert(front[b] == content[b]);
        assert forall|o: int| 0 <= o < front.len() && o != b implies !calls_under(
            #[trigger] front[o],
            id,
        ) by {
            assert(front[o] == content[o]);
        }
        lemma_call_is_renamed::<N>(ids, front, model, source, memory, b);
        assert(leaves_something(front[b], own));
        assert(shown[at] == lowered_content::<N>(front, model, source, memory)[at]);
        assert(!calls_under(content[content.len() - 1], id));
        if let AssistantContentV::ToolCall(call) = content.last() {
            lemma_put(
                changed_ids::<N>(ids, front, model, source, memory),
                call.id,
                crate::transform_messages::replay_id::<N>(call, model, source, now),
                id,
            );
        }
    } else {
        assert(no_call_under(front, id)) by {
            assert forall|o: int| 0 <= o < front.len() implies !calls_under(
                #[trigger] front[o],
                id,
            ) by {
                assert(front[o] == content[o]);
            }
        }
        lemma_ids_untouched::<N>(ids, front, model, source, memory, id);
        let call = content.last()->ToolCall_0;
        lemma_put(
            changed_ids::<N>(ids, front, model, source, memory),
            id,
            crate::transform_messages::replay_id::<N>(call, model, source, now),
            id,
        );
        lemma_blocks_left_front(content, own, front.len() as int);
    }
}

proof fn lemma_rename_stays<N: ToolCallIdNormalizer>(
    messages: Seq<MessageV>,
    model: ModelV,
    memory: Option<N::State>,
    id: Seq<char>,
    k: int,
)
    requires
        0 <= k <= messages.len(),
        no_turn_under(messages.skip(k), id),
    ensures
        lookup(id_map::<N>(messages, model, memory), id) == lookup(
            id_map::<N>(messages.take(k), model, memory),
            id,
        ),
    decreases messages.len(),
{
    if k == messages.len() {
        assert(messages.take(k) =~= messages);
    } else {
        let front = messages.drop_last();
        assert(front.take(k) =~= messages.take(k));
        assert(messages.skip(k)[messages.len() - 1 - k] == messages.last());
        assert forall|i: int| 0 <= i < front.skip(k).len() implies (#[trigger] front.skip(
            k,
        )[i] matches MessageV::Assistant(turn) ==> no_call_under(turn.content, id)) by {
            assert(front.skip(k)[i] == messages.skip(k)[i]);
        }
        lemma_rename_stays::<N>(front, model, memory, id, k);
        if let MessageV::Assistant(turn) = messages.last() {
            lemma_ids_untouched::<N>(
                id_map::<N>(front, model, memory),
                turn.content,
                model,
                turn,
                messages_state::<N>(front, model, memory),
                id,
            );
        }
    }
}

/// A result goes on answering its call: where one call before it stands under the identifier that
/// the result names, both are shown under one identifier.
pub proof fn law_results_follow_their_calls<N: ToolCallIdNormalizer>(
    messages: Seq<MessageV>,
    model: ModelV,
    memory: Option<N::State>,
    k: int,
    b: int,
    i: int,
)
    requires
        0 <= k < i < messages.len(),
        messages[i] is ToolResult,
        messages[k] is Assistant,
        0 <= b < messages[k]->Assistant_0.content.len(),
        calls_under(
            messages[k]->Assistant_0.content[b],
            messages[i]->ToolResult_0.tool_call_id,
        ),
        forall|o: int|
            0 <= o < messages[k]->Assistant_0.content.len() && o != b ==> !calls_under(
                #[trigger] messages[k]->Assistant_0.content[o],
                messages[i]->ToolResult_0.tool_call_id,
            ),
        no_turn_under(messages.take(k), messages[i]->ToolResult_0.tool_call_id),
        no_turn_under(messages.subrange(k + 1, i), messages[i]->ToolResult_0.tool_call_id),
    ensures
        ({
            let shown = lowered_messages::<N>(messages, model, memory);
            let turn = messages[k]->Assistant_0;
            let at = blocks_left(turn.content, own(turn, model), b) as int;
            &&& shown[k] is Assistant
            &&& shown[i] is ToolResult
            &&& at < shown[k]->Assistant_0.content.len()
            &&& calls_under(
                shown[k]->Assistant_0.content[at],
                shown[i]->ToolResult_0.tool_call_id,
            )
        }),
{
    let id = messages[i]->ToolResult_0.tool_call_id;
    let turn = messages[k]->Assistant_0;
    let earlier = messages.take(k);
    let through = messages.take(k + 1);
    lemma_map_untouched::<N>(earlier, model, memory, id);
    lemma_call_is_renamed::<N>(
        id_map::<N>(earlier, model, memory),
        turn.content,
        model,
        turn,
        messages_state::<N>(earlier, model, memory),
        b,
    );
    assert(through.drop_last() =~= earlier);
    assert(through.last() == messages[k]);
    let until = messages.take(i);
    assert(until.skip(k + 1) =~= messages.subrange(k + 1, i));
    lemma_rename_stays::<N>(until, model, memory, id, k + 1);
    assert(until.take(k + 1) =~= through);
}

proof fn lemma_state_stays<N: ToolCallIdNormalizer>(
    content: Seq<AssistantContentV>,
    model: ModelV,
    source: AssistantMessageV,
    memory: Option<N::State>,
)
    requires
        memory is Some,
    ensures
        content_state::<N>(content, model, source, memory) is Some,
    decreases content.len(),
{
    if content.len() > 0 {
        lemma_state_stays::<N>(content.drop_last(), model, source, memory);
    }
}

proof fn lemma_states_stay<N: ToolCallIdNormalizer>(
    messages: Seq<MessageV>,
    model: ModelV,
    memory: Option<N::State>,
)
    requires
        memory is Some,
    ensures
        messages_state::<N>(messages, model, memory) is Some,
    decreases messages.len(),
{
    if messages.len() > 0 {
        let front = messages.drop_last();
        lemma_states_stay::<N>(front, model, memory);
        if let MessageV::Assistant(turn) = messages.last() {
            lemma_state_stays::<N>(
                turn.content,
                model,
                turn,
                messages_state::<N>(front, model, memory),
            );
        }
    }
}

proof fn lemma_completions_ids(
    content: Seq<AssistantContentV>,
    model: ModelV,
    source: AssistantMessageV,
    memory: Option<()>,
    b: int,
)
    requires
        memory is Some,
        !own(source, model),
        0 <= b < content.len(),
        content[b] is ToolCall,
    ensures
        ({
            let shown = lowered_content::<CompletionsToolCallIds>(content, model, source, memory);
            let at = blocks_left(content, false, b) as int;
            &&& at < shown.len()
            &&& shown[at] matches AssistantContentV::ToolCall(call) && call.id == completions_id(
                content[b]->ToolCall_0.id,
                model.provider,
            )
        }),
    decreases content.len(),
{
    let front = content.drop_last();
    let shown = lowered_content::<CompletionsToolCallIds>(content, model, source, memory);
    lemma_content_shown::<CompletionsToolCallIds>(front, model, source, memory);
    lemma_content_shown::<CompletionsToolCallIds>(content, model, source, memory);
    lemma_blocks_left_front(content, false, b);
    lemma_state_stays::<CompletionsToolCallIds>(front, model, source, memory);
    assert(leaves_something(content[b], false));
    if b < front.len() {
        assert(front[b] == content[b]);
        assert(leaves_something(front[b], false));
        lemma_completions_ids(front, model, source, memory, b);
        let at = blocks_left(content, false, b) as int;
        assert(shown[at] == lowered_content::<CompletionsToolCallIds>(
            front,
            model,
            source,
            memory,
        )[at]);
    } else {
        lemma_blocks_left_front(content, false, front.len() as int);
    }
}

/// In a chat-completions conversation the calls of another model go under identifiers that every
/// provider takes.
pub proof fn law_foreign_calls_are_renamed(
    messages: Seq<MessageV>,
    model: ModelV,
    i: int,
    b: int,
)
    requires
        0 <= i < messages.len(),
        messages[i] is Assistant,
        !own(messages[i]->Assistant_0, model),
        0 <= b < messages[i]->Assistant_0.content.len(),
        messages[i]->Assistant_0.content[b] is ToolCall,
    ensures
        ({
            let shown = lowered_messages::<CompletionsToolCallIds>(messages, model, Some(()))[i];
            let content = messages[i]->Assistant_0.content;
            let at = blocks_left(content, false, b) as int;
            &&& shown is Assistant
            &&& at < shown->Assistant_0.content.len()
            &&& shown->Assistant_0.content[at] matches AssistantContentV::ToolCall(call) && call.id
                == completions_id(content[b]->ToolCall_0.id, model.provider)
        }),
{
    let turn = messages[i]->Assistant_0;
    lemma_states_stay::<CompletionsToolCallIds>(messages.take(i), model, Some(()));
    lemma_completions_ids(
        turn.content,
        model,
        turn,
        messages_state::<CompletionsToolCallIds>(messages.take(i), model, Some(())),
        b,
    );
}

/// How identifiers are made to fit, for each sort of API.
pub proof fn law_ids_are_made_to_fit(
    id: Seq<char>,
    model: ModelV,
    source: AssistantMessageV,
    allowed: Seq<Seq<char>>,
    given: MistralIdsV,
)
    ensures
        AnthropicToolCallIds::normalized((), id, model, source) == anthropic_id(id),
        CompletionsToolCallIds::normalized((), id, model, source) == completions_id(
            id,
            model.provider,
        ),
        ResponsesToolCallIds::normalized(allowed, id, model, source) == responses_id(
            id,
            model,
            source,
            allowed,
        ),
        ResponsesToolCallIds::remembering(allowed, id, model, source) == allowed,
        mistral_choice(given, id) matches Some(chosen) ==> MistralToolCallIdNormalizer::normalized(
            given,
            id,
            model,
            source,
        ) == chosen,
        MistralToolCallIdNormalizer::remembering(given, id, model, source) == mistral_noted(given, id),
{
}

} // verus!
