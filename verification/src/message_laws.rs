//! What the messages of a chat-completions request say.
use crate::assoc::lookup;
use crate::completions_messages::{
    after_results, all_tools, bridge, call_details, converted, instructions, leading_results,
    lemma_leading, only_images, replayed_details, result_images, result_message, result_names, spoken, text_parts,
    thought_texts, thoughts, tools_named, user_content, wire_calls, wire_messages, wire_tool,
    wire_tools, wire_turn, with_names,
};
use crate::completions_types::{
    ResolvedCompatV, WireAssistantToolCallV, WireContentPartV, WireContentV, WireMessageV,
};
use crate::event_laws::{lemma_strung, strung};
use crate::json::{json_parse, json_text, member, JsonV};
use crate::responses_input::block_texts;
use crate::text::blank;
use crate::transform_messages::{transformed, CompletionsToolCallIds};
use crate::types::{
    AssistantContentV, AssistantMessageV, ContextV, DeferredToolsMode, ImageContentV, MessageV,
    ModelInput, ModelV, ThinkingContentV, ToolCallV, ToolResultMessageV, ToolV, UserContentBlockV,
    UserContentV, UserMessageV,
};
use vstd::prelude::*;

verus! {

/// The texts among blocks, in order.
pub open spec fn texts_in(content: Seq<UserContentBlockV>) -> Seq<Seq<char>>
    decreases content.len(),
{
    if content.len() == 0 {
        Seq::empty()
    } else {
        match content[0] {
            UserContentBlockV::Text(t) => seq![t.text] + texts_in(content.drop_first()),
            UserContentBlockV::Image(_) => texts_in(content.drop_first()),
        }
    }
}

/// The two ways to go through blocks find the same texts.
pub proof fn lemma_texts_in(content: Seq<UserContentBlockV>)
    ensures
        block_texts(content) == texts_in(content),
    decreases content.len(),
{
    if content.len() == 1 {
        lemma_texts_in(content.drop_last());
        assert(content.drop_first().len() == 0);
        assert(texts_in(content.drop_first()) =~= Seq::<Seq<char>>::empty());
        assert(block_texts(content) =~= texts_in(content));
    } else if content.len() > 1 {
        let front = content.drop_last();
        let rest = content.drop_first();
        lemma_texts_in(front);
        lemma_texts_in(rest);
        lemma_texts_in(rest.drop_last());
        assert(front.drop_first() =~= rest.drop_last());
        assert(front[0] == content[0]);
        assert(rest.last() == content.last());
        assert(block_texts(content) =~= texts_in(content));
    }
}

/// Texts of which one has a character make up a text that has one.
pub proof fn lemma_some_text(texts: Seq<Seq<char>>, between: Seq<char>, i: int)
    requires
        0 <= i < texts.len(),
        texts[i].len() > 0,
    ensures
        strung(texts, between).len() > 0,
    decreases texts.len(),
{
    if texts.len() > 1 && i > 0 {
        lemma_some_text(texts.drop_first(), between, i - 1);
    }
}

/// The text of a block is among the texts.
pub proof fn lemma_text_is_in(content: Seq<UserContentBlockV>, i: int)
    requires
        0 <= i < content.len(),
        content[i] is Text,
    ensures
        texts_in(content).contains(content[i]->Text_0.text),
    decreases content.len(),
{
    let rest = content.drop_first();
    let all = texts_in(content);
    let text = content[i]->Text_0.text;
    if i == 0 {
        assert(all[0] == text);
    } else {
        lemma_text_is_in(rest, i - 1);
        let k = choose|k: int| 0 <= k < texts_in(rest).len() && texts_in(rest)[k] == text;
        if content[0] is Text {
            assert(all[k + 1] == text);
        } else {
            assert(all[k] == text);
        }
    }
}

/// What a tool's result says in words: its texts, one to a line; where there is no word among them,
/// that an image is there to be seen, or that there is nothing.
pub open spec fn result_words(content: Seq<UserContentBlockV>) -> Seq<char> {
    let text = strung(texts_in(content), "\n"@);
    if text.len() > 0 {
        text
    } else if exists|i: int| 0 <= i < content.len() && #[trigger] content[i] is Image {
        "(see attached image)"@
    } else {
        "(no tool output)"@
    }
}

/// Whether `sent` is what a result is sent as.
pub open spec fn result_told(
    sent: WireMessageV,
    result: ToolResultMessageV,
    compat: ResolvedCompatV,
) -> bool {
    sent == WireMessageV::Tool {
        content: WireContentV::Plain(result_words(result.content)),
        tool_call_id: result.tool_call_id,
        name: if compat.requires_tool_result_name && result.tool_name.len() > 0 {
            Some(result.tool_name)
        } else {
            None
        },
    }
}

/// A tool's result is answered with its texts, whether or not there are images among its blocks.
pub proof fn law_result_is_told(result: ToolResultMessageV, compat: ResolvedCompatV)
    ensures
        result_told(result_message(result, compat), result, compat),
        (exists|i: int|
            0 <= i < result.content.len() && (#[trigger] result.content[i] matches UserContentBlockV::Text(
                t,
            ) && t.text.len() > 0)) ==> (result_message(result, compat) matches WireMessageV::Tool {
            content,
            ..
        } && content == WireContentV::Plain(strung(texts_in(result.content), "\n"@))),
{
    lemma_texts_in(result.content);
    lemma_strung(texts_in(result.content), "\n"@);
    if exists|i: int|
        0 <= i < result.content.len() && (#[trigger] result.content[i] matches UserContentBlockV::Text(
            t,
        ) && t.text.len() > 0) {
        let i = choose|i: int|
            0 <= i < result.content.len() && (#[trigger] result.content[i] matches UserContentBlockV::Text(
                t,
            ) && t.text.len() > 0);
        lemma_text_is_in(result.content, i);
        let texts = texts_in(result.content);
        let k = choose|k: int|
            0 <= k < texts.len() && texts[k] == result.content[i]->Text_0.text;
        lemma_some_text(texts, "\n"@, k);
    }
}

/// The address of an image that stands in the request itself.
pub open spec fn image_address(image: ImageContentV) -> Seq<char> {
    "data:"@ + image.mime_type + ";base64,"@ + image.data
}

/// Whether a part says what a block says.
pub open spec fn part_told(part: WireContentPartV, block: UserContentBlockV) -> bool {
    match block {
        UserContentBlockV::Text(t) => part == WireContentPartV::Text {
            text: t.text,
            cache_control: None,
        },
        UserContentBlockV::Image(image) => part matches WireContentPartV::ImageUrl { image_url }
            && image_url.url == image_address(image),
    }
}

/// Whether `sent` is what a user's words are sent as.
pub open spec fn user_told(sent: WireMessageV, content: UserContentV) -> bool {
    match content {
        UserContentV::Text(text) => sent == WireMessageV::User {
            content: WireContentV::Plain(text),
        },
        UserContentV::Blocks(blocks) => sent matches WireMessageV::User {
            content: WireContentV::Parts(parts),
        } && parts.len() == blocks.len() && forall|i: int|
            0 <= i < parts.len() ==> part_told(#[trigger] parts[i], blocks[i]),
    }
}

/// The texts of a turn that are not blank, in order.
pub open spec fn said(content: Seq<AssistantContentV>) -> Seq<Seq<char>>
    decreases content.len(),
{
    if content.len() == 0 {
        Seq::empty()
    } else {
        match content[0] {
            AssistantContentV::Text(t) if !blank(t.text) => seq![t.text] + said(
                content.drop_first(),
            ),
            _ => said(content.drop_first()),
        }
    }
}

/// The thinking of a turn that is not blank, in order.
pub open spec fn thought(content: Seq<AssistantContentV>) -> Seq<ThinkingContentV>
    decreases content.len(),
{
    if content.len() == 0 {
        Seq::empty()
    } else {
        match content[0] {
            AssistantContentV::Thinking(t) if !blank(t.thinking) => seq![t] + thought(
                content.drop_first(),
            ),
            _ => thought(content.drop_first()),
        }
    }
}

/// The calls of a turn, in order.
pub open spec fn called(content: Seq<AssistantContentV>) -> Seq<ToolCallV>
    decreases content.len(),
{
    if content.len() == 0 {
        Seq::empty()
    } else {
        match content[0] {
            AssistantContentV::ToolCall(call) => seq![call] + called(content.drop_first()),
            _ => called(content.drop_first()),
        }
    }
}

proof fn lemma_said(content: Seq<AssistantContentV>)
    ensures
        spoken(content) == said(content),
    decreases content.len(),
{
    if content.len() == 1 {
        lemma_said(content.drop_last());
        assert(said(content.drop_first()) =~= Seq::<Seq<char>>::empty());
        assert(spoken(content) =~= said(content));
    } else if content.len() > 1 {
        let front = content.drop_last();
        let rest = content.drop_first();
        lemma_said(front);
        lemma_said(rest);
        lemma_said(rest.drop_last());
        assert(front.drop_first() =~= rest.drop_last());
        assert(front[0] == content[0]);
        assert(rest.last() == content.last());
        assert(spoken(content) =~= said(content));
    }
}

proof fn lemma_thought(content: Seq<AssistantContentV>)
    ensures
        thoughts(content) == thought(content),
    decreases content.len(),
{
    if content.len() == 1 {
        lemma_thought(content.drop_last());
        assert(thought(content.drop_first()) =~= Seq::<ThinkingContentV>::empty());
        assert(thoughts(content) =~= thought(content));
    } else if content.len() > 1 {
        let front = content.drop_last();
        let rest = content.drop_first();
        lemma_thought(front);
        lemma_thought(rest);
        lemma_thought(rest.drop_last());
        assert(front.drop_first() =~= rest.drop_last());
        assert(front[0] == content[0]);
        assert(rest.last() == content.last());
        assert(thoughts(content) =~= thought(content));
    }
}

/// The words of thinking.
pub open spec fn thought_words(thoughts: Seq<ThinkingContentV>) -> Seq<Seq<char>> {
    Seq::new(thoughts.len(), |i: int| thoughts[i].thinking)
}

/// Whether `sent` is what a call is sent as: with its arguments as text, or, where its tool takes
/// free-form input, with that input.
pub open spec fn call_told(
    sent: WireAssistantToolCallV,
    call: ToolCallV,
    properties: Seq<(Seq<char>, Seq<char>)>,
) -> bool {
    match lookup(properties, call.name) {
        None => sent matches WireAssistantToolCallV::Function { id, function } && id == call.id
            && function.name == call.name && function.arguments == json_text(call.arguments),
        Some(property) => sent matches WireAssistantToolCallV::Custom { id, custom } && id
            == call.id && custom.name == call.name && member(call.arguments, property) == Some(
            JsonV::Str(custom.input),
        ),
    }
}

/// Whether `sent` are what the calls are sent as, in order.
pub open spec fn calls_told(
    sent: Seq<WireAssistantToolCallV>,
    calls: Seq<ToolCallV>,
    properties: Seq<(Seq<char>, Seq<char>)>,
) -> bool {
    &&& sent.len() == calls.len()
    &&& forall|i: int|
        0 <= i < sent.len() ==> call_told(#[trigger] sent[i], calls[i], properties)
}

proof fn lemma_calls_told(
    content: Seq<AssistantContentV>,
    properties: Seq<(Seq<char>, Seq<char>)>,
)
    ensures
        wire_calls(content, properties) matches Ok(sent) ==> calls_told(
            sent,
            called(content),
            properties,
        ),
    decreases content.len(),
{
    if content.len() > 0 {
        let rest = content.drop_first();
        lemma_calls_told(rest, properties);
        if let (AssistantContentV::ToolCall(call), Ok(sent)) = (
            content[0],
            wire_calls(content, properties),
        ) {
            let after = wire_calls(rest, properties)->Ok_0;
            let calls = called(content);
            assert forall|i: int| 0 <= i < sent.len() implies call_told(
                #[trigger] sent[i],
                calls[i],
                properties,
            ) by {
                if i > 0 {
                    assert(sent[i] == after[i - 1]);
                    assert(calls[i] == called(rest)[i - 1]);
                }
            }
        }
    }
}

/// The member that the thinking of a turn goes into: the one that it came in, which its first block
/// is signed with.
pub open spec fn thought_member(
    content: Seq<AssistantContentV>,
    model: ModelV,
    compat: ResolvedCompatV,
) -> Option<Seq<char>> {
    if thought(content).len() == 0 || compat.requires_thinking_as_text {
        None
    } else if model.provider == "opencode-go"@ && thought(content)[0].thinking_signature == Some(
        "reasoning"@,
    ) {
        Some("reasoning_content"@)
    } else {
        thought(content)[0].thinking_signature
    }
}

/// What a member for thinking holds.
pub open spec fn thought_in(
    name: Seq<char>,
    content: Seq<AssistantContentV>,
    model: ModelV,
    compat: ResolvedCompatV,
) -> Option<Seq<char>> {
    if thought_member(content, model, compat) == Some(name) {
        Some(strung(thought_words(thought(content)), "\n"@))
    } else {
        None
    }
}

/// Whether `sent` is what a turn is sent as.
pub open spec fn turn_told(
    sent: WireMessageV,
    turn: AssistantMessageV,
    model: ModelV,
    compat: ResolvedCompatV,
    properties: Seq<(Seq<char>, Seq<char>)>,
) -> bool {
    let answer = strung(said(turn.content), Seq::empty());
    let reasons = thought(turn.content);
    &&& sent is Assistant
    &&& if reasons.len() > 0 && compat.requires_thinking_as_text {
        sent->Assistant_content matches Some(WireContentV::Parts(parts)) && {
            &&& parts.len() == said(turn.content).len() + 1
            &&& parts[0] == WireContentPartV::Text {
                text: strung(thought_words(reasons), "\n\n"@),
                cache_control: None,
            }
            &&& forall|i: int|
                1 <= i < parts.len() ==> #[trigger] parts[i] == (WireContentPartV::Text {
                    text: said(turn.content)[i - 1],
                    cache_control: None,
                })
        }
    } else if answer.len() > 0 {
        sent->Assistant_content == Some(WireContentV::Plain(answer))
    } else if compat.requires_assistant_after_tool_result {
        sent->Assistant_content == Some(WireContentV::Plain(Seq::empty()))
    } else {
        sent->Assistant_content is None
    }
    &&& match sent->Assistant_tool_calls {
        Some(calls) => calls.len() > 0 && calls_told(calls, called(turn.content), properties),
        None => called(turn.content).len() == 0,
    }
    &&& sent->Assistant_reasoning == thought_in("reasoning"@, turn.content, model, compat)
    &&& sent->Assistant_reasoning_text == thought_in(
        "reasoning_text"@,
        turn.content,
        model,
        compat,
    )
    &&& match thought_in("reasoning_content"@, turn.content, model, compat) {
        Some(text) => sent->Assistant_reasoning_content == Some(text),
        None => if compat.requires_reasoning_content_on_assistant_messages && model.reasoning {
            sent->Assistant_reasoning_content == Some(Seq::<char>::empty())
        } else {
            sent->Assistant_reasoning_content is None
        },
    }
    &&& turn.provider == model.provider && turn.api == model.api && turn.model == model.id
        && turn.reasoning_details is Some && turn.reasoning_details->Some_0.len() > 0
        ==> sent->Assistant_reasoning_details == turn.reasoning_details
}

/// Whether a message has anything to say: a turn has where it holds a text or a call, or, where
/// thinking goes as text, a thought.
pub open spec fn speaks(message: MessageV, compat: ResolvedCompatV) -> bool {
    match message {
        MessageV::User(m) => m.content matches UserContentV::Blocks(blocks) ==> blocks.len() > 0,
        MessageV::ToolResult(_) => true,
        MessageV::Assistant(turn) => {
            ||| said(turn.content).len() > 0
            ||| called(turn.content).len() > 0
            ||| compat.requires_thinking_as_text && thought(turn.content).len() > 0
        },
    }
}

/// Whether `sent` is what a message is sent as.
pub open spec fn message_told(
    sent: WireMessageV,
    message: MessageV,
    model: ModelV,
    compat: ResolvedCompatV,
    properties: Seq<(Seq<char>, Seq<char>)>,
) -> bool {
    match message {
        MessageV::User(m) => user_told(sent, m.content),
        MessageV::Assistant(turn) => turn_told(sent, turn, model, compat, properties),
        MessageV::ToolResult(result) => result_told(sent, result, compat),
    }
}

proof fn lemma_said_is_not_blank(content: Seq<AssistantContentV>)
    ensures
        forall|i: int| 0 <= i < said(content).len() ==> (#[trigger] said(content)[i]).len() > 0,
    decreases content.len(),
{
    if content.len() > 0 {
        let rest = content.drop_first();
        lemma_said_is_not_blank(rest);
        assert forall|i: int| 0 <= i < said(content).len() implies (#[trigger] said(
            content,
        )[i]).len() > 0 by {
            if said(content) != said(rest) && i > 0 {
                assert(said(content)[i] == said(rest)[i - 1]);
            }
        }
    }
}

proof fn lemma_turn_told(
    turn: AssistantMessageV,
    model: ModelV,
    compat: ResolvedCompatV,
    properties: Seq<(Seq<char>, Seq<char>)>,
)
    ensures
        match wire_turn(turn, model, compat, properties) {
            Ok(Some(sent)) => turn_told(sent, turn, model, compat, properties) && speaks(
                MessageV::Assistant(turn),
                compat,
            ),
            Ok(None) => !speaks(MessageV::Assistant(turn), compat),
            Err(_) => true,
        },
{
    let content = turn.content;
    lemma_said(content);
    lemma_thought(content);
    lemma_calls_told(content, properties);
    lemma_said_is_not_blank(content);
    reveal_strlit("");
    assert(""@ =~= Seq::<char>::empty());
    lemma_strung(said(content), ""@);
    assert(thought_texts(thought(content)) =~= thought_words(thought(content)));
    lemma_strung(thought_words(thought(content)), "\n\n"@);
    lemma_strung(thought_words(thought(content)), "\n"@);
    if said(content).len() > 0 {
        lemma_some_text(said(content), Seq::empty(), 0);
    }
    let reasons = thought(content);
    if reasons.len() > 0 && compat.requires_thinking_as_text {
        let parts = seq![
            crate::completions_messages::text_part(
                strung(thought_words(reasons), "\n\n"@),
            ),
        ] + text_parts(said(content));
        assert forall|i: int| 1 <= i < parts.len() implies #[trigger] parts[i] == (
        WireContentPartV::Text { text: said(content)[i - 1], cache_control: None }) by {
            assert(parts[i] == text_parts(said(content))[i - 1]);
        }
    }
}

/// Whether every message that has anything to say is sent, in order: `places` tells where.
pub open spec fn sent_in_order(
    places: Seq<int>,
    sent: Seq<WireMessageV>,
    messages: Seq<MessageV>,
    model: ModelV,
    compat: ResolvedCompatV,
    properties: Seq<(Seq<char>, Seq<char>)>,
) -> bool {
    &&& places.len() == messages.len()
    &&& forall|i: int|
        #![trigger places[i]]
        0 <= i < messages.len() && speaks(messages[i], compat) ==> {
            &&& 0 <= places[i] < sent.len()
            &&& message_told(sent[places[i]], messages[i], model, compat, properties)
        }
    &&& forall|i: int, j: int|
        #![trigger places[i], places[j]]
        0 <= i < j < messages.len() && speaks(messages[i], compat) && speaks(messages[j], compat)
            ==> places[i] < places[j]
}

proof fn lemma_leading_are(messages: Seq<MessageV>)
    ensures
        leading_results(messages).len() <= messages.len(),
        forall|k: int|
            0 <= k < leading_results(messages).len() ==> messages[k] == MessageV::ToolResult(
                #[trigger] leading_results(messages)[k],
            ),
    decreases messages.len(),
{
    if messages.len() > 0 && messages[0] is ToolResult {
        let rest = messages.drop_first();
        lemma_leading_are(rest);
        let results = leading_results(messages);
        assert forall|k: int| 0 <= k < results.len() implies messages[k] == MessageV::ToolResult(
            #[trigger] results[k],
        ) by {
            if k > 0 {
                assert(results[k] == leading_results(rest)[k - 1]);
                assert(messages[k] == rest[k - 1]);
            }
        }
    }
}

/// Puts further places behind those of the first messages.
proof fn lemma_places(
    front: Seq<WireMessageV>,
    ahead: Seq<int>,
    behind: Seq<int>,
    after: Seq<WireMessageV>,
    messages: Seq<MessageV>,
    model: ModelV,
    compat: ResolvedCompatV,
    properties: Seq<(Seq<char>, Seq<char>)>,
) -> (places: Seq<int>)
    requires
        ahead.len() <= messages.len(),
        sent_in_order(
            ahead,
            front,
            messages.take(ahead.len() as int),
            model,
            compat,
            properties,
        ),
        sent_in_order(
            behind,
            after,
            messages.skip(ahead.len() as int),
            model,
            compat,
            properties,
        ),
    ensures
        sent_in_order(places, front + after, messages, model, compat, properties),
{
    let n = ahead.len() as int;
    let places = Seq::new(
        messages.len(),
        |i: int|
            if i < n {
                ahead[i]
            } else {
                front.len() + behind[i - n]
            },
    );
    let sent = front + after;
    let first = messages.take(n);
    let last = messages.skip(n);
    assert forall|i: int|
        #![trigger places[i]]
        0 <= i < messages.len() && speaks(messages[i], compat) implies {
        &&& 0 <= places[i] < sent.len()
        &&& message_told(sent[places[i]], messages[i], model, compat, properties)
        &&& i < n ==> places[i] < front.len()
        &&& i >= n ==> places[i] >= front.len()
    } by {
        if i < n {
            assert(first[i] == messages[i]);
            assert(0 <= ahead[i] < front.len());
            assert(sent[places[i]] == front[ahead[i]]);
        } else {
            assert(last[i - n] == messages[i]);
            assert(0 <= behind[i - n] < after.len());
            assert(sent[places[i]] == after[behind[i - n]]);
        }
    }
    assert forall|i: int, j: int|
        #![trigger places[i], places[j]]
        0 <= i < j < messages.len() && speaks(messages[i], compat) && speaks(
            messages[j],
            compat,
        ) implies places[i] < places[j] by {
        if j < n {
            assert(first[i] == messages[i] && first[j] == messages[j]);
            assert(ahead[i] < ahead[j]);
        } else if i >= n {
            assert(last[i - n] == messages[i] && last[j - n] == messages[j]);
            assert(behind[i - n] < behind[j - n]);
        }
    }
    places
}

proof fn lemma_sent_in_order(
    messages: Seq<MessageV>,
    answered: bool,
    model: ModelV,
    compat: ResolvedCompatV,
    tools: Seq<ToolV>,
    properties: Seq<(Seq<char>, Seq<char>)>,
) -> (places: Seq<int>)
    requires
        wire_messages(messages, answered, model, compat, tools, properties) is Ok,
    ensures
        sent_in_order(
            places,
            wire_messages(messages, answered, model, compat, tools, properties)->Ok_0,
            messages,
            model,
            compat,
            properties,
        ),
    decreases messages.len(),
{
    if messages.len() == 0 {
        Seq::empty()
    } else {
        let rest = messages.drop_first();
        match messages[0] {
            MessageV::User(m) => {
                let bridged = if compat.requires_assistant_after_tool_result && answered {
                    seq![bridge()]
                } else {
                    Seq::empty()
                };
                let next = user_content(m.content) is None && answered;
                let behind = lemma_sent_in_order(rest, next, model, compat, tools, properties);
                let after = wire_messages(rest, next, model, compat, tools, properties)->Ok_0;
                assert(messages.skip(1) =~= rest);
                let ahead = seq![bridged.len() as int];
                let front = match user_content(m.content) {
                    Some(content) => bridged.push(WireMessageV::User { content }),
                    None => bridged,
                };
                lemma_places(front, ahead, behind, after, messages, model, compat, properties)
            },
            MessageV::Assistant(turn) => {
                lemma_turn_told(turn, model, compat, properties);
                assert(messages.skip(1) =~= rest);
                match wire_turn(turn, model, compat, properties) {
                    Ok(Some(w)) => {
                        let behind = lemma_sent_in_order(
                            rest,
                            false,
                            model,
                            compat,
                            tools,
                            properties,
                        );
                        let after = wire_messages(
                            rest,
                            false,
                            model,
                            compat,
                            tools,
                            properties,
                        )->Ok_0;
                        let ahead = seq![0int];
                        lemma_places(
                            seq![w],
                            ahead,
                            behind,
                            after,
                            messages,
                            model,
                            compat,
                            properties,
                        )
                    },
                    _ => {
                        let behind = lemma_sent_in_order(
                            rest,
                            answered,
                            model,
                            compat,
                            tools,
                            properties,
                        );
                        let after = wire_messages(
                            rest,
                            answered,
                            model,
                            compat,
                            tools,
                            properties,
                        )->Ok_0;
                        let ahead = seq![0int];
                        let nothing: Seq<WireMessageV> = Seq::empty();
                        assert(nothing + after =~= after);
                        lemma_places(
                            nothing,
                            ahead,
                            behind,
                            after,
                            messages,
                            model,
                            compat,
                            properties,
                        )
                    },
                }
            },
            MessageV::ToolResult(_) => {
                let results = leading_results(messages);
                lemma_leading(messages);
                lemma_leading_are(messages);
                let n = results.len() as int;
                let next = result_images(results, model).len() == 0;
                let left = messages.skip(n);
                let behind = lemma_sent_in_order(left, next, model, compat, tools, properties);
                let after = wire_messages(left, next, model, compat, tools, properties)->Ok_0;
                let told = results.map_values(
                    |r: ToolResultMessageV| result_message(r, compat),
                );
                let front = told + after_results(results, model, compat, tools);
                let ahead = Seq::new(results.len(), |i: int| i);
                let first = messages.take(n);
                assert forall|i: int| #![trigger ahead[i]] 0 <= i < first.len() implies {
                    &&& 0 <= ahead[i] < front.len()
                    &&& message_told(front[ahead[i]], first[i], model, compat, properties)
                } by {
                    assert(first[i] == messages[i]);
                    assert(messages[i] == MessageV::ToolResult(results[i]));
                    law_result_is_told(results[i], compat);
                    assert(front[i] == told[i]);
                }
                lemma_places(front, ahead, behind, after, messages, model, compat, properties)
            },
        }
    }
}

/// Every message that has anything to say is sent, and all are sent in their order: a user's words
/// and images as they are, a turn with its words, its thinking and its calls, and a tool's result
/// with its texts.
pub proof fn law_conversation_is_sent(
    model: ModelV,
    context: ContextV,
    compat: ResolvedCompatV,
    properties: Seq<(Seq<char>, Seq<char>)>,
    now: i64,
)
    requires
        converted(model, context, compat, properties, now) is Ok,
    ensures
        exists|places: Seq<int>|
            #[trigger] sent_in_order(
                places,
                converted(model, context, compat, properties, now)->Ok_0,
                transformed::<CompletionsToolCallIds>(context.messages, model, Some(()), now),
                model,
                compat,
                properties,
            ),
{
    let messages = transformed::<CompletionsToolCallIds>(context.messages, model, Some(()), now);
    let tools = all_tools(context.tools);
    let behind = lemma_sent_in_order(messages, false, model, compat, tools, properties);
    let after = wire_messages(messages, false, model, compat, tools, properties)->Ok_0;
    let front = instructions(context.system_prompt, model, compat);
    let ahead: Seq<int> = Seq::empty();
    assert(messages.skip(0) =~= messages);
    let places = lemma_places(
        front,
        ahead,
        behind,
        after,
        messages,
        model,
        compat,
        properties,
    );
    assert(converted(model, context, compat, properties, now)->Ok_0 == front + after);
    assert(sent_in_order(
        places,
        converted(model, context, compat, properties, now)->Ok_0,
        messages,
        model,
        compat,
        properties,
    ));
}

/// The system prompt comes first: from the developer for a reasoning model whose provider knows that
/// role, else from the system.
pub proof fn law_instructions_come_first(
    model: ModelV,
    context: ContextV,
    compat: ResolvedCompatV,
    properties: Seq<(Seq<char>, Seq<char>)>,
    now: i64,
)
    ensures
        converted(model, context, compat, properties, now) matches Ok(sent) ==> (
        context.system_prompt matches Some(prompt) ==> sent.len() > 0 && sent[0] == if model.reasoning
            && compat.supports_developer_role {
            WireMessageV::Developer { content: WireContentV::Plain(prompt) }
        } else {
            WireMessageV::System { content: Some(WireContentV::Plain(prompt)), tools: None }
        }),
{
}

/// Whether `sent` shows the images of results: behind a word on where they are from.
pub open spec fn shows_images(sent: WireMessageV, images: Seq<ImageContentV>) -> bool {
    sent matches WireMessageV::User { content: WireContentV::Parts(parts) } && {
        &&& parts.len() == images.len() + 1
        &&& parts[0] == WireContentPartV::Text {
            text: "Attached image(s) from tool result:"@,
            cache_control: None,
        }
        &&& forall|i: int|
            1 <= i < parts.len() ==> (#[trigger] parts[i] matches WireContentPartV::ImageUrl {
                image_url,
            } && image_url.url == image_address(images[i - 1]))
    }
}

/// The images among blocks, in order.
pub open spec fn images_in(content: Seq<UserContentBlockV>) -> Seq<ImageContentV>
    decreases content.len(),
{
    if content.len() == 0 {
        Seq::empty()
    } else {
        match content.last() {
            UserContentBlockV::Image(image) => images_in(content.drop_last()).push(image),
            UserContentBlockV::Text(_) => images_in(content.drop_last()),
        }
    }
}

/// The images among the blocks of results, in order.
pub open spec fn images_of(results: Seq<ToolResultMessageV>) -> Seq<ImageContentV>
    decreases results.len(),
{
    if results.len() == 0 {
        Seq::empty()
    } else {
        images_of(results.drop_last()) + images_in(results.last().content)
    }
}

/// Whether parts are the images.
spec fn are_images(parts: Seq<WireContentPartV>, images: Seq<ImageContentV>) -> bool {
    &&& parts.len() == images.len()
    &&& forall|i: int|
        0 <= i < parts.len() ==> (#[trigger] parts[i] matches WireContentPartV::ImageUrl {
            image_url,
        } && image_url.url == image_address(images[i]))
}

proof fn lemma_only_images(content: Seq<UserContentBlockV>)
    ensures
        are_images(only_images(content), images_in(content)),
    decreases content.len(),
{
    if content.len() > 0 {
        lemma_only_images(content.drop_last());
    }
}

proof fn lemma_result_images(results: Seq<ToolResultMessageV>, model: ModelV)
    requires
        model.input.contains(ModelInput::Image),
    ensures
        are_images(result_images(results, model), images_of(results)),
    decreases results.len(),
{
    if results.len() > 0 {
        lemma_result_images(results.drop_last(), model);
        lemma_only_images(results.last().content);
        let before = result_images(results.drop_last(), model);
        let all = result_images(results, model);
        let more = only_images(results.last().content);
        assert forall|i: int| 0 <= i < all.len() implies (#[trigger] all[i] matches WireContentPartV::ImageUrl {
            image_url,
        } && image_url.url == image_address(images_of(results)[i])) by {
            if i < before.len() {
                assert(all[i] == before[i]);
            } else {
                assert(all[i] == more[i - before.len()]);
            }
        }
    }
}

proof fn lemma_no_result_images(results: Seq<ToolResultMessageV>, model: ModelV)
    requires
        !model.input.contains(ModelInput::Image),
    ensures
        result_images(results, model).len() == 0,
    decreases results.len(),
{
    if results.len() > 0 {
        lemma_no_result_images(results.drop_last(), model);
    }
}

/// Behind a run of results stand, for a model that sees images, their images in a message of the
/// user, which a turn of the model parts from them where the provider asks for one. A model that
/// sees none is sent no such message.
pub proof fn law_result_images_are_sent(
    results: Seq<ToolResultMessageV>,
    model: ModelV,
    compat: ResolvedCompatV,
    tools: Seq<ToolV>,
)
    requires
        compat.deferred_tools_mode is None,
    ensures
        ({
            let sent = after_results(results, model, compat, tools);
            let seen = model.input.contains(ModelInput::Image) && images_of(results).len() > 0;
            &&& !seen ==> sent.len() == 0
            &&& seen && !compat.requires_assistant_after_tool_result ==> sent.len() == 1
                && shows_images(sent[0], images_of(results))
            &&& seen && compat.requires_assistant_after_tool_result ==> sent.len() == 2
                && shows_images(sent[1], images_of(results)) && (sent[0] matches WireMessageV::Assistant {
                content,
                tool_calls,
                ..
            } && content == Some(WireContentV::Plain("I have processed the tool results."@))
                && tool_calls is None)
        }),
{
    if model.input.contains(ModelInput::Image) {
        lemma_result_images(results, model);
    } else {
        lemma_no_result_images(results, model);
    }
    lemma_no_result_names(results, compat);
    let images = result_images(results, model);
    let parts = seq![
        crate::completions_messages::text_part("Attached image(s) from tool result:"@),
    ] + images;
    assert forall|i: int| 1 <= i < parts.len() implies parts[i] == #[trigger] images[i - 1] by {}
    if images.len() > 0 && model.input.contains(ModelInput::Image) {
        assert forall|i: int| 1 <= i < parts.len() implies (#[trigger] parts[i] matches WireContentPartV::ImageUrl {
            image_url,
        } && image_url.url == image_address(images_of(results)[i - 1])) by {
            assert(parts[i] == images[i - 1]);
        }
    }
}

proof fn lemma_no_result_names(results: Seq<ToolResultMessageV>, compat: ResolvedCompatV)
    requires
        compat.deferred_tools_mode is None,
    ensures
        crate::completions_messages::result_names(results, compat).len() == 0,
    decreases results.len(),
{
    if results.len() > 0 {
        lemma_no_result_names(results.drop_last(), compat);
    }
}

/// A run of results is sent whole: each result, then what stands behind the run, then the rest of
/// the conversation.
pub proof fn law_results_are_sent_together(
    messages: Seq<MessageV>,
    answered: bool,
    model: ModelV,
    compat: ResolvedCompatV,
    tools: Seq<ToolV>,
    properties: Seq<(Seq<char>, Seq<char>)>,
    results: Seq<ToolResultMessageV>,
    rest: Seq<MessageV>,
)
    requires
        results.len() > 0,
        messages == Seq::new(results.len(), |i: int| MessageV::ToolResult(results[i])) + rest,
        rest.len() == 0 || !(rest[0] is ToolResult),
        wire_messages(messages, answered, model, compat, tools, properties) is Ok,
    ensures
        ({
            let sent = wire_messages(
                messages,
                answered,
                model,
                compat,
                tools,
                properties,
            )->Ok_0;
            let n = results.len() as int;
            let behind = after_results(results, model, compat, tools);
            &&& n + behind.len() <= sent.len()
            &&& forall|i: int|
                0 <= i < n ==> result_told(#[trigger] sent[i], results[i], compat)
            &&& sent.subrange(n, n + behind.len()) == behind
        }),
{
    lemma_run(messages, results, rest);
    let sent = wire_messages(messages, answered, model, compat, tools, properties)->Ok_0;
    let n = results.len() as int;
    let told = results.map_values(|r: ToolResultMessageV| result_message(r, compat));
    assert forall|i: int| 0 <= i < n implies result_told(#[trigger] sent[i], results[i], compat) by {
        law_result_is_told(results[i], compat);
        assert(sent[i] == told[i]);
    }
    let behind = after_results(results, model, compat, tools);
    assert(sent.subrange(n, n + behind.len()) =~= behind);
}

proof fn lemma_run(
    messages: Seq<MessageV>,
    results: Seq<ToolResultMessageV>,
    rest: Seq<MessageV>,
)
    requires
        messages == Seq::new(results.len(), |i: int| MessageV::ToolResult(results[i])) + rest,
        rest.len() == 0 || !(rest[0] is ToolResult),
    ensures
        leading_results(messages) == results,
    decreases results.len(),
{
    if results.len() == 0 {
        assert(messages =~= rest);
        assert(leading_results(messages) =~= results);
    } else {
        let fewer = results.drop_first();
        assert(messages[0] == MessageV::ToolResult(results[0]));
        assert(messages.drop_first() =~= Seq::new(
            fewer.len(),
            |i: int| MessageV::ToolResult(fewer[i]),
        ) + rest);
        lemma_run(messages.drop_first(), fewer, rest);
        assert(leading_results(messages) =~= results);
    }
}

/// Whether `sent` is the turn that parts results from what a user says.
pub open spec fn is_bridge(sent: WireMessageV) -> bool {
    sent matches WireMessageV::Assistant {
        content,
        tool_calls,
        reasoning,
        reasoning_content,
        reasoning_text,
        reasoning_details,
    } && content == Some(WireContentV::Plain("I have processed the tool results."@))
        && tool_calls is None && reasoning is None && reasoning_content is None
        && reasoning_text is None && reasoning_details is None
}

/// What a user says behind results is parted from them by a turn of the model where the provider asks
/// for one, and follows them at once where it does not.
pub proof fn law_results_are_parted_from_the_user(
    messages: Seq<MessageV>,
    answered: bool,
    model: ModelV,
    compat: ResolvedCompatV,
    tools: Seq<ToolV>,
    properties: Seq<(Seq<char>, Seq<char>)>,
    results: Seq<ToolResultMessageV>,
    said: UserMessageV,
    rest: Seq<MessageV>,
)
    requires
        results.len() > 0,
        messages == Seq::new(results.len(), |i: int| MessageV::ToolResult(results[i])) + seq![
            MessageV::User(said),
        ] + rest,
        speaks(MessageV::User(said), compat),
        !model.input.contains(ModelInput::Image),
        compat.deferred_tools_mode is None,
        wire_messages(messages, answered, model, compat, tools, properties) is Ok,
    ensures
        ({
            let sent = wire_messages(
                messages,
                answered,
                model,
                compat,
                tools,
                properties,
            )->Ok_0;
            let n = results.len() as int;
            &&& compat.requires_assistant_after_tool_result ==> sent.len() >= n + 2 && is_bridge(
                sent[n],
            ) && user_told(sent[n + 1], said.content)
            &&& !compat.requires_assistant_after_tool_result ==> sent.len() >= n + 1 && user_told(
                sent[n],
                said.content,
            )
        }),
{
    let n = results.len() as int;
    let later = seq![MessageV::User(said)] + rest;
    let front = Seq::new(results.len(), |i: int| MessageV::ToolResult(results[i]));
    assert(messages =~= front + later);
    assert(later[0] == MessageV::User(said));
    lemma_run(messages, results, later);
    lemma_no_result_images(results, model);
    lemma_no_result_names(results, compat);
    assert(messages[0] == MessageV::ToolResult(results[0]));
    assert(messages.skip(n) =~= later);
    let behind = after_results(results, model, compat, tools);
    assert(behind.len() == 0);
    let told = results.map_values(|r: ToolResultMessageV| result_message(r, compat));
    let sent = wire_messages(messages, answered, model, compat, tools, properties)->Ok_0;
    let after = wire_messages(later, true, model, compat, tools, properties)->Ok_0;
    assert(sent =~= told + after);
    let next = wire_messages(later.drop_first(), false, model, compat, tools, properties)->Ok_0;
    let content = user_content(said.content)->Some_0;
    if compat.requires_assistant_after_tool_result {
        assert(after == seq![bridge()].push(WireMessageV::User { content }) + next);
        assert(sent[n] == after[0]);
        assert(sent[n + 1] == after[1]);
    } else {
        let none: Seq<WireMessageV> = Seq::empty();
        assert(after == none.push(WireMessageV::User { content }) + next);
        assert(sent[n] == after[0]);
    }
}

/// A tool that a result brings is offered right behind the run of results, to a provider that takes
/// tools as they come.
pub proof fn law_brought_tool_is_offered(
    result: ToolResultMessageV,
    model: ModelV,
    compat: ResolvedCompatV,
    tools: Seq<ToolV>,
    tool: ToolV,
)
    requires
        compat.deferred_tools_mode == Some(DeferredToolsMode::Kimi),
        result.added_tool_names == Some(seq![tool.name]),
        tools.len() > 0,
        tools.last() == tool,
        !model.input.contains(ModelInput::Image),
    ensures
        ({
            let sent = after_results(seq![result], model, compat, tools);
            &&& sent.len() == 1
            &&& sent[0] matches WireMessageV::System { content, tools: offered } && content is None
                && (offered matches Some(offered) && offered == seq![wire_tool(tool, compat)])
        }),
{
    let results = seq![result];
    let names = seq![tool.name];
    lemma_no_result_images(results, model);
    assert(results.drop_last() =~= Seq::<ToolResultMessageV>::empty());
    assert(results.last() == result);
    assert(names.drop_last() =~= Seq::<Seq<char>>::empty());
    assert(names.last() == tool.name);
    let none: Seq<Seq<char>> = Seq::empty();
    assert(result_names(results.drop_last(), compat) =~= none);
    assert(with_names(none, names.drop_last()) =~= none);
    assert(with_names(none, names) =~= names);
    assert(result_names(results, compat) =~= names);
    assert(tools_named(tools, names.drop_last()) =~= Seq::<ToolV>::empty());
    assert(tools_named(tools, names) =~= seq![tool]);
    assert(wire_tools(seq![tool], compat) =~= seq![wire_tool(tool, compat)]);
}

/// The reasoning details that go back with a turn: its own, where this very model gave them; else
/// those that sign its calls, where it has any.
pub proof fn law_details_go_back(
    turn: AssistantMessageV,
    model: ModelV,
    call: ToolCallV,
    signature: Seq<char>,
    detail: JsonV,
)
    requires
        call.thought_signature == Some(signature),
        json_parse(signature) == Ok::<JsonV, Seq<char>>(detail),
        detail is Object,
        member(detail, "type"@) == Some(JsonV::Str("reasoning.encrypted"@)),
        member(detail, "data"@) matches Some(JsonV::Str(_)),
        member(detail, "id"@) matches Some(JsonV::Str(_)),
        member(detail, "format"@) is None,
        member(detail, "index"@) is None,
        turn.content == seq![AssistantContentV::ToolCall(call)],
    ensures
        turn.reasoning_details is None || turn.provider != model.provider || turn.api != model.api
            || turn.model != model.id ==> replayed_details(turn, model, true) == Some(
            seq![detail],
        ),
        turn.reasoning_details is None ==> replayed_details(turn, model, false) is None,
{
    let content = turn.content;
    assert(content.drop_last() =~= Seq::<AssistantContentV>::empty());
    assert(content.last() == AssistantContentV::ToolCall(call));
    assert(call_details(content.drop_last()) =~= Seq::<JsonV>::empty());
    assert(call_details(content) =~= seq![detail]);
}

} // verus!
