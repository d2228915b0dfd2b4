//! Which parts of a request a provider is told to keep in its cache.
use crate::cache_control::{
    breakpoint, first_marked, last_marked, marked, marked_parts, marked_tools,
};
use crate::completions_messages::{converted, wire_tools};
use crate::completions_request::{active_tools, request};
use crate::completions_types::{
    CacheControlType, CompatCacheControlV, OpenAICompletionsOptionsV, ResolvedCompatV,
    WireContentPartV, WireContentV, WireMessageV, WireToolV,
};
use crate::types::{CacheControlFormat, CacheRetention, ContextV, ModelV};
use vstd::prelude::*;

verus! {

/// A provider that caches as Anthropic does is told what to keep, unless nothing is to be kept; for
/// an hour where it is to be kept long and can be.
pub proof fn law_marks(compat: ResolvedCompatV, retention: CacheRetention)
    ensures
        compat.cache_control_format is None || retention == CacheRetention::Never ==> breakpoint(
            compat,
            retention,
        ) is None,
        compat.cache_control_format == Some(CacheControlFormat::Anthropic) && retention
            != CacheRetention::Never ==> (breakpoint(compat, retention) matches Some(at) && at.kind
            == CacheControlType::Ephemeral && at.ttl == if retention == CacheRetention::Long
            && compat.supports_long_cache_retention {
            Some("1h"@)
        } else {
            None
        }),
{
}

/// Whether there is text to mark.
pub open spec fn has_text(content: WireContentV) -> bool {
    match content {
        WireContentV::Plain(text) => text.len() > 0,
        WireContentV::Parts(parts) => exists|i: int|
            0 <= i < parts.len() && #[trigger] parts[i] is Text,
    }
}

/// Whether `after` is `before` with its last text marked.
pub open spec fn is_marked(
    after: WireContentV,
    before: WireContentV,
    at: CompatCacheControlV,
) -> bool {
    match before {
        WireContentV::Plain(text) => after == WireContentV::Parts(
            seq![WireContentPartV::Text { text, cache_control: Some(at) }],
        ),
        WireContentV::Parts(parts) => after matches WireContentV::Parts(now) && exists|i: int|
            {
                &&& 0 <= i < parts.len()
                &&& #[trigger] parts[i] matches WireContentPartV::Text { text, .. } && now
                    == parts.update(i, WireContentPartV::Text { text, cache_control: Some(at) })
                &&& forall|k: int| i < k < parts.len() ==> !(#[trigger] parts[k] is Text)
            },
    }
}

proof fn lemma_marked_parts(parts: Seq<WireContentPartV>, at: CompatCacheControlV)
    ensures
        match marked_parts(parts, at) {
            Some(now) => has_text(WireContentV::Parts(parts)) && is_marked(
                WireContentV::Parts(now),
                WireContentV::Parts(parts),
                at,
            ),
            None => !has_text(WireContentV::Parts(parts)),
        },
    decreases parts.len(),
{
    if parts.len() > 0 {
        let front = parts.drop_last();
        let last = parts.len() - 1;
        match parts.last() {
            WireContentPartV::Text { text, .. } => {
                let mark = WireContentPartV::Text { text, cache_control: Some(at) };
                assert(parts[last] is Text);
                assert(front.push(mark) =~= parts.update(last, mark));
            },
            WireContentPartV::ImageUrl { .. } => {
                lemma_marked_parts(front, at);
                match marked_parts(front, at) {
                    Some(now) => {
                        let i = choose|i: int|
                            {
                                &&& 0 <= i < front.len()
                                &&& #[trigger] front[i] matches WireContentPartV::Text { text, .. }
                                    && now == front.update(
                                    i,
                                    WireContentPartV::Text { text, cache_control: Some(at) },
                                )
                                &&& forall|k: int|
                                    i < k < front.len() ==> !(#[trigger] front[k] is Text)
                            };
                        assert(parts[i] is Text);
                        assert(now.push(parts.last()) =~= parts.update(i, now[i]));
                        assert forall|k: int| i < k < parts.len() implies !(
                        #[trigger] parts[k] is Text) by {
                            if k < front.len() {
                                assert(front[k] == parts[k]);
                            }
                        }
                    },
                    None => {
                        assert forall|k: int| 0 <= k < parts.len() implies !(
                        #[trigger] parts[k] is Text) by {
                            if k < front.len() {
                                assert(front[k] == parts[k]);
                            }
                        }
                    },
                }
            },
        }
    }
}

/// Where there is text, the last of it is marked.
pub proof fn law_last_text_is_marked(content: WireContentV, at: CompatCacheControlV)
    ensures
        match marked(content, at) {
            Some(after) => has_text(content) && is_marked(after, content, at),
            None => !has_text(content),
        },
{
    if let WireContentV::Parts(parts) = content {
        lemma_marked_parts(parts, at);
    }
}

/// The content of a message of the conversation.
pub open spec fn spoken_content(message: WireMessageV) -> Option<WireContentV> {
    match message {
        WireMessageV::User { content } => Some(content),
        WireMessageV::Tool { content, .. } => Some(content),
        WireMessageV::Assistant { content, .. } => content,
        _ => None,
    }
}

/// The content of an instruction.
pub open spec fn instructing_content(message: WireMessageV) -> Option<WireContentV> {
    match message {
        WireMessageV::System { content, .. } => content,
        WireMessageV::Developer { content } => Some(content),
        _ => None,
    }
}

/// Whether a message can be marked as the last of the conversation.
pub open spec fn can_be_marked(message: WireMessageV) -> bool {
    spoken_content(message) matches Some(content) && has_text(content)
}

/// The last message of the conversation that has text is marked, and no other.
pub proof fn law_last_message_is_marked(
    messages: Seq<WireMessageV>,
    at: CompatCacheControlV,
    i: int,
)
    requires
        0 <= i < messages.len(),
        can_be_marked(messages[i]),
        forall|k: int| i < k < messages.len() ==> !can_be_marked(#[trigger] messages[k]),
    ensures
        ({
            let after = last_marked(messages, at);
            &&& after.len() == messages.len()
            &&& forall|k: int|
                0 <= k < messages.len() && k != i ==> #[trigger] after[k] == messages[k]
            &&& spoken_content(after[i]) matches Some(now) && is_marked(
                now,
                spoken_content(messages[i])->Some_0,
                at,
            )
        }),
    decreases messages.len(),
{
    let last = messages.len() - 1;
    if let Some(content) = spoken_content(messages.last()) {
        law_last_text_is_marked(content, at);
    }
    if i < last {
        let front = messages.drop_last();
        assert(!can_be_marked(messages[last]));
        assert forall|k: int| i < k < front.len() implies !can_be_marked(#[trigger] front[k]) by {
            assert(front[k] == messages[k]);
        }
        law_last_message_is_marked(front, at, i);
        assert(front[i] == messages[i]);
        let before = last_marked(front, at);
        let after = last_marked(messages, at);
        assert(after == before.push(messages.last()));
        assert forall|k: int| 0 <= k < messages.len() && k != i implies #[trigger] after[k]
            == messages[k] by {
            if k < front.len() {
                assert(after[k] == before[k]);
                assert(front[k] == messages[k]);
            }
        }
    }
}

/// Where no message of the conversation has text, none is marked.
pub proof fn law_nothing_to_mark(messages: Seq<WireMessageV>, at: CompatCacheControlV)
    requires
        forall|k: int| 0 <= k < messages.len() ==> !can_be_marked(#[trigger] messages[k]),
    ensures
        last_marked(messages, at) == messages,
    decreases messages.len(),
{
    if messages.len() > 0 {
        let front = messages.drop_last();
        assert(!can_be_marked(messages[messages.len() - 1]));
        if let Some(content) = spoken_content(messages.last()) {
            law_last_text_is_marked(content, at);
        }
        assert forall|k: int| 0 <= k < front.len() implies !can_be_marked(#[trigger] front[k]) by {
            assert(front[k] == messages[k]);
        }
        law_nothing_to_mark(front, at);
        assert(front.push(messages.last()) =~= messages);
    }
}

/// The first instruction is marked where it has text, and nothing else is.
pub proof fn law_first_instruction_is_marked(
    messages: Seq<WireMessageV>,
    at: CompatCacheControlV,
    i: int,
)
    requires
        0 <= i < messages.len(),
        messages[i] is System || messages[i] is Developer,
        forall|k: int|
            0 <= k < i ==> !(#[trigger] messages[k] is System) && !(messages[k] is Developer),
    ensures
        ({
            let after = first_marked(messages, at);
            &&& after.len() == messages.len()
            &&& forall|k: int|
                0 <= k < messages.len() && k != i ==> #[trigger] after[k] == messages[k]
            &&& match instructing_content(messages[i]) {
                Some(content) => if has_text(content) {
                    instructing_content(after[i]) matches Some(now) && is_marked(now, content, at)
                } else {
                    after[i] == messages[i]
                },
                None => after[i] == messages[i],
            }
        }),
    decreases messages.len(),
{
    if let Some(content) = instructing_content(messages[0]) {
        law_last_text_is_marked(content, at);
    }
    if i > 0 {
        let rest = messages.drop_first();
        assert(!(messages[0] is System) && !(messages[0] is Developer));
        assert forall|k: int| 0 <= k < i - 1 implies !(#[trigger] rest[k] is System) && !(
        rest[k] is Developer) by {
            assert(rest[k] == messages[k + 1]);
        }
        law_first_instruction_is_marked(rest, at, i - 1);
        let after = first_marked(messages, at);
        let behind = first_marked(rest, at);
        assert(after == seq![messages[0]] + behind);
        assert forall|k: int| 0 <= k < messages.len() && k != i implies #[trigger] after[k]
            == messages[k] by {
            if k > 0 {
                assert(after[k] == behind[k - 1]);
                assert(rest[k - 1] == messages[k]);
            }
        }
        assert(after[i] == behind[i - 1]);
    }
}

/// The last tool is marked, and no other.
pub proof fn law_last_tool_is_marked(tools: Seq<WireToolV>, at: CompatCacheControlV)
    ensures
        marked_tools(None, at) is None,
        tools.len() == 0 ==> marked_tools(Some(tools), at) == Some(tools),
        tools.len() > 0 ==> (marked_tools(Some(tools), at) matches Some(after) && after
            == tools.update(
            tools.len() - 1,
            WireToolV { cache_control: Some(at), ..tools.last() },
        )),
{
    if tools.len() > 0 {
        let mark = WireToolV { cache_control: Some(at), ..tools.last() };
        assert(tools.drop_last().push(mark) =~= tools.update(tools.len() - 1, mark));
    }
}

/// In a request, the first instruction, the last tool and the last message are marked.
pub proof fn law_request_is_marked(
    model: ModelV,
    context: ContextV,
    options: OpenAICompletionsOptionsV,
    compat: ResolvedCompatV,
    retention: CacheRetention,
    properties: Seq<(Seq<char>, Seq<char>)>,
    now: i64,
)
    requires
        compat.cache_control_format == Some(CacheControlFormat::Anthropic),
        retention != CacheRetention::Never,
    ensures
        request(model, context, options, compat, retention, properties, now) matches Ok(sent)
            ==> {
            let at = breakpoint(compat, retention)->Some_0;
            &&& converted(model, context, compat, properties, now) matches Ok(messages)
                && sent.messages == last_marked(first_marked(messages, at), at)
            &&& active_tools(context, compat).len() > 0 ==> sent.tools == marked_tools(
                Some(wire_tools(active_tools(context, compat), compat)),
                at,
            )
        },
{
}

} // verus!
