//! Cache breakpoints in the messages and tools of a request.
use crate::completions_types::{
    CacheControlType, CompatCacheControl, CompatCacheControlV, ResolvedCompat, ResolvedCompatV,
    WireContent, WireContentPart, WireContentPartV, WireContentV, WireMessage, WireMessageV,
    WireTool, WireToolV,
};
use crate::types::{CacheControlFormat, CacheRetention};
use vstd::prelude::*;

verus! {

/// The breakpoint that a provider takes.
pub open spec fn breakpoint(compat: ResolvedCompatV, retention: CacheRetention) -> Option<
    CompatCacheControlV,
> {
    if compat.cache_control_format == Some(CacheControlFormat::Anthropic) && retention
        != CacheRetention::Never {
        Some(
            CompatCacheControlV {
                kind: CacheControlType::Ephemeral,
                ttl: if retention == CacheRetention::Long && compat.supports_long_cache_retention {
                    Some("1h"@)
                } else {
                    None
                },
            },
        )
    } else {
        None
    }
}

/// The breakpoint that a provider takes.
pub fn get_compat_cache_control(compat: &ResolvedCompat, retention: CacheRetention) -> (r: Option<
    CompatCacheControl,
>)
    ensures
        r.deep_view() == breakpoint(compat@, retention),
{
    if compat.cache_control_format.is_none() || retention == CacheRetention::Never {
        return None;
    }
    Some(
        CompatCacheControl {
            kind: CacheControlType::Ephemeral,
            ttl: if retention == CacheRetention::Long && compat.supports_long_cache_retention {
                Some("1h".to_owned())
            } else {
                None
            },
        },
    )
}

/// Parts with a breakpoint at the last text; none where there is no text.
pub open spec fn marked_parts(parts: Seq<WireContentPartV>, at: CompatCacheControlV) -> Option<
    Seq<WireContentPartV>,
>
    decreases parts.len(),
{
    if parts.len() == 0 {
        None
    } else {
        match parts.last() {
            WireContentPartV::Text { text, .. } => Some(
                parts.drop_last().push(WireContentPartV::Text { text, cache_control: Some(at) }),
            ),
            WireContentPartV::ImageUrl { .. } => match marked_parts(parts.drop_last(), at) {
                Some(rest) => Some(rest.push(parts.last())),
                None => None,
            },
        }
    }
}

/// A content with a breakpoint; none where there is no text to mark.
pub open spec fn marked(content: WireContentV, at: CompatCacheControlV) -> Option<WireContentV> {
    match content {
        WireContentV::Plain(text) => if text.len() == 0 {
            None
        } else {
            Some(
                WireContentV::Parts(
                    seq![WireContentPartV::Text { text, cache_control: Some(at) }],
                ),
            )
        },
        WireContentV::Parts(parts) => match marked_parts(parts, at) {
            Some(parts) => Some(WireContentV::Parts(parts)),
            None => None,
        },
    }
}

/// An instruction with a breakpoint, where it has a text to mark; none for another message.
pub open spec fn marked_instruction(message: WireMessageV, at: CompatCacheControlV) -> Option<
    WireMessageV,
> {
    match message {
        WireMessageV::System { content, tools } => match content {
            Some(content) => match marked(content, at) {
                Some(content) => Some(WireMessageV::System { content: Some(content), tools }),
                None => Some(message),
            },
            None => Some(message),
        },
        WireMessageV::Developer { content } => match marked(content, at) {
            Some(content) => Some(WireMessageV::Developer { content }),
            None => Some(message),
        },
        _ => None,
    }
}

/// Messages of which the first instruction has a breakpoint.
pub open spec fn first_marked(messages: Seq<WireMessageV>, at: CompatCacheControlV) -> Seq<
    WireMessageV,
>
    decreases messages.len(),
{
    if messages.len() == 0 {
        messages
    } else {
        match marked_instruction(messages[0], at) {
            Some(first) => seq![first] + messages.drop_first(),
            None => seq![messages[0]] + first_marked(messages.drop_first(), at),
        }
    }
}

/// A message of the conversation with a breakpoint; none where it has no text to mark.
pub open spec fn marked_message(message: WireMessageV, at: CompatCacheControlV) -> Option<
    WireMessageV,
> {
    match message {
        WireMessageV::User { content } => match marked(content, at) {
            Some(content) => Some(WireMessageV::User { content }),
            None => None,
        },
        WireMessageV::Tool { content, tool_call_id, name } => match marked(content, at) {
            Some(content) => Some(WireMessageV::Tool { content, tool_call_id, name }),
            None => None,
        },
        WireMessageV::Assistant {
            content,
            tool_calls,
            reasoning,
            reasoning_content,
            reasoning_text,
            reasoning_details,
        } => match content {
            Some(content) => match marked(content, at) {
                Some(content) => Some(
                    WireMessageV::Assistant {
                        content: Some(content),
                        tool_calls,
                        reasoning,
                        reasoning_content,
                        reasoning_text,
                        reasoning_details,
                    },
                ),
                None => None,
            },
            None => None,
        },
        _ => None,
    }
}

/// Messages of which the last that has a text to mark has a breakpoint.
pub open spec fn last_marked(messages: Seq<WireMessageV>, at: CompatCacheControlV) -> Seq<
    WireMessageV,
>
    decreases messages.len(),
{
    if messages.len() == 0 {
        messages
    } else {
        match marked_message(messages.last(), at) {
            Some(last) => messages.drop_last().push(last),
            None => last_marked(messages.drop_last(), at).push(messages.last()),
        }
    }
}

/// Tools of which the last has a breakpoint.
pub open spec fn marked_tools(tools: Option<Seq<WireToolV>>, at: CompatCacheControlV) -> Option<
    Seq<WireToolV>,
> {
    match tools {
        Some(tools) => if tools.len() == 0 {
            Some(tools)
        } else {
            Some(
                tools.drop_last().push(WireToolV { cache_control: Some(at), ..tools.last() }),
            )
        },
        None => None,
    }
}

fn mark_parts(parts: &Vec<WireContentPart>, at: &CompatCacheControl) -> (r: Option<
    Vec<WireContentPart>,
>)
    ensures
        r.deep_view() == marked_parts(parts.deep_view(), at@),
{
    let ghost all = parts.deep_view();
    let mut n: usize = parts.len();
    proof {
        assert(all.take(n as int) =~= all);
        if marked_parts(all, at@) is Some {
            let r = marked_parts(all, at@)->Some_0;
            assert(r + all.skip(n as int) =~= r);
        }
    }
    while n > 0
        invariant
            all == parts.deep_view(),
            n <= parts@.len(),
            marked_parts(all, at@) == match marked_parts(all.take(n as int), at@) {
                Some(front) => Some(front + all.skip(n as int)),
                None => None,
            },
        decreases n,
    {
        let ghost front = all.take(n as int);
        assert(front.drop_last() =~= all.take(n - 1));
        assert(front.last() == parts@[n - 1]@);
        if let WireContentPart::Text { text, .. } = &parts[n - 1] {
            let marked = WireContentPart::Text {
                text: text.clone(),
                cache_control: Some(at.clone()),
            };
            let ghost new = marked@;
            let mut r = parts.clone();
            assert(r.deep_view() =~= all);
            r.set(n - 1, marked);
            assert(r.deep_view() =~= all.take(n - 1).push(new) + all.skip(n as int));
            return Some(r);
        }
        proof {
            if marked_parts(all.take(n - 1), at@) is Some {
                let r = marked_parts(all.take(n - 1), at@)->Some_0;
                assert(r.push(front.last()) + all.skip(n as int) =~= r + all.skip(n - 1));
            }
        }
        n -= 1;
    }
    None
}

fn add_cache_control_to_content(content: &WireContent, at: &CompatCacheControl) -> (r: Option<
    WireContent,
>)
    ensures
        r.deep_view() == marked(content@, at@),
{
    match content {
        WireContent::Plain(text) => {
            if text.as_str().is_empty() {
                return None;
            }
            let mut parts: Vec<WireContentPart> = Vec::new();
            parts.push(
                WireContentPart::Text { text: text.clone(), cache_control: Some(at.clone()) },
            );
            assert(parts.deep_view() =~= seq![
                WireContentPartV::Text { text: text@, cache_control: Some(at@) },
            ]);
            Some(WireContent::Parts(parts))
        },
        WireContent::Parts(parts) => match mark_parts(parts, at) {
            Some(parts) => Some(WireContent::Parts(parts)),
            None => None,
        },
    }
}

fn mark_instruction(message: &WireMessage, at: &CompatCacheControl) -> (r: Option<WireMessage>)
    ensures
        r.deep_view() == marked_instruction(message@, at@),
{
    match message {
        WireMessage::System { content, tools } => {
            if let Some(content) = content {
                if let Some(content) = add_cache_control_to_content(content, at) {
                    let mut r = message.clone();
                    if let WireMessage::System { content: held, .. } = &mut r {
                        *held = Some(content);
                    }
                    return Some(r);
                }
            }
            Some(message.clone())
        },
        WireMessage::Developer { content } => match add_cache_control_to_content(content, at) {
            Some(content) => Some(WireMessage::Developer { content }),
            None => Some(message.clone()),
        },
        _ => None,
    }
}

fn mark_message(message: &WireMessage, at: &CompatCacheControl) -> (r: Option<WireMessage>)
    ensures
        r.deep_view() == marked_message(message@, at@),
{
    match message {
        WireMessage::User { content } => match add_cache_control_to_content(content, at) {
            Some(content) => Some(WireMessage::User { content }),
            None => None,
        },
        WireMessage::Tool { content, .. } => match add_cache_control_to_content(content, at) {
            Some(content) => {
                let mut r = message.clone();
                if let WireMessage::Tool { content: held, .. } = &mut r {
                    *held = content;
                }
                Some(r)
            },
            None => None,
        },
        WireMessage::Assistant { content, .. } => match content {
            Some(content) => match add_cache_control_to_content(content, at) {
                Some(content) => {
                    let mut r = message.clone();
                    if let WireMessage::Assistant { content: held, .. } = &mut r {
                        *held = Some(content);
                    }
                    Some(r)
                },
                None => None,
            },
            None => None,
        },
        _ => None,
    }
}

fn mark_first(messages: &mut Vec<WireMessage>, at: &CompatCacheControl)
    ensures
        final(messages).deep_view() == first_marked(old(messages).deep_view(), at@),
{
    let ghost all = messages.deep_view();
    let mut i: usize = 0;
    proof {
        assert(all.skip(0) =~= all);
        assert(all.take(0) + first_marked(all, at@) =~= first_marked(all, at@));
    }
    while i < messages.len()
        invariant
            all == messages.deep_view(),
            all == old(messages).deep_view(),
            i <= messages@.len(),
            first_marked(all, at@) == all.take(i as int) + first_marked(all.skip(i as int), at@),
        decreases messages@.len() - i,
    {
        let ghost rest = all.skip(i as int);
        assert(rest[0] == messages@[i as int]@);
        assert(rest.drop_first() =~= all.skip(i + 1));
        if let Some(marked) = mark_instruction(&messages[i], at) {
            let ghost new = marked@;
            messages.set(i, marked);
            assert(messages.deep_view() =~= all.take(i as int) + (seq![new] + all.skip(i + 1)));
            return;
        }
        proof {
            let tail = first_marked(all.skip(i + 1), at@);
            assert(all.take(i as int) + (seq![rest[0]] + tail) =~= all.take(i + 1) + tail);
        }
        i += 1;
    }
    assert(all.skip(i as int) =~= Seq::empty());
    assert(all.take(i as int) + all.skip(i as int) =~= all);
}

fn mark_last(messages: &mut Vec<WireMessage>, at: &CompatCacheControl)
    ensures
        final(messages).deep_view() == last_marked(old(messages).deep_view(), at@),
{
    let ghost all = messages.deep_view();
    let mut n: usize = messages.len();
    proof {
        assert(all.take(n as int) =~= all);
        assert(last_marked(all, at@) + all.skip(n as int) =~= last_marked(all, at@));
    }
    while n > 0
        invariant
            all == messages.deep_view(),
            all == old(messages).deep_view(),
            n <= messages@.len(),
            last_marked(all, at@) == last_marked(all.take(n as int), at@) + all.skip(n as int),
        decreases n,
    {
        let ghost front = all.take(n as int);
        assert(front.drop_last() =~= all.take(n - 1));
        assert(front.last() == messages@[n - 1]@);
        if let Some(marked) = mark_message(&messages[n - 1], at) {
            let ghost new = marked@;
            messages.set(n - 1, marked);
            assert(messages.deep_view() =~= all.take(n - 1).push(new) + all.skip(n as int));
            return;
        }
        proof {
            let head = last_marked(all.take(n - 1), at@);
            assert(head.push(front.last()) + all.skip(n as int) =~= head + all.skip(n - 1));
        }
        n -= 1;
    }
    assert(all.take(0) + all.skip(0) =~= all);
}

/// Marks the first instruction, the last tool and the last message that has a text.
pub fn apply_anthropic_cache_control(
    messages: &mut Vec<WireMessage>,
    tools: &mut Option<Vec<WireTool>>,
    at: &CompatCacheControl,
)
    ensures
        final(messages).deep_view() == last_marked(first_marked(old(messages).deep_view(), at@), at@),
        final(tools).deep_view() == marked_tools(old(tools).deep_view(), at@),
{
    mark_first(messages, at);
    if let Some(list) = tools {
        let n = list.len();
        if n > 0 {
            let ghost all = list.deep_view();
            let mut last = list[n - 1].clone();
            last.cache_control = Some(at.clone());
            let ghost new = last@;
            list.set(n - 1, last);
            assert(list.deep_view() =~= all.drop_last().push(new));
        }
    }
    mark_last(messages, at);
}

/// Breakpoints add no message and take none away.
pub proof fn law_breakpoints_keep_messages(messages: Seq<WireMessageV>, at: CompatCacheControlV)
    ensures
        first_marked(messages, at).len() == messages.len(),
        last_marked(messages, at).len() == messages.len(),
    decreases messages.len(),
{
    if messages.len() > 0 {
        law_breakpoints_keep_messages(messages.drop_first(), at);
        law_breakpoints_keep_messages(messages.drop_last(), at);
    }
}

} // verus!
