//! Conversations as another model can take them up.
use crate::assoc;
use crate::assoc::{lookup, put};
use crate::text::{blank, is_blank, same};
use crate::tool_call_ids::{
    anthropic_id, completions_id, contains_name, mistral_choice, mistral_noted,
    normalize_anthropic_tool_call_id, normalize_open_ai_completions_tool_call_id,
    normalize_responses_tool_call_id, responses_id, MistralIdsV, MistralToolCallIdNormalizer,
};
use crate::types::{
    AssistantContent, AssistantContentV, AssistantMessage, AssistantMessageV, Message, MessageV,
    Model, ModelInput, ModelV, StopReason, TextContent, TextContentV, ThinkingContentV, ToolCall,
    ToolCallV, ToolResultMessage, ToolResultMessageV, UserContent, UserContentBlock,
    UserContentBlockV, UserContentV, UserMessage, UserMessageV,
};
use vstd::prelude::*;

verus! {

/// What stands in a user message where an image was left out.
pub const NON_VISION_USER_IMAGE_PLACEHOLDER: &'static str =
    "(image omitted: model does not support images)";

/// What stands in a tool result where an image was left out.
pub const NON_VISION_TOOL_IMAGE_PLACEHOLDER: &'static str =
    "(tool image omitted: model does not support images)";

/// What a tool call without a result is answered.
pub const NO_RESULT: &'static str = "No result provided";

/// A way to turn the tool-call identifiers of one model into those of another. It may remember what
/// it has given.
pub trait ToolCallIdNormalizer {
    /// What a normalizer remembers.
    type State;

    /// What the normalizer remembers.
    spec fn state(&self) -> Self::State;

    /// The identifier that `id`, of a message of `source`, becomes for `model`.
    spec fn normalized(
        state: Self::State,
        id: Seq<char>,
        model: ModelV,
        source: AssistantMessageV,
    ) -> Seq<char>;

    /// What is remembered once `id`, of a message of `source`, has been turned into one for `model`.
    spec fn remembering(
        state: Self::State,
        id: Seq<char>,
        model: ModelV,
        source: AssistantMessageV,
    ) -> Self::State;

    /// Turns `id`, of a message of `source`, into one for `model`.
    fn normalize(&mut self, id: &str, model: &Model, source: &AssistantMessage) -> (r: String)
        ensures
            r@ == Self::normalized(old(self).state(), id@, model@, source@),
            final(self).state() == Self::remembering(old(self).state(), id@, model@, source@),
    ;
}

/// What a normalizer remembers, where there is one.
pub open spec fn state_of<N: ToolCallIdNormalizer>(normalizer: Option<N>) -> Option<N::State> {
    match normalizer {
        Some(normalizer) => Some(normalizer.state()),
        None => None,
    }
}

/// Identifiers that Anthropic accepts.
pub struct AnthropicToolCallIds;

impl ToolCallIdNormalizer for AnthropicToolCallIds {
    type State = ();

    open spec fn state(&self) -> () {
        ()
    }

    open spec fn normalized(
        state: (),
        id: Seq<char>,
        model: ModelV,
        source: AssistantMessageV,
    ) -> Seq<char> {
        anthropic_id(id)
    }

    open spec fn remembering(
        state: (),
        id: Seq<char>,
        model: ModelV,
        source: AssistantMessageV,
    ) -> () {
        state
    }

    fn normalize(&mut self, id: &str, model: &Model, source: &AssistantMessage) -> (r: String) {
        normalize_anthropic_tool_call_id(id)
    }
}

/// Identifiers that chat-completions providers accept.
pub struct CompletionsToolCallIds;

impl ToolCallIdNormalizer for CompletionsToolCallIds {
    type State = ();

    open spec fn state(&self) -> () {
        ()
    }

    open spec fn normalized(
        state: (),
        id: Seq<char>,
        model: ModelV,
        source: AssistantMessageV,
    ) -> Seq<char> {
        completions_id(id, model.provider)
    }

    open spec fn remembering(
        state: (),
        id: Seq<char>,
        model: ModelV,
        source: AssistantMessageV,
    ) -> () {
        state
    }

    fn normalize(&mut self, id: &str, model: &Model, source: &AssistantMessage) -> (r: String) {
        normalize_open_ai_completions_tool_call_id(id, model)
    }
}

/// Identifiers that Responses providers accept.
pub struct ResponsesToolCallIds {
    /// The providers that take an identifier of a call and an item.
    pub allowed_tool_call_providers: Vec<String>,
}

impl Clone for ResponsesToolCallIds {
    fn clone(&self) -> (r: Self)
        ensures
            r.state() == self.state(),
    {
        let r = ResponsesToolCallIds {
            allowed_tool_call_providers: self.allowed_tool_call_providers.clone(),
        };
        assert(r.state() =~= self.state());
        r
    }
}

impl ToolCallIdNormalizer for ResponsesToolCallIds {
    type State = Seq<Seq<char>>;

    open spec fn state(&self) -> Seq<Seq<char>> {
        self.allowed_tool_call_providers.deep_view()
    }

    open spec fn normalized(
        state: Seq<Seq<char>>,
        id: Seq<char>,
        model: ModelV,
        source: AssistantMessageV,
    ) -> Seq<char> {
        responses_id(id, model, source, state)
    }

    open spec fn remembering(
        state: Seq<Seq<char>>,
        id: Seq<char>,
        model: ModelV,
        source: AssistantMessageV,
    ) -> Seq<Seq<char>> {
        state
    }

    fn normalize(&mut self, id: &str, model: &Model, source: &AssistantMessage) -> (r: String) {
        normalize_responses_tool_call_id(id, model, source, &self.allowed_tool_call_providers)
    }
}

/// Identifiers that Mistral accepts. One for which no attempt is left stays as it is.
impl ToolCallIdNormalizer for MistralToolCallIdNormalizer {
    type State = MistralIdsV;

    open spec fn state(&self) -> MistralIdsV {
        self@
    }

    open spec fn normalized(
        state: MistralIdsV,
        id: Seq<char>,
        model: ModelV,
        source: AssistantMessageV,
    ) -> Seq<char> {
        match mistral_choice(state, id) {
            Some(given) => given,
            None => id,
        }
    }

    open spec fn remembering(
        state: MistralIdsV,
        id: Seq<char>,
        model: ModelV,
        source: AssistantMessageV,
    ) -> MistralIdsV {
        mistral_noted(state, id)
    }

    fn normalize(&mut self, id: &str, model: &Model, source: &AssistantMessage) -> (r: String) {
        match self.normalize(id) {
            Some(given) => given,
            None => id.to_owned(),
        }
    }
}

/// A text block without a signature.
pub open spec fn plain_text(text: Seq<char>) -> TextContentV {
    TextContentV { text, text_signature: None }
}

impl TextContent {
    /// A text block without a signature.
    pub fn new(text: &str) -> (r: Self)
        ensures
            r@ == plain_text(text@),
    {
        TextContent { text: text.to_owned(), text_signature: None }
    }
}

/// Whether a list of blocks ends with what stands for an image: an image or the placeholder.
pub open spec fn ends_covered(content: Seq<UserContentBlockV>, placeholder: Seq<char>) -> bool {
    content.len() > 0 && match content.last() {
        UserContentBlockV::Image(_) => true,
        UserContentBlockV::Text(t) => t.text == placeholder,
    }
}

/// The blocks with one placeholder for each run of images that does not follow a placeholder.
pub open spec fn without_images(
    content: Seq<UserContentBlockV>,
    placeholder: Seq<char>,
) -> Seq<UserContentBlockV>
    decreases content.len(),
{
    if content.len() == 0 {
        Seq::empty()
    } else {
        let rest = without_images(content.drop_last(), placeholder);
        match content.last() {
            UserContentBlockV::Text(t) => rest.push(UserContentBlockV::Text(t)),
            UserContentBlockV::Image(_) => if ends_covered(content.drop_last(), placeholder) {
                rest
            } else {
                rest.push(UserContentBlockV::Text(plain_text(placeholder)))
            },
        }
    }
}

fn replace_images_with_placeholder(content: &Vec<UserContentBlock>, placeholder: &str) -> (r: Vec<
    UserContentBlock,
>)
    ensures
        r.deep_view() == without_images(content.deep_view(), placeholder@),
{
    let ghost all = content.deep_view();
    let mut result: Vec<UserContentBlock> = Vec::new();
    let mut covered = false;
    let mut i: usize = 0;
    assert(all.take(0) =~= Seq::empty());
    assert(result.deep_view() =~= Seq::empty());
    while i < content.len()
        invariant
            all == content.deep_view(),
            i <= content@.len(),
            result.deep_view() == without_images(all.take(i as int), placeholder@),
            covered == ends_covered(all.take(i as int), placeholder@),
        decreases content@.len() - i,
    {
        let ghost before = result.deep_view();
        assert(all.take(i + 1).drop_last() =~= all.take(i as int));
        assert(all.take(i + 1).last() == content@[i as int]@);
        match &content[i] {
            UserContentBlock::Image(_) => {
                if !covered {
                    result.push(UserContentBlock::Text(TextContent::new(placeholder)));
                    assert(result.deep_view() =~= before.push(
                        UserContentBlockV::Text(plain_text(placeholder@)),
                    ));
                }
                covered = true;
            },
            UserContentBlock::Text(text) => {
                result.push(UserContentBlock::Text(text.clone()));
                assert(result.deep_view() =~= before.push(UserContentBlockV::Text(text@)));
                covered = same(text.text.as_str(), placeholder);
            },
        }
        i += 1;
    }
    assert(all.take(i as int) =~= all);
    result
}

/// Whether a model sees images.
pub open spec fn sees_images(model: ModelV) -> bool {
    model.input.contains(ModelInput::Image)
}

/// Whether a model sees images.
pub fn has_vision(model: &Model) -> (r: bool)
    ensures
        r == sees_images(model@),
{
    let mut i: usize = 0;
    while i < model.input.len()
        invariant
            i <= model.input@.len(),
            forall|k: int| 0 <= k < i ==> model@.input[k] != ModelInput::Image,
        decreases model.input@.len() - i,
    {
        if model.input[i] == ModelInput::Image {
            assert(model@.input[i as int] == ModelInput::Image);
            return true;
        }
        i += 1;
    }
    false
}

/// A message as the model can see it.
pub open spec fn visible(message: MessageV, model: ModelV) -> MessageV {
    if sees_images(model) {
        message
    } else {
        match message {
            MessageV::User(m) => MessageV::User(
                UserMessageV {
                    content: match m.content {
                        UserContentV::Blocks(blocks) => UserContentV::Blocks(
                            without_images(blocks, NON_VISION_USER_IMAGE_PLACEHOLDER@),
                        ),
                        other => other,
                    },
                    ..m
                },
            ),
            MessageV::ToolResult(m) => MessageV::ToolResult(
                ToolResultMessageV {
                    content: without_images(m.content, NON_VISION_TOOL_IMAGE_PLACEHOLDER@),
                    ..m
                },
            ),
            MessageV::Assistant(_) => message,
        }
    }
}

fn downgrade_unsupported_images(message: &Message, model: &Model) -> (r: Message)
    ensures
        r@ == visible(message@, model@),
{
    if has_vision(model) {
        return message.clone();
    }
    match message {
        Message::User(m) => {
            let content = match &m.content {
                UserContent::Blocks(blocks) => UserContent::Blocks(
                    replace_images_with_placeholder(blocks, NON_VISION_USER_IMAGE_PLACEHOLDER),
                ),
                UserContent::Text(text) => UserContent::Text(text.clone()),
            };
            Message::User(UserMessage { content, timestamp: m.timestamp })
        },
        Message::ToolResult(m) => {
            let mut copy = m.clone();
            copy.content =
            replace_images_with_placeholder(&m.content, NON_VISION_TOOL_IMAGE_PLACEHOLDER);
            Message::ToolResult(copy)
        },
        Message::Assistant(_) => message.clone(),
    }
}

/// Whether a turn is one of the model itself.
pub open spec fn same_model(turn: AssistantMessageV, model: ModelV) -> bool {
    turn.provider == model.provider && turn.api == model.api && turn.model == model.id
}

/// Whether a turn is one of the model itself.
pub fn is_same_model(turn: &AssistantMessage, model: &Model) -> (r: bool)
    ensures
        r == same_model(turn@, model@),
{
    same(turn.provider.as_str(), model.provider.as_str()) && same(
        turn.api.as_str(),
        model.api.as_str(),
    ) && same(turn.model.as_str(), model.id.as_str())
}

/// Whether there is a text that is not empty.
pub open spec fn present(s: Option<Seq<char>>) -> bool {
    match s {
        Some(t) => t.len() > 0,
        None => false,
    }
}

/// Whether there is a text that is not empty.
pub fn is_present(s: &Option<String>) -> (r: bool)
    ensures
        r == present(s.deep_view()),
{
    match s {
        Some(t) => !t.as_str().is_empty(),
        None => false,
    }
}

/// A tool call as it is replayed under `id`: another model gets no thought signature.
pub open spec fn lowered_call(call: ToolCallV, own: bool, id: Seq<char>) -> ToolCallV {
    ToolCallV {
        id,
        thought_signature: if !own && present(call.thought_signature) {
            None
        } else {
            call.thought_signature
        },
        ..call
    }
}

/// A reasoning block as it is replayed. The model itself gets it back, but for reasoning with
/// neither text nor signature; another model gets what can be read of it as text.
pub open spec fn lowered_thinking(t: ThinkingContentV, own: bool) -> Option<AssistantContentV> {
    if t.redacted == Some(true) {
        if own {
            Some(AssistantContentV::Thinking(t))
        } else {
            None
        }
    } else if own && present(t.thinking_signature) {
        Some(AssistantContentV::Thinking(t))
    } else if blank(t.thinking) {
        None
    } else if own {
        Some(AssistantContentV::Thinking(t))
    } else {
        Some(AssistantContentV::Text(plain_text(t.thinking)))
    }
}

/// The identifier under which a call of `source` is replayed.
pub open spec fn replay_id<N: ToolCallIdNormalizer>(
    call: ToolCallV,
    model: ModelV,
    source: AssistantMessageV,
    state: Option<N::State>,
) -> Seq<char> {
    match state {
        Some(s) => if same_model(source, model) {
            call.id
        } else {
            N::normalized(s, call.id, model, source)
        },
        None => call.id,
    }
}

/// What the normalizer remembers after a block of `source`: it is asked for every call of another
/// model, and for nothing else.
pub open spec fn block_state<N: ToolCallIdNormalizer>(
    block: AssistantContentV,
    model: ModelV,
    source: AssistantMessageV,
    state: Option<N::State>,
) -> Option<N::State> {
    match (block, state) {
        (AssistantContentV::ToolCall(c), Some(s)) => if same_model(source, model) {
            state
        } else {
            Some(N::remembering(s, c.id, model, source))
        },
        _ => state,
    }
}

/// What the normalizer remembers after the blocks of `source`, in their order.
pub open spec fn content_state<N: ToolCallIdNormalizer>(
    content: Seq<AssistantContentV>,
    model: ModelV,
    source: AssistantMessageV,
    state: Option<N::State>,
) -> Option<N::State>
    decreases content.len(),
{
    if content.len() == 0 {
        state
    } else {
        block_state::<N>(
            content.last(),
            model,
            source,
            content_state::<N>(content.drop_last(), model, source, state),
        )
    }
}

/// What the normalizer remembers after messages, in their order.
pub open spec fn messages_state<N: ToolCallIdNormalizer>(
    messages: Seq<MessageV>,
    model: ModelV,
    state: Option<N::State>,
) -> Option<N::State>
    decreases messages.len(),
{
    if messages.len() == 0 {
        state
    } else {
        let before = messages_state::<N>(messages.drop_last(), model, state);
        match messages.last() {
            MessageV::Assistant(a) => content_state::<N>(a.content, model, a, before),
            _ => before,
        }
    }
}

/// A block of `source` as it is replayed.
pub open spec fn lowered_block<N: ToolCallIdNormalizer>(
    block: AssistantContentV,
    model: ModelV,
    source: AssistantMessageV,
    state: Option<N::State>,
) -> Option<AssistantContentV> {
    let own = same_model(source, model);
    match block {
        AssistantContentV::Thinking(t) => lowered_thinking(t, own),
        AssistantContentV::Text(t) => Some(
            AssistantContentV::Text(
                if own {
                    t
                } else {
                    plain_text(t.text)
                },
            ),
        ),
        AssistantContentV::ToolCall(c) => Some(
            AssistantContentV::ToolCall(
                lowered_call(c, own, replay_id::<N>(c, model, source, state)),
            ),
        ),
    }
}

/// The blocks of `source` as they are replayed.
pub open spec fn lowered_content<N: ToolCallIdNormalizer>(
    content: Seq<AssistantContentV>,
    model: ModelV,
    source: AssistantMessageV,
    state: Option<N::State>,
) -> Seq<AssistantContentV>
    decreases content.len(),
{
    if content.len() == 0 {
        Seq::empty()
    } else {
        let front = content.drop_last();
        let rest = lowered_content::<N>(front, model, source, state);
        let now = content_state::<N>(front, model, source, state);
        match lowered_block::<N>(content.last(), model, source, now) {
            Some(block) => rest.push(block),
            None => rest,
        }
    }
}

/// The identifiers that have changed, each with what it became, after the blocks of `source`.
pub open spec fn changed_ids<N: ToolCallIdNormalizer>(
    ids: Seq<(Seq<char>, Seq<char>)>,
    content: Seq<AssistantContentV>,
    model: ModelV,
    source: AssistantMessageV,
    state: Option<N::State>,
) -> Seq<(Seq<char>, Seq<char>)>
    decreases content.len(),
{
    if content.len() == 0 {
        ids
    } else {
        let front = content.drop_last();
        let rest = changed_ids::<N>(ids, front, model, source, state);
        let now = content_state::<N>(front, model, source, state);
        match content.last() {
            AssistantContentV::ToolCall(c) => if replay_id::<N>(c, model, source, now) != c.id {
                put(rest, c.id, replay_id::<N>(c, model, source, now))
            } else {
                rest
            },
            _ => rest,
        }
    }
}

/// The identifiers that have changed after all messages.
pub open spec fn id_map<N: ToolCallIdNormalizer>(
    messages: Seq<MessageV>,
    model: ModelV,
    state: Option<N::State>,
) -> Seq<(Seq<char>, Seq<char>)>
    decreases messages.len(),
{
    if messages.len() == 0 {
        Seq::empty()
    } else {
        let front = messages.drop_last();
        let rest = id_map::<N>(front, model, state);
        match messages.last() {
            MessageV::Assistant(a) => changed_ids::<N>(
                rest,
                a.content,
                model,
                a,
                messages_state::<N>(front, model, state),
            ),
            _ => rest,
        }
    }
}

/// A message as it is replayed after `ids` have changed.
pub open spec fn lowered_message<N: ToolCallIdNormalizer>(
    message: MessageV,
    ids: Seq<(Seq<char>, Seq<char>)>,
    model: ModelV,
    state: Option<N::State>,
) -> MessageV {
    match visible(message, model) {
        MessageV::User(m) => MessageV::User(m),
        MessageV::ToolResult(m) => MessageV::ToolResult(
            ToolResultMessageV {
                tool_call_id: match lookup(ids, m.tool_call_id) {
                    Some(id) => id,
                    None => m.tool_call_id,
                },
                ..m
            },
        ),
        MessageV::Assistant(a) => MessageV::Assistant(
            AssistantMessageV { content: lowered_content::<N>(a.content, model, a, state), ..a },
        ),
    }
}

/// The messages as they are replayed, before calls without a result are repaired. The normalizer
/// remembers `state` at first.
pub open spec fn lowered_messages<N: ToolCallIdNormalizer>(
    messages: Seq<MessageV>,
    model: ModelV,
    state: Option<N::State>,
) -> Seq<MessageV> {
    Seq::new(
        messages.len(),
        |i: int|
            lowered_message::<N>(
                messages[i],
                id_map::<N>(messages.take(i), model, state),
                model,
                messages_state::<N>(messages.take(i), model, state),
            ),
    )
}

fn lower_block<N: ToolCallIdNormalizer>(
    block: &AssistantContent,
    model: &Model,
    source: &AssistantMessage,
    normalizer: &mut Option<N>,
    own: bool,
    ids: &mut Vec<(String, String)>,
) -> (r: Option<AssistantContent>)
    requires
        own == same_model(source@, model@),
    ensures
        r.deep_view() == lowered_block::<N>(block@, model@, source@, state_of(*old(normalizer))),
        state_of(*final(normalizer)) == block_state::<N>(
            block@,
            model@,
            source@,
            state_of(*old(normalizer)),
        ),
        final(ids).deep_view() == match block@ {
            AssistantContentV::ToolCall(c) => if replay_id::<N>(
                c,
                model@,
                source@,
                state_of(*old(normalizer)),
            ) != c.id {
                put(
                    old(ids).deep_view(),
                    c.id,
                    replay_id::<N>(c, model@, source@, state_of(*old(normalizer))),
                )
            } else {
                old(ids).deep_view()
            },
            _ => old(ids).deep_view(),
        },
{
    match block {
        AssistantContent::Thinking(thinking) => {
            let redacted = match thinking.redacted {
                Some(redacted) => redacted,
                None => false,
            };
            if redacted {
                if own {
                    Some(block.clone())
                } else {
                    None
                }
            } else if own && is_present(&thinking.thinking_signature) {
                Some(block.clone())
            } else if is_blank(thinking.thinking.as_str()) {
                None
            } else if own {
                Some(block.clone())
            } else {
                Some(AssistantContent::Text(TextContent::new(thinking.thinking.as_str())))
            }
        },
        AssistantContent::Text(text) => {
            if own {
                Some(block.clone())
            } else {
                Some(AssistantContent::Text(TextContent::new(text.text.as_str())))
            }
        },
        AssistantContent::ToolCall(call) => {
            let mut lowered = call.clone();
            if !own && is_present(&lowered.thought_signature) {
                lowered.thought_signature = None;
            }
            if !own {
                if let Some(normalizer) = normalizer {
                    let id = normalizer.normalize(call.id.as_str(), model, source);
                    if !same(id.as_str(), call.id.as_str()) {
                        assoc::insert(ids, call.id.clone(), id.clone());
                    }
                    lowered.id = id;
                }
            }
            Some(AssistantContent::ToolCall(lowered))
        },
    }
}

fn lower_content<N: ToolCallIdNormalizer>(
    model: &Model,
    source: &AssistantMessage,
    normalizer: &mut Option<N>,
    ids: &mut Vec<(String, String)>,
) -> (r: Vec<AssistantContent>)
    ensures
        r.deep_view() == lowered_content::<N>(
            source@.content,
            model@,
            source@,
            state_of(*old(normalizer)),
        ),
        state_of(*final(normalizer)) == content_state::<N>(
            source@.content,
            model@,
            source@,
            state_of(*old(normalizer)),
        ),
        final(ids).deep_view() == changed_ids::<N>(
            old(ids).deep_view(),
            source@.content,
            model@,
            source@,
            state_of(*old(normalizer)),
        ),
{
    let own = is_same_model(source, model);
    let ghost all = source@.content;
    let ghost start = ids.deep_view();
    let ghost state = state_of(*normalizer);
    let mut content: Vec<AssistantContent> = Vec::new();
    let mut i: usize = 0;
    assert(all.take(0) =~= Seq::empty());
    assert(content.deep_view() =~= Seq::empty());
    while i < source.content.len()
        invariant
            own == same_model(source@, model@),
            all == source@.content,
            i <= source.content@.len(),
            content.deep_view() == lowered_content::<N>(
                all.take(i as int),
                model@,
                source@,
                state,
            ),
            state_of(*normalizer) == content_state::<N>(
                all.take(i as int),
                model@,
                source@,
                state,
            ),
            ids.deep_view() == changed_ids::<N>(
                start,
                all.take(i as int),
                model@,
                source@,
                state,
            ),
        decreases source.content@.len() - i,
    {
        let ghost before = content.deep_view();
        assert(all.take(i + 1).drop_last() =~= all.take(i as int));
        assert(all.take(i + 1).last() == source.content@[i as int]@);
        let lowered = lower_block(&source.content[i], model, source, normalizer, own, ids);
        if let Some(block) = lowered {
            content.push(block);
            assert(content.deep_view() =~= before.push(block@));
        }
        i += 1;
    }
    assert(all.take(i as int) =~= all);
    content
}

fn lower_message<N: ToolCallIdNormalizer>(
    message: &Message,
    model: &Model,
    normalizer: &mut Option<N>,
    ids: &mut Vec<(String, String)>,
) -> (r: Message)
    ensures
        r@ == lowered_message::<N>(
            message@,
            old(ids).deep_view(),
            model@,
            state_of(*old(normalizer)),
        ),
        state_of(*final(normalizer)) == match message@ {
            MessageV::Assistant(a) => content_state::<N>(
                a.content,
                model@,
                a,
                state_of(*old(normalizer)),
            ),
            _ => state_of(*old(normalizer)),
        },
        final(ids).deep_view() == match message@ {
            MessageV::Assistant(a) => changed_ids::<N>(
                old(ids).deep_view(),
                a.content,
                model@,
                a,
                state_of(*old(normalizer)),
            ),
            _ => old(ids).deep_view(),
        },
{
    match downgrade_unsupported_images(message, model) {
        Message::User(m) => Message::User(m),
        Message::ToolResult(m) => {
            let mut m = m;
            let known = assoc::get(ids, m.tool_call_id.as_str());
            if let Some(id) = known {
                m.tool_call_id = id.clone();
            }
            Message::ToolResult(m)
        },
        Message::Assistant(a) => {
            let mut a = a;
            let content = lower_content(model, &a, normalizer, ids);
            a.content = content;
            Message::Assistant(a)
        },
    }
}

/// The result that a call without one is given.
pub open spec fn synthetic_result(call: ToolCallV, now: i64) -> MessageV {
    MessageV::ToolResult(
        ToolResultMessageV {
            tool_call_id: call.id,
            tool_name: call.name,
            content: seq![UserContentBlockV::Text(plain_text(NO_RESULT@))],
            details: None,
            usage: None,
            added_tool_names: None,
            is_error: true,
            timestamp: now,
        },
    )
}

/// The results for those of the calls that have none.
pub open spec fn missing_results(
    pending: Seq<ToolCallV>,
    answered: Seq<Seq<char>>,
    now: i64,
) -> Seq<MessageV>
    decreases pending.len(),
{
    if pending.len() == 0 {
        Seq::empty()
    } else {
        let rest = missing_results(pending.drop_last(), answered, now);
        if answered.contains(pending.last().id) {
            rest
        } else {
            rest.push(synthetic_result(pending.last(), now))
        }
    }
}

/// The tool calls among blocks.
pub open spec fn calls_of(content: Seq<AssistantContentV>) -> Seq<ToolCallV>
    decreases content.len(),
{
    if content.len() == 0 {
        Seq::empty()
    } else {
        let rest = calls_of(content.drop_last());
        match content.last() {
            AssistantContentV::ToolCall(c) => rest.push(c),
            _ => rest,
        }
    }
}

/// Whether a turn failed.
pub open spec fn failed(turn: AssistantMessageV) -> bool {
    turn.stop_reason == StopReason::Error || turn.stop_reason == StopReason::Aborted
}

/// Where the repair of calls without a result stands.
pub struct Repair {
    /// The messages so far.
    pub result: Seq<MessageV>,
    /// The calls of the last turn.
    pub pending: Seq<ToolCallV>,
    /// The identifiers that results have come for since then.
    pub answered: Seq<Seq<char>>,
}

/// The messages so far, with a result for each call that has none.
pub open spec fn settled(state: Repair, now: i64) -> Seq<MessageV> {
    state.result + missing_results(state.pending, state.answered, now)
}

/// Takes one more message in. A turn or a user message settles what is open; a failed turn is
/// dropped.
pub open spec fn repair_step(state: Repair, message: MessageV, now: i64) -> Repair {
    match message {
        MessageV::Assistant(a) => if failed(a) {
            Repair { result: settled(state, now), pending: Seq::empty(), answered: Seq::empty() }
        } else {
            Repair {
                result: settled(state, now).push(message),
                pending: calls_of(a.content),
                answered: Seq::empty(),
            }
        },
        MessageV::ToolResult(m) => Repair {
            result: state.result.push(message),
            pending: state.pending,
            answered: state.answered.push(m.tool_call_id),
        },
        MessageV::User(_) => Repair {
            result: settled(state, now).push(message),
            pending: Seq::empty(),
            answered: Seq::empty(),
        },
    }
}

/// The state after all messages.
pub open spec fn repair(messages: Seq<MessageV>, now: i64) -> Repair
    decreases messages.len(),
{
    if messages.len() == 0 {
        Repair { result: Seq::empty(), pending: Seq::empty(), answered: Seq::empty() }
    } else {
        repair_step(repair(messages.drop_last(), now), messages.last(), now)
    }
}

/// What [`transform_messages`] returns, where the normalizer remembers `state` at first.
pub open spec fn transformed<N: ToolCallIdNormalizer>(
    messages: Seq<MessageV>,
    model: ModelV,
    state: Option<N::State>,
    now: i64,
) -> Seq<MessageV> {
    settled(repair(lowered_messages::<N>(messages, model, state), now), now)
}

fn insert_synthetic_tool_results(
    result: &mut Vec<Message>,
    pending: &Vec<ToolCall>,
    answered: &Vec<String>,
    now: i64,
)
    ensures
        final(result).deep_view() == old(result).deep_view() + missing_results(
            pending.deep_view(),
            answered.deep_view(),
            now,
        ),
{
    let ghost start = result.deep_view();
    let ghost all = pending.deep_view();
    let mut i: usize = 0;
    assert(all.take(0) =~= Seq::empty());
    assert(start + Seq::<MessageV>::empty() =~= start);
    while i < pending.len()
        invariant
            all == pending.deep_view(),
            i <= pending@.len(),
            result.deep_view() == start + missing_results(
                all.take(i as int),
                answered.deep_view(),
                now,
            ),
        decreases pending@.len() - i,
    {
        let ghost before = result.deep_view();
        assert(all.take(i + 1).drop_last() =~= all.take(i as int));
        assert(all.take(i + 1).last() == pending@[i as int]@);
        let call = &pending[i];
        if !contains_name(answered, call.id.as_str()) {
            let mut content: Vec<UserContentBlock> = Vec::new();
            content.push(UserContentBlock::Text(TextContent::new(NO_RESULT)));
            assert(content.deep_view() =~= seq![UserContentBlockV::Text(plain_text(NO_RESULT@))]);
            let message = Message::ToolResult(
                ToolResultMessage {
                    tool_call_id: call.id.clone(),
                    tool_name: call.name.clone(),
                    content,
                    details: None,
                    usage: None,
                    added_tool_names: None,
                    is_error: true,
                    timestamp: now,
                },
            );
            assert(message@ == synthetic_result(call@, now));
            result.push(message);
            assert(result.deep_view() =~= before.push(message@));
            assert(result.deep_view() =~= start + missing_results(
                all.take(i + 1),
                answered.deep_view(),
                now,
            ));
        }
        i += 1;
    }
    assert(all.take(i as int) =~= all);
}

fn collect_calls(content: &Vec<AssistantContent>) -> (r: Vec<ToolCall>)
    ensures
        r.deep_view() == calls_of(content.deep_view()),
{
    let ghost all = content.deep_view();
    let mut r: Vec<ToolCall> = Vec::new();
    let mut i: usize = 0;
    assert(all.take(0) =~= Seq::empty());
    assert(r.deep_view() =~= Seq::empty());
    while i < content.len()
        invariant
            all == content.deep_view(),
            i <= content@.len(),
            r.deep_view() == calls_of(all.take(i as int)),
        decreases content@.len() - i,
    {
        let ghost before = r.deep_view();
        assert(all.take(i + 1).drop_last() =~= all.take(i as int));
        assert(all.take(i + 1).last() == content@[i as int]@);
        if let AssistantContent::ToolCall(call) = &content[i] {
            r.push(call.clone());
            assert(r.deep_view() =~= before.push(call@));
        }
        i += 1;
    }
    assert(all.take(i as int) =~= all);
    r
}

/// Turns a conversation into one that `model` can take up: images only where it sees them,
/// reasoning and signatures only where they are its own, tool-call identifiers through the
/// normalizer, no failed turns, and a result for every call. The normalizer is asked once for each
/// call of another model, in their order. Results that had to be made up carry the time `now`.
pub fn transform_messages<N: ToolCallIdNormalizer>(
    messages: &Vec<Message>,
    model: &Model,
    normalize_tool_call_id: &mut Option<N>,
    now: i64,
) -> (r: Vec<Message>)
    ensures
        r.deep_view() == transformed::<N>(
            messages.deep_view(),
            model@,
            state_of(*old(normalize_tool_call_id)),
            now,
        ),
        state_of(*final(normalize_tool_call_id)) == messages_state::<N>(
            messages.deep_view(),
            model@,
            state_of(*old(normalize_tool_call_id)),
        ),
{
    let ghost all = messages.deep_view();
    let ghost state = state_of(*normalize_tool_call_id);
    let ghost lowered = lowered_messages::<N>(all, model@, state);
    let mut ids: Vec<(String, String)> = Vec::new();
    let mut result: Vec<Message> = Vec::new();
    let mut pending: Vec<ToolCall> = Vec::new();
    let mut answered: Vec<String> = Vec::new();
    let mut i: usize = 0;
    assert(all.take(0) =~= Seq::empty());
    assert(lowered.take(0) =~= Seq::empty());
    assert(ids.deep_view() =~= Seq::empty());
    assert(result.deep_view() =~= Seq::empty());
    assert(pending.deep_view() =~= Seq::empty());
    assert(answered.deep_view() =~= Seq::empty());
    while i < messages.len()
        invariant
            all == messages.deep_view(),
            lowered == lowered_messages::<N>(all, model@, state),
            state_of(*normalize_tool_call_id) == messages_state::<N>(
                all.take(i as int),
                model@,
                state,
            ),
            i <= messages@.len(),
            ids.deep_view() == id_map::<N>(all.take(i as int), model@, state),
            result.deep_view() == repair(lowered.take(i as int), now).result,
            pending.deep_view() == repair(lowered.take(i as int), now).pending,
            answered.deep_view() == repair(lowered.take(i as int), now).answered,
        decreases messages@.len() - i,
    {
        assert(all.take(i + 1).drop_last() =~= all.take(i as int));
        assert(all.take(i + 1).last() == messages@[i as int]@);
        assert(lowered.take(i + 1).drop_last() =~= lowered.take(i as int));
        let message = lower_message(&messages[i], model, normalize_tool_call_id, &mut ids);
        assert(message@ == lowered[i as int]);
        assert(lowered.take(i + 1).last() == message@);
        match message {
            Message::Assistant(assistant) => {
                insert_synthetic_tool_results(&mut result, &pending, &answered, now);
                answered = Vec::new();
                assert(answered.deep_view() =~= Seq::empty());
                if assistant.stop_reason == StopReason::Error || assistant.stop_reason
                    == StopReason::Aborted {
                    pending = Vec::new();
                    assert(pending.deep_view() =~= Seq::empty());
                } else {
                    pending = collect_calls(&assistant.content);
                    let ghost before = result.deep_view();
                    result.push(Message::Assistant(assistant));
                    assert(result.deep_view() =~= before.push(message@));
                }
            },
            Message::ToolResult(tool_result) => {
                let ghost answers = answered.deep_view();
                answered.push(tool_result.tool_call_id.clone());
                assert(answered.deep_view() =~= answers.push(tool_result@.tool_call_id));
                let ghost before = result.deep_view();
                result.push(Message::ToolResult(tool_result));
                assert(result.deep_view() =~= before.push(message@));
            },
            Message::User(user) => {
                insert_synthetic_tool_results(&mut result, &pending, &answered, now);
                pending = Vec::new();
                answered = Vec::new();
                assert(pending.deep_view() =~= Seq::empty());
                assert(answered.deep_view() =~= Seq::empty());
                let ghost before = result.deep_view();
                result.push(Message::User(user));
                assert(result.deep_view() =~= before.push(message@));
            },
        }
        i += 1;
    }
    assert(lowered.take(i as int) =~= lowered);
    assert(all.take(i as int) =~= all);
    insert_synthetic_tool_results(&mut result, &pending, &answered, now);
    result
}

} // verus!
