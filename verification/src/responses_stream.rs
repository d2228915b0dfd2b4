//! Assembles an assistant message from the events of the Responses stream.
use crate::assoc;
use crate::assoc::{distinct, lookup, put, removed};
use crate::constrained_sampling::{
    append_grammar_tool_input_json_delta, input_arguments, input_delta, make_input_arguments,
    outcome, GrammarToolInputJsonBuffer, StreamingJson,
};
use crate::json::{
    json_parse, json_text, member, object, parse_json, text_of, write_json, Json, JsonObject, JsonV,
};
use crate::openai_responses_shared::{
    OpenAIResponsesError, ResponseServiceTier, ResponseServiceTierV,
};
use crate::responses_events::{
    decode_output_item, decode_response_event, decoded_event, decoded_item, DecodedResponseEvent,
    DecodedResponseEventV, OutputItem, OutputItemV, ResponseUsage, ResponseUsageV, TerminalResponse,
    TerminalResponseV,
};
use crate::text::{begins, concat, from_range, join, joined, same, starts_with, to_chars};
use crate::text_signature::{encode_text_signature_v1, text_signature};
use crate::transform_messages::{plain_text, present};
use crate::types::{
    AssistantContent, AssistantContentV, AssistantMessage, AssistantMessageEvent,
    AssistantMessageEventV, AssistantMessageV, StopReason, TextContent, TextContentV,
    TextSignaturePhase, ThinkingContent, ThinkingContentV, ToolCall, ToolCallV, Usage, UsageV,
    UsageValue, UsageValueV,
};
use vstd::prelude::*;

verus! {

/// A block that is being filled, with what its item needs until it is done.
#[allow(inconsistent_fields)]
#[derive(Debug, PartialEq)]
pub enum OutputSlot {
    Thinking { content_index: usize },
    Text { content_index: usize },
    FunctionCall { content_index: usize, partial_json: String },
    CustomToolCall { content_index: usize, property: String, json_buffer: GrammarToolInputJsonBuffer },
}

/// The model of [`OutputSlot`].
#[allow(inconsistent_fields)]
pub enum OutputSlotV {
    Thinking { content_index: usize },
    Text { content_index: usize },
    FunctionCall { content_index: usize, partial_json: Seq<char> },
    CustomToolCall { content_index: usize, property: Seq<char>, json_buffer: Seq<char> },
}

impl View for OutputSlot {
    type V = OutputSlotV;

    open spec fn view(&self) -> OutputSlotV {
        match self {
            OutputSlot::Thinking { content_index } => OutputSlotV::Thinking { content_index: content_index.deep_view() },
            OutputSlot::Text { content_index } => OutputSlotV::Text { content_index: content_index.deep_view() },
            OutputSlot::FunctionCall { content_index, partial_json } => OutputSlotV::FunctionCall { content_index: content_index.deep_view(), partial_json: partial_json.deep_view() },
            OutputSlot::CustomToolCall { content_index, property, json_buffer } => OutputSlotV::CustomToolCall { content_index: content_index.deep_view(), property: property.deep_view(), json_buffer: json_buffer.deep_view() },
        }
    }
}

impl DeepView for OutputSlot {
    type V = OutputSlotV;

    open spec fn deep_view(&self) -> OutputSlotV {
        self@
    }
}

impl Clone for OutputSlot {
    fn clone(&self) -> (r: Self)
        ensures
            r@ == self@,
    {
        match self {
            OutputSlot::Thinking { content_index } => OutputSlot::Thinking { content_index: *content_index },
            OutputSlot::Text { content_index } => OutputSlot::Text { content_index: *content_index },
            OutputSlot::FunctionCall { content_index, partial_json } => OutputSlot::FunctionCall { content_index: *content_index, partial_json: partial_json.clone() },
            OutputSlot::CustomToolCall { content_index, property, json_buffer } => OutputSlot::CustomToolCall { content_index: *content_index, property: property.clone(), json_buffer: json_buffer.clone() },
        }
    }
}

/// The properties that hold the input of grammar tools, by tool.
pub type InputProperties = Vec<(String, String)>;

/// What the stream has brought so far.
#[derive(Debug, PartialEq)]
pub struct ResponsesStream {
    /// The message that is being assembled.
    pub output: AssistantMessage,
    /// The blocks that are being filled, by output index.
    pub slots: Vec<(u64, OutputSlot)>,
    /// The reasoning blocks that are done, by the identifier of their item.
    pub reasoning_blocks: Vec<(String, usize)>,
    /// Whether the response has ended.
    pub saw_terminal: bool,
    /// The service tier that the response was served at.
    pub service_tier: Option<Option<ResponseServiceTier>>,
    /// What the listener has to be told.
    pub events: Vec<AssistantMessageEvent>,
}

/// The model of [`ResponsesStream`].
pub struct ResponsesStreamV {
    pub output: AssistantMessageV,
    pub slots: Seq<(u64, OutputSlotV)>,
    pub reasoning_blocks: Seq<(Seq<char>, usize)>,
    pub saw_terminal: bool,
    pub service_tier: Option<Option<ResponseServiceTierV>>,
    pub events: Seq<AssistantMessageEventV>,
}

impl View for ResponsesStream {
    type V = ResponsesStreamV;

    open spec fn view(&self) -> ResponsesStreamV {
        ResponsesStreamV {
            output: self.output@,
            slots: self.slots.deep_view(),
            reasoning_blocks: self.reasoning_blocks.deep_view(),
            saw_terminal: self.saw_terminal,
            service_tier: self.service_tier.deep_view(),
            events: self.events.deep_view(),
        }
    }
}

/// An identifier made of a call and an item.
pub open spec fn composite_id(call_id: Seq<char>, item_id: Option<Seq<char>>) -> Seq<char> {
    call_id + "|"@ + match item_id {
        Some(id) => id,
        None => "undefined"@,
    }
}

fn composite_tool_call_id(call_id: &str, item_id: &Option<String>) -> (r: String)
    ensures
        r@ == composite_id(call_id@, item_id.deep_view()),
{
    let mut r = concat(call_id, "|");
    match item_id {
        Some(id) => r.push_str(id.as_str()),
        None => r.push_str("undefined"),
    }
    r
}

/// The arguments that a text is read as: an object, or none.
pub open spec fn arguments_of<P: StreamingJson>(parser: &P, text: Seq<char>) -> JsonV {
    match parser.reading(text) {
        JsonV::Object(fields) => JsonV::Object(fields),
        _ => JsonV::Object(Seq::empty()),
    }
}

/// An object without members.
pub fn empty_object() -> (r: Json)
    ensures
        r@ == JsonV::Object(Seq::empty()),
{
    let fields: JsonObject = Vec::new();
    assert(fields.deep_view() =~= Seq::empty());
    object(fields)
}

fn tool_arguments<P: StreamingJson>(parser: &P, text: &str) -> (r: Json)
    ensures
        r@ == arguments_of(parser, text@),
{
    let v = parser.parse_streaming_json(text);
    match v {
        Json::Object(_) => v,
        _ => empty_object(),
    }
}

/// A message with another block at `i`.
pub open spec fn with_block(
    output: AssistantMessageV,
    i: int,
    block: AssistantContentV,
) -> AssistantMessageV {
    AssistantMessageV { content: output.content.update(i, block), ..output }
}

/// The reasoning block at `i`, if there is one.
pub open spec fn thinking_at(output: AssistantMessageV, i: usize) -> Option<ThinkingContentV> {
    if i < output.content.len() {
        match output.content[i as int] {
            AssistantContentV::Thinking(t) => Some(t),
            _ => None,
        }
    } else {
        None
    }
}

/// The text block at `i`, if there is one.
pub open spec fn text_at(output: AssistantMessageV, i: usize) -> Option<TextContentV> {
    if i < output.content.len() {
        match output.content[i as int] {
            AssistantContentV::Text(t) => Some(t),
            _ => None,
        }
    } else {
        None
    }
}

/// The tool call at `i`, if there is one.
pub open spec fn call_at(output: AssistantMessageV, i: usize) -> Option<ToolCallV> {
    if i < output.content.len() {
        match output.content[i as int] {
            AssistantContentV::ToolCall(c) => Some(c),
            _ => None,
        }
    } else {
        None
    }
}

/// A message with more reasoning at `i`.
pub open spec fn more_thinking(output: AssistantMessageV, i: usize, delta: Seq<char>) -> AssistantMessageV {
    match thinking_at(output, i) {
        Some(t) => with_block(
            output,
            i as int,
            AssistantContentV::Thinking(ThinkingContentV { thinking: t.thinking + delta, ..t }),
        ),
        None => output,
    }
}

pub fn append_thinking(output: &mut AssistantMessage, i: usize, delta: &str)
    ensures
        final(output)@ == more_thinking(old(output)@, i, delta@),
{
    let ghost before = output@.content;
    if i < output.content.len() {
        if let AssistantContent::Thinking(t) = &mut output.content[i] {
            t.thinking.push_str(delta);
        }
        assert(output@.content =~= more_thinking(old(output)@, i, delta@).content);
    }
}

/// A message with more text at `i`.
pub open spec fn more_text(output: AssistantMessageV, i: usize, delta: Seq<char>) -> AssistantMessageV {
    match text_at(output, i) {
        Some(t) => with_block(
            output,
            i as int,
            AssistantContentV::Text(TextContentV { text: t.text + delta, ..t }),
        ),
        None => output,
    }
}

pub fn append_text(output: &mut AssistantMessage, i: usize, delta: &str)
    ensures
        final(output)@ == more_text(old(output)@, i, delta@),
{
    if i < output.content.len() {
        if let AssistantContent::Text(t) = &mut output.content[i] {
            t.text.push_str(delta);
        }
        assert(output@.content =~= more_text(old(output)@, i, delta@).content);
    }
}

/// A message with other arguments of the call at `i`.
pub open spec fn with_arguments(output: AssistantMessageV, i: usize, arguments: JsonV) -> AssistantMessageV {
    match call_at(output, i) {
        Some(c) => with_block(
            output,
            i as int,
            AssistantContentV::ToolCall(ToolCallV { arguments, ..c }),
        ),
        None => output,
    }
}

fn set_arguments(output: &mut AssistantMessage, i: usize, arguments: Json)
    ensures
        final(output)@ == with_arguments(old(output)@, i, arguments@),
{
    let ghost model = arguments@;
    if i < output.content.len() {
        if let AssistantContent::ToolCall(c) = &mut output.content[i] {
            c.arguments = arguments;
        }
        assert(output@.content =~= with_arguments(old(output)@, i, model).content);
    }
}

/// The input that the call at `i` holds in `property`.
pub open spec fn current_input(output: AssistantMessageV, i: usize, property: Seq<char>) -> Seq<char> {
    match call_at(output, i) {
        Some(c) => match text_of(member(c.arguments, property)) {
            Some(s) => s,
            None => Seq::empty(),
        },
        None => Seq::empty(),
    }
}

fn custom_tool_input(output: &AssistantMessage, i: usize, property: &str) -> (r: String)
    ensures
        r@ == current_input(output@, i, property@),
{
    if i < output.content.len() {
        if let AssistantContent::ToolCall(c) = &output.content[i] {
            return match c.arguments.text(property) {
                Some(s) => s,
                None => String::new(),
            };
        }
    }
    String::new()
}

/// Tells the listener one more thing.
pub open spec fn told(s: ResponsesStreamV, event: AssistantMessageEventV) -> ResponsesStreamV {
    ResponsesStreamV { events: s.events.push(event), ..s }
}

/// A final answer marks the turn as done.
pub open spec fn phase_applied(item: OutputItemV, output: AssistantMessageV) -> AssistantMessageV {
    match item {
        OutputItemV::Message { phase: Some(TextSignaturePhase::FinalAnswer), .. } =>
            AssistantMessageV { stop_reason: StopReason::Stop, ..output },
        _ => output,
    }
}

/// A final answer marks the turn as done.
pub fn apply_message_phase_stop_reason(item: &OutputItem, output: &mut AssistantMessage)
    ensures
        final(output)@ == phase_applied(item@, old(output)@),
{
    if let OutputItem::Message { phase, .. } = item {
        if let Some(TextSignaturePhase::FinalAnswer) = phase {
            output.stop_reason = StopReason::Stop;
        }
    }
}

/// The property that holds the input of a tool.
pub open spec fn property_of(
    properties: Option<Seq<(Seq<char>, Seq<char>)>>,
    name: Seq<char>,
) -> Seq<char> {
    match properties {
        Some(properties) => match lookup(properties, name) {
            Some(p) => p,
            None => "input"@,
        },
        None => "input"@,
    }
}

fn input_property(properties: &Option<InputProperties>, name: &str) -> (r: String)
    ensures
        r@ == property_of(properties.deep_view(), name@),
{
    if let Some(properties) = properties {
        if let Some(p) = assoc::get(properties, name) {
            return p.clone();
        }
    }
    "input".to_owned()
}

/// A message with one more block.
pub open spec fn with_new_block(s: ResponsesStreamV, block: AssistantContentV) -> ResponsesStreamV {
    ResponsesStreamV {
        output: AssistantMessageV { content: s.output.content.push(block), ..s.output },
        ..s
    }
}

/// The stream with a slot at `index`.
pub open spec fn with_slot(s: ResponsesStreamV, index: u64, slot: OutputSlotV) -> ResponsesStreamV {
    ResponsesStreamV { slots: put(s.slots, index, slot), ..s }
}

/// The stream after an item has begun: a new block, a slot for it, and the news of it.
#[verifier::opaque]
pub open spec fn opened(
    s: ResponsesStreamV,
    index: u64,
    item: OutputItemV,
    properties: Option<Seq<(Seq<char>, Seq<char>)>>,
) -> ResponsesStreamV {
    let at = s.output.content.len() as usize;
    match item {
        OutputItemV::Reasoning { .. } => with_slot(
            told(
                with_new_block(
                    s,
                    AssistantContentV::Thinking(
                        ThinkingContentV {
                            thinking: Seq::empty(),
                            thinking_signature: None,
                            redacted: None,
                        },
                    ),
                ),
                AssistantMessageEventV::ThinkingStart {
                    content_index: at,
                    thinking_signature: None,
                },
            ),
            index,
            OutputSlotV::Thinking { content_index: at },
        ),
        OutputItemV::Message { .. } => with_slot(
            told(
                with_new_block(
                    ResponsesStreamV { output: phase_applied(item, s.output), ..s },
                    AssistantContentV::Text(plain_text(Seq::empty())),
                ),
                AssistantMessageEventV::TextStart { content_index: at },
            ),
            index,
            OutputSlotV::Text { content_index: at },
        ),
        OutputItemV::FunctionCall { id, call_id, name, arguments, namespace } => with_slot(
            told(
                with_new_block(
                    s,
                    AssistantContentV::ToolCall(
                        ToolCallV {
                            id: composite_id(call_id, id),
                            name,
                            arguments: JsonV::Object(Seq::empty()),
                            thought_signature: None,
                            namespace,
                        },
                    ),
                ),
                AssistantMessageEventV::ToolCallStart {
                    content_index: at,
                    id: composite_id(call_id, id),
                    tool_name: name,
                    namespace,
                },
            ),
            index,
            OutputSlotV::FunctionCall { content_index: at, partial_json: arguments },
        ),
        OutputItemV::CustomToolCall { id, call_id, name, input, namespace } => with_slot(
            told(
                with_new_block(
                    s,
                    AssistantContentV::ToolCall(
                        ToolCallV {
                            id: composite_id(call_id, id),
                            name,
                            arguments: input_arguments(
                                property_of(properties, name),
                                match input {
                                    Some(input) => input,
                                    None => Seq::empty(),
                                },
                            ),
                            thought_signature: None,
                            namespace,
                        },
                    ),
                ),
                AssistantMessageEventV::ToolCallStart {
                    content_index: at,
                    id: composite_id(call_id, id),
                    tool_name: name,
                    namespace,
                },
            ),
            index,
            OutputSlotV::CustomToolCall {
                content_index: at,
                property: property_of(properties, name),
                json_buffer: Seq::empty(),
            },
        ),
        OutputItemV::Unknown => s,
    }
}

/// The block that a slot fills.
pub open spec fn slot_fits(output: AssistantMessageV, slot: OutputSlotV) -> bool {
    match slot {
        OutputSlotV::Thinking { content_index } => thinking_at(output, content_index) is Some,
        OutputSlotV::Text { content_index } => text_at(output, content_index) is Some,
        OutputSlotV::FunctionCall { content_index, .. } => call_at(output, content_index) is Some,
        OutputSlotV::CustomToolCall { content_index, .. } => call_at(
            output,
            content_index,
        ) is Some,
    }
}

/// Slots and reasoning blocks are told apart by their keys, and each slot fills a block of its
/// kind.
pub open spec fn well_formed(s: ResponsesStreamV) -> bool {
    &&& distinct(s.slots)
    &&& distinct(s.reasoning_blocks)
    &&& forall|i: int| 0 <= i < s.slots.len() ==> slot_fits(s.output, (#[trigger] s.slots[i]).1)
}

impl ResponsesStream {
    /// A stream that has brought nothing yet, for the given message.
    pub fn new(output: AssistantMessage) -> (r: Self)
        ensures
            r@ == (ResponsesStreamV {
                output: output@,
                slots: Seq::empty(),
                reasoning_blocks: Seq::empty(),
                saw_terminal: false,
                service_tier: None,
                events: Seq::empty(),
            }),
            well_formed(r@),
    {
        let r = ResponsesStream {
            output,
            slots: Vec::new(),
            reasoning_blocks: Vec::new(),
            saw_terminal: false,
            service_tier: None,
            events: Vec::new(),
        };
        assert(r.slots.deep_view() =~= Seq::empty());
        assert(r.reasoning_blocks.deep_view() =~= Seq::empty());
        assert(r.events.deep_view() =~= Seq::empty());
        r
    }

    fn tell(&mut self, event: AssistantMessageEvent)
        ensures
            final(self)@ == told(old(self)@, event@),
    {
        let ghost before = self.events.deep_view();
        self.events.push(event);
        assert(self.events.deep_view() =~= before.push(event@));
    }

    fn push_block(&mut self, block: AssistantContent) -> (r: usize)
        ensures
            final(self)@ == with_new_block(old(self)@, block@),
            r == old(self)@.output.content.len(),
    {
        let ghost before = self.output@.content;
        let at: usize = self.output.content.len();
        self.output.content.push(block);
        assert(self.output@.content =~= before.push(block@));
        at
    }

    fn create_slot(&mut self, index: u64, item: &OutputItem, properties: &Option<InputProperties>)
        ensures
            final(self)@ == opened(old(self)@, index, item@, properties.deep_view()),
    {
        proof {
            reveal(opened);
        }
        match item {
            OutputItem::Reasoning { .. } => {
                let at = self.push_block(
                    AssistantContent::Thinking(
                        ThinkingContent {
                            thinking: String::new(),
                            thinking_signature: None,
                            redacted: None,
                        },
                    ),
                );
                self.tell(
                    AssistantMessageEvent::ThinkingStart {
                        content_index: at,
                        thinking_signature: None,
                    },
                );
                assoc::insert_number(
                    &mut self.slots,
                    index,
                    OutputSlot::Thinking { content_index: at },
                );
            },
            OutputItem::Message { .. } => {
                apply_message_phase_stop_reason(item, &mut self.output);
                let at = self.push_block(AssistantContent::Text(TextContent::new("")));
                assert(""@ =~= Seq::<char>::empty()) by {
                    reveal_strlit("");
                }
                self.tell(AssistantMessageEvent::TextStart { content_index: at });
                assoc::insert_number(
                    &mut self.slots,
                    index,
                    OutputSlot::Text { content_index: at },
                );
            },
            OutputItem::FunctionCall { id, call_id, name, arguments, namespace } => {
                let composite = composite_tool_call_id(call_id.as_str(), id);
                let at = self.push_block(
                    AssistantContent::ToolCall(
                        ToolCall {
                            id: composite.clone(),
                            name: name.clone(),
                            arguments: empty_object(),
                            thought_signature: None,
                            namespace: namespace.clone(),
                        },
                    ),
                );
                self.tell(
                    AssistantMessageEvent::ToolCallStart {
                        content_index: at,
                        id: composite,
                        tool_name: name.clone(),
                        namespace: namespace.clone(),
                    },
                );
                assoc::insert_number(
                    &mut self.slots,
                    index,
                    OutputSlot::FunctionCall { content_index: at, partial_json: arguments.clone() },
                );
            },
            OutputItem::CustomToolCall { id, call_id, name, input, namespace } => {
                let composite = composite_tool_call_id(call_id.as_str(), id);
                let property = input_property(properties, name.as_str());
                let text = match input {
                    Some(input) => input.clone(),
                    None => String::new(),
                };
                let at = self.push_block(
                    AssistantContent::ToolCall(
                        ToolCall {
                            id: composite.clone(),
                            name: name.clone(),
                            arguments: make_input_arguments(property.as_str(), text.as_str()),
                            thought_signature: None,
                            namespace: namespace.clone(),
                        },
                    ),
                );
                self.tell(
                    AssistantMessageEvent::ToolCallStart {
                        content_index: at,
                        id: composite,
                        tool_name: name.clone(),
                        namespace: namespace.clone(),
                    },
                );
                assoc::insert_number(
                    &mut self.slots,
                    index,
                    OutputSlot::CustomToolCall {
                        content_index: at,
                        property,
                        json_buffer: GrammarToolInputJsonBuffer::default(),
                    },
                );
            },
            OutputItem::Unknown => {},
        }
    }
}

/// What an event does: the stream after it, and the words of the error if it fails.
pub struct Step {
    pub stream: ResponsesStreamV,
    pub error: Option<Seq<char>>,
}

/// A step that goes well.
pub open spec fn going_on(stream: ResponsesStreamV) -> Step {
    Step { stream, error: None }
}

/// A step that fails.
pub open spec fn failing(stream: ResponsesStreamV, error: Seq<char>) -> Step {
    Step { stream, error: Some(error) }
}

/// More reasoning for the slot at `index`.
#[verifier::opaque]
pub open spec fn thinking_step(s: ResponsesStreamV, index: u64, delta: Seq<char>) -> Step {
    match lookup(s.slots, index) {
        Some(OutputSlotV::Thinking { content_index }) => going_on(
            told(
                ResponsesStreamV { output: more_thinking(s.output, content_index, delta), ..s },
                AssistantMessageEventV::ThinkingDelta { content_index, delta },
            ),
        ),
        _ => going_on(s),
    }
}

/// More text for the slot at `index`.
#[verifier::opaque]
pub open spec fn text_step(s: ResponsesStreamV, index: u64, delta: Seq<char>) -> Step {
    match lookup(s.slots, index) {
        Some(OutputSlotV::Text { content_index }) => going_on(
            told(
                ResponsesStreamV { output: more_text(s.output, content_index, delta), ..s },
                AssistantMessageEventV::TextDelta { content_index, delta },
            ),
        ),
        _ => going_on(s),
    }
}

/// More arguments for the slot at `index`.
#[verifier::opaque]
pub open spec fn arguments_step<P: StreamingJson>(
    s: ResponsesStreamV,
    index: u64,
    delta: Seq<char>,
    parser: &P,
) -> Step {
    match lookup(s.slots, index) {
        Some(OutputSlotV::FunctionCall { content_index, partial_json }) => going_on(
            told(
                with_slot(
                    ResponsesStreamV {
                        output: with_arguments(
                            s.output,
                            content_index,
                            arguments_of(parser, partial_json + delta),
                        ),
                        ..s
                    },
                    index,
                    OutputSlotV::FunctionCall { content_index, partial_json: partial_json + delta },
                ),
                AssistantMessageEventV::ToolCallDelta { content_index, delta },
            ),
        ),
        _ => going_on(s),
    }
}

/// The whole arguments for the slot at `index`. The listener is told what is new in them, where
/// they go on as they began.
#[verifier::opaque]
pub open spec fn arguments_done_step<P: StreamingJson>(
    s: ResponsesStreamV,
    index: u64,
    arguments: Seq<char>,
    parser: &P,
) -> Step {
    match lookup(s.slots, index) {
        Some(OutputSlotV::FunctionCall { content_index, partial_json }) => {
            let next = with_slot(
                ResponsesStreamV {
                    output: with_arguments(
                        s.output,
                        content_index,
                        arguments_of(parser, arguments),
                    ),
                    ..s
                },
                index,
                OutputSlotV::FunctionCall { content_index, partial_json: arguments },
            );
            if begins(arguments, partial_json) && arguments.len() > partial_json.len() {
                going_on(
                    told(
                        next,
                        AssistantMessageEventV::ToolCallDelta {
                            content_index,
                            delta: arguments.skip(partial_json.len() as int),
                        },
                    ),
                )
            } else {
                going_on(next)
            }
        },
        _ => going_on(s),
    }
}

/// Tells the listener a piece of arguments, if there is one.
pub open spec fn told_delta(
    s: ResponsesStreamV,
    content_index: usize,
    delta: Option<Seq<char>>,
) -> ResponsesStreamV {
    match delta {
        Some(delta) => told(s, AssistantMessageEventV::ToolCallDelta { content_index, delta }),
        None => s,
    }
}

/// The whole input so far for the slot at `index`.
pub open spec fn input_step(
    s: ResponsesStreamV,
    index: u64,
    content_index: usize,
    property: Seq<char>,
    sent: Seq<char>,
    input: Seq<char>,
    close: bool,
) -> Step {
    let (now_sent, result) = input_delta(sent, property, input, close);
    match result {
        Err(e) => failing(s, e),
        Ok(delta) => going_on(
            told_delta(
                with_slot(
                    ResponsesStreamV {
                        output: with_arguments(
                            s.output,
                            content_index,
                            input_arguments(property, input),
                        ),
                        ..s
                    },
                    index,
                    OutputSlotV::CustomToolCall { content_index, property, json_buffer: now_sent },
                ),
                content_index,
                delta,
            ),
        ),
    }
}

/// More input for the slot at `index`.
#[verifier::opaque]
pub open spec fn input_delta_step(s: ResponsesStreamV, index: u64, delta: Seq<char>) -> Step {
    match lookup(s.slots, index) {
        Some(OutputSlotV::CustomToolCall { content_index, property, json_buffer }) => input_step(
            s,
            index,
            content_index,
            property,
            json_buffer,
            current_input(s.output, content_index, property) + delta,
            false,
        ),
        _ => going_on(s),
    }
}

/// The whole input for the slot at `index`.
#[verifier::opaque]
pub open spec fn input_done_step(s: ResponsesStreamV, index: u64, input: Seq<char>) -> Step {
    match lookup(s.slots, index) {
        Some(OutputSlotV::CustomToolCall { content_index, property, json_buffer }) => input_step(
            s,
            index,
            content_index,
            property,
            json_buffer,
            input,
            true,
        ),
        _ => going_on(s),
    }
}

impl ResponsesStream {
    fn add_thinking(&mut self, index: u64, delta: &str)
        ensures
            going_on(final(self)@) == thinking_step(old(self)@, index, delta@),
    {
        proof {
            reveal(thinking_step);
        }
        let at = assoc::find_number(&self.slots, index);
        if at < self.slots.len() {
            if let OutputSlot::Thinking { content_index } = &self.slots[at].1 {
                let content_index: usize = *content_index;
                append_thinking(&mut self.output, content_index, delta);
                self.tell(
                    AssistantMessageEvent::ThinkingDelta { content_index, delta: delta.to_owned() },
                );
            }
        }
    }

    fn add_text(&mut self, index: u64, delta: &str)
        ensures
            going_on(final(self)@) == text_step(old(self)@, index, delta@),
    {
        proof {
            reveal(text_step);
        }
        let at = assoc::find_number(&self.slots, index);
        if at < self.slots.len() {
            if let OutputSlot::Text { content_index } = &self.slots[at].1 {
                let content_index: usize = *content_index;
                append_text(&mut self.output, content_index, delta);
                self.tell(
                    AssistantMessageEvent::TextDelta { content_index, delta: delta.to_owned() },
                );
            }
        }
    }

    fn add_arguments<P: StreamingJson>(&mut self, index: u64, delta: &str, parser: &P)
        ensures
            going_on(final(self)@) == arguments_step(old(self)@, index, delta@, parser),
    {
        proof {
            reveal(arguments_step);
        }
        let at = assoc::find_number(&self.slots, index);
        if at < self.slots.len() {
            if let OutputSlot::FunctionCall { content_index, partial_json } = &self.slots[at].1 {
                let content_index: usize = *content_index;
                let partial = concat(partial_json.as_str(), delta);
                let arguments = tool_arguments(parser, partial.as_str());
                assoc::insert_number(
                    &mut self.slots,
                    index,
                    OutputSlot::FunctionCall { content_index, partial_json: partial },
                );
                set_arguments(&mut self.output, content_index, arguments);
                self.tell(
                    AssistantMessageEvent::ToolCallDelta { content_index, delta: delta.to_owned() },
                );
            }
        }
    }

    fn complete_arguments<P: StreamingJson>(&mut self, index: u64, arguments: &str, parser: &P)
        ensures
            going_on(final(self)@) == arguments_done_step(old(self)@, index, arguments@, parser),
    {
        proof {
            reveal(arguments_done_step);
        }
        let at = assoc::find_number(&self.slots, index);
        if at < self.slots.len() {
            if let OutputSlot::FunctionCall { content_index, partial_json } = &self.slots[at].1 {
                let content_index: usize = *content_index;
                let previous = partial_json.clone();
                let parsed = tool_arguments(parser, arguments);
                assoc::insert_number(
                    &mut self.slots,
                    index,
                    OutputSlot::FunctionCall { content_index, partial_json: arguments.to_owned() },
                );
                set_arguments(&mut self.output, content_index, parsed);
                if starts_with(arguments, previous.as_str()) {
                    let v = to_chars(arguments);
                    let n: usize = to_chars(previous.as_str()).len();
                    if n < v.len() {
                        let delta = from_range(&v, n, v.len());
                        assert(delta@ =~= arguments@.skip(n as int));
                        self.tell(AssistantMessageEvent::ToolCallDelta { content_index, delta });
                    }
                }
            }
        }
    }

    fn set_input(
        &mut self,
        index: u64,
        content_index: usize,
        property: &str,
        buffer: GrammarToolInputJsonBuffer,
        input: &str,
        close: bool,
    ) -> (r: Result<(), String>)
        ensures
            step_of(final(self)@, r) == input_step(
                old(self)@,
                index,
                content_index,
                property@,
                buffer@,
                input@,
                close,
            ),
    {
        let mut buffer = buffer;
        match append_grammar_tool_input_json_delta(&mut buffer, property, input, close) {
            Err(e) => Err(e),
            Ok(delta) => {
                set_arguments(
                    &mut self.output,
                    content_index,
                    make_input_arguments(property, input),
                );
                assoc::insert_number(
                    &mut self.slots,
                    index,
                    OutputSlot::CustomToolCall {
                        content_index,
                        property: property.to_owned(),
                        json_buffer: buffer,
                    },
                );
                if let Some(delta) = delta {
                    self.tell(AssistantMessageEvent::ToolCallDelta { content_index, delta });
                }
                Ok(())
            },
        }
    }

    fn add_input(&mut self, index: u64, delta: &str) -> (r: Result<(), String>)
        ensures
            step_of(final(self)@, r) == input_delta_step(old(self)@, index, delta@),
    {
        proof {
            reveal(input_delta_step);
        }
        let at = assoc::find_number(&self.slots, index);
        if at < self.slots.len() {
            if let OutputSlot::CustomToolCall { content_index, property, json_buffer } =
                &self.slots[at].1 {
                let content_index: usize = *content_index;
                let property = property.clone();
                let buffer = json_buffer.clone();
                let mut next = custom_tool_input(&self.output, content_index, property.as_str());
                next.push_str(delta);
                return self.set_input(
                    index,
                    content_index,
                    property.as_str(),
                    buffer,
                    next.as_str(),
                    false,
                );
            }
        }
        Ok(())
    }

    fn complete_input(&mut self, index: u64, input: &str) -> (r: Result<(), String>)
        ensures
            step_of(final(self)@, r) == input_done_step(old(self)@, index, input@),
    {
        proof {
            reveal(input_done_step);
        }
        let at = assoc::find_number(&self.slots, index);
        if at < self.slots.len() {
            if let OutputSlot::CustomToolCall { content_index, property, json_buffer } =
                &self.slots[at].1 {
                let content_index: usize = *content_index;
                let property = property.clone();
                let buffer = json_buffer.clone();
                return self.set_input(
                    index,
                    content_index,
                    property.as_str(),
                    buffer,
                    input,
                    true,
                );
            }
        }
        Ok(())
    }
}

/// The step that led to `stream` with the given result.
pub open spec fn step_of(stream: ResponsesStreamV, r: Result<(), String>) -> Step {
    Step {
        stream,
        error: match r {
            Ok(_) => None,
            Err(e) => Some(e@),
        },
    }
}

/// The reasoning that is kept at the end: the summary, else the content, else what has arrived.
pub open spec fn final_thinking(
    summary: Seq<Seq<char>>,
    content: Seq<Seq<char>>,
    arrived: Seq<char>,
) -> Seq<char> {
    if joined(summary, "\n\n"@).len() > 0 {
        joined(summary, "\n\n"@)
    } else if joined(content, "\n\n"@).len() > 0 {
        joined(content, "\n\n"@)
    } else {
        arrived
    }
}

/// The text of arguments at the end: what the item holds, else what has arrived, else none.
pub open spec fn final_arguments(item: Seq<char>, arrived: Seq<char>) -> Seq<char> {
    if item.len() > 0 {
        item
    } else if arrived.len() > 0 {
        arrived
    } else {
        "{}"@
    }
}

/// A call with the namespace of its item, where the item has one.
pub open spec fn named_call(call: ToolCallV, namespace: Option<Seq<char>>) -> ToolCallV {
    ToolCallV {
        namespace: match namespace {
            Some(n) => Some(n),
            None => call.namespace,
        },
        ..call
    }
}

/// The end of a reasoning item.
pub open spec fn reasoning_closed(
    s: ResponsesStreamV,
    at: usize,
    raw: JsonV,
    id: Seq<char>,
    summary: Seq<Seq<char>>,
    content: Seq<Seq<char>>,
) -> Step {
    match thinking_at(s.output, at) {
        None => failing(s, "missing thinking block"@),
        Some(t) => {
            let done = ThinkingContentV {
                thinking: final_thinking(summary, content, t.thinking),
                thinking_signature: Some(json_text(raw)),
                ..t
            };
            going_on(
                told(
                    ResponsesStreamV {
                        output: with_block(s.output, at as int, AssistantContentV::Thinking(done)),
                        reasoning_blocks: put(s.reasoning_blocks, id, at),
                        ..s
                    },
                    AssistantMessageEventV::ThinkingEnd {
                        content_index: at,
                        content: done.thinking,
                        content_signature: done.thinking_signature,
                        redacted: None,
                    },
                ),
            )
        },
    }
}

/// The end of a message item.
pub open spec fn message_closed(
    s: ResponsesStreamV,
    at: usize,
    id: Seq<char>,
    phase: Option<TextSignaturePhase>,
    content: Seq<Seq<char>>,
) -> Step {
    match text_at(s.output, at) {
        None => failing(s, "missing text block"@),
        Some(_) => {
            let done = TextContentV {
                text: joined(content, ""@),
                text_signature: Some(json_text(text_signature(id, phase))),
            };
            going_on(
                told(
                    ResponsesStreamV {
                        output: with_block(s.output, at as int, AssistantContentV::Text(done)),
                        ..s
                    },
                    AssistantMessageEventV::TextEnd {
                        content_index: at,
                        content: done.text,
                        content_signature: done.text_signature,
                    },
                ),
            )
        },
    }
}

/// The end of a call, whose arguments are in place.
pub open spec fn call_closed(s: ResponsesStreamV, at: usize, namespace: Option<Seq<char>>) -> Step {
    match call_at(s.output, at) {
        None => failing(s, "missing tool-call block"@),
        Some(c) => {
            let done = named_call(c, namespace);
            going_on(
                told(
                    ResponsesStreamV {
                        output: with_block(s.output, at as int, AssistantContentV::ToolCall(done)),
                        ..s
                    },
                    AssistantMessageEventV::ToolCallEnd { content_index: at, tool_call: done },
                ),
            )
        },
    }
}

/// The end of a custom tool call.
pub open spec fn custom_closed(
    s: ResponsesStreamV,
    at: usize,
    property: Seq<char>,
    sent: Seq<char>,
    input: Option<Seq<char>>,
    namespace: Option<Seq<char>>,
) -> Step {
    let input = match input {
        Some(input) => input,
        None => current_input(s.output, at, property),
    };
    match input_delta(sent, property, input, true).1 {
        Err(e) => failing(s, e),
        Ok(delta) => call_closed(
            told_delta(
                ResponsesStreamV {
                    output: with_arguments(s.output, at, input_arguments(property, input)),
                    ..s
                },
                at,
                delta,
            ),
            at,
            namespace,
        ),
    }
}

/// The end of an item whose slot has been taken out. A slot of another kind is put back.
pub open spec fn closed<P: StreamingJson>(
    s: ResponsesStreamV,
    index: u64,
    item: OutputItemV,
    slot: OutputSlotV,
    parser: &P,
) -> Step {
    match (item, slot) {
        (
            OutputItemV::Reasoning { raw, id, summary, content, .. },
            OutputSlotV::Thinking { content_index },
        ) => reasoning_closed(s, content_index, raw, id, summary, content),
        (OutputItemV::Message { id, phase, content }, OutputSlotV::Text { content_index }) =>
            message_closed(s, content_index, id, phase, content),
        (
            OutputItemV::FunctionCall { arguments, namespace, .. },
            OutputSlotV::FunctionCall { content_index, partial_json },
        ) => call_closed(
            ResponsesStreamV {
                output: with_arguments(
                    s.output,
                    content_index,
                    arguments_of(parser, final_arguments(arguments, partial_json)),
                ),
                ..s
            },
            content_index,
            namespace,
        ),
        (
            OutputItemV::CustomToolCall { input, namespace, .. },
            OutputSlotV::CustomToolCall { content_index, property, json_buffer },
        ) => custom_closed(s, content_index, property, json_buffer, input, namespace),
        _ => going_on(with_slot(s, index, slot)),
    }
}

/// An item is done.
#[verifier::opaque]
pub open spec fn item_done_step<P: StreamingJson>(
    s: ResponsesStreamV,
    index: u64,
    raw: JsonV,
    properties: Option<Seq<(Seq<char>, Seq<char>)>>,
    parser: &P,
) -> Step {
    match decoded_item(raw) {
        Err(e) => failing(s, e),
        Ok(item) => {
            let marked = ResponsesStreamV { output: phase_applied(item, s.output), ..s };
            let open = if lookup(s.slots, index) is None {
                opened(marked, index, item, properties)
            } else {
                marked
            };
            match lookup(open.slots, index) {
                None => going_on(open),
                Some(slot) => closed(
                    ResponsesStreamV { slots: removed(open.slots, index), ..open },
                    index,
                    item,
                    slot,
                    parser,
                ),
            }
        },
    }
}

impl ResponsesStream {
    fn close_reasoning(
        &mut self,
        at: usize,
        raw: &Json,
        id: String,
        summary: &Vec<String>,
        content: &Vec<String>,
    ) -> (r: Result<(), String>)
        ensures
            step_of(final(self)@, r) == reasoning_closed(
                old(self)@,
                at,
                raw@,
                id@,
                summary.deep_view(),
                content.deep_view(),
            ),
    {
        let summary = join(summary, "\n\n");
        let content = join(content, "\n\n");
        let signature = write_json(raw);
        if at >= self.output.content.len() {
            return Err("missing thinking block".to_owned());
        }
        let ghost before = self.output@.content;
        let thinking = match &mut self.output.content[at] {
            AssistantContent::Thinking(block) => {
                if !summary.as_str().is_empty() {
                    block.thinking = summary;
                } else if !content.as_str().is_empty() {
                    block.thinking = content;
                }
                block.thinking_signature = Some(signature.clone());
                block.thinking.clone()
            },
            _ => {
                assert(self.output@.content =~= before);
                return Err("missing thinking block".to_owned());
            },
        };
        assert(self.output@.content =~= before.update(at as int, self.output@.content[at as int]));
        assoc::insert(&mut self.reasoning_blocks, id, at);
        self.tell(
            AssistantMessageEvent::ThinkingEnd {
                content_index: at,
                content: thinking,
                content_signature: Some(signature),
                redacted: None,
            },
        );
        Ok(())
    }

    fn close_message(
        &mut self,
        at: usize,
        id: &str,
        phase: Option<TextSignaturePhase>,
        content: &Vec<String>,
    ) -> (r: Result<(), String>)
        ensures
            step_of(final(self)@, r) == message_closed(
                old(self)@,
                at,
                id@,
                phase,
                content.deep_view(),
            ),
    {
        let text = join(content, "");
        let signature = encode_text_signature_v1(id, phase);
        if at >= self.output.content.len() {
            return Err("missing text block".to_owned());
        }
        let ghost before = self.output@.content;
        match &mut self.output.content[at] {
            AssistantContent::Text(block) => {
                block.text = text.clone();
                block.text_signature = Some(signature.clone());
            },
            _ => {
                assert(self.output@.content =~= before);
                return Err("missing text block".to_owned());
            },
        }
        assert(self.output@.content =~= before.update(at as int, self.output@.content[at as int]));
        self.tell(
            AssistantMessageEvent::TextEnd {
                content_index: at,
                content: text,
                content_signature: Some(signature),
            },
        );
        Ok(())
    }

    fn close_call(&mut self, at: usize, namespace: Option<String>) -> (r: Result<(), String>)
        ensures
            step_of(final(self)@, r) == call_closed(old(self)@, at, namespace.deep_view()),
    {
        if at >= self.output.content.len() {
            return Err("missing tool-call block".to_owned());
        }
        let ghost before = self.output@.content;
        let tool_call = match &mut self.output.content[at] {
            AssistantContent::ToolCall(call) => {
                if namespace.is_some() {
                    call.namespace = namespace;
                }
                call.clone()
            },
            _ => {
                assert(self.output@.content =~= before);
                return Err("missing tool-call block".to_owned());
            },
        };
        assert(self.output@.content =~= before.update(at as int, self.output@.content[at as int]));
        self.tell(AssistantMessageEvent::ToolCallEnd { content_index: at, tool_call });
        Ok(())
    }

    fn close_custom(
        &mut self,
        at: usize,
        property: &str,
        buffer: GrammarToolInputJsonBuffer,
        input: Option<String>,
        namespace: Option<String>,
    ) -> (r: Result<(), String>)
        ensures
            step_of(final(self)@, r) == custom_closed(
                old(self)@,
                at,
                property@,
                buffer@,
                input.deep_view(),
                namespace.deep_view(),
            ),
    {
        let mut buffer = buffer;
        let input = match input {
            Some(input) => input,
            None => custom_tool_input(&self.output, at, property),
        };
        match append_grammar_tool_input_json_delta(&mut buffer, property, input.as_str(), true) {
            Err(e) => Err(e),
            Ok(delta) => {
                set_arguments(
                    &mut self.output,
                    at,
                    make_input_arguments(property, input.as_str()),
                );
                if let Some(delta) = delta {
                    self.tell(AssistantMessageEvent::ToolCallDelta { content_index: at, delta });
                }
                self.close_call(at, namespace)
            },
        }
    }

    fn close_item<P: StreamingJson>(
        &mut self,
        index: u64,
        item: OutputItem,
        slot: OutputSlot,
        parser: &P,
    ) -> (r: Result<(), String>)
        ensures
            step_of(final(self)@, r) == closed(old(self)@, index, item@, slot@, parser),
    {
        match (item, slot) {
            (
                OutputItem::Reasoning { raw, id, summary, content, encrypted_content },
                OutputSlot::Thinking { content_index },
            ) => self.close_reasoning(content_index, &raw, id, &summary, &content),
            (OutputItem::Message { id, phase, content }, OutputSlot::Text { content_index }) =>
                self.close_message(content_index, id.as_str(), phase, &content),
            (
                OutputItem::FunctionCall { id, call_id, name, arguments, namespace },
                OutputSlot::FunctionCall { content_index, partial_json },
            ) => {
                let text = if !arguments.as_str().is_empty() {
                    arguments
                } else if !partial_json.as_str().is_empty() {
                    partial_json
                } else {
                    "{}".to_owned()
                };
                let parsed = tool_arguments(parser, text.as_str());
                set_arguments(&mut self.output, content_index, parsed);
                self.close_call(content_index, namespace)
            },
            (
                OutputItem::CustomToolCall { id, call_id, name, input, namespace },
                OutputSlot::CustomToolCall { content_index, property, json_buffer },
            ) => self.close_custom(
                content_index,
                property.as_str(),
                json_buffer,
                input,
                namespace,
            ),
            (_, slot) => {
                assoc::insert_number(&mut self.slots, index, slot);
                Ok(())
            },
        }
    }

    fn finish_item<P: StreamingJson>(
        &mut self,
        index: u64,
        raw: &Json,
        properties: &Option<InputProperties>,
        parser: &P,
    ) -> (r: Result<(), String>)
        ensures
            step_of(final(self)@, r) == item_done_step(
                old(self)@,
                index,
                raw@,
                properties.deep_view(),
                parser,
            ),
    {
        proof {
            reveal(item_done_step);
        }
        let item = match decode_output_item(raw) {
            Ok(item) => item,
            Err(e) => {
                return Err(e);
            },
        };
        apply_message_phase_stop_reason(&item, &mut self.output);
        let at = assoc::find_number(&self.slots, index);
        if at >= self.slots.len() {
            self.create_slot(index, &item, properties);
        }
        match assoc::remove_number(&mut self.slots, index) {
            None => Ok(()),
            Some(slot) => self.close_item(index, item, slot, parser),
        }
    }
}

/// How the service tier of a response is told.
#[derive(Clone, Copy, Debug, PartialEq, Eq, Structural)]
pub enum ServiceTierRule {
    /// What the response says, else what the request asked for.
    Echoed,
    /// As [`ServiceTierRule::Echoed`], but a flexible or priority request outweighs a response
    /// that says nothing but the standard tier.
    Codex,
    /// What the response says, and no more: the caller decides.
    Said,
}

/// What the caller of the stream decides.
#[derive(Debug, PartialEq)]
pub struct OpenAIResponsesStreamOptions {
    /// The service tier that the request asked for.
    pub service_tier: Option<Option<ResponseServiceTier>>,
    pub service_tier_rule: ServiceTierRule,
    pub grammar_tool_input_properties: Option<InputProperties>,
    /// Whether the turn takes over what the response says of its end.
    pub capture_end_turn: bool,
}

/// The model of [`OpenAIResponsesStreamOptions`].
pub struct OpenAIResponsesStreamOptionsV {
    pub service_tier: Option<Option<ResponseServiceTierV>>,
    pub service_tier_rule: ServiceTierRule,
    pub grammar_tool_input_properties: Option<Seq<(Seq<char>, Seq<char>)>>,
    pub capture_end_turn: bool,
}

impl View for OpenAIResponsesStreamOptions {
    type V = OpenAIResponsesStreamOptionsV;

    open spec fn view(&self) -> OpenAIResponsesStreamOptionsV {
        OpenAIResponsesStreamOptionsV {
            service_tier: self.service_tier.deep_view(),
            service_tier_rule: self.service_tier_rule,
            grammar_tool_input_properties: self.grammar_tool_input_properties.deep_view(),
            capture_end_turn: self.capture_end_turn,
        }
    }
}

impl Default for OpenAIResponsesStreamOptions {
    fn default() -> (r: Self)
        ensures
            r.service_tier is None,
            r.service_tier_rule == ServiceTierRule::Echoed,
            r.grammar_tool_input_properties is None,
            !r.capture_end_turn,
    {
        OpenAIResponsesStreamOptions {
            service_tier: None,
            service_tier_rule: ServiceTierRule::Echoed,
            grammar_tool_input_properties: None,
            capture_end_turn: false,
        }
    }
}

/// The tier that the response names, else the one that the request asked for.
pub open spec fn echoed_tier(
    response: Option<Option<ResponseServiceTierV>>,
    request: Option<Option<ResponseServiceTierV>>,
) -> Option<Option<ResponseServiceTierV>> {
    match response {
        Some(Some(tier)) => response,
        _ => request,
    }
}

/// The tier that a Codex response was served at.
pub open spec fn codex_tier(
    response: Option<Option<ResponseServiceTierV>>,
    request: Option<Option<ResponseServiceTierV>>,
) -> Option<Option<ResponseServiceTierV>> {
    match (response, request) {
        (
            Some(Some(ResponseServiceTierV::Standard)),
            Some(Some(ResponseServiceTierV::Flex | ResponseServiceTierV::Priority)),
        ) => request,
        _ => echoed_tier(response, request),
    }
}

/// The tier that a response was served at.
pub open spec fn tier_by_rule(
    rule: ServiceTierRule,
    response: Option<Option<ResponseServiceTierV>>,
    request: Option<Option<ResponseServiceTierV>>,
) -> Option<Option<ResponseServiceTierV>> {
    match rule {
        ServiceTierRule::Echoed => echoed_tier(response, request),
        ServiceTierRule::Codex => codex_tier(response, request),
        ServiceTierRule::Said => response,
    }
}

/// A tier once more.
pub fn copy_tier(tier: &Option<Option<ResponseServiceTier>>) -> (r: Option<
    Option<ResponseServiceTier>,
>)
    ensures
        r.deep_view() == tier.deep_view(),
{
    match tier {
        None => None,
        Some(None) => Some(None),
        Some(Some(t)) => Some(Some(t.clone())),
    }
}

/// The tier that the response names, else the one that the request asked for.
pub fn resolve_service_tier(
    response: &Option<Option<ResponseServiceTier>>,
    request: &Option<Option<ResponseServiceTier>>,
) -> (r: Option<Option<ResponseServiceTier>>)
    ensures
        r.deep_view() == echoed_tier(response.deep_view(), request.deep_view()),
{
    match response {
        Some(Some(_)) => copy_tier(response),
        _ => copy_tier(request),
    }
}

/// The tier that a Codex response was served at.
pub fn resolve_codex_service_tier(
    response: &Option<Option<ResponseServiceTier>>,
    request: &Option<Option<ResponseServiceTier>>,
) -> (r: Option<Option<ResponseServiceTier>>)
    ensures
        r.deep_view() == codex_tier(response.deep_view(), request.deep_view()),
{
    if let Some(Some(ResponseServiceTier::Standard)) = response {
        match request {
            Some(Some(ResponseServiceTier::Flex)) => {
                return copy_tier(request);
            },
            Some(Some(ResponseServiceTier::Priority)) => {
                return copy_tier(request);
            },
            _ => {},
        }
    }
    resolve_service_tier(response, request)
}

/// The stop reason of a response with the given status, and the words of its error if there is
/// one; an error where the status is not known.
pub open spec fn stop_of_status(status: Option<Seq<char>>, reason: Option<Seq<char>>) -> Result<
    (StopReason, Option<Seq<char>>),
    Seq<char>,
> {
    match status {
        None => Ok((StopReason::Stop, None)),
        Some(status) => if status == "completed"@ || status == "in_progress"@ || status
            == "queued"@ {
            Ok((StopReason::Stop, None))
        } else if status == "incomplete"@ {
            match reason {
                Some(reason) => if reason == "max_output_tokens"@ {
                    Ok((StopReason::Length, None))
                } else {
                    Ok((StopReason::Error, Some("Response incomplete: "@ + reason)))
                },
                None => Ok(
                    (
                        StopReason::Error,
                        Some("Response incomplete without a provider reason"@),
                    ),
                ),
            }
        } else if status == "failed"@ || status == "cancelled"@ {
            Ok((StopReason::Error, None))
        } else {
            Err("Unhandled stop reason: "@ + status)
        },
    }
}

/// The stop reason of a response with the given status.
pub fn map_stop_reason(status: &Option<String>, reason: &Option<String>) -> (r: Result<
    (StopReason, Option<String>),
    String,
>)
    ensures
        outcome(r) == stop_of_status(status.deep_view(), reason.deep_view()),
{
    let status = match status {
        None => {
            return Ok((StopReason::Stop, None));
        },
        Some(status) => status.as_str(),
    };
    if same(status, "completed") || same(status, "in_progress") || same(status, "queued") {
        Ok((StopReason::Stop, None))
    } else if same(status, "incomplete") {
        match reason {
            Some(reason) => if same(reason.as_str(), "max_output_tokens") {
                Ok((StopReason::Length, None))
            } else {
                Ok((StopReason::Error, Some(concat("Response incomplete: ", reason.as_str()))))
            },
            None => Ok(
                (
                    StopReason::Error,
                    Some("Response incomplete without a provider reason".to_owned()),
                ),
            ),
        }
    } else if same(status, "failed") || same(status, "cancelled") {
        Ok((StopReason::Error, None))
    } else {
        Err(concat("Unhandled stop reason: ", status))
    }
}

/// A message in which the reasoning block of an item has got the item's encrypted content, if it
/// had none.
pub open spec fn backfilled(
    output: AssistantMessageV,
    blocks: Seq<(Seq<char>, usize)>,
    item: OutputItemV,
) -> AssistantMessageV {
    match item {
        OutputItemV::Reasoning { id, encrypted_content: Some(encrypted), .. } => match lookup(
            blocks,
            id,
        ) {
            Some(at) => match thinking_at(output, at) {
                Some(t) => match t.thinking_signature {
                    Some(signature) => match json_parse(signature) {
                        Ok(JsonV::Object(fields)) => if encrypted.len() > 0 && !present(
                            text_of(lookup(fields, "encrypted_content"@)),
                        ) {
                            with_block(
                                output,
                                at as int,
                                AssistantContentV::Thinking(
                                    ThinkingContentV {
                                        thinking_signature: Some(
                                            json_text(
                                                JsonV::Object(
                                                    put(
                                                        fields,
                                                        "encrypted_content"@,
                                                        JsonV::Str(encrypted),
                                                    ),
                                                ),
                                            ),
                                        ),
                                        ..t
                                    },
                                ),
                            )
                        } else {
                            output
                        },
                        _ => output,
                    },
                    None => output,
                },
                None => output,
            },
            None => output,
        },
        _ => output,
    }
}

/// A message after all items of a response have been looked at, up to the first that cannot be
/// read.
pub open spec fn backfilled_all(
    output: AssistantMessageV,
    blocks: Seq<(Seq<char>, usize)>,
    items: Seq<JsonV>,
) -> (AssistantMessageV, Option<Seq<char>>)
    decreases items.len(),
{
    if items.len() == 0 {
        (output, None)
    } else {
        let (rest, error) = backfilled_all(output, blocks, items.drop_last());
        if error is Some {
            (rest, error)
        } else {
            match decoded_item(items.last()) {
                Err(e) => (rest, Some(e)),
                Ok(item) => (backfilled(rest, blocks, item), None),
            }
        }
    }
}

proof fn lemma_backfill_fail(
    output: AssistantMessageV,
    blocks: Seq<(Seq<char>, usize)>,
    items: Seq<JsonV>,
    n: int,
)
    requires
        0 <= n <= items.len(),
        backfilled_all(output, blocks, items.take(n)).1 is Some,
    ensures
        backfilled_all(output, blocks, items) == backfilled_all(output, blocks, items.take(n)),
    decreases items.len(),
{
    if n < items.len() {
        assert(items.drop_last().take(n) =~= items.take(n));
        lemma_backfill_fail(output, blocks, items.drop_last(), n);
    } else {
        assert(items.take(n) =~= items);
    }
}

/// The usage that a response reports.
pub open spec fn reported_usage(u: ResponseUsageV) -> UsageV {
    let left = if u.input_tokens >= u.cached_tokens {
        u.input_tokens - u.cached_tokens
    } else {
        0
    };
    let input = if left >= u.cache_write_tokens {
        left - u.cache_write_tokens
    } else {
        0
    };
    UsageV {
        input: UsageValueV::Count(input as u64),
        output: UsageValueV::Count(u.output_tokens),
        cache_read: UsageValueV::Count(u.cached_tokens),
        cache_write: UsageValueV::Count(u.cache_write_tokens),
        reasoning: Some(UsageValueV::Count(u.reasoning_tokens)),
        total_tokens: UsageValueV::Count(u.total_tokens),
    }
}

fn usage_of(u: &ResponseUsage) -> (r: Usage)
    ensures
        r@ == reported_usage(u@),
{
    let left: u64 = if u.input_tokens >= u.cached_tokens {
        u.input_tokens - u.cached_tokens
    } else {
        0
    };
    let input: u64 = if left >= u.cache_write_tokens {
        left - u.cache_write_tokens
    } else {
        0
    };
    Usage {
        input: UsageValue::Count(input),
        output: UsageValue::Count(u.output_tokens),
        cache_read: UsageValue::Count(u.cached_tokens),
        cache_write: UsageValue::Count(u.cache_write_tokens),
        reasoning: Some(UsageValue::Count(u.reasoning_tokens)),
        total_tokens: UsageValue::Count(u.total_tokens),
    }
}

/// The provider's word for the stop reason: the status, with the reason if it is incomplete.
pub open spec fn raw_reason(status: Option<Seq<char>>, reason: Option<Seq<char>>) -> Option<
    Seq<char>,
> {
    match (status, reason) {
        (Some(status), Some(reason)) => Some(status + "."@ + reason),
        (Some(status), None) => Some(status),
        (None, _) => None,
    }
}

/// Whether there is a tool call among the blocks.
pub open spec fn has_call(content: Seq<AssistantContentV>) -> bool {
    exists|i: int| 0 <= i < content.len() && #[trigger] content[i] is ToolCall
}

/// Whether there is a tool call among the blocks.
pub fn has_tool_call(content: &Vec<AssistantContent>) -> (r: bool)
    ensures
        r == has_call(content.deep_view()),
{
    let mut i: usize = 0;
    while i < content.len()
        invariant
            i <= content@.len(),
            forall|k: int| 0 <= k < i ==> !(#[trigger] content.deep_view()[k] is ToolCall),
        decreases content@.len() - i,
    {
        if let AssistantContent::ToolCall(_) = &content[i] {
            assert(content.deep_view()[i as int] is ToolCall);
            return true;
        }
        i += 1;
    }
    false
}

/// The end of a response.
#[verifier::opaque]
pub open spec fn finalized(
    s: ResponsesStreamV,
    response: TerminalResponseV,
    options: OpenAIResponsesStreamOptionsV,
) -> Step {
    let (filled, error) = backfilled_all(s.output, s.reasoning_blocks, response.output);
    match error {
        Some(e) => failing(ResponsesStreamV { output: filled, ..s }, e),
        None => {
            let counted = AssistantMessageV {
                response_id: match response.id {
                    Some(id) => Some(id),
                    None => filled.response_id,
                },
                usage: match response.usage {
                    Some(u) => reported_usage(u),
                    None => filled.usage,
                },
                raw_stop_reason: raw_reason(response.status, response.incomplete_reason),
                end_turn: if options.capture_end_turn {
                    response.end_turn
                } else {
                    filled.end_turn
                },
                ..filled
            };
            let tier = tier_by_rule(
                options.service_tier_rule,
                response.service_tier,
                options.service_tier,
            );
            let priced = ResponsesStreamV { service_tier: tier, output: counted, ..s };
            match stop_of_status(response.status, response.incomplete_reason) {
                Err(e) => failing(priced, e),
                Ok((stop, error_message)) => going_on(
                    ResponsesStreamV {
                        output: AssistantMessageV {
                            stop_reason: if stop == StopReason::Stop && has_call(counted.content) {
                                StopReason::ToolUse
                            } else {
                                stop
                            },
                            error_message,
                            ..counted
                        },
                        ..priced
                    },
                ),
            }
        },
    }
}

fn backfill(
    output: &mut AssistantMessage,
    blocks: &Vec<(String, usize)>,
    item: OutputItem,
)
    ensures
        final(output)@ == backfilled(old(output)@, blocks.deep_view(), item@),
{
    let (id, encrypted) = match item {
        OutputItem::Reasoning { raw, id, summary, content, encrypted_content } =>
            match encrypted_content {
                Some(encrypted) => (id, encrypted),
                None => {
                    return;
                },
            },
        _ => {
            return;
        },
    };
    if encrypted.as_str().is_empty() {
        return;
    }
    let at: usize = match assoc::get(blocks, id.as_str()) {
        Some(at) => *at,
        None => {
            return;
        },
    };
    if at >= output.content.len() {
        return;
    }
    let ghost before = output@.content;
    if let AssistantContent::Thinking(block) = &mut output.content[at] {
        if let Some(signature) = &block.thinking_signature {
            if let Ok(Json::Object(fields)) = parse_json(signature.as_str()) {
                let ghost model = fields.deep_view();
                assert(json_parse(signature@)->Ok_0->Object_0 =~= model);
                let mut fields = fields;
                let known = match assoc::get(&fields, "encrypted_content") {
                    Some(Json::Str(value)) => !value.as_str().is_empty(),
                    _ => false,
                };
                if !known {
                    assoc::insert(
                        &mut fields,
                        "encrypted_content".to_owned(),
                        Json::Str(encrypted),
                    );
                    let stored = object(fields);
                    block.thinking_signature = Some(write_json(&stored));
                }
            }
        }
    }
    assert(output@.content =~= backfilled(old(output)@, blocks.deep_view(), item@).content);
}

fn backfill_all(
    output: &mut AssistantMessage,
    blocks: &Vec<(String, usize)>,
    items: &Vec<Json>,
) -> (r: Result<(), String>)
    ensures
        (final(output)@, error_of(r)) == backfilled_all(
            old(output)@,
            blocks.deep_view(),
            items.deep_view(),
        ),
{
    let ghost all = items.deep_view();
    let ghost start = output@;
    let mut i: usize = 0;
    assert(all.take(0) =~= Seq::empty());
    while i < items.len()
        invariant
            all == items.deep_view(),
            start == old(output)@,
            i <= items@.len(),
            (output@, None::<Seq<char>>) == backfilled_all(
                start,
                blocks.deep_view(),
                all.take(i as int),
            ),
        decreases items@.len() - i,
    {
        assert(all.take(i + 1).drop_last() =~= all.take(i as int));
        assert(all.take(i + 1).last() == items@[i as int]@);
        match decode_output_item(&items[i]) {
            Err(e) => {
                proof {
                    lemma_backfill_fail(start, blocks.deep_view(), all, i + 1);
                }
                return Err(e);
            },
            Ok(item) => {
                backfill(output, blocks, item);
            },
        }
        i += 1;
    }
    assert(all.take(i as int) =~= all);
    Ok(())
}

/// The words of an error, if there is one.
pub open spec fn error_of<T>(r: Result<T, String>) -> Option<Seq<char>> {
    match r {
        Ok(_) => None,
        Err(e) => Some(e@),
    }
}

impl ResponsesStream {
    fn finalize_response(
        &mut self,
        response: TerminalResponse,
        options: &OpenAIResponsesStreamOptions,
    ) -> (r: Result<(), String>)
        ensures
            step_of(final(self)@, r) == finalized(old(self)@, response@, options@),
    {
        proof {
            reveal(finalized);
        }
        let ghost model = response@;
        match backfill_all(&mut self.output, &self.reasoning_blocks, &response.output) {
            Ok(()) => {},
            Err(e) => {
                return Err(e);
            },
        }
        if let Some(id) = &response.id {
            self.output.response_id = Some(id.clone());
        }
        if let Some(usage) = &response.usage {
            self.output.usage = usage_of(usage);
        }
        if options.capture_end_turn {
            self.output.end_turn = response.end_turn;
        }
        self.service_tier = match options.service_tier_rule {
            ServiceTierRule::Echoed => resolve_service_tier(
                &response.service_tier,
                &options.service_tier,
            ),
            ServiceTierRule::Codex => resolve_codex_service_tier(
                &response.service_tier,
                &options.service_tier,
            ),
            ServiceTierRule::Said => copy_tier(&response.service_tier),
        };
        self.output.raw_stop_reason = match (&response.status, &response.incomplete_reason) {
            (Some(status), Some(reason)) => {
                let mut raw = concat(status.as_str(), ".");
                raw.push_str(reason.as_str());
                Some(raw)
            },
            (Some(status), None) => Some(status.clone()),
            (None, _) => None,
        };
        match map_stop_reason(&response.status, &response.incomplete_reason) {
            Err(e) => Err(e),
            Ok((stop, error_message)) => {
                self.output.stop_reason = stop;
                self.output.error_message = error_message;
                if stop == StopReason::Stop && has_tool_call(&self.output.content) {
                    self.output.stop_reason = StopReason::ToolUse;
                }
                Ok(())
            },
        }
    }
}

/// A text that may be null or absent, as JavaScript writes it.
pub open spec fn nullable_text(v: Option<Option<Seq<char>>>) -> Seq<char> {
    match v {
        None => "undefined"@,
        Some(None) => "null"@,
        Some(Some(s)) => s,
    }
}

fn js_nullable_string(v: &Option<Option<String>>) -> (r: String)
    ensures
        r@ == nullable_text(v.deep_view()),
{
    match v {
        None => "undefined".to_owned(),
        Some(None) => "null".to_owned(),
        Some(Some(s)) => s.clone(),
    }
}

/// A text, or another where it is empty or absent.
pub open spec fn text_or(v: Option<Seq<char>>, other: Seq<char>) -> Seq<char> {
    match v {
        Some(s) => if s.len() > 0 {
            s
        } else {
            other
        },
        None => other,
    }
}

fn text_or_else(v: &Option<String>, other: &str) -> (r: String)
    ensures
        r@ == text_or(v.deep_view(), other@),
{
    match v {
        Some(s) => if !s.as_str().is_empty() {
            s.clone()
        } else {
            other.to_owned()
        },
        None => other.to_owned(),
    }
}

/// The words of the error of a response that failed.
#[verifier::opaque]
pub open spec fn failure_text(response: TerminalResponseV) -> Seq<char> {
    match response.error {
        Some(f) => text_or(f.code, "unknown"@) + ": "@ + text_or(f.message, "no message"@),
        None => match response.incomplete_reason {
            Some(reason) => "incomplete: "@ + reason,
            None => "Unknown error (no error details in response)"@,
        },
    }
}

fn failure_message(response: &TerminalResponse) -> (r: String)
    ensures
        r@ == failure_text(response@),
{
    proof {
        reveal(failure_text);
    }
    match &response.error {
        Some(f) => {
            let mut r = text_or_else(&f.code, "unknown");
            let message = text_or_else(&f.message, "no message");
            r.push_str(": ");
            r.push_str(message.as_str());
            r
        },
        None => match &response.incomplete_reason {
            Some(reason) => concat("incomplete: ", reason.as_str()),
            None => "Unknown error (no error details in response)".to_owned(),
        },
    }
}

/// What a decoded event does.
pub open spec fn event_step<P: StreamingJson>(
    s: ResponsesStreamV,
    event: DecodedResponseEventV,
    options: OpenAIResponsesStreamOptionsV,
    parser: &P,
) -> Step {
    match event {
        DecodedResponseEventV::Created { id } => going_on(
            ResponsesStreamV {
                output: AssistantMessageV {
                    response_id: match id {
                        Some(id) => Some(id),
                        None => s.output.response_id,
                    },
                    ..s.output
                },
                ..s
            },
        ),
        DecodedResponseEventV::OutputItemAdded { output_index, item } => match decoded_item(item) {
            Err(e) => failing(s, e),
            Ok(item) => going_on(
                opened(s, output_index, item, options.grammar_tool_input_properties),
            ),
        },
        DecodedResponseEventV::ReasoningDelta { output_index, delta } => thinking_step(
            s,
            output_index,
            delta,
        ),
        DecodedResponseEventV::ReasoningSummaryPartDone { output_index } => thinking_step(
            s,
            output_index,
            "\n\n"@,
        ),
        DecodedResponseEventV::TextDelta { output_index, delta } => text_step(
            s,
            output_index,
            delta,
        ),
        DecodedResponseEventV::FunctionArgumentsDelta { output_index, delta } => arguments_step(
            s,
            output_index,
            delta,
            parser,
        ),
        DecodedResponseEventV::FunctionArgumentsDone { output_index, arguments } =>
            arguments_done_step(s, output_index, arguments, parser),
        DecodedResponseEventV::CustomInputDelta { output_index, delta } => input_delta_step(
            s,
            output_index,
            delta,
        ),
        DecodedResponseEventV::CustomInputDone { output_index, input } => input_done_step(
            s,
            output_index,
            input,
        ),
        DecodedResponseEventV::OutputItemDone { output_index, item } => item_done_step(
            s,
            output_index,
            item,
            options.grammar_tool_input_properties,
            parser,
        ),
        DecodedResponseEventV::Finished { response } => finalized(
            ResponsesStreamV { saw_terminal: true, ..s },
            response,
            options,
        ),
        DecodedResponseEventV::Failed { response } => failing(
            ResponsesStreamV {
                output: AssistantMessageV { raw_stop_reason: response.status, ..s.output },
                ..s
            },
            failure_text(response),
        ),
        DecodedResponseEventV::Error { code, message } => failing(
            s,
            "Error Code "@ + nullable_text(code) + ": "@ + nullable_text(message),
        ),
        DecodedResponseEventV::Unknown => going_on(s),
    }
}

/// What an event does, as it comes from the stream.
pub open spec fn stream_step<P: StreamingJson>(
    s: ResponsesStreamV,
    event: JsonV,
    options: OpenAIResponsesStreamOptionsV,
    parser: &P,
) -> Step {
    match decoded_event(event) {
        Err(e) => failing(s, e),
        Ok(event) => event_step(s, event, options, parser),
    }
}

impl ResponsesStream {
    fn apply<P: StreamingJson>(
        &mut self,
        event: DecodedResponseEvent,
        options: &OpenAIResponsesStreamOptions,
        parser: &P,
    ) -> (r: Result<(), String>)
        ensures
            step_of(final(self)@, r) == event_step(old(self)@, event@, options@, parser),
    {
        match event {
            DecodedResponseEvent::Created { id } => {
                if id.is_some() {
                    self.output.response_id = id;
                }
                Ok(())
            },
            DecodedResponseEvent::OutputItemAdded { output_index, item } =>
                match decode_output_item(&item) {
                    Err(e) => Err(e),
                    Ok(item) => {
                        self.create_slot(
                            output_index,
                            &item,
                            &options.grammar_tool_input_properties,
                        );
                        Ok(())
                    },
                },
            DecodedResponseEvent::ReasoningDelta { output_index, delta } => {
                self.add_thinking(output_index, delta.as_str());
                Ok(())
            },
            DecodedResponseEvent::ReasoningSummaryPartDone { output_index } => {
                self.add_thinking(output_index, "\n\n");
                Ok(())
            },
            DecodedResponseEvent::TextDelta { output_index, delta } => {
                self.add_text(output_index, delta.as_str());
                Ok(())
            },
            DecodedResponseEvent::FunctionArgumentsDelta { output_index, delta } => {
                self.add_arguments(output_index, delta.as_str(), parser);
                Ok(())
            },
            DecodedResponseEvent::FunctionArgumentsDone { output_index, arguments } => {
                self.complete_arguments(output_index, arguments.as_str(), parser);
                Ok(())
            },
            DecodedResponseEvent::CustomInputDelta { output_index, delta } => self.add_input(
                output_index,
                delta.as_str(),
            ),
            DecodedResponseEvent::CustomInputDone { output_index, input } => self.complete_input(
                output_index,
                input.as_str(),
            ),
            DecodedResponseEvent::OutputItemDone { output_index, item } => self.finish_item(
                output_index,
                &item,
                &options.grammar_tool_input_properties,
                parser,
            ),
            DecodedResponseEvent::Finished { response } => {
                self.saw_terminal = true;
                self.finalize_response(response, options)
            },
            DecodedResponseEvent::Failed { response } => {
                self.output.raw_stop_reason = response.status.clone();
                Err(failure_message(&response))
            },
            DecodedResponseEvent::Error { code, message } => {
                let code = js_nullable_string(&code);
                let message = js_nullable_string(&message);
                let mut e = concat("Error Code ", code.as_str());
                e.push_str(": ");
                e.push_str(message.as_str());
                Err(e)
            },
            DecodedResponseEvent::Unknown => Ok(()),
        }
    }
}

/// Whether two blocks are of one kind.
pub open spec fn same_kind(a: AssistantContentV, b: AssistantContentV) -> bool {
    &&& a is Text <==> b is Text
    &&& a is Thinking <==> b is Thinking
    &&& a is ToolCall <==> b is ToolCall
}

/// Whether all blocks of `a` are still there in `b`, each of its kind.
pub open spec fn kinds_kept(a: AssistantMessageV, b: AssistantMessageV) -> bool {
    &&& a.content.len() <= b.content.len()
    &&& forall|i: int|
        0 <= i < a.content.len() ==> same_kind(#[trigger] a.content[i], b.content[i])
}

/// Whether `b` comes after `a`: no block is gone or of another kind, nothing that the listener was
/// told is taken back, and slots stay well formed.
pub open spec fn follows(a: ResponsesStreamV, b: ResponsesStreamV) -> bool {
    &&& kinds_kept(a.output, b.output)
    &&& a.events.is_prefix_of(b.events)
    &&& well_formed(a) ==> well_formed(b)
}

proof fn lemma_fits(a: AssistantMessageV, b: AssistantMessageV, slot: OutputSlotV)
    requires
        kinds_kept(a, b),
        slot_fits(a, slot),
    ensures
        slot_fits(b, slot),
{
    match slot {
        OutputSlotV::Thinking { content_index } => {
            assert(same_kind(a.content[content_index as int], b.content[content_index as int]));
        },
        OutputSlotV::Text { content_index } => {
            assert(same_kind(a.content[content_index as int], b.content[content_index as int]));
        },
        OutputSlotV::FunctionCall { content_index, .. } => {
            assert(same_kind(a.content[content_index as int], b.content[content_index as int]));
        },
        OutputSlotV::CustomToolCall { content_index, .. } => {
            assert(same_kind(a.content[content_index as int], b.content[content_index as int]));
        },
    }
}

/// A stream whose slots are those of `a` follows it, if its blocks and events do.
proof fn lemma_follows_same_slots(a: ResponsesStreamV, b: ResponsesStreamV)
    requires
        kinds_kept(a.output, b.output),
        a.events.is_prefix_of(b.events),
        a.slots == b.slots,
        distinct(a.reasoning_blocks) ==> distinct(b.reasoning_blocks),
    ensures
        follows(a, b),
{
    if well_formed(a) {
        assert forall|i: int| 0 <= i < b.slots.len() implies slot_fits(
            b.output,
            (#[trigger] b.slots[i]).1,
        ) by {
            lemma_fits(a.output, b.output, a.slots[i].1);
        }
    }
}

/// A stream with one slot more or another one follows, if the slot fits.
proof fn lemma_follows_put(
    a: ResponsesStreamV,
    b: ResponsesStreamV,
    index: u64,
    slot: OutputSlotV,
)
    requires
        kinds_kept(a.output, b.output),
        a.events.is_prefix_of(b.events),
        b.slots == put(a.slots, index, slot),
        well_formed(a) ==> slot_fits(b.output, slot),
        distinct(a.reasoning_blocks) ==> distinct(b.reasoning_blocks),
    ensures
        follows(a, b),
{
    if well_formed(a) {
        assoc::lemma_put_distinct(a.slots, index, slot);
        assert forall|i: int| 0 <= i < b.slots.len() implies slot_fits(
            b.output,
            (#[trigger] b.slots[i]).1,
        ) by {
            if b.slots[i].1 != slot {
                lemma_fits(a.output, b.output, a.slots[i].1);
            }
        }
    }
}

proof fn lemma_follows_transitive(a: ResponsesStreamV, b: ResponsesStreamV, c: ResponsesStreamV)
    requires
        follows(a, b),
        follows(b, c),
    ensures
        follows(a, c),
{
    assert forall|i: int| 0 <= i < a.output.content.len() implies same_kind(
        #[trigger] a.output.content[i],
        c.output.content[i],
    ) by {
        assert(same_kind(a.output.content[i], b.output.content[i]));
        assert(same_kind(b.output.content[i], c.output.content[i]));
    }
    assert(a.events.is_prefix_of(c.events)) by {
        assert(a.events =~= c.events.subrange(0, a.events.len() as int));
    }
}

proof fn lemma_prefix_refl<A>(s: Seq<A>)
    ensures
        s.is_prefix_of(s),
{
    assert(s.subrange(0, s.len() as int) =~= s);
}

proof fn lemma_prefix_push<A>(s: Seq<A>, a: A)
    ensures
        s.is_prefix_of(s.push(a)),
{
    assert(s.push(a).subrange(0, s.len() as int) =~= s);
}

proof fn lemma_opened_follows(
    s: ResponsesStreamV,
    index: u64,
    item: OutputItemV,
    properties: Option<Seq<(Seq<char>, Seq<char>)>>,
)
    requires
        s.output.content.len() <= usize::MAX,
    ensures
        follows(s, opened(s, index, item, properties)),
{
    reveal(opened);
    let t = opened(s, index, item, properties);
    lemma_prefix_refl(s.events);
    if item is Unknown {
        lemma_follows_same_slots(s, t);
    } else {
        lemma_prefix_push(s.events, t.events.last());
        assert(t.events =~= s.events.push(t.events.last()));
        let slot = match item {
            OutputItemV::Reasoning { .. } => OutputSlotV::Thinking {
                content_index: s.output.content.len() as usize,
            },
            OutputItemV::Message { .. } => OutputSlotV::Text {
                content_index: s.output.content.len() as usize,
            },
            OutputItemV::FunctionCall { arguments, .. } => OutputSlotV::FunctionCall {
                content_index: s.output.content.len() as usize,
                partial_json: arguments,
            },
            OutputItemV::CustomToolCall { name, .. } => OutputSlotV::CustomToolCall {
                content_index: s.output.content.len() as usize,
                property: property_of(properties, name),
                json_buffer: Seq::empty(),
            },
            OutputItemV::Unknown => arbitrary(),
        };
        lemma_follows_put(s, t, index, slot);
    }
}

proof fn lemma_slot_at(s: ResponsesStreamV, index: u64)
    requires
        well_formed(s),
        lookup(s.slots, index) is Some,
    ensures
        slot_fits(s.output, lookup(s.slots, index)->Some_0),
{
    assoc::lemma_key_index_props(s.slots, index);
    let i = assoc::key_index(s.slots, index) as int;
    assert(s.slots[i].1 == lookup(s.slots, index)->Some_0);
}

proof fn lemma_deltas_follow<P: StreamingJson>(
    s: ResponsesStreamV,
    index: u64,
    delta: Seq<char>,
    parser: &P,
)
    ensures
        follows(s, thinking_step(s, index, delta).stream),
        follows(s, text_step(s, index, delta).stream),
        follows(s, arguments_step(s, index, delta, parser).stream),
        follows(s, arguments_done_step(s, index, delta, parser).stream),
        follows(s, input_delta_step(s, index, delta).stream),
        follows(s, input_done_step(s, index, delta).stream),
{
    reveal(thinking_step);
    reveal(text_step);
    reveal(arguments_step);
    reveal(arguments_done_step);
    reveal(input_delta_step);
    reveal(input_done_step);
    lemma_prefix_refl(s.events);
    lemma_follows_same_slots(s, s);
    if lookup(s.slots, index) is Some {
        if well_formed(s) {
            lemma_slot_at(s, index);
        }
        match lookup(s.slots, index)->Some_0 {
            OutputSlotV::Thinking { content_index } => {
                let t = thinking_step(s, index, delta).stream;
                lemma_prefix_push(s.events, t.events.last());
                lemma_follows_same_slots(s, t);
            },
            OutputSlotV::Text { content_index } => {
                let t = text_step(s, index, delta).stream;
                lemma_prefix_push(s.events, t.events.last());
                lemma_follows_same_slots(s, t);
            },
            OutputSlotV::FunctionCall { content_index, partial_json } => {
                let t = arguments_step(s, index, delta, parser).stream;
                lemma_prefix_push(s.events, t.events.last());
                lemma_follows_put(
                    s,
                    t,
                    index,
                    OutputSlotV::FunctionCall { content_index, partial_json: partial_json + delta },
                );
                let u = arguments_done_step(s, index, delta, parser).stream;
                lemma_prefix_push(s.events, u.events.last());
                lemma_follows_put(
                    s,
                    u,
                    index,
                    OutputSlotV::FunctionCall { content_index, partial_json: delta },
                );
            },
            OutputSlotV::CustomToolCall { content_index, property, json_buffer } => {
                let next = current_input(s.output, content_index, property) + delta;
                lemma_input_follows(s, index, content_index, property, json_buffer, next, false);
                lemma_input_follows(s, index, content_index, property, json_buffer, delta, true);
            },
        }
    }
}

proof fn lemma_input_follows(
    s: ResponsesStreamV,
    index: u64,
    content_index: usize,
    property: Seq<char>,
    sent: Seq<char>,
    input: Seq<char>,
    close: bool,
)
    requires
        well_formed(s) ==> call_at(s.output, content_index) is Some,
    ensures
        follows(
            s,
            input_step(s, index, content_index, property, sent, input, close).stream,
        ),
{
    let t = input_step(s, index, content_index, property, sent, input, close).stream;
    lemma_prefix_refl(s.events);
    if input_delta(sent, property, input, close).1 is Err {
        lemma_follows_same_slots(s, t);
    } else {
        lemma_prefix_push(s.events, t.events.last());
        lemma_follows_put(
            s,
            t,
            index,
            OutputSlotV::CustomToolCall {
                content_index,
                property,
                json_buffer: input_delta(sent, property, input, close).0,
            },
        );
    }
}

proof fn lemma_closed_follows<P: StreamingJson>(
    s: ResponsesStreamV,
    index: u64,
    item: OutputItemV,
    slot: OutputSlotV,
    parser: &P,
)
    ensures
        kinds_kept(s.output, closed(s, index, item, slot, parser).stream.output),
        s.events.is_prefix_of(closed(s, index, item, slot, parser).stream.events),
        well_formed(s) && slot_fits(s.output, slot) ==> well_formed(
            closed(s, index, item, slot, parser).stream,
        ),
{
    let t = closed(s, index, item, slot, parser).stream;
    lemma_prefix_refl(s.events);
    match (item, slot) {
        (
            OutputItemV::Reasoning { raw, id, summary, content, .. },
            OutputSlotV::Thinking { content_index },
        ) => {
            lemma_prefix_push(s.events, t.events.last());
            if distinct(s.reasoning_blocks) {
                assoc::lemma_put_distinct(s.reasoning_blocks, id, content_index);
            }
            lemma_follows_same_slots(s, t);
        },
        (OutputItemV::Message { id, phase, content }, OutputSlotV::Text { content_index }) => {
            lemma_prefix_push(s.events, t.events.last());
            lemma_follows_same_slots(s, t);
        },
        (
            OutputItemV::FunctionCall { arguments, namespace, .. },
            OutputSlotV::FunctionCall { content_index, partial_json },
        ) => {
            lemma_prefix_push(s.events, t.events.last());
            lemma_follows_same_slots(s, t);
        },
        (
            OutputItemV::CustomToolCall { input, namespace, .. },
            OutputSlotV::CustomToolCall { content_index, property, json_buffer },
        ) => {
            let input = match input {
                Some(input) => input,
                None => current_input(s.output, content_index, property),
            };
            let result = input_delta(json_buffer, property, input, true).1;
            if result is Ok {
                let mid = told_delta(
                    ResponsesStreamV {
                        output: with_arguments(
                            s.output,
                            content_index,
                            input_arguments(property, input),
                        ),
                        ..s
                    },
                    content_index,
                    result->Ok_0,
                );
                lemma_prefix_push(s.events, mid.events.last());
                lemma_follows_same_slots(s, mid);
                lemma_prefix_refl(mid.events);
                lemma_prefix_push(mid.events, t.events.last());
                lemma_follows_same_slots(mid, t);
                lemma_follows_transitive(s, mid, t);
            } else {
                lemma_follows_same_slots(s, t);
            }
        },
        _ => {
            if well_formed(s) && slot_fits(s.output, slot) {
                lemma_follows_put(s, t, index, slot);
            }
        },
    }
}

proof fn lemma_item_done_follows<P: StreamingJson>(
    s: ResponsesStreamV,
    index: u64,
    raw: JsonV,
    properties: Option<Seq<(Seq<char>, Seq<char>)>>,
    parser: &P,
)
    requires
        s.output.content.len() <= usize::MAX,
    ensures
        follows(s, item_done_step(s, index, raw, properties, parser).stream),
{
    reveal(item_done_step);
    lemma_prefix_refl(s.events);
    lemma_follows_same_slots(s, s);
    if decoded_item(raw) is Ok {
        let item = decoded_item(raw)->Ok_0;
        let marked = ResponsesStreamV { output: phase_applied(item, s.output), ..s };
        lemma_follows_same_slots(s, marked);
        let open = if lookup(s.slots, index) is None {
            opened(marked, index, item, properties)
        } else {
            marked
        };
        if lookup(s.slots, index) is None {
            lemma_opened_follows(marked, index, item, properties);
            lemma_follows_transitive(s, marked, open);
        }
        if lookup(open.slots, index) is Some {
            let slot = lookup(open.slots, index)->Some_0;
            let out = ResponsesStreamV { slots: removed(open.slots, index), ..open };
            lemma_prefix_refl(open.events);
            if well_formed(open) {
                lemma_slot_at(open, index);
                assoc::lemma_removed(open.slots, index, index);
                assert forall|i: int| 0 <= i < out.slots.len() implies slot_fits(
                    out.output,
                    (#[trigger] out.slots[i]).1,
                ) by {
                    let k = assoc::key_index(open.slots, index) as int;
                    if i == k {
                        assert(out.slots[i] == open.slots[open.slots.len() - 1]);
                    } else {
                        assert(out.slots[i] == open.slots[i]);
                    }
                }
            }
            assert(follows(open, out));
            lemma_follows_transitive(s, open, out);
            lemma_closed_follows(out, index, item, slot, parser);
            let t = item_done_step(s, index, raw, properties, parser).stream;
            if well_formed(open) {
                assert(follows(out, t));
                lemma_follows_transitive(s, out, t);
            } else {
                assert(!well_formed(s));
                assert forall|i: int| 0 <= i < s.output.content.len() implies same_kind(
                    #[trigger] s.output.content[i],
                    t.output.content[i],
                ) by {
                    assert(same_kind(s.output.content[i], out.output.content[i]));
                    assert(same_kind(out.output.content[i], t.output.content[i]));
                }
                assert(s.events =~= t.events.subrange(0, s.events.len() as int));
            }
        }
    }
}

proof fn lemma_backfill_kinds(
    output: AssistantMessageV,
    blocks: Seq<(Seq<char>, usize)>,
    items: Seq<JsonV>,
)
    ensures
        kinds_kept(output, backfilled_all(output, blocks, items).0),
    decreases items.len(),
{
    if items.len() > 0 {
        lemma_backfill_kinds(output, blocks, items.drop_last());
    }
}

/// However an event goes, no block is gone or of another kind after it, nothing that the listener
/// was told is taken back, and each slot still fills a block of its kind.
pub proof fn step_follows<P: StreamingJson>(
    s: ResponsesStreamV,
    event: JsonV,
    options: OpenAIResponsesStreamOptionsV,
    parser: &P,
)
    requires
        s.output.content.len() <= usize::MAX,
    ensures
        follows(s, stream_step(s, event, options, parser).stream),
{
    lemma_prefix_refl(s.events);
    lemma_follows_same_slots(s, s);
    if decoded_event(event) is Ok {
        let t = stream_step(s, event, options, parser).stream;
        match decoded_event(event)->Ok_0 {
            DecodedResponseEventV::Created { id } => lemma_follows_same_slots(s, t),
            DecodedResponseEventV::OutputItemAdded { output_index, item } => {
                if decoded_item(item) is Ok {
                    lemma_opened_follows(
                        s,
                        output_index,
                        decoded_item(item)->Ok_0,
                        options.grammar_tool_input_properties,
                    );
                }
            },
            DecodedResponseEventV::ReasoningDelta { output_index, delta } => lemma_deltas_follow(
                s,
                output_index,
                delta,
                parser,
            ),
            DecodedResponseEventV::ReasoningSummaryPartDone { output_index } =>
                lemma_deltas_follow(s, output_index, "\n\n"@, parser),
            DecodedResponseEventV::TextDelta { output_index, delta } => lemma_deltas_follow(
                s,
                output_index,
                delta,
                parser,
            ),
            DecodedResponseEventV::FunctionArgumentsDelta { output_index, delta } =>
                lemma_deltas_follow(s, output_index, delta, parser),
            DecodedResponseEventV::FunctionArgumentsDone { output_index, arguments } =>
                lemma_deltas_follow(s, output_index, arguments, parser),
            DecodedResponseEventV::CustomInputDelta { output_index, delta } => lemma_deltas_follow(
                s,
                output_index,
                delta,
                parser,
            ),
            DecodedResponseEventV::CustomInputDone { output_index, input } => lemma_deltas_follow(
                s,
                output_index,
                input,
                parser,
            ),
            DecodedResponseEventV::OutputItemDone { output_index, item } => lemma_item_done_follows(
                s,
                output_index,
                item,
                options.grammar_tool_input_properties,
                parser,
            ),
            DecodedResponseEventV::Finished { response } => {
                reveal(finalized);
                lemma_backfill_kinds(s.output, s.reasoning_blocks, response.output);
                lemma_follows_same_slots(s, t);
            },
            DecodedResponseEventV::Failed { response } => lemma_follows_same_slots(s, t),
            DecodedResponseEventV::Error { code, message } => {},
            DecodedResponseEventV::Unknown => {},
        }
    }
}

/// The outcome of a step for a caller.
pub open spec fn step_result(stream: ResponsesStreamV, r: Result<(), OpenAIResponsesError>) -> Step {
    Step {
        stream,
        error: match r {
            Ok(_) => None,
            Err(e) => Some(e@),
        },
    }
}

impl ResponsesStream {
    /// Takes one event of the stream in.
    pub fn process_event<P: StreamingJson>(
        &mut self,
        event: &Json,
        options: &OpenAIResponsesStreamOptions,
        parser: &P,
    ) -> (r: Result<(), OpenAIResponsesError>)
        ensures
            step_result(final(self)@, r) == stream_step(old(self)@, event@, options@, parser),
            follows(old(self)@, final(self)@),
    {
        proof {
            assert(self@.output.content.len() == self.output.content.len());
            step_follows(self@, event@, options@, parser);
        }
        let r = match decode_response_event(event) {
            Err(e) => Err(e),
            Ok(event) => self.apply(event, options, parser),
        };
        match r {
            Ok(()) => Ok(()),
            Err(e) => Err(OpenAIResponsesError::new(e)),
        }
    }
}

/// What is said of a stream that ends too early.
pub const NO_TERMINAL_EVENT: &'static str =
    "OpenAI Responses stream ended before a terminal response event";

/// What the items of a stream hold: values, or the words of errors.
pub open spec fn outcomes(items: Seq<Result<Json, OpenAIResponsesError>>) -> Seq<
    Result<JsonV, Seq<char>>,
> {
    Seq::new(items.len(), |i: int| outcome(items[i]))
}

/// The stream after the items, up to the first that fails.
pub open spec fn fed<P: StreamingJson>(
    s: ResponsesStreamV,
    items: Seq<Result<JsonV, Seq<char>>>,
    options: OpenAIResponsesStreamOptionsV,
    parser: &P,
) -> Step
    decreases items.len(),
{
    if items.len() == 0 {
        going_on(s)
    } else {
        let before = fed(s, items.drop_last(), options, parser);
        if before.error is Some {
            before
        } else {
            match items.last() {
                Err(e) => failing(before.stream, e),
                Ok(v) => stream_step(before.stream, v, options, parser),
            }
        }
    }
}

/// The whole stream: it fails where an item fails, and where no event has ended the response.
pub open spec fn processed<P: StreamingJson>(
    s: ResponsesStreamV,
    items: Seq<Result<JsonV, Seq<char>>>,
    options: OpenAIResponsesStreamOptionsV,
    parser: &P,
) -> Step {
    let after = fed(s, items, options, parser);
    if after.error is None && !after.stream.saw_terminal {
        failing(after.stream, NO_TERMINAL_EVENT@)
    } else {
        after
    }
}

proof fn lemma_fed_fail<P: StreamingJson>(
    s: ResponsesStreamV,
    items: Seq<Result<JsonV, Seq<char>>>,
    options: OpenAIResponsesStreamOptionsV,
    parser: &P,
    n: int,
)
    requires
        0 <= n <= items.len(),
        fed(s, items.take(n), options, parser).error is Some,
    ensures
        fed(s, items, options, parser) == fed(s, items.take(n), options, parser),
    decreases items.len(),
{
    if n < items.len() {
        assert(items.drop_last().take(n) =~= items.take(n));
        lemma_fed_fail(s, items.drop_last(), options, parser, n);
    } else {
        assert(items.take(n) =~= items);
    }
}

/// Takes a whole stream in.
pub fn process_responses_stream<P: StreamingJson>(
    openai_stream: &Vec<Result<Json, OpenAIResponsesError>>,
    stream: &mut ResponsesStream,
    options: &OpenAIResponsesStreamOptions,
    parser: &P,
) -> (r: Result<(), OpenAIResponsesError>)
    ensures
        step_result(final(stream)@, r) == processed(
            old(stream)@,
            outcomes(openai_stream@),
            options@,
            parser,
        ),
        follows(old(stream)@, final(stream)@),
{
    let ghost items = outcomes(openai_stream@);
    let ghost start = stream@;
    let mut i: usize = 0;
    proof {
        assert(items.take(0) =~= Seq::empty());
        lemma_prefix_refl(start.events);
        lemma_follows_same_slots(start, start);
    }
    while i < openai_stream.len()
        invariant
            items == outcomes(openai_stream@),
            start == old(stream)@,
            i <= openai_stream@.len(),
            going_on(stream@) == fed(start, items.take(i as int), options@, parser),
            follows(start, stream@),
        decreases openai_stream@.len() - i,
    {
        let ghost before = stream@;
        assert(items.take(i + 1).drop_last() =~= items.take(i as int));
        assert(items.take(i + 1).last() == outcome(openai_stream@[i as int]));
        let step = match &openai_stream[i] {
            Err(e) => Err(OpenAIResponsesError::new(e.message())),
            Ok(event) => {
                let step = stream.process_event(event, options, parser);
                proof {
                    lemma_follows_transitive(start, before, stream@);
                }
                step
            },
        };
        match step {
            Ok(()) => {},
            Err(e) => {
                proof {
                    lemma_fed_fail(start, items, options@, parser, i + 1);
                }
                return Err(e);
            },
        }
        i += 1;
    }
    assert(items.take(i as int) =~= items);
    stream.finish()
}

impl ResponsesStream {
    /// Says at the end of the stream whether the response has ended.
    pub fn finish(&self) -> (r: Result<(), OpenAIResponsesError>)
        ensures
            self@.saw_terminal ==> r is Ok,
            !self@.saw_terminal ==> r is Err && r->Err_0@ == NO_TERMINAL_EVENT@,
    {
        if self.saw_terminal {
            Ok(())
        } else {
            Err(OpenAIResponsesError::new(NO_TERMINAL_EVENT.to_owned()))
        }
    }
}

} // verus!
