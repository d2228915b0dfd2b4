//! What the input of a Responses request says.
use crate::assoc::lookup;
use crate::event_laws::{lemma_strung, strung};
use crate::json::{json_parse, json_text, member, JsonV};
use crate::message_laws::{image_address, images_in, lemma_texts_in, texts_in};
use crate::openai_responses_shared::{
    ConvertResponsesMessagesOptionsV, ConvertResponsesToolsOptionsV, DeferredResponsesToolsMode,
    ResponseInputContentV, ResponseInputItemV, ResponseMessageContentV, ResponseInstructionRole,
    ResponseToolCallOutputType, ResponseToolV, ToolResultOutputV,
};
use crate::responses_input::{
    conversion, converted, image_parts, instruction, loading, loading_items, message_id,
    replayed_blocks, replayed_call, replayed_result, response_tool, text_count,
};
use crate::text::{begins, decimal, lemma_position, lemma_position_props, units};
use crate::transform_messages::{transformed, ResponsesToolCallIds, ToolCallIdNormalizer};
use crate::types::{
    AssistantContentV, AssistantMessageV, ContextV, MessageV, ModelCompatV, ModelInput, ModelV,
    TextContentV, ToolCallV, ToolResultMessageV, ToolV, UserContentBlockV,
    UserContentV,
};
use vstd::prelude::*;

verus! {

/// Whether a part says what a block says.
pub open spec fn part_told(part: ResponseInputContentV, block: UserContentBlockV) -> bool {
    match block {
        UserContentBlockV::Text(t) => part == ResponseInputContentV::InputText { text: t.text },
        UserContentBlockV::Image(image) => part matches ResponseInputContentV::InputImage {
            image_url,
            ..
        } && image_url == image_address(image),
    }
}

/// Whether an item says what a user said.
pub open spec fn user_told(item: ResponseInputItemV, content: UserContentV) -> bool {
    item matches ResponseInputItemV::User(m) && match content {
        UserContentV::Text(text) => m.content == seq![ResponseInputContentV::InputText { text }],
        UserContentV::Blocks(blocks) => m.content.len() == blocks.len() && forall|i: int|
            0 <= i < blocks.len() ==> part_told(#[trigger] m.content[i], blocks[i]),
    }
}

/// Whether the output of a call is what a tool's result holds: for a model that sees its images,
/// the text and the images; else the text, or a word on what is missing.
pub open spec fn output_told(
    output: ToolResultOutputV,
    content: Seq<UserContentBlockV>,
    model: ModelV,
) -> bool {
    let text = strung(texts_in(content), "\n"@);
    let images = images_in(content);
    if images.len() > 0 && model.input.contains(ModelInput::Image) {
        let ahead: int = if text.len() > 0 {
            1
        } else {
            0
        };
        output matches ToolResultOutputV::Content(parts) && {
            &&& parts.len() == images.len() + ahead
            &&& text.len() > 0 ==> parts[0] == ResponseInputContentV::InputText { text }
            &&& forall|i: int|
                ahead <= i < parts.len() ==> (
                #[trigger] parts[i] matches ResponseInputContentV::InputImage { image_url, .. }
                    && image_url == image_address(images[i - ahead]))
        }
    } else {
        output == ToolResultOutputV::Text(
            if text.len() > 0 {
                text
            } else if images.len() > 0 {
                "(see attached image)"@
            } else {
                "(no tool output)"@
            },
        )
    }
}

proof fn lemma_images(content: Seq<UserContentBlockV>)
    ensures
        image_parts(content).len() == images_in(content).len(),
        forall|i: int|
            0 <= i < image_parts(content).len() ==> (
            #[trigger] image_parts(content)[i] matches ResponseInputContentV::InputImage {
                image_url,
                ..
            } && image_url == image_address(images_in(content)[i])),
        images_in(content).len() > 0 <==> exists|i: int|
            0 <= i < content.len() && #[trigger] content[i] is Image,
    decreases content.len(),
{
    if content.len() > 0 {
        let front = content.drop_last();
        lemma_images(front);
        if images_in(front).len() > 0 {
            let i = choose|i: int| 0 <= i < front.len() && #[trigger] front[i] is Image;
            assert(content[i] is Image);
        }
        if content.last() is Image {
            assert(content[content.len() - 1] is Image);
        }
        if exists|i: int| 0 <= i < content.len() && #[trigger] content[i] is Image {
            let i = choose|i: int| 0 <= i < content.len() && #[trigger] content[i] is Image;
            if i < front.len() {
                assert(front[i] is Image);
            }
        }
    }
}

/// The identifier of a call without that of its item: what stands before the first bar.
pub open spec fn is_call_part(part: Seq<char>, id: Seq<char>) -> bool {
    &&& forall|k: int| 0 <= k < part.len() ==> part[k] != '|'
    &&& part == id || (part.len() < id.len() && id.take(part.len() as int) == part
        && id[part.len() as int] == '|')
}

proof fn lemma_call_part(id: Seq<char>)
    ensures
        is_call_part(crate::text::before(id, '|'), id),
{
    lemma_position_props(id, '|');
    let n = crate::text::position(id, '|') as int;
    if n == id.len() {
        assert(id.take(n) =~= id);
    }
}

/// The property for the free-form input of a tool, if it takes such input.
pub open spec fn free_form(
    options: ConvertResponsesMessagesOptionsV,
    name: Seq<char>,
) -> Option<Seq<char>> {
    match options.grammar_tool_input_properties {
        Some(properties) => lookup(properties, name),
        None => None,
    }
}

/// Whether an item answers a call.
pub open spec fn result_told(
    item: ResponseInputItemV,
    result: ToolResultMessageV,
    model: ModelV,
    options: ConvertResponsesMessagesOptionsV,
) -> bool {
    item matches ResponseInputItemV::ToolCallOutput(m) && {
        &&& m.kind == if free_form(options, result.tool_name) is Some {
            ResponseToolCallOutputType::CustomToolCallOutput
        } else {
            ResponseToolCallOutputType::FunctionCallOutput
        }
        &&& is_call_part(m.call_id, result.tool_call_id)
        &&& output_told(m.output, result.content, model)
    }
}

/// A result answers the call that it names with its texts and, for a model that sees them, its
/// images.
pub proof fn law_result_is_told(
    result: ToolResultMessageV,
    model: ModelV,
    options: ConvertResponsesMessagesOptionsV,
)
    ensures
        result_told(replayed_result(result, model, options), result, model, options),
{
    lemma_call_part(result.tool_call_id);
    lemma_texts_in(result.content);
    lemma_strung(texts_in(result.content), "\n"@);
    lemma_images(result.content);
}

/// The identifier that a text without a signature is given: the number of its message, and behind it
/// the number of the text where it is not the first.
pub open spec fn made_id(message_index: nat, text_index: nat) -> Seq<char> {
    if text_index == 0 {
        "msg_pi_"@ + decimal(message_index)
    } else {
        "msg_pi_"@ + decimal(message_index) + "_"@ + decimal(text_index)
    }
}

/// A text goes back under the identifier that signs it; without one, or with an empty one, under one
/// that is made up from its place.
pub proof fn law_text_is_identified(
    signature: Option<Seq<char>>,
    message_index: nat,
    text_index: nat,
)
    ensures
        signature is None || signature->Some_0.len() == 0 ==> message_id(
            signature,
            message_index,
            text_index,
        ) == made_id(message_index, text_index),
        signature matches Some(id) ==> (id.len() > 0 && id[0] != '{' && units(id).len() <= 64
            ==> message_id(signature, message_index, text_index) == id),
        signature matches Some(s) ==> (s.len() > 0 && s[0] == '{' ==> (json_parse(
            s,
        ) matches Ok(v) ==> (member(v, "v"@) == Some(
            JsonV::Number(crate::json::JsonNumberV::Unsigned(1)),
        ) ==> (member(v, "id"@) matches Some(JsonV::Str(id)) ==> (id.len() > 0 && units(id).len()
            <= 64 ==> message_id(signature, message_index, text_index) == id))))),
{
    reveal_strlit("{");
    assert("{"@.len() == 1);
    assert("{"@[0] == '{');
    if let Some(s) = signature {
        if s.len() > 0 {
            assert(s.take(1)[0] == s[0]);
            if s[0] == '{' {
                assert(s.take(1) =~= "{"@);
            }
        }
    }
}

/// Whether an item says what a text of a turn says.
pub open spec fn text_told(
    item: ResponseInputItemV,
    text: TextContentV,
    message_index: nat,
    text_index: nat,
) -> bool {
    item matches ResponseInputItemV::OutputMessage(m) && {
        &&& m.content == seq![
            ResponseMessageContentV::OutputText { text: text.text, annotations: Seq::empty() },
        ]
        &&& m.id == message_id(text.text_signature, message_index, text_index)
        &&& m.phase == match crate::text_signature::signature_parts(text.text_signature) {
            Some((_, phase)) => phase,
            None => None,
        }
    }
}

/// Whether the identifier of the item of a call is sent back: only one that the API gave to a call of
/// that sort, and none that it gave to another model of the provider.
pub open spec fn item_told(
    sent: Option<Seq<char>>,
    id: Seq<char>,
    other_model: bool,
    custom: bool,
) -> bool {
    &&& (forall|k: int| 0 <= k < id.len() ==> id[k] != '|') ==> sent is None
    &&& forall|call: Seq<char>, item: Seq<char>|
        #![trigger call.push('|') + item]
        id == call.push('|') + item && (forall|k: int| 0 <= k < call.len() ==> call[k] != '|') && (
        forall|k: int| 0 <= k < item.len() ==> item[k] != '|') ==> sent == if begins(item, "fc_"@) {
            if other_model {
                None
            } else {
                Some(item)
            }
        } else if custom {
            Some(item)
        } else {
            None
        }
}

proof fn lemma_item_told(id: Seq<char>, other_model: bool, custom: bool)
    ensures
        item_told(
            crate::responses_input::replayed_item(id, other_model, custom),
            id,
            other_model,
            custom,
        ),
{
    let sent = crate::responses_input::replayed_item(id, other_model, custom);
    lemma_position_props(id, '|');
    if forall|k: int| 0 <= k < id.len() ==> id[k] != '|' {
        lemma_position(id, '|', id.len() as int);
    }
    assert forall|call: Seq<char>, item: Seq<char>|
        #![trigger call.push('|') + item]
        id == call.push('|') + item && (forall|k: int| 0 <= k < call.len() ==> call[k] != '|') && (
        forall|k: int| 0 <= k < item.len() ==> item[k] != '|') implies sent == if begins(
        item,
        "fc_"@,
    ) {
        if other_model {
            None
        } else {
            Some(item)
        }
    } else if custom {
        Some(item)
    } else {
        None
    } by {
        lemma_position(id, '|', call.len() as int);
        assert(id.skip(call.len() as int + 1) =~= item);
        lemma_position(item, '|', item.len() as int);
        assert(item.take(item.len() as int) =~= item);
    }
}

/// Whether an item says what a call says.
pub open spec fn call_told(
    item: ResponseInputItemV,
    call: ToolCallV,
    source: AssistantMessageV,
    model: ModelV,
    options: ConvertResponsesMessagesOptionsV,
) -> bool {
    let other_model = source.provider == model.provider && source.api == model.api && source.model
        != model.id;
    let own = source.provider == model.provider && source.api == model.api && source.model
        == model.id;
    let known = options.deferred_tools matches Some(tools) && lookup(tools, call.name) is Some;
    let namespace = if own || known {
        call.namespace
    } else {
        None
    };
    match free_form(options, call.name) {
        None => item matches ResponseInputItemV::FunctionCall(c) && {
            &&& is_call_part(c.call_id, call.id)
            &&& item_told(c.id, call.id, other_model, false)
            &&& c.name == call.name
            &&& c.arguments == json_text(call.arguments)
            &&& c.namespace == namespace
        },
        Some(property) => item matches ResponseInputItemV::CustomToolCall(c) && {
            &&& is_call_part(c.call_id, call.id)
            &&& item_told(c.id, call.id, other_model, true)
            &&& c.name == call.name
            &&& member(call.arguments, property) == Some(JsonV::Str(c.input))
            &&& c.namespace == namespace
        },
    }
}

/// A call goes back with its name, its arguments and the identifiers that the API gave to it. It is
/// refused only where a free-form input is missing from its arguments.
pub proof fn law_call_is_told(
    call: ToolCallV,
    source: AssistantMessageV,
    model: ModelV,
    options: ConvertResponsesMessagesOptionsV,
)
    ensures
        match replayed_call(call, source, model, options) {
            Ok(item) => call_told(item, call, source, model, options),
            Err(e) => free_form(options, call.name) matches Some(property) && !(member(
                call.arguments,
                property,
            ) matches Some(JsonV::Str(_))) && e == "Tool "@ + call.name
                + " has no string argument "@ + property,
        },
{
    let other_model = source.provider == model.provider && source.api == model.api && source.model
        != model.id;
    lemma_call_part(call.id);
    lemma_item_told(call.id, other_model, false);
    lemma_item_told(call.id, other_model, true);
}

/// Whether a block of a turn goes back: texts and calls do, and thinking that is signed.
pub open spec fn goes_back(block: AssistantContentV) -> bool {
    block matches AssistantContentV::Thinking(t) ==> (t.thinking_signature matches Some(s)
        && s.len() > 0)
}

/// How many of the first `n` blocks go back.
pub open spec fn gone_back(content: Seq<AssistantContentV>, n: int) -> nat
    decreases n,
{
    if n <= 0 {
        0
    } else if goes_back(content[n - 1]) {
        gone_back(content, n - 1) + 1
    } else {
        gone_back(content, n - 1)
    }
}

/// How many of the first `n` blocks are texts.
pub open spec fn texts_before(content: Seq<AssistantContentV>, n: int) -> nat
    decreases n,
{
    if n <= 0 {
        0
    } else if content[n - 1] is Text {
        texts_before(content, n - 1) + 1
    } else {
        texts_before(content, n - 1)
    }
}

/// Whether an item says what the block at `i` says.
pub open spec fn block_told(
    item: ResponseInputItemV,
    content: Seq<AssistantContentV>,
    i: int,
    message_index: nat,
    source: AssistantMessageV,
    model: ModelV,
    options: ConvertResponsesMessagesOptionsV,
) -> bool {
    match content[i] {
        AssistantContentV::Thinking(t) => item matches ResponseInputItemV::Reasoning(v)
            && json_parse(t.thinking_signature->Some_0) == Ok::<JsonV, Seq<char>>(v),
        AssistantContentV::Text(t) => text_told(item, t, message_index, texts_before(content, i)),
        AssistantContentV::ToolCall(call) => call_told(item, call, source, model, options),
    }
}

/// Whether items say what the blocks of a turn say, in order.
pub open spec fn blocks_told(
    items: Seq<ResponseInputItemV>,
    content: Seq<AssistantContentV>,
    message_index: nat,
    source: AssistantMessageV,
    model: ModelV,
    options: ConvertResponsesMessagesOptionsV,
) -> bool {
    &&& items.len() == gone_back(content, content.len() as int)
    &&& forall|i: int|
        0 <= i < content.len() && goes_back(#[trigger] content[i]) ==> {
            &&& gone_back(content, i) < items.len()
            &&& block_told(
                items[gone_back(content, i) as int],
                content,
                i,
                message_index,
                source,
                model,
                options,
            )
        }
}

proof fn lemma_counts_front(content: Seq<AssistantContentV>, n: int)
    requires
        0 <= n < content.len(),
    ensures
        gone_back(content.drop_last(), n) == gone_back(content, n),
        texts_before(content.drop_last(), n) == texts_before(content, n),
    decreases n,
{
    if n > 0 {
        lemma_counts_front(content, n - 1);
        assert(content.drop_last()[n - 1] == content[n - 1]);
    }
}

proof fn lemma_text_count(content: Seq<AssistantContentV>)
    ensures
        text_count(content) == texts_before(content, content.len() as int),
    decreases content.len(),
{
    if content.len() > 0 {
        lemma_text_count(content.drop_last());
        lemma_counts_front(content, content.len() - 1);
    }
}

/// The blocks of a turn go back in order: its texts, its calls, and its signed thinking as the item
/// that signs it.
pub proof fn law_blocks_are_told(
    content: Seq<AssistantContentV>,
    message_index: nat,
    source: AssistantMessageV,
    model: ModelV,
    options: ConvertResponsesMessagesOptionsV,
)
    ensures
        replayed_blocks(content, message_index, source, model, options) matches Ok(items)
            ==> blocks_told(items, content, message_index, source, model, options),
    decreases content.len(),
{
    if content.len() > 0 {
        let front = content.drop_last();
        let n = front.len() as int;
        law_blocks_are_told(front, message_index, source, model, options);
        if let Ok(items) = replayed_blocks(content, message_index, source, model, options) {
            let before = replayed_blocks(front, message_index, source, model, options)->Ok_0;
            lemma_counts_front(content, n);
            lemma_text_count(front);
            if let AssistantContentV::ToolCall(call) = content.last() {
                law_call_is_told(call, source, model, options);
            }
            assert forall|i: int|
                0 <= i < content.len() && goes_back(#[trigger] content[i]) implies {
                &&& gone_back(content, i) < items.len()
                &&& block_told(
                    items[gone_back(content, i) as int],
                    content,
                    i,
                    message_index,
                    source,
                    model,
                    options,
                )
            } by {
                lemma_counts_front(content, i);
                if i < n {
                    assert(front[i] == content[i]);
                    assert(items[gone_back(content, i) as int] == before[gone_back(
                        content,
                        i,
                    ) as int]);
                }
            }
        }
    }
}

/// Whether `more` is what one message adds to the input.
pub open spec fn message_told(
    more: Seq<ResponseInputItemV>,
    message: MessageV,
    index: nat,
    model: ModelV,
    options: ConvertResponsesMessagesOptionsV,
) -> bool {
    match message {
        MessageV::User(m) => if m.content matches UserContentV::Blocks(blocks) && blocks.len()
            == 0 {
            more.len() == 0
        } else {
            more.len() == 1 && user_told(more[0], m.content)
        },
        MessageV::Assistant(turn) => blocks_told(more, turn.content, index, turn, model, options),
        MessageV::ToolResult(result) => {
            &&& more.len() > 0
            &&& result_told(more[0], result, model, options)
            &&& options.deferred_tools_mode is None || result.added_tool_names is None
                ==> more.len() == 1
        },
    }
}

/// Each message adds to the input what it says, behind what the messages before it added. Only
/// messages that add something are counted.
pub proof fn law_each_message_is_told(
    start: Seq<ResponseInputItemV>,
    messages: Seq<MessageV>,
    message: MessageV,
    model: ModelV,
    options: ConvertResponsesMessagesOptionsV,
)
    requires
        conversion(start, messages.push(message), model, options) is Ok,
    ensures
        conversion(start, messages, model, options) is Ok,
        ({
            let before = conversion(start, messages, model, options)->Ok_0;
            let after = conversion(start, messages.push(message), model, options)->Ok_0;
            let more = after.items.skip(before.items.len() as int);
            &&& before.items.len() <= after.items.len()
            &&& after.items == before.items + more
            &&& message_told(more, message, before.index, model, options)
            &&& after.index == before.index + if more.len() > 0 {
                1nat
            } else {
                0
            }
        }),
{
    assert(messages.push(message).drop_last() =~= messages);
    let before = conversion(start, messages, model, options)->Ok_0;
    let after = conversion(start, messages.push(message), model, options)->Ok_0;
    let more = after.items.skip(before.items.len() as int);
    match message {
        MessageV::User(m) => {
            let content = crate::responses_input::user_parts(m.content);
            if content.len() == 0 {
                assert(after.items =~= before.items + more);
            } else {
                assert(after.items =~= before.items + more);
                assert(more[0] == after.items[before.items.len() as int]);
            }
        },
        MessageV::Assistant(turn) => {
            law_blocks_are_told(turn.content, before.index, turn, model, options);
            let items = replayed_blocks(
                turn.content,
                before.index,
                turn,
                model,
                options,
            )->Ok_0;
            assert(more =~= items);
            assert(after.items =~= before.items + more);
        },
        MessageV::ToolResult(result) => {
            law_result_is_told(result, model, options);
            let told = replayed_result(result, model, options);
            let added = crate::responses_input::loading(
                crate::responses_input::added_names(result),
                before.loaded,
                options,
            );
            let items = crate::responses_input::loading_items(result, added, options);
            assert(after.items == before.items.push(told) + items);
            assert(after.items =~= before.items + more);
            assert(more[0] == told);
            assert(more.len() == 1 + items.len());
        },
    }
}

/// The input begins with the system prompt, unless it is empty or left out: from the developer for a
/// reasoning model that knows that role, else from the system.
pub proof fn law_instruction_comes_first(
    model: ModelV,
    context: ContextV,
    ids: &ResponsesToolCallIds,
    options: ConvertResponsesMessagesOptionsV,
    now: i64,
)
    ensures
        ({
            let prompt = match context.system_prompt {
                Some(prompt) => prompt,
                None => Seq::empty(),
            };
            let developer = model.reasoning && !(model.compat matches Some(
                ModelCompatV::OpenAIResponses(said),
            ) && said.supports_developer_role == Some(false));
            let start = instruction(model, context.system_prompt, options);
            &&& prompt.len() == 0 || options.include_system_prompt == Some(false) ==> start.len()
                == 0
            &&& prompt.len() > 0 && options.include_system_prompt != Some(false) ==> start.len()
                == 1 && (start[0] matches ResponseInputItemV::Instruction(m) && m.content == prompt
                && m.role == if developer {
                ResponseInstructionRole::Developer
            } else {
                ResponseInstructionRole::System
            })
            &&& converted(model, context, ids, options, now) == match conversion(
                start,
                transformed::<ResponsesToolCallIds>(
                    context.messages,
                    model,
                    Some(ids.state()),
                    now,
                ),
                model,
                options,
            ) {
                Ok(state) => Ok::<Seq<ResponseInputItemV>, Seq<char>>(state.items),
                Err(e) => Err(e),
            }
        }),
{
}

/// A tool is described by its name, its description and its schema, or, where it has a grammar that
/// the provider takes, by that grammar.
pub proof fn law_tool_is_described(tool: ToolV, options: ConvertResponsesToolsOptionsV)
    ensures
        ({
            let grammar = if options.supports_open_ai_grammar_tools == Some(true) {
                tool.grammar
            } else {
                None
            };
            let takes_strict = options.supports_strict_mode != Some(false);
            let strict = match tool.strict {
                Some(strict) if takes_strict => Some(strict),
                _ => match options.strict {
                    Some(strict) => strict,
                    None => Some(false),
                },
            };
            let later = if options.defer_loading {
                Some(true)
            } else {
                None
            };
            match (response_tool(tool, options), grammar) {
                (
                    ResponseToolV::Function {
                        name,
                        description,
                        parameters,
                        strict: said,
                        defer_loading,
                    },
                    None,
                ) => {
                    &&& name == tool.name
                    &&& description == tool.description
                    &&& parameters == if strict == Some(true) {
                        tool.strict_parameters
                    } else {
                        tool.parameters
                    }
                    &&& said == if takes_strict {
                        Some(strict)
                    } else {
                        None
                    }
                    &&& defer_loading == later
                },
                (
                    ResponseToolV::Custom { name, description, format, defer_loading },
                    Some(grammar),
                ) => {
                    &&& name == tool.name
                    &&& description == tool.description
                    &&& format.definition == grammar.definition
                    &&& format.syntax == crate::openai_responses_shared::ResponseGrammarSyntax::Lark
                        <==> grammar.syntax == crate::types::GrammarSyntax::Lark
                    &&& defer_loading == later
                },
                _ => false,
            }
        }),
{
}

/// A tool that a result brings is added right behind the result, once: by an item of its own, or by a
/// search for it that stands as made and answered, whose call and output bear one identifier.
pub proof fn law_brought_tool_is_added(
    result: ToolResultMessageV,
    options: ConvertResponsesMessagesOptionsV,
    loaded: Seq<Seq<char>>,
    name: Seq<char>,
    tool: ToolV,
)
    requires
        result.added_tool_names == Some(seq![name]),
        options.deferred_tools matches Some(tools) && lookup(tools, name) == Some(tool),
    ensures
        ({
            let added = loading(seq![name], loaded, options);
            let items = loading_items(result, added, options);
            &&& loaded.contains(name) ==> items.len() == 0 && added.loaded == loaded
            &&& !loaded.contains(name) ==> {
                &&& added.loaded == loaded.push(name)
                &&& options.deferred_tools_mode is None ==> items.len() == 0
                &&& options.deferred_tools_mode == Some(
                    DeferredResponsesToolsMode::AdditionalTools,
                ) ==> items.len() == 1 && (items[0] matches ResponseInputItemV::AdditionalTools(m)
                    && m.role == ResponseInstructionRole::Developer && m.tools == seq![
                    response_tool(tool, options.tool_options),
                ])
                &&& options.deferred_tools_mode == Some(DeferredResponsesToolsMode::ToolSearch)
                    ==> items.len() == 2 && (items[0] matches ResponseInputItemV::ToolSearchCall(
                    call,
                ) && items[1] matches ResponseInputItemV::ToolSearchOutput(found) && call.call_id
                    == found.call_id && call.arguments.query == name && call.arguments.limit == 1
                    && found.tools == seq![
                    response_tool(
                        tool,
                        ConvertResponsesToolsOptionsV {
                            defer_loading: true,
                            ..options.tool_options
                        },
                    ),
                ])
            }
        }),
{
    let names = seq![name];
    assert(names.drop_last() =~= Seq::<Seq<char>>::empty());
    assert(names.last() == name);
    let none = loading(names.drop_last(), loaded, options);
    assert(none.names =~= Seq::<Seq<char>>::empty());
    assert(none.tools =~= Seq::<ToolV>::empty());
    assert(none.loaded == loaded);
    let added = loading(names, loaded, options);
    if !loaded.contains(name) {
        assert(added.tools =~= seq![tool]);
        assert(added.names =~= seq![name]);
        assert(crate::responses_input::response_tools(added.tools, options.tool_options) =~= seq![
            response_tool(tool, options.tool_options),
        ]);
        let later = ConvertResponsesToolsOptionsV {
            defer_loading: true,
            ..options.tool_options
        };
        assert(crate::responses_input::response_tools(added.tools, later) =~= seq![
            response_tool(tool, later),
        ]);
    }
}

/// Names that are known to nobody bring nothing.
pub proof fn law_unknown_names_bring_nothing(
    names: Seq<Seq<char>>,
    loaded: Seq<Seq<char>>,
    options: ConvertResponsesMessagesOptionsV,
)
    requires
        forall|i: int|
            0 <= i < names.len() ==> (options.deferred_tools matches Some(tools) ==> lookup(
                tools,
                #[trigger] names[i],
            ) is None),
    ensures
        loading(names, loaded, options).tools.len() == 0,
        loading(names, loaded, options).loaded == loaded,
    decreases names.len(),
{
    if names.len() > 0 {
        let front = names.drop_last();
        assert forall|i: int| 0 <= i < front.len() implies (options.deferred_tools matches Some(
            tools,
        ) ==> lookup(tools, #[trigger] front[i]) is None) by {
            assert(front[i] == names[i]);
        }
        law_unknown_names_bring_nothing(front, loaded, options);
        assert(names[names.len() - 1] == names.last());
    }
}

/// An identifier that is too long is hashed.
pub proof fn law_long_text_ids_are_hashed(id: Seq<char>, message_index: nat, text_index: nat)
    requires
        id.len() > 0,
        id[0] != '{',
        units(id).len() > 64,
    ensures
        message_id(Some(id), message_index, text_index) == "msg_"@ + crate::hash::hashed(id),
{
    reveal_strlit("{");
    assert("{"@.len() == 1);
    assert("{"@[0] == '{');
    assert(id.take(1)[0] == id[0]);
}

/// A search for tools bears an identifier that tells it from others: of the call and of the names.
pub proof fn law_search_is_identified(result: ToolResultMessageV, names: Seq<Seq<char>>)
    ensures
        crate::responses_input::search_id(result, names) == "pi_tool_load_"@
            + crate::hash::hashed(result.tool_call_id + ":"@ + strung(names, ","@)),
{
    lemma_strung(names, ","@);
}

} // verus!
