//! Conversations as the input of a Responses request.
use crate::assoc;
use crate::assoc::lookup;
use crate::constrained_sampling::{
    get_grammar_tool_input, get_json_schema_tool_parameters, grammar_input, grammar_of, outcome,
    resolve_grammar_constrained_sampling, resolve_json_schema_strict_sampling, schema_of,
    strictness_of,
};
use crate::hash::{hashed, short_hash};
use crate::json::{json_parse, json_text, parse_json, write_json};
use crate::openai_responses_shared::{
    ConvertResponsesMessagesOptions, ConvertResponsesMessagesOptionsV,
    ConvertResponsesToolsOptions, ConvertResponsesToolsOptionsV, DeferredResponsesToolsMode,
    OpenAIResponsesError, ResponseAdditionalToolsInput, ResponseAdditionalToolsInputV,
    ResponseAdditionalToolsType, ResponseAssistantRole, ResponseCustomToolCallInput,
    ResponseCustomToolCallInputV, ResponseCustomToolCallType, ResponseCustomToolFormat,
    ResponseCustomToolFormatV, ResponseFunctionCallInput, ResponseFunctionCallInputV,
    ResponseFunctionCallType, ResponseGrammarSyntax, ResponseGrammarType, ResponseImageDetail,
    ResponseInputContent, ResponseInputContentV, ResponseInputItem, ResponseInputItemV,
    ResponseInstructionMessage, ResponseInstructionMessageV, ResponseInstructionRole,
    ResponseItemStatus, ResponseMessageContent, ResponseMessageContentV, ResponseMessageType,
    ResponseOutputMessageInput, ResponseOutputMessageInputV, ResponseTool,
    ResponseToolCallOutput, ResponseToolCallOutputV, ResponseToolCallOutputType,
    ResponseToolSearchArguments, ResponseToolSearchArgumentsV, ResponseToolSearchCallInput,
    ResponseToolSearchCallInputV, ResponseToolSearchCallType, ResponseToolSearchExecution,
    ResponseToolSearchOutputInput, ResponseToolSearchOutputInputV, ResponseToolSearchOutputType,
    ResponseToolV, ResponseUserMessage, ResponseUserMessageV, ResponseUserRole, ToolResultOutput,
    ToolResultOutputV,
};
use crate::text::{
    after, before, begins, concat, decimal, join, joined, split_once, starts_with, to_decimal,
    to_units, units,
};
use crate::text_signature::{parse_text_signature, signature_parts};
use crate::tool_call_ids::contains_name;
use crate::transform_messages::{
    has_vision, is_same_model, same_model, sees_images, transform_messages, transformed,
    ResponsesToolCallIds, ToolCallIdNormalizer,
};
use crate::types::{
    AssistantContent, AssistantContentV, AssistantMessage, AssistantMessageV, Context, ContextV,
    GrammarSyntax, ImageContent, ImageContentV, Message, MessageV, Model, ModelCompat, ModelCompatV,
    ModelV, TextContent, TextContentV, Tool, ToolCall, ToolCallV, ToolResultMessage,
    ToolResultMessageV, ToolV, UserContent, UserContentBlock, UserContentBlockV, UserContentV,
};
use vstd::prelude::*;

verus! {

/// The texts among blocks.
pub open spec fn block_texts(content: Seq<UserContentBlockV>) -> Seq<Seq<char>>
    decreases content.len(),
{
    if content.len() == 0 {
        Seq::empty()
    } else {
        let rest = block_texts(content.drop_last());
        match content.last() {
            UserContentBlockV::Text(t) => rest.push(t.text),
            UserContentBlockV::Image(_) => rest,
        }
    }
}

/// The texts among blocks.
pub fn collect_texts(content: &Vec<UserContentBlock>) -> (r: Vec<String>)
    ensures
        r.deep_view() == block_texts(content.deep_view()),
{
    let ghost all = content.deep_view();
    let mut r: Vec<String> = Vec::new();
    let mut i: usize = 0;
    assert(all.take(0) =~= Seq::empty());
    assert(r.deep_view() =~= Seq::empty());
    while i < content.len()
        invariant
            all == content.deep_view(),
            i <= content@.len(),
            r.deep_view() == block_texts(all.take(i as int)),
        decreases content@.len() - i,
    {
        let ghost before = r.deep_view();
        assert(all.take(i + 1).drop_last() =~= all.take(i as int));
        assert(all.take(i + 1).last() == content@[i as int]@);
        if let UserContentBlock::Text(t) = &content[i] {
            r.push(t.text.clone());
            assert(r.deep_view() =~= before.push(t@.text));
        }
        i += 1;
    }
    assert(all.take(i as int) =~= all);
    r
}

/// Whether there is an image among blocks.
pub open spec fn has_image(content: Seq<UserContentBlockV>) -> bool {
    exists|i: int| 0 <= i < content.len() && #[trigger] content[i] is Image
}

/// Whether there is an image among blocks.
pub fn has_images(content: &Vec<UserContentBlock>) -> (r: bool)
    ensures
        r == has_image(content.deep_view()),
{
    let mut i: usize = 0;
    while i < content.len()
        invariant
            i <= content@.len(),
            forall|k: int| 0 <= k < i ==> !(#[trigger] content.deep_view()[k] is Image),
        decreases content@.len() - i,
    {
        if let UserContentBlock::Image(_) = &content[i] {
            assert(content.deep_view()[i as int] is Image);
            return true;
        }
        i += 1;
    }
    false
}

/// An image as a URL that holds its data.
pub open spec fn image_url(image: ImageContentV) -> Seq<char> {
    "data:"@ + image.mime_type + ";base64,"@ + image.data
}

/// An image as a URL that holds its data.
pub fn data_url(image: &ImageContent) -> (r: String)
    ensures
        r@ == image_url(image@),
{
    let mut r = concat("data:", image.mime_type.as_str());
    r.push_str(";base64,");
    r.push_str(image.data.as_str());
    r
}

/// An image as a part of the input.
pub open spec fn image_part(image: ImageContentV) -> ResponseInputContentV {
    ResponseInputContentV::InputImage {
        detail: ResponseImageDetail::Auto,
        image_url: image_url(image),
    }
}

fn response_input_image(image: &ImageContent) -> (r: ResponseInputContent)
    ensures
        r@ == image_part(image@),
{
    ResponseInputContent::InputImage {
        detail: ResponseImageDetail::Auto,
        image_url: data_url(image),
    }
}

/// The images among blocks, as parts of the input.
pub open spec fn image_parts(content: Seq<UserContentBlockV>) -> Seq<ResponseInputContentV>
    decreases content.len(),
{
    if content.len() == 0 {
        Seq::empty()
    } else {
        let rest = image_parts(content.drop_last());
        match content.last() {
            UserContentBlockV::Image(image) => rest.push(image_part(image)),
            UserContentBlockV::Text(_) => rest,
        }
    }
}

/// What stands for a tool result without text: that there is an image, or nothing.
pub open spec fn output_text(text: Seq<char>, images: bool) -> Seq<char> {
    if text.len() > 0 {
        text
    } else if images {
        "(see attached image)"@
    } else {
        "(no tool output)"@
    }
}

/// The text of a tool result.
pub fn tool_output_text(text: String, images: bool) -> (r: String)
    ensures
        r@ == output_text(text@, images),
{
    if !text.as_str().is_empty() {
        text
    } else if images {
        "(see attached image)".to_owned()
    } else {
        "(no tool output)".to_owned()
    }
}

/// A tool result as the API takes it: a text, or text and images where the model sees them.
pub open spec fn tool_output(model: ModelV, content: Seq<UserContentBlockV>) -> ToolResultOutputV {
    let text = joined(block_texts(content), "\n"@);
    if has_image(content) && sees_images(model) {
        ToolResultOutputV::Content(
            if text.len() > 0 {
                seq![ResponseInputContentV::InputText { text }] + image_parts(content)
            } else {
                image_parts(content)
            },
        )
    } else {
        ToolResultOutputV::Text(output_text(text, has_image(content)))
    }
}

fn convert_tool_result_output(model: &Model, content: &Vec<UserContentBlock>) -> (r:
    ToolResultOutput)
    ensures
        r@ == tool_output(model@, content.deep_view()),
{
    let texts = collect_texts(content);
    let text = join(&texts, "\n");
    let images = has_images(content);
    if !images || !has_vision(model) {
        return ToolResultOutput::Text(tool_output_text(text, images));
    }
    let ghost all = content.deep_view();
    let ghost start: Seq<ResponseInputContentV> = if text@.len() > 0 {
        seq![ResponseInputContentV::InputText { text: text@ }]
    } else {
        Seq::empty()
    };
    let mut output: Vec<ResponseInputContent> = Vec::new();
    if !text.as_str().is_empty() {
        output.push(ResponseInputContent::InputText { text });
    }
    assert(output.deep_view() =~= start);
    let mut i: usize = 0;
    assert(all.take(0) =~= Seq::empty());
    assert(start + image_parts(all.take(0)) =~= start);
    while i < content.len()
        invariant
            all == content.deep_view(),
            i <= content@.len(),
            output.deep_view() == start + image_parts(all.take(i as int)),
        decreases content@.len() - i,
    {
        let ghost before = output.deep_view();
        assert(all.take(i + 1).drop_last() =~= all.take(i as int));
        assert(all.take(i + 1).last() == content@[i as int]@);
        if let UserContentBlock::Image(image) = &content[i] {
            output.push(response_input_image(image));
            assert(output.deep_view() =~= before.push(image_part(image@)));
            assert(output.deep_view() =~= start + image_parts(all.take(i + 1)));
        }
        i += 1;
    }
    assert(all.take(i as int) =~= all);
    assert(Seq::<ResponseInputContentV>::empty() + image_parts(all) =~= image_parts(all));
    ToolResultOutput::Content(output)
}

/// A block as a part of the input.
pub open spec fn input_part(block: UserContentBlockV) -> ResponseInputContentV {
    match block {
        UserContentBlockV::Text(t) => ResponseInputContentV::InputText { text: t.text },
        UserContentBlockV::Image(image) => image_part(image),
    }
}

/// The content of a user message as parts of the input.
pub open spec fn user_parts(content: UserContentV) -> Seq<ResponseInputContentV> {
    match content {
        UserContentV::Text(text) => seq![ResponseInputContentV::InputText { text }],
        UserContentV::Blocks(blocks) => blocks.map_values(|b: UserContentBlockV| input_part(b)),
    }
}

fn convert_user_content(content: &UserContent) -> (r: Vec<ResponseInputContent>)
    ensures
        r.deep_view() == user_parts(content@),
{
    let mut r: Vec<ResponseInputContent> = Vec::new();
    match content {
        UserContent::Text(text) => {
            r.push(ResponseInputContent::InputText { text: text.clone() });
            assert(r.deep_view() =~= user_parts(content@));
        },
        UserContent::Blocks(blocks) => {
            let mut i: usize = 0;
            while i < blocks.len()
                invariant
                    i <= blocks@.len(),
                    r@.len() == i,
                    forall|k: int| 0 <= k < i ==> (#[trigger] r@[k])@ == input_part(blocks@[k]@),
                decreases blocks@.len() - i,
            {
                let part = match &blocks[i] {
                    UserContentBlock::Text(t) => ResponseInputContent::InputText {
                        text: t.text.clone(),
                    },
                    UserContentBlock::Image(image) => response_input_image(image),
                };
                r.push(part);
                i += 1;
            }
            assert(r.deep_view() =~= user_parts(content@));
        },
    }
    r
}

/// The identifier of a text that has none: the number of its message, and of the text in it after
/// the first.
pub open spec fn fallback_id(message_index: nat, text_index: nat) -> Seq<char> {
    let base = "msg_pi_"@ + decimal(message_index);
    if text_index == 0 {
        base
    } else {
        base + "_"@ + decimal(text_index)
    }
}

/// The identifier of a text: the one of its signature, cut to a hash where it is too long.
pub open spec fn message_id(
    signature: Option<Seq<char>>,
    message_index: nat,
    text_index: nat,
) -> Seq<char> {
    match signature_parts(signature) {
        Some((id, _)) => if id.len() == 0 {
            fallback_id(message_index, text_index)
        } else if units(id).len() > 64 {
            "msg_"@ + hashed(id)
        } else {
            id
        },
        None => fallback_id(message_index, text_index),
    }
}

/// A text as it is replayed.
pub open spec fn replayed_text(
    text: TextContentV,
    message_index: nat,
    text_index: nat,
) -> ResponseInputItemV {
    ResponseInputItemV::OutputMessage(
        ResponseOutputMessageInputV {
            kind: ResponseMessageType::Message,
            role: ResponseAssistantRole::Assistant,
            content: seq![
                ResponseMessageContentV::OutputText { text: text.text, annotations: Seq::empty() },
            ],
            status: ResponseItemStatus::Completed,
            id: message_id(text.text_signature, message_index, text_index),
            phase: match signature_parts(text.text_signature) {
                Some((_, phase)) => phase,
                None => None,
            },
        },
    )
}

fn fallback_message_id(message_index: u64, text_index: u64) -> (r: String)
    ensures
        r@ == fallback_id(message_index as nat, text_index as nat),
{
    let number = to_decimal(message_index);
    let mut r = concat("msg_pi_", number.as_str());
    if text_index != 0 {
        let number = to_decimal(text_index);
        r.push_str("_");
        r.push_str(number.as_str());
    }
    r
}

fn replay_text(text: &TextContent, message_index: u64, text_index: u64) -> (r: ResponseInputItem)
    ensures
        r@ == replayed_text(text@, message_index as nat, text_index as nat),
{
    let (id, phase) = match parse_text_signature(&text.text_signature) {
        Some((id, phase)) => {
            if id.as_str().is_empty() {
                (fallback_message_id(message_index, text_index), phase)
            } else if to_units(id.as_str()).len() > 64 {
                let hash = short_hash(id.as_str());
                (concat("msg_", hash.as_str()), phase)
            } else {
                (id, phase)
            }
        },
        None => (fallback_message_id(message_index, text_index), None),
    };
    let mut content: Vec<ResponseMessageContent> = Vec::new();
    content.push(
        ResponseMessageContent::OutputText { text: text.text.clone(), annotations: Vec::new() },
    );
    let r = ResponseOutputMessageInput {
        kind: ResponseMessageType::Message,
        role: ResponseAssistantRole::Assistant,
        content,
        status: ResponseItemStatus::Completed,
        id,
        phase,
    };
    proof {
        assert(r.content@[0]@->annotations =~= Seq::empty());
        assert(r@.content =~= seq![
            ResponseMessageContentV::OutputText { text: text@.text, annotations: Seq::empty() },
        ]);
    }
    ResponseInputItem::OutputMessage(r)
}

/// The property that holds the input of a tool, where it is sampled from a grammar.
pub open spec fn custom_property(options: ConvertResponsesMessagesOptionsV, name: Seq<char>) -> Option<
    Seq<char>,
> {
    match options.grammar_tool_input_properties {
        Some(properties) => lookup(properties, name),
        None => None,
    }
}

/// Whether a tool is one that results may add.
pub open spec fn deferred(options: ConvertResponsesMessagesOptionsV, name: Seq<char>) -> Option<ToolV> {
    match options.deferred_tools {
        Some(tools) => lookup(tools, name),
        None => None,
    }
}

/// The item of a call that is replayed: only one that the model itself, or its grammar tool, can
/// have made.
pub open spec fn replayed_item(
    id: Seq<char>,
    different_model: bool,
    custom: bool,
) -> Option<Seq<char>> {
    match after(id, '|') {
        Some(rest) => {
            let item = before(rest, '|');
            let function = begins(item, "fc_"@);
            if (different_model && function) || (!custom && !function) {
                None
            } else {
                Some(item)
            }
        },
        None => None,
    }
}

/// A call as it is replayed.
pub open spec fn replayed_call(
    call: ToolCallV,
    source: AssistantMessageV,
    model: ModelV,
    options: ConvertResponsesMessagesOptionsV,
) -> Result<ResponseInputItemV, Seq<char>> {
    let different_model = source.provider == model.provider && source.api == model.api
        && source.model != model.id;
    let property = custom_property(options, call.name);
    let id = replayed_item(call.id, different_model, property is Some);
    let namespace = if same_model(source, model) || deferred(options, call.name) is Some {
        call.namespace
    } else {
        None
    };
    match property {
        Some(property) => match grammar_input(call.name, call.arguments, property) {
            Err(e) => Err(e),
            Ok(input) => Ok(
                ResponseInputItemV::CustomToolCall(
                    ResponseCustomToolCallInputV {
                        kind: ResponseCustomToolCallType::CustomToolCall,
                        id,
                        call_id: before(call.id, '|'),
                        name: call.name,
                        input,
                        namespace,
                    },
                ),
            ),
        },
        None => Ok(
            ResponseInputItemV::FunctionCall(
                ResponseFunctionCallInputV {
                    kind: ResponseFunctionCallType::FunctionCall,
                    id,
                    call_id: before(call.id, '|'),
                    name: call.name,
                    arguments: json_text(call.arguments),
                    namespace,
                },
            ),
        ),
    }
}

fn find_custom_property<'a>(options: &'a ConvertResponsesMessagesOptions, name: &str) -> (r: Option<
    &'a String,
>)
    ensures
        r.deep_view() == custom_property(options@, name@),
{
    match &options.grammar_tool_input_properties {
        Some(properties) => assoc::get(properties, name),
        None => None,
    }
}

fn find_deferred<'a>(options: &'a ConvertResponsesMessagesOptions, name: &str) -> (r: Option<
    &'a Tool,
>)
    ensures
        r.deep_view() == deferred(options@, name@),
{
    match &options.deferred_tools {
        Some(tools) => assoc::get(tools, name),
        None => None,
    }
}

fn replay_item_id(id: &str, different_model: bool, custom: bool) -> (r: Option<String>)
    ensures
        r.deep_view() == replayed_item(id@, different_model, custom),
{
    let (_, rest) = split_once(id, '|');
    match rest {
        Some(rest) => {
            let (item, _) = split_once(rest.as_str(), '|');
            let function = starts_with(item.as_str(), "fc_");
            if (different_model && function) || (!custom && !function) {
                None
            } else {
                Some(item)
            }
        },
        None => None,
    }
}

fn replay_call(
    call: &ToolCall,
    source: &AssistantMessage,
    model: &Model,
    options: &ConvertResponsesMessagesOptions,
) -> (r: Result<ResponseInputItem, String>)
    ensures
        outcome(r) == replayed_call(call@, source@, model@, options@),
{
    let own = is_same_model(source, model);
    let different_model = crate::text::same(source.provider.as_str(), model.provider.as_str())
        && crate::text::same(source.api.as_str(), model.api.as_str()) && !crate::text::same(
        source.model.as_str(),
        model.id.as_str(),
    );
    let property = find_custom_property(options, call.name.as_str());
    let id = replay_item_id(call.id.as_str(), different_model, property.is_some());
    let (call_id, _) = split_once(call.id.as_str(), '|');
    let namespace = if own || find_deferred(options, call.name.as_str()).is_some() {
        call.namespace.clone()
    } else {
        None
    };
    match property {
        Some(property) => match get_grammar_tool_input(
            call.name.as_str(),
            &call.arguments,
            property.as_str(),
        ) {
            Err(e) => Err(e),
            Ok(input) => Ok(
                ResponseInputItem::CustomToolCall(
                    ResponseCustomToolCallInput {
                        kind: ResponseCustomToolCallType::CustomToolCall,
                        id,
                        call_id,
                        name: call.name.clone(),
                        input,
                        namespace,
                    },
                ),
            ),
        },
        None => Ok(
            ResponseInputItem::FunctionCall(
                ResponseFunctionCallInput {
                    kind: ResponseFunctionCallType::FunctionCall,
                    id,
                    call_id,
                    name: call.name.clone(),
                    arguments: write_json(&call.arguments),
                    namespace,
                },
            ),
        ),
    }
}

/// The number of texts among blocks.
pub open spec fn text_count(content: Seq<AssistantContentV>) -> nat
    decreases content.len(),
{
    if content.len() == 0 {
        0
    } else if content.last() is Text {
        text_count(content.drop_last()) + 1
    } else {
        text_count(content.drop_last())
    }
}

/// A block of a turn as it is replayed; reasoning only where it is signed.
pub open spec fn replayed_block(
    block: AssistantContentV,
    message_index: nat,
    text_index: nat,
    source: AssistantMessageV,
    model: ModelV,
    options: ConvertResponsesMessagesOptionsV,
) -> Result<Option<ResponseInputItemV>, Seq<char>> {
    match block {
        AssistantContentV::Thinking(t) => match t.thinking_signature {
            Some(signature) => if signature.len() > 0 {
                match json_parse(signature) {
                    Ok(v) => Ok(Some(ResponseInputItemV::Reasoning(v))),
                    Err(e) => Err(e),
                }
            } else {
                Ok(None)
            },
            None => Ok(None),
        },
        AssistantContentV::Text(t) => Ok(Some(replayed_text(t, message_index, text_index))),
        AssistantContentV::ToolCall(c) => match replayed_call(c, source, model, options) {
            Ok(item) => Ok(Some(item)),
            Err(e) => Err(e),
        },
    }
}

/// The blocks of a turn as they are replayed, up to the first that fails.
pub open spec fn replayed_blocks(
    content: Seq<AssistantContentV>,
    message_index: nat,
    source: AssistantMessageV,
    model: ModelV,
    options: ConvertResponsesMessagesOptionsV,
) -> Result<Seq<ResponseInputItemV>, Seq<char>>
    decreases content.len(),
{
    if content.len() == 0 {
        Ok(Seq::empty())
    } else {
        match replayed_blocks(content.drop_last(), message_index, source, model, options) {
            Err(e) => Err(e),
            Ok(rest) => match replayed_block(
                content.last(),
                message_index,
                text_count(content.drop_last()),
                source,
                model,
                options,
            ) {
                Err(e) => Err(e),
                Ok(None) => Ok(rest),
                Ok(Some(item)) => Ok(rest.push(item)),
            },
        }
    }
}

proof fn lemma_replayed_fail(
    content: Seq<AssistantContentV>,
    message_index: nat,
    source: AssistantMessageV,
    model: ModelV,
    options: ConvertResponsesMessagesOptionsV,
    n: int,
)
    requires
        0 <= n <= content.len(),
        replayed_blocks(content.take(n), message_index, source, model, options) is Err,
    ensures
        replayed_blocks(content, message_index, source, model, options) == replayed_blocks(
            content.take(n),
            message_index,
            source,
            model,
            options,
        ),
    decreases content.len(),
{
    if n < content.len() {
        assert(content.drop_last().take(n) =~= content.take(n));
        lemma_replayed_fail(content.drop_last(), message_index, source, model, options, n);
    } else {
        assert(content.take(n) =~= content);
    }
}

proof fn lemma_text_count(content: Seq<AssistantContentV>)
    ensures
        text_count(content) <= content.len(),
    decreases content.len(),
{
    if content.len() > 0 {
        lemma_text_count(content.drop_last());
    }
}

fn replay_block(
    block: &AssistantContent,
    message_index: u64,
    text_index: u64,
    source: &AssistantMessage,
    model: &Model,
    options: &ConvertResponsesMessagesOptions,
) -> (r: Result<Option<ResponseInputItem>, String>)
    ensures
        outcome(r) == replayed_block(
            block@,
            message_index as nat,
            text_index as nat,
            source@,
            model@,
            options@,
        ),
{
    match block {
        AssistantContent::Thinking(t) => {
            if let Some(signature) = &t.thinking_signature {
                if !signature.as_str().is_empty() {
                    return match parse_json(signature.as_str()) {
                        Ok(v) => Ok(Some(ResponseInputItem::Reasoning(v))),
                        Err(e) => Err(e),
                    };
                }
            }
            Ok(None)
        },
        AssistantContent::Text(t) => Ok(Some(replay_text(t, message_index, text_index))),
        AssistantContent::ToolCall(c) => match replay_call(c, source, model, options) {
            Ok(item) => Ok(Some(item)),
            Err(e) => Err(e),
        },
    }
}

fn replay_turn(
    source: &AssistantMessage,
    message_index: u64,
    model: &Model,
    options: &ConvertResponsesMessagesOptions,
) -> (r: Result<Vec<ResponseInputItem>, String>)
    ensures
        outcome(r) == replayed_blocks(
            source@.content,
            message_index as nat,
            source@,
            model@,
            options@,
        ),
{
    let ghost all = source@.content;
    let mut items: Vec<ResponseInputItem> = Vec::new();
    let mut text_index: u64 = 0;
    let mut i: usize = 0;
    assert(all.take(0) =~= Seq::empty());
    assert(items.deep_view() =~= Seq::empty());
    while i < source.content.len()
        invariant
            all == source@.content,
            i <= source.content.len(),
            text_index == text_count(all.take(i as int)),
            replayed_blocks(
                all.take(i as int),
                message_index as nat,
                source@,
                model@,
                options@,
            ) == Ok::<Seq<ResponseInputItemV>, Seq<char>>(items.deep_view()),
        decreases source.content@.len() - i,
    {
        let ghost before = items.deep_view();
        assert(all.take(i + 1).drop_last() =~= all.take(i as int));
        assert(all.take(i + 1).last() == source.content@[i as int]@);
        match replay_block(&source.content[i], message_index, text_index, source, model, options) {
            Err(e) => {
                proof {
                    lemma_replayed_fail(
                        all,
                        message_index as nat,
                        source@,
                        model@,
                        options@,
                        i + 1,
                    );
                }
                return Err(e);
            },
            Ok(None) => {},
            Ok(Some(item)) => {
                items.push(item);
                assert(items.deep_view() =~= before.push(item@));
            },
        }
        proof {
            lemma_text_count(all.take(i as int));
        }
        if let AssistantContent::Text(_) = &source.content[i] {
            text_index += 1;
        }
        i += 1;
    }
    assert(all.take(i as int) =~= all);
    Ok(items)
}

/// A grammar's notation as the API names it.
pub open spec fn response_syntax(syntax: GrammarSyntax) -> ResponseGrammarSyntax {
    match syntax {
        GrammarSyntax::Lark => ResponseGrammarSyntax::Lark,
        GrammarSyntax::Regex => ResponseGrammarSyntax::Regex,
    }
}

/// An option that is set to true or not at all.
pub open spec fn flag(b: bool) -> Option<bool> {
    if b {
        Some(true)
    } else {
        None
    }
}

/// A tool as the API takes it.
pub open spec fn response_tool(tool: ToolV, options: ConvertResponsesToolsOptionsV) -> ResponseToolV {
    let strict_mode = options.supports_strict_mode != Some(false);
    match grammar_of(tool, options.supports_open_ai_grammar_tools == Some(true)) {
        Some(grammar) => ResponseToolV::Custom {
            name: tool.name,
            description: tool.description,
            format: ResponseCustomToolFormatV {
                kind: ResponseGrammarType::Grammar,
                syntax: response_syntax(grammar.syntax),
                definition: grammar.definition,
            },
            defer_loading: flag(options.defer_loading),
        },
        None => {
            let strict = match strictness_of(tool, strict_mode) {
                Some(strict) => Some(strict),
                None => match options.strict {
                    Some(strict) => strict,
                    None => Some(false),
                },
            };
            ResponseToolV::Function {
                name: tool.name,
                description: tool.description,
                parameters: schema_of(tool, strict),
                strict: if strict_mode {
                    Some(strict)
                } else {
                    None
                },
                defer_loading: flag(options.defer_loading),
            }
        },
    }
}

fn convert_tool(tool: &Tool, options: &ConvertResponsesToolsOptions) -> (r: ResponseTool)
    ensures
        r@ == response_tool(tool@, options@),
{
    let strict_mode = match options.supports_strict_mode {
        Some(b) => b,
        None => true,
    };
    let grammars = match options.supports_open_ai_grammar_tools {
        Some(b) => b,
        None => false,
    };
    let defer_loading = if options.defer_loading {
        Some(true)
    } else {
        None
    };
    if let Some(grammar) = resolve_grammar_constrained_sampling(tool, grammars) {
        return ResponseTool::Custom {
            name: tool.name.clone(),
            description: tool.description.clone(),
            format: ResponseCustomToolFormat {
                kind: ResponseGrammarType::Grammar,
                syntax: match grammar.syntax {
                    GrammarSyntax::Lark => ResponseGrammarSyntax::Lark,
                    GrammarSyntax::Regex => ResponseGrammarSyntax::Regex,
                },
                definition: grammar.definition.clone(),
            },
            defer_loading,
        };
    }
    let strict = match resolve_json_schema_strict_sampling(tool, strict_mode) {
        Some(strict) => Some(strict),
        None => match options.strict {
            Some(strict) => strict,
            None => Some(false),
        },
    };
    ResponseTool::Function {
        name: tool.name.clone(),
        description: tool.description.clone(),
        parameters: get_json_schema_tool_parameters(tool, strict),
        strict: if strict_mode {
            Some(strict)
        } else {
            None
        },
        defer_loading,
    }
}

/// Tools as the API takes them.
pub open spec fn response_tools(tools: Seq<ToolV>, options: ConvertResponsesToolsOptionsV) -> Seq<
    ResponseToolV,
> {
    tools.map_values(|t: ToolV| response_tool(t, options))
}

/// Converts tools to the form that the API takes.
pub fn convert_responses_tools(tools: &Vec<Tool>, options: &ConvertResponsesToolsOptions) -> (r: Vec<
    ResponseTool,
>)
    ensures
        r.deep_view() == response_tools(tools.deep_view(), options@),
{
    let mut r: Vec<ResponseTool> = Vec::new();
    let mut i: usize = 0;
    while i < tools.len()
        invariant
            i <= tools@.len(),
            r@.len() == i,
            forall|k: int| 0 <= k < i ==> (#[trigger] r@[k])@ == response_tool(tools@[k]@, options@),
        decreases tools@.len() - i,
    {
        r.push(convert_tool(&tools[i], options));
        i += 1;
    }
    assert(r.deep_view() =~= response_tools(tools.deep_view(), options@));
    r
}

/// The tools that names add, each the first time that it is named.
pub struct Loading {
    /// The names of the tools that are added.
    pub names: Seq<Seq<char>>,
    /// The tools.
    pub tools: Seq<ToolV>,
    /// All names that have been added so far.
    pub loaded: Seq<Seq<char>>,
}

/// The tools that `names` add where `loaded` have been added before.
pub open spec fn loading(
    names: Seq<Seq<char>>,
    loaded: Seq<Seq<char>>,
    options: ConvertResponsesMessagesOptionsV,
) -> Loading
    decreases names.len(),
{
    if names.len() == 0 {
        Loading { names: Seq::empty(), tools: Seq::empty(), loaded }
    } else {
        let rest = loading(names.drop_last(), loaded, options);
        match deferred(options, names.last()) {
            Some(tool) => if rest.loaded.contains(names.last()) {
                rest
            } else {
                Loading {
                    names: rest.names.push(names.last()),
                    tools: rest.tools.push(tool),
                    loaded: rest.loaded.push(names.last()),
                }
            },
            None => rest,
        }
    }
}

/// The names that a tool result adds.
pub open spec fn added_names(result: ToolResultMessageV) -> Seq<Seq<char>> {
    match result.added_tool_names {
        Some(names) => names,
        None => Seq::empty(),
    }
}

/// The identifier of a tool search that stands for the loading of tools.
pub open spec fn search_id(result: ToolResultMessageV, names: Seq<Seq<char>>) -> Seq<char> {
    "pi_tool_load_"@ + hashed(result.tool_call_id + ":"@ + joined(names, ","@))
}

/// The items that add tools after a tool result.
pub open spec fn loading_items(
    result: ToolResultMessageV,
    added: Loading,
    options: ConvertResponsesMessagesOptionsV,
) -> Seq<ResponseInputItemV> {
    if added.tools.len() == 0 {
        Seq::empty()
    } else {
        match options.deferred_tools_mode {
            None => Seq::empty(),
            Some(DeferredResponsesToolsMode::AdditionalTools) => seq![
                ResponseInputItemV::AdditionalTools(
                    ResponseAdditionalToolsInputV {
                        kind: ResponseAdditionalToolsType::AdditionalTools,
                        role: ResponseInstructionRole::Developer,
                        tools: response_tools(added.tools, options.tool_options),
                    },
                ),
            ],
            Some(DeferredResponsesToolsMode::ToolSearch) => seq![
                ResponseInputItemV::ToolSearchCall(
                    ResponseToolSearchCallInputV {
                        kind: ResponseToolSearchCallType::ToolSearchCall,
                        call_id: search_id(result, added.names),
                        execution: ResponseToolSearchExecution::Client,
                        status: ResponseItemStatus::Completed,
                        arguments: ResponseToolSearchArgumentsV {
                            query: joined(added.names, " "@),
                            limit: added.names.len() as usize,
                        },
                    },
                ),
                ResponseInputItemV::ToolSearchOutput(
                    ResponseToolSearchOutputInputV {
                        kind: ResponseToolSearchOutputType::ToolSearchOutput,
                        call_id: search_id(result, added.names),
                        execution: ResponseToolSearchExecution::Client,
                        status: ResponseItemStatus::Completed,
                        tools: response_tools(
                            added.tools,
                            ConvertResponsesToolsOptionsV {
                                defer_loading: true,
                                ..options.tool_options
                            },
                        ),
                    },
                ),
            ],
        }
    }
}

/// A tool result as it is replayed.
pub open spec fn replayed_result(
    result: ToolResultMessageV,
    model: ModelV,
    options: ConvertResponsesMessagesOptionsV,
) -> ResponseInputItemV {
    ResponseInputItemV::ToolCallOutput(
        ResponseToolCallOutputV {
            kind: if custom_property(options, result.tool_name) is Some {
                ResponseToolCallOutputType::CustomToolCallOutput
            } else {
                ResponseToolCallOutputType::FunctionCallOutput
            },
            call_id: before(result.tool_call_id, '|'),
            output: tool_output(model, result.content),
        },
    )
}

/// Where the conversion stands.
pub struct Conversion {
    pub items: Seq<ResponseInputItemV>,
    /// The number of messages so far that gave an item.
    pub index: nat,
    /// The tools that have been added so far, by name.
    pub loaded: Seq<Seq<char>>,
}

/// Converts one more message. One that gives no item is not counted.
pub open spec fn conversion_step(
    state: Conversion,
    message: MessageV,
    model: ModelV,
    options: ConvertResponsesMessagesOptionsV,
) -> Result<Conversion, Seq<char>> {
    match message {
        MessageV::User(m) => {
            let content = user_parts(m.content);
            if content.len() == 0 {
                Ok(state)
            } else {
                Ok(
                    Conversion {
                        items: state.items.push(
                            ResponseInputItemV::User(
                                ResponseUserMessageV { role: ResponseUserRole::User, content },
                            ),
                        ),
                        index: state.index + 1,
                        ..state
                    },
                )
            }
        },
        MessageV::Assistant(a) => match replayed_blocks(
            a.content,
            state.index,
            a,
            model,
            options,
        ) {
            Err(e) => Err(e),
            Ok(items) => if items.len() == 0 {
                Ok(state)
            } else {
                Ok(Conversion { items: state.items + items, index: state.index + 1, ..state })
            },
        },
        MessageV::ToolResult(m) => {
            let added = loading(added_names(m), state.loaded, options);
            Ok(
                Conversion {
                    items: state.items.push(replayed_result(m, model, options)) + loading_items(
                        m,
                        added,
                        options,
                    ),
                    index: state.index + 1,
                    loaded: added.loaded,
                },
            )
        },
    }
}

/// The conversion of messages, up to the first that fails.
pub open spec fn conversion(
    start: Seq<ResponseInputItemV>,
    messages: Seq<MessageV>,
    model: ModelV,
    options: ConvertResponsesMessagesOptionsV,
) -> Result<Conversion, Seq<char>>
    decreases messages.len(),
{
    if messages.len() == 0 {
        Ok(Conversion { items: start, index: 0, loaded: Seq::empty() })
    } else {
        match conversion(start, messages.drop_last(), model, options) {
            Err(e) => Err(e),
            Ok(state) => conversion_step(state, messages.last(), model, options),
        }
    }
}

proof fn lemma_conversion_fail(
    start: Seq<ResponseInputItemV>,
    messages: Seq<MessageV>,
    model: ModelV,
    options: ConvertResponsesMessagesOptionsV,
    n: int,
)
    requires
        0 <= n <= messages.len(),
        conversion(start, messages.take(n), model, options) is Err,
    ensures
        conversion(start, messages, model, options) == conversion(
            start,
            messages.take(n),
            model,
            options,
        ),
    decreases messages.len(),
{
    if n < messages.len() {
        assert(messages.drop_last().take(n) =~= messages.take(n));
        lemma_conversion_fail(start, messages.drop_last(), model, options, n);
    } else {
        assert(messages.take(n) =~= messages);
    }
}

proof fn lemma_conversion_index(
    start: Seq<ResponseInputItemV>,
    messages: Seq<MessageV>,
    model: ModelV,
    options: ConvertResponsesMessagesOptionsV,
)
    ensures
        conversion(start, messages, model, options) matches Ok(state) ==> state.index
            <= messages.len(),
    decreases messages.len(),
{
    if messages.len() > 0 {
        lemma_conversion_index(start, messages.drop_last(), model, options);
    }
}

/// Whether a model takes instructions from a developer.
pub open spec fn developer_role(model: ModelV) -> bool {
    model.reasoning && match model.compat {
        Some(ModelCompatV::OpenAIResponses(compat)) => compat.supports_developer_role != Some(
            false,
        ),
        _ => true,
    }
}

/// The instruction that a request begins with.
pub open spec fn instruction(
    model: ModelV,
    system_prompt: Option<Seq<char>>,
    options: ConvertResponsesMessagesOptionsV,
) -> Seq<ResponseInputItemV> {
    match system_prompt {
        Some(prompt) => if options.include_system_prompt != Some(false) && prompt.len() > 0 {
            seq![
                ResponseInputItemV::Instruction(
                    ResponseInstructionMessageV {
                        role: if developer_role(model) {
                            ResponseInstructionRole::Developer
                        } else {
                            ResponseInstructionRole::System
                        },
                        content: prompt,
                    },
                ),
            ]
        } else {
            Seq::empty()
        },
        None => Seq::empty(),
    }
}

/// What [`convert_responses_messages`] returns.
pub open spec fn converted(
    model: ModelV,
    context: ContextV,
    ids: &ResponsesToolCallIds,
    options: ConvertResponsesMessagesOptionsV,
    now: i64,
) -> Result<Seq<ResponseInputItemV>, Seq<char>> {
    match conversion(
        instruction(model, context.system_prompt, options),
        transformed::<ResponsesToolCallIds>(context.messages, model, Some(ids.state()), now),
        model,
        options,
    ) {
        Ok(state) => Ok(state.items),
        Err(e) => Err(e),
    }
}

fn load_tools(
    names: &Vec<String>,
    loaded: &mut Vec<String>,
    options: &ConvertResponsesMessagesOptions,
) -> (r: (Vec<String>, Vec<Tool>))
    ensures
        ({
            let l = loading(names.deep_view(), old(loaded).deep_view(), options@);
            &&& r.0.deep_view() == l.names
            &&& r.1.deep_view() == l.tools
            &&& final(loaded).deep_view() == l.loaded
        }),
{
    let ghost all = names.deep_view();
    let ghost start = loaded.deep_view();
    let mut new_names: Vec<String> = Vec::new();
    let mut tools: Vec<Tool> = Vec::new();
    let mut i: usize = 0;
    assert(all.take(0) =~= Seq::empty());
    assert(new_names.deep_view() =~= Seq::empty());
    assert(tools.deep_view() =~= Seq::empty());
    while i < names.len()
        invariant
            all == names.deep_view(),
            i <= names@.len(),
            new_names.deep_view() == loading(all.take(i as int), start, options@).names,
            tools.deep_view() == loading(all.take(i as int), start, options@).tools,
            loaded.deep_view() == loading(all.take(i as int), start, options@).loaded,
        decreases names@.len() - i,
    {
        let ghost before = loading(all.take(i as int), start, options@);
        assert(all.take(i + 1).drop_last() =~= all.take(i as int));
        assert(all.take(i + 1).last() == names@[i as int]@);
        if let Some(tool) = find_deferred(options, names[i].as_str()) {
            if !contains_name(loaded, names[i].as_str()) {
                loaded.push(names[i].clone());
                new_names.push(names[i].clone());
                tools.push(tool.clone());
                assert(loaded.deep_view() =~= before.loaded.push(names@[i as int]@));
                assert(new_names.deep_view() =~= before.names.push(names@[i as int]@));
                assert(tools.deep_view() =~= before.tools.push(tool@));
            }
        }
        i += 1;
    }
    assert(all.take(i as int) =~= all);
    (new_names, tools)
}

fn push_item(items: &mut Vec<ResponseInputItem>, item: ResponseInputItem)
    ensures
        final(items).deep_view() == old(items).deep_view().push(item@),
{
    let ghost before = items.deep_view();
    items.push(item);
    assert(items.deep_view() =~= before.push(item@));
}

fn push_loading_items(
    items: &mut Vec<ResponseInputItem>,
    result: &ToolResultMessage,
    names: &Vec<String>,
    tools: &Vec<Tool>,
    options: &ConvertResponsesMessagesOptions,
    Ghost(added): Ghost<Loading>,
)
    requires
        added.names == names.deep_view(),
        added.tools == tools.deep_view(),
    ensures
        final(items).deep_view() == old(items).deep_view() + loading_items(
            result@,
            added,
            options@,
        ),
{
    let ghost before = items.deep_view();
    assert(before + Seq::<ResponseInputItemV>::empty() =~= before);
    if tools.len() == 0 {
        return;
    }
    match options.deferred_tools_mode {
        None => {},
        Some(DeferredResponsesToolsMode::AdditionalTools) => {
            push_item(
                items,
                ResponseInputItem::AdditionalTools(
                    ResponseAdditionalToolsInput {
                        kind: ResponseAdditionalToolsType::AdditionalTools,
                        role: ResponseInstructionRole::Developer,
                        tools: convert_responses_tools(tools, &options.tool_options),
                    },
                ),
            );
            assert(items.deep_view() =~= before + loading_items(result@, added, options@));
        },
        Some(DeferredResponsesToolsMode::ToolSearch) => {
            let list = join(names, ",");
            let mut seed = concat(result.tool_call_id.as_str(), ":");
            seed.push_str(list.as_str());
            let hash = short_hash(seed.as_str());
            let call_id = concat("pi_tool_load_", hash.as_str());
            push_item(
                items,
                ResponseInputItem::ToolSearchCall(
                    ResponseToolSearchCallInput {
                        kind: ResponseToolSearchCallType::ToolSearchCall,
                        call_id: call_id.clone(),
                        execution: ResponseToolSearchExecution::Client,
                        status: ResponseItemStatus::Completed,
                        arguments: ResponseToolSearchArguments {
                            query: join(names, " "),
                            limit: names.len(),
                        },
                    },
                ),
            );
            let mut tool_options = options.tool_options.clone();
            tool_options.defer_loading = true;
            push_item(
                items,
                ResponseInputItem::ToolSearchOutput(
                    ResponseToolSearchOutputInput {
                        kind: ResponseToolSearchOutputType::ToolSearchOutput,
                        call_id,
                        execution: ResponseToolSearchExecution::Client,
                        status: ResponseItemStatus::Completed,
                        tools: convert_responses_tools(tools, &tool_options),
                    },
                ),
            );
            assert(items.deep_view() =~= before + loading_items(result@, added, options@));
        },
    }
}

fn replay_result(
    result: &ToolResultMessage,
    model: &Model,
    options: &ConvertResponsesMessagesOptions,
) -> (r: ResponseInputItem)
    ensures
        r@ == replayed_result(result@, model@, options@),
{
    let (call_id, _) = split_once(result.tool_call_id.as_str(), '|');
    let kind = if find_custom_property(options, result.tool_name.as_str()).is_some() {
        ResponseToolCallOutputType::CustomToolCallOutput
    } else {
        ResponseToolCallOutputType::FunctionCallOutput
    };
    ResponseInputItem::ToolCallOutput(
        ResponseToolCallOutput {
            kind,
            call_id,
            output: convert_tool_result_output(model, &result.content),
        },
    )
}

fn instruction_items(
    model: &Model,
    context: &Context,
    options: &ConvertResponsesMessagesOptions,
) -> (r: Vec<ResponseInputItem>)
    ensures
        r.deep_view() == instruction(model@, context@.system_prompt, options@),
{
    let mut items: Vec<ResponseInputItem> = Vec::new();
    assert(items.deep_view() =~= Seq::empty());
    let included = match options.include_system_prompt {
        Some(b) => b,
        None => true,
    };
    if let Some(prompt) = &context.system_prompt {
        if included && !prompt.as_str().is_empty() {
            let supported = match &model.compat {
                Some(ModelCompat::OpenAIResponses(compat)) => match compat.supports_developer_role {
                    Some(b) => b,
                    None => true,
                },
                _ => true,
            };
            push_item(
                &mut items,
                ResponseInputItem::Instruction(
                    ResponseInstructionMessage {
                        role: if model.reasoning && supported {
                            ResponseInstructionRole::Developer
                        } else {
                            ResponseInstructionRole::System
                        },
                        content: prompt.clone(),
                    },
                ),
            );
            assert(items.deep_view() =~= instruction(model@, context@.system_prompt, options@));
        }
    }
    items
}

/// Converts a conversation to the input of a request. Results that had to be made up carry the
/// time `now`.
pub fn convert_responses_messages(
    model: &Model,
    context: &Context,
    ids: &ResponsesToolCallIds,
    options: &ConvertResponsesMessagesOptions,
    now: i64,
) -> (r: Result<Vec<ResponseInputItem>, OpenAIResponsesError>)
    ensures
        outcome(r) == converted(model@, context@, ids, options@, now),
{
    let mut own_ids = Some(ids.clone());
    let messages = transform_messages(&context.messages, model, &mut own_ids, now);
    let ghost all = messages.deep_view();
    let ghost start = instruction(model@, context@.system_prompt, options@);
    let mut items = instruction_items(model, context, options);
    let mut index: u64 = 0;
    let mut loaded: Vec<String> = Vec::new();
    let mut i: usize = 0;
    assert(all.take(0) =~= Seq::empty());
    assert(loaded.deep_view() =~= Seq::empty());
    while i < messages.len()
        invariant
            all == messages.deep_view(),
            all == transformed::<ResponsesToolCallIds>(
                context@.messages,
                model@,
                Some(ids.state()),
                now,
            ),
            start == instruction(model@, context@.system_prompt, options@),
            i <= messages.len(),
            conversion(start, all.take(i as int), model@, options@) == Ok::<
                Conversion,
                Seq<char>,
            >(
                Conversion {
                    items: items.deep_view(),
                    index: index as nat,
                    loaded: loaded.deep_view(),
                },
            ),
        decreases messages@.len() - i,
    {
        let ghost before = items.deep_view();
        proof {
            assert(all.take(i + 1).drop_last() =~= all.take(i as int));
            assert(all.take(i + 1).last() == messages@[i as int]@);
            lemma_conversion_index(start, all.take(i as int), model@, options@);
        }
        match &messages[i] {
            Message::User(m) => {
                let content = convert_user_content(&m.content);
                if content.len() > 0 {
                    push_item(
                        &mut items,
                        ResponseInputItem::User(
                            ResponseUserMessage { role: ResponseUserRole::User, content },
                        ),
                    );
                    index += 1;
                }
            },
            Message::Assistant(a) => {
                match replay_turn(a, index, model, options) {
                    Err(e) => {
                        proof {
                            lemma_conversion_fail(start, all, model@, options@, i + 1);
                        }
                        return Err(OpenAIResponsesError::new(e));
                    },
                    Ok(replayed) => {
                        let ghost new = replayed.deep_view();
                        let mut replayed = replayed;
                        if replayed.len() > 0 {
                            items.append(&mut replayed);
                            assert(items.deep_view() =~= before + new);
                            index += 1;
                        }
                    },
                }
            },
            Message::ToolResult(m) => {
                push_item(&mut items, replay_result(m, model, options));
                let names = match &m.added_tool_names {
                    Some(names) => names.clone(),
                    None => Vec::new(),
                };
                assert(names.deep_view() =~= added_names(m@));
                let ghost added = loading(added_names(m@), loaded.deep_view(), options@);
                let (new_names, tools) = load_tools(&names, &mut loaded, options);
                push_loading_items(&mut items, m, &new_names, &tools, options, Ghost(added));
                index += 1;
            },
        }
        i += 1;
    }
    assert(all.take(i as int) =~= all);
    Ok(items)
}

/// A tool is added once: the names that are added are new, no two are the same, and from then on
/// they count as added.
pub proof fn law_tools_are_added_once(
    names: Seq<Seq<char>>,
    loaded: Seq<Seq<char>>,
    options: ConvertResponsesMessagesOptionsV,
)
    ensures
        ({
            let added = loading(names, loaded, options);
            &&& added.loaded == loaded + added.names
            &&& added.tools.len() == added.names.len()
            &&& added.names.no_duplicates()
            &&& forall|i: int|
                0 <= i < added.names.len() ==> !loaded.contains(#[trigger] added.names[i])
        }),
    decreases names.len(),
{
    if names.len() == 0 {
        assert(loaded + Seq::<Seq<char>>::empty() =~= loaded);
    } else {
        let rest = loading(names.drop_last(), loaded, options);
        law_tools_are_added_once(names.drop_last(), loaded, options);
        let added = loading(names, loaded, options);
        let name = names.last();
        if deferred(options, name) is Some && !rest.loaded.contains(name) {
            assert(added.loaded =~= loaded + added.names);
            assert forall|i: int| 0 <= i < rest.names.len() implies #[trigger] rest.names[i]
                != name by {
                if rest.names[i] == name {
                    assert(rest.loaded[loaded.len() + i] == name);
                }
            }
            if loaded.contains(name) {
                let k = choose|k: int| 0 <= k < loaded.len() && loaded[k] == name;
                assert(rest.loaded[k] == name);
            }
            assert forall|i: int| 0 <= i < added.names.len() implies !loaded.contains(
                #[trigger] added.names[i],
            ) by {
                if i < rest.names.len() {
                    assert(added.names[i] == rest.names[i]);
                }
            }
        }
    }
}

} // verus!
