//! The events of the Responses stream, as they are read from JSON.
use crate::constrained_sampling::outcome;
use crate::decode::{
    check_count, check_list, check_members, check_optional_count, check_optional_text,
    check_record, check_text, check_word, count_fault, count_or_zero, first, flag_of, get_part,
    items_of, lemma_first_step, list_fault, members_fault, mislength, mislength_error, missing_field,
    missing_field_error, mistyped, mistyped_error, nullable, part, read_count_or_zero, read_flag,
    read_items, read_nullable, read_text, read_text_or_none, read_word, record_fault, text_fault,
    text_or_none, unknown_variant, unknown_variant_error, unless_null, word_fault, word_of, Record,
};
use crate::json::{member, text_of, Json, JsonV};
use crate::openai_responses_shared::{ResponseServiceTier, ResponseServiceTierV};
use crate::text::same;
use crate::text_signature::{check_phase, phase_fault, phase_of, read_phase};
use crate::types::TextSignaturePhase;
use vstd::prelude::*;

verus! {

/// The token counts of a response; zero where one is not given.
#[derive(Debug, PartialEq)]
pub struct ResponseUsage {
    pub input_tokens: u64,
    pub output_tokens: u64,
    pub total_tokens: u64,
    pub cached_tokens: u64,
    pub cache_write_tokens: u64,
    pub reasoning_tokens: u64,
}

/// The model of [`ResponseUsage`].
pub struct ResponseUsageV {
    pub input_tokens: u64,
    pub output_tokens: u64,
    pub total_tokens: u64,
    pub cached_tokens: u64,
    pub cache_write_tokens: u64,
    pub reasoning_tokens: u64,
}

impl View for ResponseUsage {
    type V = ResponseUsageV;

    open spec fn view(&self) -> ResponseUsageV {
        ResponseUsageV {
            input_tokens: self.input_tokens.deep_view(),
            output_tokens: self.output_tokens.deep_view(),
            total_tokens: self.total_tokens.deep_view(),
            cached_tokens: self.cached_tokens.deep_view(),
            cache_write_tokens: self.cache_write_tokens.deep_view(),
            reasoning_tokens: self.reasoning_tokens.deep_view(),
        }
    }
}

impl DeepView for ResponseUsage {
    type V = ResponseUsageV;

    open spec fn deep_view(&self) -> ResponseUsageV {
        self@
    }
}

impl Clone for ResponseUsage {
    fn clone(&self) -> (r: Self)
        ensures
            r@ == self@,
    {
        ResponseUsage {
            input_tokens: self.input_tokens,
            output_tokens: self.output_tokens,
            total_tokens: self.total_tokens,
            cached_tokens: self.cached_tokens,
            cache_write_tokens: self.cache_write_tokens,
            reasoning_tokens: self.reasoning_tokens,
        }
    }
}

/// Why a response failed.
#[derive(Debug, PartialEq)]
pub struct ResponseFailure {
    pub code: Option<String>,
    pub message: Option<String>,
}

/// The model of [`ResponseFailure`].
pub struct ResponseFailureV {
    pub code: Option<Seq<char>>,
    pub message: Option<Seq<char>>,
}

impl View for ResponseFailure {
    type V = ResponseFailureV;

    open spec fn view(&self) -> ResponseFailureV {
        ResponseFailureV {
            code: self.code.deep_view(),
            message: self.message.deep_view(),
        }
    }
}

impl DeepView for ResponseFailure {
    type V = ResponseFailureV;

    open spec fn deep_view(&self) -> ResponseFailureV {
        self@
    }
}

impl Clone for ResponseFailure {
    fn clone(&self) -> (r: Self)
        ensures
            r@ == self@,
    {
        ResponseFailure {
            code: self.code.clone(),
            message: self.message.clone(),
        }
    }
}

/// A response at its end.
#[derive(Debug, PartialEq)]
pub struct TerminalResponse {
    pub id: Option<String>,
    pub status: Option<String>,
    pub incomplete_reason: Option<String>,
    pub error: Option<ResponseFailure>,
    pub usage: Option<ResponseUsage>,
    pub output: Vec<Json>,
    pub service_tier: Option<Option<ResponseServiceTier>>,
    /// Whether the turn is at its end, where the response says so.
    pub end_turn: Option<bool>,
}

/// The model of [`TerminalResponse`].
pub struct TerminalResponseV {
    pub id: Option<Seq<char>>,
    pub status: Option<Seq<char>>,
    pub incomplete_reason: Option<Seq<char>>,
    pub error: Option<ResponseFailureV>,
    pub usage: Option<ResponseUsageV>,
    pub output: Seq<JsonV>,
    pub service_tier: Option<Option<ResponseServiceTierV>>,
    pub end_turn: Option<bool>,
}

impl View for TerminalResponse {
    type V = TerminalResponseV;

    open spec fn view(&self) -> TerminalResponseV {
        TerminalResponseV {
            id: self.id.deep_view(),
            status: self.status.deep_view(),
            incomplete_reason: self.incomplete_reason.deep_view(),
            error: self.error.deep_view(),
            usage: self.usage.deep_view(),
            output: self.output.deep_view(),
            service_tier: self.service_tier.deep_view(),
            end_turn: self.end_turn,
        }
    }
}

impl DeepView for TerminalResponse {
    type V = TerminalResponseV;

    open spec fn deep_view(&self) -> TerminalResponseV {
        self@
    }
}

impl Clone for TerminalResponse {
    fn clone(&self) -> (r: Self)
        ensures
            r@ == self@,
    {
        let r = TerminalResponse {
            id: self.id.clone(),
            status: self.status.clone(),
            incomplete_reason: self.incomplete_reason.clone(),
            error: self.error.clone(),
            usage: self.usage.clone(),
            output: self.output.clone(),
            service_tier: self.service_tier.clone(),
            end_turn: self.end_turn,
        };
        proof {
            assert(r.output.deep_view() =~= self.output.deep_view());
        }
        r
    }
}

/// An item that the model puts out.
#[allow(inconsistent_fields)]
#[derive(Debug, PartialEq)]
pub enum OutputItem {
    Reasoning { raw: Json, id: String, summary: Vec<String>, content: Vec<String>, encrypted_content: Option<String> },
    Message { id: String, phase: Option<TextSignaturePhase>, content: Vec<String> },
    FunctionCall { id: Option<String>, call_id: String, name: String, arguments: String, namespace: Option<String> },
    CustomToolCall { id: Option<String>, call_id: String, name: String, input: Option<String>, namespace: Option<String> },
    Unknown,
}

/// The model of [`OutputItem`].
#[allow(inconsistent_fields)]
pub enum OutputItemV {
    Reasoning { raw: JsonV, id: Seq<char>, summary: Seq<Seq<char>>, content: Seq<Seq<char>>, encrypted_content: Option<Seq<char>> },
    Message { id: Seq<char>, phase: Option<TextSignaturePhase>, content: Seq<Seq<char>> },
    FunctionCall { id: Option<Seq<char>>, call_id: Seq<char>, name: Seq<char>, arguments: Seq<char>, namespace: Option<Seq<char>> },
    CustomToolCall { id: Option<Seq<char>>, call_id: Seq<char>, name: Seq<char>, input: Option<Seq<char>>, namespace: Option<Seq<char>> },
    Unknown,
}

impl View for OutputItem {
    type V = OutputItemV;

    open spec fn view(&self) -> OutputItemV {
        match self {
            OutputItem::Reasoning { raw, id, summary, content, encrypted_content } => OutputItemV::Reasoning { raw: raw.deep_view(), id: id.deep_view(), summary: summary.deep_view(), content: content.deep_view(), encrypted_content: encrypted_content.deep_view() },
            OutputItem::Message { id, phase, content } => OutputItemV::Message { id: id.deep_view(), phase: phase.deep_view(), content: content.deep_view() },
            OutputItem::FunctionCall { id, call_id, name, arguments, namespace } => OutputItemV::FunctionCall { id: id.deep_view(), call_id: call_id.deep_view(), name: name.deep_view(), arguments: arguments.deep_view(), namespace: namespace.deep_view() },
            OutputItem::CustomToolCall { id, call_id, name, input, namespace } => OutputItemV::CustomToolCall { id: id.deep_view(), call_id: call_id.deep_view(), name: name.deep_view(), input: input.deep_view(), namespace: namespace.deep_view() },
            OutputItem::Unknown => OutputItemV::Unknown,
        }
    }
}

impl DeepView for OutputItem {
    type V = OutputItemV;

    open spec fn deep_view(&self) -> OutputItemV {
        self@
    }
}

impl Clone for OutputItem {
    fn clone(&self) -> (r: Self)
        ensures
            r@ == self@,
    {
        match self {
            OutputItem::Reasoning { raw, id, summary, content, encrypted_content } => {
                let y_raw = raw.clone();
                let y_id = id.clone();
                let y_summary = summary.clone();
                let y_content = content.clone();
                let y_encrypted_content = encrypted_content.clone();
                assert(y_summary.deep_view() =~= summary.deep_view());
                assert(y_content.deep_view() =~= content.deep_view());
                OutputItem::Reasoning { raw: y_raw, id: y_id, summary: y_summary, content: y_content, encrypted_content: y_encrypted_content }
            },
            OutputItem::Message { id, phase, content } => {
                let y_id = id.clone();
                let y_phase = *phase;
                let y_content = content.clone();
                assert(y_content.deep_view() =~= content.deep_view());
                OutputItem::Message { id: y_id, phase: y_phase, content: y_content }
            },
            OutputItem::FunctionCall { id, call_id, name, arguments, namespace } => OutputItem::FunctionCall { id: id.clone(), call_id: call_id.clone(), name: name.clone(), arguments: arguments.clone(), namespace: namespace.clone() },
            OutputItem::CustomToolCall { id, call_id, name, input, namespace } => OutputItem::CustomToolCall { id: id.clone(), call_id: call_id.clone(), name: name.clone(), input: input.clone(), namespace: namespace.clone() },
            OutputItem::Unknown => OutputItem::Unknown,
        }
    }
}

/// An event of the stream.
#[allow(inconsistent_fields)]
#[derive(Debug, PartialEq)]
pub enum DecodedResponseEvent {
    Created { id: Option<String> },
    OutputItemAdded { output_index: u64, item: Json },
    /// A piece of reasoning or of its summary.
    ReasoningDelta { output_index: u64, delta: String },
    ReasoningSummaryPartDone { output_index: u64 },
    /// A piece of text or of a refusal.
    TextDelta { output_index: u64, delta: String },
    FunctionArgumentsDelta { output_index: u64, delta: String },
    FunctionArgumentsDone { output_index: u64, arguments: String },
    CustomInputDelta { output_index: u64, delta: String },
    CustomInputDone { output_index: u64, input: String },
    OutputItemDone { output_index: u64, item: Json },
    /// The response is complete or incomplete.
    Finished { response: TerminalResponse },
    Failed { response: TerminalResponse },
    Error { code: Option<Option<String>>, message: Option<Option<String>> },
    Unknown,
}

/// The model of [`DecodedResponseEvent`].
#[allow(inconsistent_fields)]
pub enum DecodedResponseEventV {
    Created { id: Option<Seq<char>> },
    OutputItemAdded { output_index: u64, item: JsonV },
    ReasoningDelta { output_index: u64, delta: Seq<char> },
    ReasoningSummaryPartDone { output_index: u64 },
    TextDelta { output_index: u64, delta: Seq<char> },
    FunctionArgumentsDelta { output_index: u64, delta: Seq<char> },
    FunctionArgumentsDone { output_index: u64, arguments: Seq<char> },
    CustomInputDelta { output_index: u64, delta: Seq<char> },
    CustomInputDone { output_index: u64, input: Seq<char> },
    OutputItemDone { output_index: u64, item: JsonV },
    Finished { response: TerminalResponseV },
    Failed { response: TerminalResponseV },
    Error { code: Option<Option<Seq<char>>>, message: Option<Option<Seq<char>>> },
    Unknown,
}

impl View for DecodedResponseEvent {
    type V = DecodedResponseEventV;

    open spec fn view(&self) -> DecodedResponseEventV {
        match self {
            DecodedResponseEvent::Created { id } => DecodedResponseEventV::Created { id: id.deep_view() },
            DecodedResponseEvent::OutputItemAdded { output_index, item } => DecodedResponseEventV::OutputItemAdded { output_index: output_index.deep_view(), item: item.deep_view() },
            DecodedResponseEvent::ReasoningDelta { output_index, delta } => DecodedResponseEventV::ReasoningDelta { output_index: output_index.deep_view(), delta: delta.deep_view() },
            DecodedResponseEvent::ReasoningSummaryPartDone { output_index } => DecodedResponseEventV::ReasoningSummaryPartDone { output_index: output_index.deep_view() },
            DecodedResponseEvent::TextDelta { output_index, delta } => DecodedResponseEventV::TextDelta { output_index: output_index.deep_view(), delta: delta.deep_view() },
            DecodedResponseEvent::FunctionArgumentsDelta { output_index, delta } => DecodedResponseEventV::FunctionArgumentsDelta { output_index: output_index.deep_view(), delta: delta.deep_view() },
            DecodedResponseEvent::FunctionArgumentsDone { output_index, arguments } => DecodedResponseEventV::FunctionArgumentsDone { output_index: output_index.deep_view(), arguments: arguments.deep_view() },
            DecodedResponseEvent::CustomInputDelta { output_index, delta } => DecodedResponseEventV::CustomInputDelta { output_index: output_index.deep_view(), delta: delta.deep_view() },
            DecodedResponseEvent::CustomInputDone { output_index, input } => DecodedResponseEventV::CustomInputDone { output_index: output_index.deep_view(), input: input.deep_view() },
            DecodedResponseEvent::OutputItemDone { output_index, item } => DecodedResponseEventV::OutputItemDone { output_index: output_index.deep_view(), item: item.deep_view() },
            DecodedResponseEvent::Finished { response } => DecodedResponseEventV::Finished { response: response.deep_view() },
            DecodedResponseEvent::Failed { response } => DecodedResponseEventV::Failed { response: response.deep_view() },
            DecodedResponseEvent::Error { code, message } => DecodedResponseEventV::Error { code: code.deep_view(), message: message.deep_view() },
            DecodedResponseEvent::Unknown => DecodedResponseEventV::Unknown,
        }
    }
}

impl DeepView for DecodedResponseEvent {
    type V = DecodedResponseEventV;

    open spec fn deep_view(&self) -> DecodedResponseEventV {
        self@
    }
}

impl Clone for DecodedResponseEvent {
    fn clone(&self) -> (r: Self)
        ensures
            r@ == self@,
    {
        match self {
            DecodedResponseEvent::Created { id } => DecodedResponseEvent::Created { id: id.clone() },
            DecodedResponseEvent::OutputItemAdded { output_index, item } => DecodedResponseEvent::OutputItemAdded { output_index: *output_index, item: item.clone() },
            DecodedResponseEvent::ReasoningDelta { output_index, delta } => DecodedResponseEvent::ReasoningDelta { output_index: *output_index, delta: delta.clone() },
            DecodedResponseEvent::ReasoningSummaryPartDone { output_index } => DecodedResponseEvent::ReasoningSummaryPartDone { output_index: *output_index },
            DecodedResponseEvent::TextDelta { output_index, delta } => DecodedResponseEvent::TextDelta { output_index: *output_index, delta: delta.clone() },
            DecodedResponseEvent::FunctionArgumentsDelta { output_index, delta } => DecodedResponseEvent::FunctionArgumentsDelta { output_index: *output_index, delta: delta.clone() },
            DecodedResponseEvent::FunctionArgumentsDone { output_index, arguments } => DecodedResponseEvent::FunctionArgumentsDone { output_index: *output_index, arguments: arguments.clone() },
            DecodedResponseEvent::CustomInputDelta { output_index, delta } => DecodedResponseEvent::CustomInputDelta { output_index: *output_index, delta: delta.clone() },
            DecodedResponseEvent::CustomInputDone { output_index, input } => DecodedResponseEvent::CustomInputDone { output_index: *output_index, input: input.clone() },
            DecodedResponseEvent::OutputItemDone { output_index, item } => DecodedResponseEvent::OutputItemDone { output_index: *output_index, item: item.clone() },
            DecodedResponseEvent::Finished { response } => DecodedResponseEvent::Finished { response: response.clone() },
            DecodedResponseEvent::Failed { response } => DecodedResponseEvent::Failed { response: response.clone() },
            DecodedResponseEvent::Error { code, message } => DecodedResponseEvent::Error { code: code.clone(), message: message.clone() },
            DecodedResponseEvent::Unknown => DecodedResponseEvent::Unknown,
        }
    }
}

/// A record of one string, which may be left out.
pub struct TextField {
    pub key: &'static str,
}

impl Record for TextField {
    open spec fn keys(&self) -> Seq<Seq<char>> {
        seq![self.key@]
    }

    open spec fn fault(&self, i: int, v: JsonV) -> Option<Seq<char>> {
        text_fault(v)
    }

    fn names(&self) -> (r: Vec<&'static str>) {
        vec![self.key]
    }

    fn check(&self, i: usize, v: &Json) -> (r: Option<String>) {
        check_text(v)
    }
}

/// What is wrong first with the parts of reasoning.
pub open spec fn texts_fault(v: JsonV) -> Option<Seq<char>> {
    match v {
        JsonV::Array(parts) => first(
            Seq::new(
                parts.len(),
                |i: int| record_fault(&(TextField { key: "text" }), "ReasoningText"@, parts[i]),
            ),
        ),
        _ => Some(mistyped(v, "a sequence"@)),
    }
}

fn check_texts(v: &Json) -> (r: Option<String>)
    ensures
        r.deep_view() == texts_fault(v@),
{
    match v.as_array() {
        None => Some(mistyped_error(v, "a sequence")),
        Some(parts) => {
            let ghost all = parts.deep_view();
            let ghost faults = Seq::new(
                all.len(),
                |i: int| record_fault(&(TextField { key: "text" }), "ReasoningText"@, all[i]),
            );
            let mut i: usize = 0;
            assert(faults.take(0) =~= Seq::empty());
            while i < parts.len()
                invariant
                    all == parts.deep_view(),
                    v@ == JsonV::Array(all),
                    faults == Seq::new(
                        all.len(),
                        |i: int|
                            record_fault(&(TextField { key: "text" }), "ReasoningText"@, all[i]),
                    ),
                    i <= parts@.len(),
                    first(faults.take(i as int)) is None,
                decreases parts@.len() - i,
            {
                assert(all[i as int] == parts@[i as int]@);
                let fault = check_record(&TextField { key: "text" }, "ReasoningText", &parts[i]);
                proof {
                    lemma_first_step(faults, i as int);
                }
                if fault.is_some() {
                    return fault;
                }
                i += 1;
            }
            assert(faults.take(i as int) =~= faults);
            None
        },
    }
}

/// The texts of the parts of reasoning.
pub open spec fn part_texts(parts: Seq<JsonV>) -> Seq<Seq<char>> {
    parts.map_values(|p: JsonV| text_or_none(part(p, "text"@, 0, 1)))
}

fn read_part_texts(v: Option<&Json>) -> (r: Vec<String>)
    ensures
        r.deep_view() == part_texts(items_of(v.deep_view())),
{
    let mut texts: Vec<String> = Vec::new();
    let ghost all = items_of(v.deep_view());
    if let Some(v) = v {
        if let Some(parts) = v.as_array() {
            let mut i: usize = 0;
            while i < parts.len()
                invariant
                    i <= parts@.len(),
                    texts@.len() == i,
                    forall|k: int|
                        0 <= k < i ==> (#[trigger] texts@[k])@ == text_or_none(
                            part(parts@[k]@, "text"@, 0, 1),
                        ),
                decreases parts@.len() - i,
            {
                texts.push(read_text_or_none(get_part(&parts[i], "text", 0, 1)));
                i += 1;
            }
            assert(all =~= parts.deep_view());
        }
    }
    assert(texts.deep_view() =~= part_texts(all));
    texts
}

/// The member that holds the text of a part of a message, by the type of the part: an output text
/// or a refusal.
pub open spec fn part_key(kind: Seq<char>) -> Option<&'static str> {
    if kind == "output_text"@ {
        Some("text")
    } else if kind == "refusal"@ {
        Some("refusal")
    } else {
        None
    }
}

fn find_part_key(kind: &str) -> (r: Option<&'static str>)
    ensures
        r == part_key(kind@),
{
    if same(kind, "output_text") {
        Some("text")
    } else if same(kind, "refusal") {
        Some("refusal")
    } else {
        None
    }
}

/// What is wrong with the type of a part of a message.
pub open spec fn kind_fault(kind: JsonV) -> Option<Seq<char>> {
    match kind {
        JsonV::Str(kind) => if part_key(kind) is Some {
            None
        } else {
            Some(unknown_variant(kind, "`output_text` or `refusal`"@))
        },
        _ => Some(mistyped(kind, "variant identifier"@)),
    }
}

fn check_kind(kind: &Json) -> (r: Option<String>)
    ensures
        r.deep_view() == kind_fault(kind@),
{
    match kind {
        Json::Str(word) => match find_part_key(word.as_str()) {
            Some(_) => None,
            None => Some(unknown_variant_error(word.as_str(), "`output_text` or `refusal`")),
        },
        _ => Some(mistyped_error(kind, "variant identifier")),
    }
}

/// The type of a part of a message: its member, or its first item where it is an array.
pub open spec fn part_kind(v: JsonV) -> Option<JsonV> {
    match v {
        JsonV::Array(items) => if items.len() > 0 {
            Some(items[0])
        } else {
            None
        },
        _ => member(v, "type"@),
    }
}

fn find_part_kind(v: &Json) -> (r: Option<&Json>)
    ensures
        r.deep_view() == part_kind(v@),
{
    match v {
        Json::Array(items) => {
            if items.len() > 0 {
                assert(items.deep_view()[0] == items@[0]@);
                Some(&items[0])
            } else {
                None
            }
        },
        _ => v.get("type"),
    }
}

/// What is wrong with the text of a part of a message whose type is known.
pub open spec fn part_text_fault(v: JsonV, key: &'static str) -> Option<Seq<char>> {
    match v {
        JsonV::Array(items) => if items.len() > 1 && text_fault(items[1]) is Some {
            text_fault(items[1])
        } else if items.len() > 2 {
            Some(mislength((items.len() - 1) as nat, "1 element in sequence"@))
        } else {
            None
        },
        _ => members_fault(&(TextField { key }), v),
    }
}

fn check_part_text(v: &Json, key: &'static str) -> (r: Option<String>)
    ensures
        r.deep_view() == part_text_fault(v@, key),
{
    match v {
        Json::Array(items) => {
            if items.len() > 1 {
                assert(items.deep_view()[1] == items@[1]@);
                let fault = check_text(&items[1]);
                if fault.is_some() {
                    return fault;
                }
            }
            if items.len() > 2 {
                Some(mislength_error(items.len() - 1, "1 element in sequence"))
            } else {
                None
            }
        },
        _ => check_members(&TextField { key }, v),
    }
}

/// What is wrong first with a part of a message.
pub open spec fn message_part_fault(v: JsonV) -> Option<Seq<char>> {
    if !(v is Object) && !(v is Array) {
        Some(mistyped(v, "internally tagged enum OutputMessageContent"@))
    } else {
        match part_kind(v) {
            None => Some(missing_field("type"@)),
            Some(kind) => if kind_fault(kind) is Some {
                kind_fault(kind)
            } else {
                part_text_fault(v, part_key(kind->Str_0)->Some_0)
            },
        }
    }
}

fn check_message_part(v: &Json) -> (r: Option<String>)
    ensures
        r.deep_view() == message_part_fault(v@),
{
    let record = match v {
        Json::Object(_) => true,
        Json::Array(_) => true,
        _ => false,
    };
    if !record {
        return Some(mistyped_error(v, "internally tagged enum OutputMessageContent"));
    }
    match find_part_kind(v) {
        None => Some(missing_field_error("type")),
        Some(kind) => {
            let fault = check_kind(kind);
            if fault.is_some() {
                return fault;
            }
            match kind {
                Json::Str(word) => match find_part_key(word.as_str()) {
                    Some(key) => check_part_text(v, key),
                    None => None,
                },
                _ => None,
            }
        },
    }
}

/// The text of a part of a message.
pub open spec fn message_text(v: JsonV) -> Seq<char> {
    match v {
        JsonV::Array(items) => if items.len() > 1 {
            text_or_none(Some(items[1]))
        } else {
            Seq::empty()
        },
        _ => match part_key(text_or_none(member(v, "type"@))) {
            Some(key) => text_or_none(member(v, key@)),
            None => Seq::empty(),
        },
    }
}

fn read_message_text(v: &Json) -> (r: String)
    ensures
        r@ == message_text(v@),
{
    match v {
        Json::Array(items) => {
            if items.len() > 1 {
                assert(items.deep_view()[1] == items@[1]@);
                read_text_or_none(Some(&items[1]))
            } else {
                String::new()
            }
        },
        _ => {
            let kind = read_text_or_none(v.get("type"));
            match find_part_key(kind.as_str()) {
                Some(key) => read_text_or_none(v.get(key)),
                None => String::new(),
            }
        },
    }
}

/// What is wrong first with the parts of a message.
pub open spec fn message_fault(v: JsonV) -> Option<Seq<char>> {
    match v {
        JsonV::Array(parts) => first(
            Seq::new(parts.len(), |i: int| message_part_fault(parts[i])),
        ),
        _ => Some(mistyped(v, "a sequence"@)),
    }
}

fn check_message(v: &Json) -> (r: Option<String>)
    ensures
        r.deep_view() == message_fault(v@),
{
    match v.as_array() {
        None => Some(mistyped_error(v, "a sequence")),
        Some(parts) => {
            let ghost all = parts.deep_view();
            let ghost faults = Seq::new(all.len(), |i: int| message_part_fault(all[i]));
            let mut i: usize = 0;
            assert(faults.take(0) =~= Seq::empty());
            while i < parts.len()
                invariant
                    all == parts.deep_view(),
                    v@ == JsonV::Array(all),
                    faults == Seq::new(all.len(), |i: int| message_part_fault(all[i])),
                    i <= parts@.len(),
                    first(faults.take(i as int)) is None,
                decreases parts@.len() - i,
            {
                assert(all[i as int] == parts@[i as int]@);
                let fault = check_message_part(&parts[i]);
                proof {
                    lemma_first_step(faults, i as int);
                }
                if fault.is_some() {
                    return fault;
                }
                i += 1;
            }
            assert(faults.take(i as int) =~= faults);
            None
        },
    }
}

/// The texts of the parts of a message.
pub open spec fn message_texts(parts: Seq<JsonV>) -> Seq<Seq<char>> {
    parts.map_values(|p: JsonV| message_text(p))
}

fn read_message_texts(v: Option<&Json>) -> (r: Vec<String>)
    ensures
        r.deep_view() == message_texts(items_of(v.deep_view())),
{
    let mut texts: Vec<String> = Vec::new();
    let ghost all = items_of(v.deep_view());
    if let Some(v) = v {
        if let Some(parts) = v.as_array() {
            let mut i: usize = 0;
            while i < parts.len()
                invariant
                    i <= parts@.len(),
                    texts@.len() == i,
                    forall|k: int| 0 <= k < i ==> (#[trigger] texts@[k])@ == message_text(parts@[k]@),
                decreases parts@.len() - i,
            {
                texts.push(read_message_text(&parts[i]));
                i += 1;
            }
            assert(all =~= parts.deep_view());
        }
    }
    assert(texts.deep_view() =~= message_texts(all));
    texts
}

/// The fields of a reasoning item.
pub struct ReasoningFields;

impl Record for ReasoningFields {
    open spec fn keys(&self) -> Seq<Seq<char>> {
        seq!["id"@, "summary"@, "content"@, "encrypted_content"@]
    }

    open spec fn fault(&self, i: int, v: JsonV) -> Option<Seq<char>> {
        if i == 0 {
            text_fault(v)
        } else if i == 3 {
            unless_null(v, text_fault(v))
        } else {
            texts_fault(v)
        }
    }

    fn names(&self) -> (r: Vec<&'static str>) {
        vec!["id", "summary", "content", "encrypted_content"]
    }

    fn check(&self, i: usize, v: &Json) -> (r: Option<String>) {
        if i == 0 {
            check_text(v)
        } else if i == 3 {
            check_optional_text(v)
        } else {
            check_texts(v)
        }
    }
}

/// The member `key`, which must be there, of a record whose members are as they should be.
pub open spec fn needed_text(v: JsonV, key: Seq<char>) -> Result<Seq<char>, Seq<char>> {
    match member(v, key) {
        Some(text) => Ok(text_or_none(Some(text))),
        None => Err(missing_field(key)),
    }
}

fn read_needed_text(v: &Json, key: &str) -> (r: Result<String, String>)
    ensures
        outcome(r) == needed_text(v@, key@),
{
    match v.get(key) {
        Some(text) => Ok(read_text_or_none(Some(text))),
        None => Err(missing_field_error(key)),
    }
}

/// A reasoning item.
pub open spec fn reasoning_item(v: JsonV) -> Result<OutputItemV, Seq<char>> {
    match members_fault(&ReasoningFields, v) {
        Some(e) => Err(e),
        None => match needed_text(v, "id"@) {
            Err(e) => Err(e),
            Ok(id) => Ok(
                OutputItemV::Reasoning {
                    raw: v,
                    id,
                    summary: part_texts(items_of(member(v, "summary"@))),
                    content: part_texts(items_of(member(v, "content"@))),
                    encrypted_content: text_of(member(v, "encrypted_content"@)),
                },
            ),
        },
    }
}

fn read_reasoning_item(v: &Json) -> (r: Result<OutputItem, String>)
    ensures
        outcome(r) == reasoning_item(v@),
{
    if let Some(e) = check_members(&ReasoningFields, v) {
        return Err(e);
    }
    match read_needed_text(v, "id") {
        Err(e) => Err(e),
        Ok(id) => Ok(
            OutputItem::Reasoning {
                raw: v.clone(),
                id,
                summary: read_part_texts(v.get("summary")),
                content: read_part_texts(v.get("content")),
                encrypted_content: read_text(v.get("encrypted_content")),
            },
        ),
    }
}

/// The fields of a message item.
pub struct MessageFields;

impl Record for MessageFields {
    open spec fn keys(&self) -> Seq<Seq<char>> {
        seq!["id"@, "phase"@, "content"@]
    }

    open spec fn fault(&self, i: int, v: JsonV) -> Option<Seq<char>> {
        if i == 0 {
            text_fault(v)
        } else if i == 1 {
            unless_null(v, phase_fault(v))
        } else {
            message_fault(v)
        }
    }

    fn names(&self) -> (r: Vec<&'static str>) {
        vec!["id", "phase", "content"]
    }

    fn check(&self, i: usize, v: &Json) -> (r: Option<String>) {
        if i == 0 {
            check_text(v)
        } else if i == 1 {
            match v {
                Json::Null => None,
                _ => check_phase(v),
            }
        } else {
            check_message(v)
        }
    }
}

/// The phase that a field names.
pub open spec fn phase_in(v: Option<JsonV>) -> Option<TextSignaturePhase> {
    match v {
        Some(v) => phase_of(v),
        None => None,
    }
}

/// A message item.
pub open spec fn message_item(v: JsonV) -> Result<OutputItemV, Seq<char>> {
    match members_fault(&MessageFields, v) {
        Some(e) => Err(e),
        None => match needed_text(v, "id"@) {
            Err(e) => Err(e),
            Ok(id) => Ok(
                OutputItemV::Message {
                    id,
                    phase: phase_in(member(v, "phase"@)),
                    content: message_texts(items_of(member(v, "content"@))),
                },
            ),
        },
    }
}

fn read_message_item(v: &Json) -> (r: Result<OutputItem, String>)
    ensures
        outcome(r) == message_item(v@),
{
    if let Some(e) = check_members(&MessageFields, v) {
        return Err(e);
    }
    match read_needed_text(v, "id") {
        Err(e) => Err(e),
        Ok(id) => {
            let phase = match v.get("phase") {
                Some(phase) => read_phase(phase),
                None => None,
            };
            Ok(OutputItem::Message { id, phase, content: read_message_texts(v.get("content")) })
        },
    }
}

/// The fields of a call: of a custom tool, or of a function.
pub struct CallFields {
    pub custom: bool,
}

impl Record for CallFields {
    open spec fn keys(&self) -> Seq<Seq<char>> {
        seq![
            "id"@,
            "call_id"@,
            "name"@,
            if self.custom {
                "input"@
            } else {
                "arguments"@
            },
            "namespace"@,
        ]
    }

    open spec fn fault(&self, i: int, v: JsonV) -> Option<Seq<char>> {
        if i == 1 || i == 2 || (i == 3 && !self.custom) {
            text_fault(v)
        } else {
            unless_null(v, text_fault(v))
        }
    }

    fn names(&self) -> (r: Vec<&'static str>) {
        let given = if self.custom {
            "input"
        } else {
            "arguments"
        };
        vec!["id", "call_id", "name", given, "namespace"]
    }

    fn check(&self, i: usize, v: &Json) -> (r: Option<String>) {
        if i == 1 || i == 2 || (i == 3 && !self.custom) {
            check_text(v)
        } else {
            check_optional_text(v)
        }
    }
}

/// A function call item.
pub open spec fn function_call_item(v: JsonV) -> Result<OutputItemV, Seq<char>> {
    match members_fault(&(CallFields { custom: false }), v) {
        Some(e) => Err(e),
        None => match (needed_text(v, "call_id"@), needed_text(v, "name"@)) {
            (Err(e), _) => Err(e),
            (_, Err(e)) => Err(e),
            (Ok(call_id), Ok(name)) => Ok(
                OutputItemV::FunctionCall {
                    id: text_of(member(v, "id"@)),
                    call_id,
                    name,
                    arguments: text_or_none(member(v, "arguments"@)),
                    namespace: text_of(member(v, "namespace"@)),
                },
            ),
        },
    }
}

fn read_function_call_item(v: &Json) -> (r: Result<OutputItem, String>)
    ensures
        outcome(r) == function_call_item(v@),
{
    if let Some(e) = check_members(&CallFields { custom: false }, v) {
        return Err(e);
    }
    match (read_needed_text(v, "call_id"), read_needed_text(v, "name")) {
        (Err(e), _) => Err(e),
        (_, Err(e)) => Err(e),
        (Ok(call_id), Ok(name)) => Ok(
            OutputItem::FunctionCall {
                id: read_text(v.get("id")),
                call_id,
                name,
                arguments: read_text_or_none(v.get("arguments")),
                namespace: read_text(v.get("namespace")),
            },
        ),
    }
}

/// A custom tool call item.
pub open spec fn custom_tool_call_item(v: JsonV) -> Result<OutputItemV, Seq<char>> {
    match members_fault(&(CallFields { custom: true }), v) {
        Some(e) => Err(e),
        None => match (needed_text(v, "call_id"@), needed_text(v, "name"@)) {
            (Err(e), _) => Err(e),
            (_, Err(e)) => Err(e),
            (Ok(call_id), Ok(name)) => Ok(
                OutputItemV::CustomToolCall {
                    id: text_of(member(v, "id"@)),
                    call_id,
                    name,
                    input: text_of(member(v, "input"@)),
                    namespace: text_of(member(v, "namespace"@)),
                },
            ),
        },
    }
}

fn read_custom_tool_call_item(v: &Json) -> (r: Result<OutputItem, String>)
    ensures
        outcome(r) == custom_tool_call_item(v@),
{
    if let Some(e) = check_members(&CallFields { custom: true }, v) {
        return Err(e);
    }
    match (read_needed_text(v, "call_id"), read_needed_text(v, "name")) {
        (Err(e), _) => Err(e),
        (_, Err(e)) => Err(e),
        (Ok(call_id), Ok(name)) => Ok(
            OutputItem::CustomToolCall {
                id: read_text(v.get("id")),
                call_id,
                name,
                input: read_text(v.get("input")),
                namespace: read_text(v.get("namespace")),
            },
        ),
    }
}

/// The item that a value is; unknown where its type is none of those that are read.
pub open spec fn decoded_item(v: JsonV) -> Result<OutputItemV, Seq<char>> {
    match text_of(member(v, "type"@)) {
        None => Ok(OutputItemV::Unknown),
        Some(kind) => if kind == "reasoning"@ {
            reasoning_item(v)
        } else if kind == "message"@ {
            message_item(v)
        } else if kind == "function_call"@ {
            function_call_item(v)
        } else if kind == "custom_tool_call"@ {
            custom_tool_call_item(v)
        } else {
            Ok(OutputItemV::Unknown)
        },
    }
}

/// Reads an item that the model puts out.
pub fn decode_output_item(v: &Json) -> (r: Result<OutputItem, String>)
    ensures
        outcome(r) == decoded_item(v@),
{
    match v.text("type") {
        None => Ok(OutputItem::Unknown),
        Some(kind) => if same(kind.as_str(), "reasoning") {
            read_reasoning_item(v)
        } else if same(kind.as_str(), "message") {
            read_message_item(v)
        } else if same(kind.as_str(), "function_call") {
            read_function_call_item(v)
        } else if same(kind.as_str(), "custom_tool_call") {
            read_custom_tool_call_item(v)
        } else {
            Ok(OutputItem::Unknown)
        },
    }
}

/// The service tier that a word names.
pub open spec fn tier_named(word: Seq<char>) -> ResponseServiceTierV {
    if word == "auto"@ {
        ResponseServiceTierV::Auto
    } else if word == "default"@ {
        ResponseServiceTierV::Standard
    } else if word == "flex"@ {
        ResponseServiceTierV::Flex
    } else if word == "scale"@ {
        ResponseServiceTierV::Scale
    } else if word == "priority"@ {
        ResponseServiceTierV::Priority
    } else {
        ResponseServiceTierV::Other(word)
    }
}

/// The service tier that a word names.
pub fn tier_from_name(word: &str) -> (r: ResponseServiceTier)
    ensures
        r@ == tier_named(word@),
{
    if same(word, "auto") {
        ResponseServiceTier::Auto
    } else if same(word, "default") {
        ResponseServiceTier::Standard
    } else if same(word, "flex") {
        ResponseServiceTier::Flex
    } else if same(word, "scale") {
        ResponseServiceTier::Scale
    } else if same(word, "priority") {
        ResponseServiceTier::Priority
    } else {
        ResponseServiceTier::Other(word.to_owned())
    }
}

/// What is wrong with a service tier. Any word may be one; what the only member of an object names
/// must be known.
pub open spec fn tier_fault(v: JsonV) -> Option<Seq<char>> {
    word_fault(
        v,
        match word_of(v) {
            Some(word) => v is Str || !(tier_named(word) is Other),
            None => false,
        },
        "one of `auto`, `default`, `flex`, `scale`, `priority`"@,
    )
}

fn check_tier(v: &Json) -> (r: Option<String>)
    ensures
        r.deep_view() == tier_fault(v@),
{
    let known = match read_word(v) {
        Some(word) => match v {
            Json::Str(_) => true,
            _ => match tier_from_name(word) {
                ResponseServiceTier::Other(_) => false,
                _ => true,
            },
        },
        None => false,
    };
    check_word(v, known, "one of `auto`, `default`, `flex`, `scale`, `priority`")
}

/// The service tier that a field names, with null told apart from nothing.
pub open spec fn tier_in(v: Option<JsonV>) -> Option<Option<ResponseServiceTierV>> {
    match v {
        Some(v) => match word_of(v) {
            Some(word) => Some(Some(tier_named(word))),
            None => Some(None),
        },
        None => None,
    }
}

fn read_tier(v: Option<&Json>) -> (r: Option<Option<ResponseServiceTier>>)
    ensures
        r.deep_view() == tier_in(v.deep_view()),
{
    match v {
        Some(v) => match read_word(v) {
            Some(word) => Some(Some(tier_from_name(word))),
            None => Some(None),
        },
        None => None,
    }
}

/// The fields of the counts of a prompt.
pub struct InputDetailFields;

impl Record for InputDetailFields {
    open spec fn keys(&self) -> Seq<Seq<char>> {
        seq!["cached_tokens"@, "cache_write_tokens"@]
    }

    open spec fn fault(&self, i: int, v: JsonV) -> Option<Seq<char>> {
        unless_null(v, count_fault(v))
    }

    fn names(&self) -> (r: Vec<&'static str>) {
        vec!["cached_tokens", "cache_write_tokens"]
    }

    fn check(&self, i: usize, v: &Json) -> (r: Option<String>) {
        check_optional_count(v)
    }
}

/// The fields of the counts of an answer.
pub struct OutputDetailFields;

impl Record for OutputDetailFields {
    open spec fn keys(&self) -> Seq<Seq<char>> {
        seq!["reasoning_tokens"@]
    }

    open spec fn fault(&self, i: int, v: JsonV) -> Option<Seq<char>> {
        unless_null(v, count_fault(v))
    }

    fn names(&self) -> (r: Vec<&'static str>) {
        vec!["reasoning_tokens"]
    }

    fn check(&self, i: usize, v: &Json) -> (r: Option<String>) {
        check_optional_count(v)
    }
}

/// Says what is wrong first with a record that may be null.
fn check_optional_record<R: Record>(record: &R, name: &str, v: &Json) -> (r: Option<String>)
    ensures
        r.deep_view() == unless_null(v@, record_fault(record, name@, v@)),
{
    match v {
        Json::Null => None,
        _ => check_record(record, name, v),
    }
}

/// The fields of a usage.
pub struct UsageFields;

impl Record for UsageFields {
    open spec fn keys(&self) -> Seq<Seq<char>> {
        seq![
            "input_tokens"@,
            "output_tokens"@,
            "total_tokens"@,
            "input_tokens_details"@,
            "output_tokens_details"@,
        ]
    }

    open spec fn fault(&self, i: int, v: JsonV) -> Option<Seq<char>> {
        unless_null(
            v,
            if i == 3 {
                record_fault(&InputDetailFields, "ResponseInputTokenDetails"@, v)
            } else if i == 4 {
                record_fault(&OutputDetailFields, "ResponseOutputTokenDetails"@, v)
            } else {
                count_fault(v)
            },
        )
    }

    fn names(&self) -> (r: Vec<&'static str>) {
        vec![
            "input_tokens",
            "output_tokens",
            "total_tokens",
            "input_tokens_details",
            "output_tokens_details",
        ]
    }

    fn check(&self, i: usize, v: &Json) -> (r: Option<String>) {
        if i == 3 {
            check_optional_record(&InputDetailFields, "ResponseInputTokenDetails", v)
        } else if i == 4 {
            check_optional_record(&OutputDetailFields, "ResponseOutputTokenDetails", v)
        } else {
            check_optional_count(v)
        }
    }
}

/// A field of a record that may be absent.
pub open spec fn part_in(v: Option<JsonV>, key: Seq<char>, position: nat, count: nat) -> Option<
    JsonV,
> {
    match v {
        Some(v) => part(v, key, position, count),
        None => None,
    }
}

fn get_part_in<'a>(v: Option<&'a Json>, key: &str, position: usize, count: usize) -> (r: Option<
    &'a Json,
>)
    ensures
        r.deep_view() == part_in(v.deep_view(), key@, position as nat, count as nat),
{
    match v {
        Some(v) => get_part(v, key, position, count),
        None => None,
    }
}

/// Whether a field is there and not null.
pub open spec fn given(v: Option<JsonV>) -> bool {
    v is Some && !(v->Some_0 is Null)
}

fn is_given(v: Option<&Json>) -> (r: bool)
    ensures
        r == given(v.deep_view()),
{
    match v {
        None => false,
        Some(Json::Null) => false,
        Some(_) => true,
    }
}

/// The token counts that a usage holds.
pub open spec fn usage_counts(v: JsonV) -> ResponseUsageV {
    let input = part(v, "input_tokens_details"@, 3, 5);
    let output = part(v, "output_tokens_details"@, 4, 5);
    ResponseUsageV {
        input_tokens: count_or_zero(part(v, "input_tokens"@, 0, 5)),
        output_tokens: count_or_zero(part(v, "output_tokens"@, 1, 5)),
        total_tokens: count_or_zero(part(v, "total_tokens"@, 2, 5)),
        cached_tokens: count_or_zero(part_in(input, "cached_tokens"@, 0, 2)),
        cache_write_tokens: count_or_zero(part_in(input, "cache_write_tokens"@, 1, 2)),
        reasoning_tokens: count_or_zero(part_in(output, "reasoning_tokens"@, 0, 1)),
    }
}

fn read_usage_counts(v: &Json) -> (r: ResponseUsage)
    ensures
        r@ == usage_counts(v@),
{
    let input = get_part(v, "input_tokens_details", 3, 5);
    let output = get_part(v, "output_tokens_details", 4, 5);
    ResponseUsage {
        input_tokens: read_count_or_zero(get_part(v, "input_tokens", 0, 5)),
        output_tokens: read_count_or_zero(get_part(v, "output_tokens", 1, 5)),
        total_tokens: read_count_or_zero(get_part(v, "total_tokens", 2, 5)),
        cached_tokens: read_count_or_zero(get_part_in(input, "cached_tokens", 0, 2)),
        cache_write_tokens: read_count_or_zero(get_part_in(input, "cache_write_tokens", 1, 2)),
        reasoning_tokens: read_count_or_zero(get_part_in(output, "reasoning_tokens", 0, 1)),
    }
}

/// The fields of a failure.
pub struct FailureFields;

impl Record for FailureFields {
    open spec fn keys(&self) -> Seq<Seq<char>> {
        seq!["code"@, "message"@]
    }

    open spec fn fault(&self, i: int, v: JsonV) -> Option<Seq<char>> {
        unless_null(v, text_fault(v))
    }

    fn names(&self) -> (r: Vec<&'static str>) {
        vec!["code", "message"]
    }

    fn check(&self, i: usize, v: &Json) -> (r: Option<String>) {
        check_optional_text(v)
    }
}

/// The fields of what is known of a response that is incomplete.
pub struct IncompleteFields;

impl Record for IncompleteFields {
    open spec fn keys(&self) -> Seq<Seq<char>> {
        seq!["reason"@]
    }

    open spec fn fault(&self, i: int, v: JsonV) -> Option<Seq<char>> {
        None
    }

    fn names(&self) -> (r: Vec<&'static str>) {
        vec!["reason"]
    }

    fn check(&self, i: usize, v: &Json) -> (r: Option<String>) {
        None
    }
}

/// The fields of a response that has just begun.
pub struct CreatedFields;

impl Record for CreatedFields {
    open spec fn keys(&self) -> Seq<Seq<char>> {
        seq!["id"@]
    }

    open spec fn fault(&self, i: int, v: JsonV) -> Option<Seq<char>> {
        unless_null(v, text_fault(v))
    }

    fn names(&self) -> (r: Vec<&'static str>) {
        vec!["id"]
    }

    fn check(&self, i: usize, v: &Json) -> (r: Option<String>) {
        check_optional_text(v)
    }
}

/// The fields of a response at its end.
pub struct TerminalFields;

impl Record for TerminalFields {
    open spec fn keys(&self) -> Seq<Seq<char>> {
        seq![
            "id"@,
            "status"@,
            "incomplete_details"@,
            "error"@,
            "usage"@,
            "output"@,
            "service_tier"@,
        ]
    }

    open spec fn fault(&self, i: int, v: JsonV) -> Option<Seq<char>> {
        if i == 5 {
            list_fault(v)
        } else {
            unless_null(
                v,
                if i == 2 {
                    record_fault(&IncompleteFields, "IncompleteDetails"@, v)
                } else if i == 3 {
                    record_fault(&FailureFields, "ResponseFailure"@, v)
                } else if i == 4 {
                    record_fault(&UsageFields, "ResponseUsage"@, v)
                } else if i == 6 {
                    tier_fault(v)
                } else {
                    text_fault(v)
                },
            )
        }
    }

    fn names(&self) -> (r: Vec<&'static str>) {
        vec!["id", "status", "incomplete_details", "error", "usage", "output", "service_tier"]
    }

    fn check(&self, i: usize, v: &Json) -> (r: Option<String>) {
        if i == 5 {
            check_list(v)
        } else if i == 2 {
            check_optional_record(&IncompleteFields, "IncompleteDetails", v)
        } else if i == 3 {
            check_optional_record(&FailureFields, "ResponseFailure", v)
        } else if i == 4 {
            check_optional_record(&UsageFields, "ResponseUsage", v)
        } else if i == 6 {
            match v {
                Json::Null => None,
                _ => check_tier(v),
            }
        } else {
            check_optional_text(v)
        }
    }
}

/// What a response holds at its end.
pub open spec fn terminal_parts(v: JsonV) -> TerminalResponseV {
    let error = part(v, "error"@, 3, 7);
    let usage = part(v, "usage"@, 4, 7);
    TerminalResponseV {
        id: text_of(part(v, "id"@, 0, 7)),
        status: text_of(part(v, "status"@, 1, 7)),
        incomplete_reason: text_of(
            part_in(part(v, "incomplete_details"@, 2, 7), "reason"@, 0, 1),
        ),
        error: if given(error) {
            Some(
                ResponseFailureV {
                    code: text_of(part_in(error, "code"@, 0, 2)),
                    message: text_of(part_in(error, "message"@, 1, 2)),
                },
            )
        } else {
            None
        },
        usage: if given(usage) {
            Some(usage_counts(usage->Some_0))
        } else {
            None
        },
        output: items_of(part(v, "output"@, 5, 7)),
        service_tier: tier_in(part(v, "service_tier"@, 6, 7)),
        end_turn: flag_of(member(v, "end_turn"@)),
    }
}

fn read_failure(v: Option<&Json>) -> (r: Option<ResponseFailure>)
    ensures
        r.deep_view() == if given(v.deep_view()) {
            Some(
                ResponseFailureV {
                    code: text_of(part_in(v.deep_view(), "code"@, 0, 2)),
                    message: text_of(part_in(v.deep_view(), "message"@, 1, 2)),
                },
            )
        } else {
            None
        },
{
    if is_given(v) {
        Some(
            ResponseFailure {
                code: read_text(get_part_in(v, "code", 0, 2)),
                message: read_text(get_part_in(v, "message", 1, 2)),
            },
        )
    } else {
        None
    }
}

fn read_usage(v: Option<&Json>) -> (r: Option<ResponseUsage>)
    ensures
        r.deep_view() == if given(v.deep_view()) {
            Some(usage_counts(v.deep_view()->Some_0))
        } else {
            None
        },
{
    if is_given(v) {
        match v {
            Some(v) => Some(read_usage_counts(v)),
            None => None,
        }
    } else {
        None
    }
}

fn read_terminal_parts(v: &Json) -> (r: TerminalResponse)
    ensures
        r@ == terminal_parts(v@),
{
    TerminalResponse {
        id: read_text(get_part(v, "id", 0, 7)),
        status: read_text(get_part(v, "status", 1, 7)),
        incomplete_reason: read_text(
            get_part_in(get_part(v, "incomplete_details", 2, 7), "reason", 0, 1),
        ),
        error: read_failure(get_part(v, "error", 3, 7)),
        usage: read_usage(get_part(v, "usage", 4, 7)),
        output: read_items(get_part(v, "output", 5, 7)),
        service_tier: read_tier(get_part(v, "service_tier", 6, 7)),
        end_turn: read_flag(v.get("end_turn")),
    }
}

/// The response of an event that ends the stream.
pub open spec fn terminal_response(event: JsonV) -> Result<TerminalResponseV, Seq<char>> {
    match member(event, "response"@) {
        None => Err(missing_field("response"@)),
        Some(v) => match record_fault(&TerminalFields, "TerminalResponse"@, v) {
            Some(e) => Err(e),
            None => Ok(terminal_parts(v)),
        },
    }
}

fn read_terminal_response(event: &Json) -> (r: Result<TerminalResponse, String>)
    ensures
        outcome(r) == terminal_response(event@),
{
    match event.get("response") {
        None => Err(missing_field_error("response")),
        Some(v) => match check_record(&TerminalFields, "TerminalResponse", v) {
            Some(e) => Err(e),
            None => Ok(read_terminal_parts(v)),
        },
    }
}

/// The fields of an event about an item.
pub struct IndexedItem;

impl Record for IndexedItem {
    open spec fn keys(&self) -> Seq<Seq<char>> {
        seq!["output_index"@, "item"@]
    }

    open spec fn fault(&self, i: int, v: JsonV) -> Option<Seq<char>> {
        if i == 0 {
            count_fault(v)
        } else {
            None
        }
    }

    fn names(&self) -> (r: Vec<&'static str>) {
        vec!["output_index", "item"]
    }

    fn check(&self, i: usize, v: &Json) -> (r: Option<String>) {
        if i == 0 {
            check_count(v)
        } else {
            None
        }
    }
}

/// The fields of an event about a text.
pub struct IndexedText {
    /// The member that holds the text.
    pub key: &'static str,
}

impl Record for IndexedText {
    open spec fn keys(&self) -> Seq<Seq<char>> {
        seq!["output_index"@, self.key@]
    }

    open spec fn fault(&self, i: int, v: JsonV) -> Option<Seq<char>> {
        if i == 0 {
            count_fault(v)
        } else {
            text_fault(v)
        }
    }

    fn names(&self) -> (r: Vec<&'static str>) {
        vec!["output_index", self.key]
    }

    fn check(&self, i: usize, v: &Json) -> (r: Option<String>) {
        if i == 0 {
            check_count(v)
        } else {
            check_text(v)
        }
    }
}

/// The member `output_index`, zero where it is not there.
pub open spec fn output_index(v: JsonV) -> Result<u64, Seq<char>> {
    match members_fault(&IndexedItem, v) {
        Some(e) => Err(e),
        None => Ok(count_or_zero(member(v, "output_index"@))),
    }
}

fn read_output_index(v: &Json) -> (r: Result<u64, String>)
    ensures
        outcome(r) == output_index(v@),
{
    match check_members(&IndexedItem, v) {
        Some(e) => Err(e),
        None => Ok(read_count_or_zero(v.get("output_index"))),
    }
}

/// An output index with the item that goes with it.
pub open spec fn indexed_item(v: JsonV) -> Result<(u64, JsonV), Seq<char>> {
    match output_index(v) {
        Err(e) => Err(e),
        Ok(index) => match member(v, "item"@) {
            None => Err(missing_field("item"@)),
            Some(item) => Ok((index, item)),
        },
    }
}

fn read_indexed_item(v: &Json) -> (r: Result<(u64, Json), String>)
    ensures
        outcome(r) == indexed_item(v@),
{
    match read_output_index(v) {
        Err(e) => Err(e),
        Ok(index) => match v.get("item") {
            None => Err(missing_field_error("item")),
            Some(item) => Ok((index, item.clone())),
        },
    }
}

/// An output index with the text that goes with it.
pub open spec fn indexed_text(v: JsonV, key: &'static str) -> Result<(u64, Seq<char>), Seq<char>> {
    match members_fault(&(IndexedText { key }), v) {
        Some(e) => Err(e),
        None => match needed_text(v, key@) {
            Err(e) => Err(e),
            Ok(text) => Ok((count_or_zero(member(v, "output_index"@)), text)),
        },
    }
}

fn read_indexed_text(v: &Json, key: &'static str) -> (r: Result<(u64, String), String>)
    ensures
        outcome(r) == indexed_text(v@, key),
{
    if let Some(e) = check_members(&IndexedText { key }, v) {
        return Err(e);
    }
    match read_needed_text(v, key) {
        Err(e) => Err(e),
        Ok(text) => Ok((read_count_or_zero(v.get("output_index")), text)),
    }
}

/// The identifier of a response that has just begun.
pub open spec fn created_response(event: JsonV) -> Result<Option<Seq<char>>, Seq<char>> {
    match member(event, "response"@) {
        None => Err(missing_field("response"@)),
        Some(v) => match record_fault(&CreatedFields, "CreatedResponse"@, v) {
            Some(e) => Err(e),
            None => Ok(text_of(part(v, "id"@, 0, 1))),
        },
    }
}

fn read_created_response(event: &Json) -> (r: Result<Option<String>, String>)
    ensures
        outcome(r) == created_response(event@),
{
    match event.get("response") {
        None => Err(missing_field_error("response")),
        Some(v) => match check_record(&CreatedFields, "CreatedResponse", v) {
            Some(e) => Err(e),
            None => Ok(read_text(get_part(v, "id", 0, 1))),
        },
    }
}

/// The event of the given type that a value is.
pub open spec fn event_of_type(kind: Seq<char>, v: JsonV) -> Result<
    DecodedResponseEventV,
    Seq<char>,
> {
    if kind == "response.created"@ {
        match created_response(v) {
            Err(e) => Err(e),
            Ok(id) => Ok(DecodedResponseEventV::Created { id }),
        }
    } else if kind == "response.output_item.added"@ {
        match indexed_item(v) {
            Err(e) => Err(e),
            Ok((output_index, item)) => Ok(
                DecodedResponseEventV::OutputItemAdded { output_index, item },
            ),
        }
    } else if kind == "response.reasoning_summary_text.delta"@ || kind
        == "response.reasoning_text.delta"@ {
        match indexed_text(v, "delta") {
            Err(e) => Err(e),
            Ok((output_index, delta)) => Ok(
                DecodedResponseEventV::ReasoningDelta { output_index, delta },
            ),
        }
    } else if kind == "response.reasoning_summary_part.done"@ {
        match output_index(v) {
            Err(e) => Err(e),
            Ok(output_index) => Ok(
                DecodedResponseEventV::ReasoningSummaryPartDone { output_index },
            ),
        }
    } else if kind == "response.output_text.delta"@ || kind == "response.refusal.delta"@ {
        match indexed_text(v, "delta") {
            Err(e) => Err(e),
            Ok((output_index, delta)) => Ok(
                DecodedResponseEventV::TextDelta { output_index, delta },
            ),
        }
    } else if kind == "response.function_call_arguments.delta"@ {
        match indexed_text(v, "delta") {
            Err(e) => Err(e),
            Ok((output_index, delta)) => Ok(
                DecodedResponseEventV::FunctionArgumentsDelta { output_index, delta },
            ),
        }
    } else if kind == "response.function_call_arguments.done"@ {
        match indexed_text(v, "arguments") {
            Err(e) => Err(e),
            Ok((output_index, arguments)) => Ok(
                DecodedResponseEventV::FunctionArgumentsDone { output_index, arguments },
            ),
        }
    } else if kind == "response.custom_tool_call_input.delta"@ {
        match indexed_text(v, "delta") {
            Err(e) => Err(e),
            Ok((output_index, delta)) => Ok(
                DecodedResponseEventV::CustomInputDelta { output_index, delta },
            ),
        }
    } else if kind == "response.custom_tool_call_input.done"@ {
        match indexed_text(v, "input") {
            Err(e) => Err(e),
            Ok((output_index, input)) => Ok(
                DecodedResponseEventV::CustomInputDone { output_index, input },
            ),
        }
    } else if kind == "response.output_item.done"@ {
        match indexed_item(v) {
            Err(e) => Err(e),
            Ok((output_index, item)) => Ok(
                DecodedResponseEventV::OutputItemDone { output_index, item },
            ),
        }
    } else if kind == "response.completed"@ || kind == "response.incomplete"@ {
        match terminal_response(v) {
            Err(e) => Err(e),
            Ok(response) => Ok(DecodedResponseEventV::Finished { response }),
        }
    } else if kind == "response.failed"@ {
        match terminal_response(v) {
            Err(e) => Err(e),
            Ok(response) => Ok(DecodedResponseEventV::Failed { response }),
        }
    } else if kind == "error"@ {
        match members_fault(&FailureFields, v) {
            Some(e) => Err(e),
            None => Ok(
                DecodedResponseEventV::Error {
                    code: nullable(member(v, "code"@)),
                    message: nullable(member(v, "message"@)),
                },
            ),
        }
    } else {
        Ok(DecodedResponseEventV::Unknown)
    }
}

/// The event that a value is; unknown where its type is none of those that are read.
pub open spec fn decoded_event(v: JsonV) -> Result<DecodedResponseEventV, Seq<char>> {
    match text_of(member(v, "type"@)) {
        None => Ok(DecodedResponseEventV::Unknown),
        Some(kind) => event_of_type(kind, v),
    }
}

/// Reads an event of the stream.
pub fn decode_response_event(v: &Json) -> (r: Result<DecodedResponseEvent, String>)
    ensures
        outcome(r) == decoded_event(v@),
{
    let kind = match v.text("type") {
        None => {
            return Ok(DecodedResponseEvent::Unknown);
        },
        Some(kind) => kind,
    };
    let kind = kind.as_str();
    if same(kind, "response.created") {
        match read_created_response(v) {
            Err(e) => Err(e),
            Ok(id) => Ok(DecodedResponseEvent::Created { id }),
        }
    } else if same(kind, "response.output_item.added") {
        match read_indexed_item(v) {
            Err(e) => Err(e),
            Ok((output_index, item)) => Ok(
                DecodedResponseEvent::OutputItemAdded { output_index, item },
            ),
        }
    } else if same(kind, "response.reasoning_summary_text.delta") || same(
        kind,
        "response.reasoning_text.delta",
    ) {
        match read_indexed_text(v, "delta") {
            Err(e) => Err(e),
            Ok((output_index, delta)) => Ok(
                DecodedResponseEvent::ReasoningDelta { output_index, delta },
            ),
        }
    } else if same(kind, "response.reasoning_summary_part.done") {
        match read_output_index(v) {
            Err(e) => Err(e),
            Ok(output_index) => Ok(
                DecodedResponseEvent::ReasoningSummaryPartDone { output_index },
            ),
        }
    } else if same(kind, "response.output_text.delta") || same(kind, "response.refusal.delta") {
        match read_indexed_text(v, "delta") {
            Err(e) => Err(e),
            Ok((output_index, delta)) => Ok(
                DecodedResponseEvent::TextDelta { output_index, delta },
            ),
        }
    } else if same(kind, "response.function_call_arguments.delta") {
        match read_indexed_text(v, "delta") {
            Err(e) => Err(e),
            Ok((output_index, delta)) => Ok(
                DecodedResponseEvent::FunctionArgumentsDelta { output_index, delta },
            ),
        }
    } else if same(kind, "response.function_call_arguments.done") {
        match read_indexed_text(v, "arguments") {
            Err(e) => Err(e),
            Ok((output_index, arguments)) => Ok(
                DecodedResponseEvent::FunctionArgumentsDone { output_index, arguments },
            ),
        }
    } else if same(kind, "response.custom_tool_call_input.delta") {
        match read_indexed_text(v, "delta") {
            Err(e) => Err(e),
            Ok((output_index, delta)) => Ok(
                DecodedResponseEvent::CustomInputDelta { output_index, delta },
            ),
        }
    } else if same(kind, "response.custom_tool_call_input.done") {
        match read_indexed_text(v, "input") {
            Err(e) => Err(e),
            Ok((output_index, input)) => Ok(
                DecodedResponseEvent::CustomInputDone { output_index, input },
            ),
        }
    } else if same(kind, "response.output_item.done") {
        match read_indexed_item(v) {
            Err(e) => Err(e),
            Ok((output_index, item)) => Ok(
                DecodedResponseEvent::OutputItemDone { output_index, item },
            ),
        }
    } else if same(kind, "response.completed") || same(kind, "response.incomplete") {
        match read_terminal_response(v) {
            Err(e) => Err(e),
            Ok(response) => Ok(DecodedResponseEvent::Finished { response }),
        }
    } else if same(kind, "response.failed") {
        match read_terminal_response(v) {
            Err(e) => Err(e),
            Ok(response) => Ok(DecodedResponseEvent::Failed { response }),
        }
    } else if same(kind, "error") {
        match check_members(&FailureFields, v) {
            Some(e) => Err(e),
            None => Ok(
                DecodedResponseEvent::Error {
                    code: read_nullable(v.get("code")),
                    message: read_nullable(v.get("message")),
                },
            ),
        }
    } else {
        Ok(DecodedResponseEvent::Unknown)
    }
}

} // verus!
