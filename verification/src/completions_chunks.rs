//! The chunks of a chat-completions stream. What has the wrong type is taken for missing.
use crate::decode::{get_part, items_of, part, read_items, read_text};
use crate::js::{js_number, to_js_number};
use crate::json::{count_of, json_text, member, text_of, write_json, Json, JsonNumber, JsonNumberV, JsonV};
use crate::types::{UsageValue, UsageValueV};
use vstd::prelude::*;

verus! {

/// The tokens of a prompt, as a chunk reports them.
#[derive(Debug, PartialEq)]
pub struct RawPromptDetails {
    pub cached_tokens: Option<UsageValue>,
    pub cache_write_tokens: Option<UsageValue>,
}

/// The model of [`RawPromptDetails`].
pub struct RawPromptDetailsV {
    pub cached_tokens: Option<UsageValueV>,
    pub cache_write_tokens: Option<UsageValueV>,
}

impl View for RawPromptDetails {
    type V = RawPromptDetailsV;

    open spec fn view(&self) -> RawPromptDetailsV {
        RawPromptDetailsV {
            cached_tokens: self.cached_tokens.deep_view(),
            cache_write_tokens: self.cache_write_tokens.deep_view(),
        }
    }
}

impl DeepView for RawPromptDetails {
    type V = RawPromptDetailsV;

    open spec fn deep_view(&self) -> RawPromptDetailsV {
        self@
    }
}

impl Clone for RawPromptDetails {
    fn clone(&self) -> (r: Self)
        ensures
            r@ == self@,
    {
        RawPromptDetails {
            cached_tokens: self.cached_tokens.clone(),
            cache_write_tokens: self.cache_write_tokens.clone(),
        }
    }
}

impl Default for RawPromptDetails {
    fn default() -> (r: Self)
        ensures
            r.cached_tokens is None,
            r.cache_write_tokens is None,
    {
        RawPromptDetails {
            cached_tokens: None,
            cache_write_tokens: None,
        }
    }
}

/// The tokens of an answer, as a chunk reports them.
#[derive(Debug, PartialEq)]
pub struct RawCompletionDetails {
    pub reasoning_tokens: Option<UsageValue>,
}

/// The model of [`RawCompletionDetails`].
pub struct RawCompletionDetailsV {
    pub reasoning_tokens: Option<UsageValueV>,
}

impl View for RawCompletionDetails {
    type V = RawCompletionDetailsV;

    open spec fn view(&self) -> RawCompletionDetailsV {
        RawCompletionDetailsV {
            reasoning_tokens: self.reasoning_tokens.deep_view(),
        }
    }
}

impl DeepView for RawCompletionDetails {
    type V = RawCompletionDetailsV;

    open spec fn deep_view(&self) -> RawCompletionDetailsV {
        self@
    }
}

impl Clone for RawCompletionDetails {
    fn clone(&self) -> (r: Self)
        ensures
            r@ == self@,
    {
        RawCompletionDetails {
            reasoning_tokens: self.reasoning_tokens.clone(),
        }
    }
}

impl Default for RawCompletionDetails {
    fn default() -> (r: Self)
        ensures
            r.reasoning_tokens is None,
    {
        RawCompletionDetails {
            reasoning_tokens: None,
        }
    }
}

/// The usage that a chunk reports.
#[derive(Debug, PartialEq)]
pub struct RawUsage {
    pub prompt_tokens: Option<UsageValue>,
    pub completion_tokens: Option<UsageValue>,
    pub cached_tokens: Option<UsageValue>,
    pub prompt_cache_hit_tokens: Option<UsageValue>,
    pub prompt_tokens_details: Option<RawPromptDetails>,
    pub completion_tokens_details: Option<RawCompletionDetails>,
}

/// The model of [`RawUsage`].
pub struct RawUsageV {
    pub prompt_tokens: Option<UsageValueV>,
    pub completion_tokens: Option<UsageValueV>,
    pub cached_tokens: Option<UsageValueV>,
    pub prompt_cache_hit_tokens: Option<UsageValueV>,
    pub prompt_tokens_details: Option<RawPromptDetailsV>,
    pub completion_tokens_details: Option<RawCompletionDetailsV>,
}

impl View for RawUsage {
    type V = RawUsageV;

    open spec fn view(&self) -> RawUsageV {
        RawUsageV {
            prompt_tokens: self.prompt_tokens.deep_view(),
            completion_tokens: self.completion_tokens.deep_view(),
            cached_tokens: self.cached_tokens.deep_view(),
            prompt_cache_hit_tokens: self.prompt_cache_hit_tokens.deep_view(),
            prompt_tokens_details: self.prompt_tokens_details.deep_view(),
            completion_tokens_details: self.completion_tokens_details.deep_view(),
        }
    }
}

impl DeepView for RawUsage {
    type V = RawUsageV;

    open spec fn deep_view(&self) -> RawUsageV {
        self@
    }
}

impl Clone for RawUsage {
    fn clone(&self) -> (r: Self)
        ensures
            r@ == self@,
    {
        RawUsage {
            prompt_tokens: self.prompt_tokens.clone(),
            completion_tokens: self.completion_tokens.clone(),
            cached_tokens: self.cached_tokens.clone(),
            prompt_cache_hit_tokens: self.prompt_cache_hit_tokens.clone(),
            prompt_tokens_details: self.prompt_tokens_details.clone(),
            completion_tokens_details: self.completion_tokens_details.clone(),
        }
    }
}

impl Default for RawUsage {
    fn default() -> (r: Self)
        ensures
            r.prompt_tokens is None,
            r.completion_tokens is None,
            r.cached_tokens is None,
            r.prompt_cache_hit_tokens is None,
            r.prompt_tokens_details is None,
            r.completion_tokens_details is None,
    {
        RawUsage {
            prompt_tokens: None,
            completion_tokens: None,
            cached_tokens: None,
            prompt_cache_hit_tokens: None,
            prompt_tokens_details: None,
            completion_tokens_details: None,
        }
    }
}

/// More of a call of a function.
#[derive(Debug, PartialEq)]
pub struct RawFunctionDelta {
    pub name: Option<String>,
    pub arguments: Option<String>,
}

/// The model of [`RawFunctionDelta`].
pub struct RawFunctionDeltaV {
    pub name: Option<Seq<char>>,
    pub arguments: Option<Seq<char>>,
}

impl View for RawFunctionDelta {
    type V = RawFunctionDeltaV;

    open spec fn view(&self) -> RawFunctionDeltaV {
        RawFunctionDeltaV {
            name: self.name.deep_view(),
            arguments: self.arguments.deep_view(),
        }
    }
}

impl DeepView for RawFunctionDelta {
    type V = RawFunctionDeltaV;

    open spec fn deep_view(&self) -> RawFunctionDeltaV {
        self@
    }
}

impl Clone for RawFunctionDelta {
    fn clone(&self) -> (r: Self)
        ensures
            r@ == self@,
    {
        RawFunctionDelta {
            name: self.name.clone(),
            arguments: self.arguments.clone(),
        }
    }
}

impl Default for RawFunctionDelta {
    fn default() -> (r: Self)
        ensures
            r.name is None,
            r.arguments is None,
    {
        RawFunctionDelta {
            name: None,
            arguments: None,
        }
    }
}

/// More of a call of a custom tool.
#[derive(Debug, PartialEq)]
pub struct RawCustomDelta {
    pub name: Option<String>,
    pub input: Option<String>,
}

/// The model of [`RawCustomDelta`].
pub struct RawCustomDeltaV {
    pub name: Option<Seq<char>>,
    pub input: Option<Seq<char>>,
}

impl View for RawCustomDelta {
    type V = RawCustomDeltaV;

    open spec fn view(&self) -> RawCustomDeltaV {
        RawCustomDeltaV {
            name: self.name.deep_view(),
            input: self.input.deep_view(),
        }
    }
}

impl DeepView for RawCustomDelta {
    type V = RawCustomDeltaV;

    open spec fn deep_view(&self) -> RawCustomDeltaV {
        self@
    }
}

impl Clone for RawCustomDelta {
    fn clone(&self) -> (r: Self)
        ensures
            r@ == self@,
    {
        RawCustomDelta {
            name: self.name.clone(),
            input: self.input.clone(),
        }
    }
}

impl Default for RawCustomDelta {
    fn default() -> (r: Self)
        ensures
            r.name is None,
            r.input is None,
    {
        RawCustomDelta {
            name: None,
            input: None,
        }
    }
}

/// More of a call.
#[derive(Debug, PartialEq)]
pub struct RawToolCallDelta {
    pub index: Option<u64>,
    pub id: Option<String>,
    pub function: Option<RawFunctionDelta>,
    pub custom: Option<RawCustomDelta>,
}

/// The model of [`RawToolCallDelta`].
pub struct RawToolCallDeltaV {
    pub index: Option<u64>,
    pub id: Option<Seq<char>>,
    pub function: Option<RawFunctionDeltaV>,
    pub custom: Option<RawCustomDeltaV>,
}

impl View for RawToolCallDelta {
    type V = RawToolCallDeltaV;

    open spec fn view(&self) -> RawToolCallDeltaV {
        RawToolCallDeltaV {
            index: self.index.deep_view(),
            id: self.id.deep_view(),
            function: self.function.deep_view(),
            custom: self.custom.deep_view(),
        }
    }
}

impl DeepView for RawToolCallDelta {
    type V = RawToolCallDeltaV;

    open spec fn deep_view(&self) -> RawToolCallDeltaV {
        self@
    }
}

impl Clone for RawToolCallDelta {
    fn clone(&self) -> (r: Self)
        ensures
            r@ == self@,
    {
        RawToolCallDelta {
            index: self.index,
            id: self.id.clone(),
            function: self.function.clone(),
            custom: self.custom.clone(),
        }
    }
}

impl Default for RawToolCallDelta {
    fn default() -> (r: Self)
        ensures
            r.index is None,
            r.id is None,
            r.function is None,
            r.custom is None,
    {
        RawToolCallDelta {
            index: None,
            id: None,
            function: None,
            custom: None,
        }
    }
}

/// More of a turn.
#[derive(Debug, PartialEq)]
pub struct RawDelta {
    pub content: Option<String>,
    pub reasoning_content: Option<String>,
    pub reasoning: Option<String>,
    pub reasoning_text: Option<String>,
    pub tool_calls: Vec<RawToolCallDelta>,
    pub reasoning_details: Vec<Json>,
}

/// The model of [`RawDelta`].
pub struct RawDeltaV {
    pub content: Option<Seq<char>>,
    pub reasoning_content: Option<Seq<char>>,
    pub reasoning: Option<Seq<char>>,
    pub reasoning_text: Option<Seq<char>>,
    pub tool_calls: Seq<RawToolCallDeltaV>,
    pub reasoning_details: Seq<JsonV>,
}

impl View for RawDelta {
    type V = RawDeltaV;

    open spec fn view(&self) -> RawDeltaV {
        RawDeltaV {
            content: self.content.deep_view(),
            reasoning_content: self.reasoning_content.deep_view(),
            reasoning: self.reasoning.deep_view(),
            reasoning_text: self.reasoning_text.deep_view(),
            tool_calls: self.tool_calls.deep_view(),
            reasoning_details: self.reasoning_details.deep_view(),
        }
    }
}

impl DeepView for RawDelta {
    type V = RawDeltaV;

    open spec fn deep_view(&self) -> RawDeltaV {
        self@
    }
}

impl Clone for RawDelta {
    fn clone(&self) -> (r: Self)
        ensures
            r@ == self@,
    {
        let r = RawDelta {
            content: self.content.clone(),
            reasoning_content: self.reasoning_content.clone(),
            reasoning: self.reasoning.clone(),
            reasoning_text: self.reasoning_text.clone(),
            tool_calls: self.tool_calls.clone(),
            reasoning_details: self.reasoning_details.clone(),
        };
        proof {
            assert(r.tool_calls.deep_view() =~= self.tool_calls.deep_view());
            assert(r.reasoning_details.deep_view() =~= self.reasoning_details.deep_view());
        }
        r
    }
}

impl Default for RawDelta {
    fn default() -> (r: Self)
        ensures
            r.content is None,
            r.reasoning_content is None,
            r.reasoning is None,
            r.reasoning_text is None,
            r.tool_calls@.len() == 0,
            r.reasoning_details@.len() == 0,
    {
        RawDelta {
            content: None,
            reasoning_content: None,
            reasoning: None,
            reasoning_text: None,
            tool_calls: Vec::new(),
            reasoning_details: Vec::new(),
        }
    }
}

/// What a chunk brings of one answer.
#[derive(Debug, PartialEq)]
pub struct RawChoice {
    pub finish_reason: Option<String>,
    pub usage: Option<RawUsage>,
    pub delta: Option<RawDelta>,
}

/// The model of [`RawChoice`].
pub struct RawChoiceV {
    pub finish_reason: Option<Seq<char>>,
    pub usage: Option<RawUsageV>,
    pub delta: Option<RawDeltaV>,
}

impl View for RawChoice {
    type V = RawChoiceV;

    open spec fn view(&self) -> RawChoiceV {
        RawChoiceV {
            finish_reason: self.finish_reason.deep_view(),
            usage: self.usage.deep_view(),
            delta: self.delta.deep_view(),
        }
    }
}

impl DeepView for RawChoice {
    type V = RawChoiceV;

    open spec fn deep_view(&self) -> RawChoiceV {
        self@
    }
}

impl Clone for RawChoice {
    fn clone(&self) -> (r: Self)
        ensures
            r@ == self@,
    {
        RawChoice {
            finish_reason: self.finish_reason.clone(),
            usage: self.usage.clone(),
            delta: self.delta.clone(),
        }
    }
}

impl Default for RawChoice {
    fn default() -> (r: Self)
        ensures
            r.finish_reason is None,
            r.usage is None,
            r.delta is None,
    {
        RawChoice {
            finish_reason: None,
            usage: None,
            delta: None,
        }
    }
}

/// A chunk of a stream.
#[derive(Debug, PartialEq)]
pub struct RawChunk {
    pub id: Option<String>,
    pub model: Option<String>,
    pub usage: Option<RawUsage>,
    pub choices: Vec<RawChoice>,
}

/// The model of [`RawChunk`].
pub struct RawChunkV {
    pub id: Option<Seq<char>>,
    pub model: Option<Seq<char>>,
    pub usage: Option<RawUsageV>,
    pub choices: Seq<RawChoiceV>,
}

impl View for RawChunk {
    type V = RawChunkV;

    open spec fn view(&self) -> RawChunkV {
        RawChunkV {
            id: self.id.deep_view(),
            model: self.model.deep_view(),
            usage: self.usage.deep_view(),
            choices: self.choices.deep_view(),
        }
    }
}

impl DeepView for RawChunk {
    type V = RawChunkV;

    open spec fn deep_view(&self) -> RawChunkV {
        self@
    }
}

impl Clone for RawChunk {
    fn clone(&self) -> (r: Self)
        ensures
            r@ == self@,
    {
        let r = RawChunk {
            id: self.id.clone(),
            model: self.model.clone(),
            usage: self.usage.clone(),
            choices: self.choices.clone(),
        };
        proof {
            assert(r.choices.deep_view() =~= self.choices.deep_view());
        }
        r
    }
}

impl Default for RawChunk {
    fn default() -> (r: Self)
        ensures
            r.id is None,
            r.model is None,
            r.usage is None,
            r.choices@.len() == 0,
    {
        RawChunk {
            id: None,
            model: None,
            usage: None,
            choices: Vec::new(),
        }
    }
}

/// A token count, where a value is one: a number or a string.
pub open spec fn usage_value(v: JsonV) -> Option<UsageValueV> {
    match v {
        JsonV::Number(n) => match js_number(n) {
            JsonNumberV::Unsigned(n) => Some(UsageValueV::Count(n)),
            other => Some(UsageValueV::Fraction(json_text(JsonV::Number(other)))),
        },
        JsonV::Str(s) => Some(UsageValueV::Text(s)),
        _ => None,
    }
}

/// Whether a member is a token count, null or missing.
pub open spec fn may_count(v: Option<JsonV>) -> bool {
    match v {
        Some(v) => v is Null || usage_value(v) is Some,
        None => true,
    }
}

/// The token count in a member.
pub open spec fn counted(v: Option<JsonV>) -> Option<UsageValueV> {
    match v {
        Some(v) => usage_value(v),
        None => None,
    }
}

fn read_count(v: Option<&Json>) -> (r: (bool, Option<UsageValue>))
    ensures
        r.0 == may_count(v.deep_view()),
        r.1.deep_view() == counted(v.deep_view()),
{
    match v {
        None => (true, None),
        Some(Json::Null) => (true, None),
        Some(Json::Str(s)) => (true, Some(UsageValue::Text(s.clone()))),
        Some(Json::Number(n)) => match to_js_number(n) {
            JsonNumber::Unsigned(n) => (true, Some(UsageValue::Count(n))),
            other => {
                let text = write_json(&Json::Number(other));
                (true, Some(UsageValue::Fraction(text)))
            },
        },
        Some(_) => (false, None),
    }
}

/// The details of a prompt that an object holds.
pub open spec fn prompt_details(v: Option<JsonV>) -> Option<RawPromptDetailsV> {
    match v {
        Some(v) => if v is Object && may_count(member(v, "cached_tokens"@)) && may_count(
            member(v, "cache_write_tokens"@),
        ) {
            Some(
                RawPromptDetailsV {
                    cached_tokens: counted(member(v, "cached_tokens"@)),
                    cache_write_tokens: counted(member(v, "cache_write_tokens"@)),
                },
            )
        } else {
            None
        },
        None => None,
    }
}

fn read_prompt_details(v: Option<&Json>) -> (r: Option<RawPromptDetails>)
    ensures
        r.deep_view() == prompt_details(v.deep_view()),
{
    match v {
        Some(v) => {
            if v.as_object().is_none() {
                return None;
            }
            let (a, cached_tokens) = read_count(v.get("cached_tokens"));
            let (b, cache_write_tokens) = read_count(v.get("cache_write_tokens"));
            if a && b {
                Some(RawPromptDetails { cached_tokens, cache_write_tokens })
            } else {
                None
            }
        },
        None => None,
    }
}

/// The details of an answer that an object holds.
pub open spec fn completion_details(v: Option<JsonV>) -> Option<RawCompletionDetailsV> {
    match v {
        Some(v) => if v is Object && may_count(member(v, "reasoning_tokens"@)) {
            Some(
                RawCompletionDetailsV { reasoning_tokens: counted(member(v, "reasoning_tokens"@)) },
            )
        } else {
            None
        },
        None => None,
    }
}

fn read_completion_details(v: Option<&Json>) -> (r: Option<RawCompletionDetails>)
    ensures
        r.deep_view() == completion_details(v.deep_view()),
{
    match v {
        Some(v) => {
            if v.as_object().is_none() {
                return None;
            }
            let (a, reasoning_tokens) = read_count(v.get("reasoning_tokens"));
            if a {
                Some(RawCompletionDetails { reasoning_tokens })
            } else {
                None
            }
        },
        None => None,
    }
}

/// The usage that an object holds; none where a count is neither a number nor a string.
pub open spec fn raw_usage(v: Option<JsonV>) -> Option<RawUsageV> {
    match v {
        Some(v) => if v is Object && may_count(member(v, "prompt_tokens"@)) && may_count(
            member(v, "completion_tokens"@),
        ) && may_count(member(v, "cached_tokens"@)) && may_count(
            member(v, "prompt_cache_hit_tokens"@),
        ) {
            Some(
                RawUsageV {
                    prompt_tokens: counted(member(v, "prompt_tokens"@)),
                    completion_tokens: counted(member(v, "completion_tokens"@)),
                    cached_tokens: counted(member(v, "cached_tokens"@)),
                    prompt_cache_hit_tokens: counted(member(v, "prompt_cache_hit_tokens"@)),
                    prompt_tokens_details: prompt_details(member(v, "prompt_tokens_details"@)),
                    completion_tokens_details: completion_details(
                        member(v, "completion_tokens_details"@),
                    ),
                },
            )
        } else {
            None
        },
        None => None,
    }
}

fn read_usage(v: Option<&Json>) -> (r: Option<RawUsage>)
    ensures
        r.deep_view() == raw_usage(v.deep_view()),
{
    match v {
        Some(v) => {
            if v.as_object().is_none() {
                return None;
            }
            let (a, prompt_tokens) = read_count(v.get("prompt_tokens"));
            let (b, completion_tokens) = read_count(v.get("completion_tokens"));
            let (c, cached_tokens) = read_count(v.get("cached_tokens"));
            let (d, prompt_cache_hit_tokens) = read_count(v.get("prompt_cache_hit_tokens"));
            if !(a && b && c && d) {
                return None;
            }
            Some(
                RawUsage {
                    prompt_tokens,
                    completion_tokens,
                    cached_tokens,
                    prompt_cache_hit_tokens,
                    prompt_tokens_details: read_prompt_details(v.get("prompt_tokens_details")),
                    completion_tokens_details: read_completion_details(
                        v.get("completion_tokens_details"),
                    ),
                },
            )
        },
        None => None,
    }
}

/// More of a call of a function that an object holds.
pub open spec fn function_delta(v: Option<JsonV>) -> Option<RawFunctionDeltaV> {
    match v {
        Some(v) => if v is Object {
            Some(
                RawFunctionDeltaV {
                    name: text_of(member(v, "name"@)),
                    arguments: text_of(member(v, "arguments"@)),
                },
            )
        } else {
            None
        },
        None => None,
    }
}

fn read_function(v: Option<&Json>) -> (r: Option<RawFunctionDelta>)
    ensures
        r.deep_view() == function_delta(v.deep_view()),
{
    match v {
        Some(v) => if v.as_object().is_some() {
            Some(RawFunctionDelta { name: v.text("name"), arguments: v.text("arguments") })
        } else {
            None
        },
        None => None,
    }
}

/// More of a call of a custom tool that an object holds.
pub open spec fn custom_delta(v: Option<JsonV>) -> Option<RawCustomDeltaV> {
    match v {
        Some(v) => if v is Object {
            Some(
                RawCustomDeltaV {
                    name: text_of(member(v, "name"@)),
                    input: text_of(member(v, "input"@)),
                },
            )
        } else {
            None
        },
        None => None,
    }
}

fn read_custom(v: Option<&Json>) -> (r: Option<RawCustomDelta>)
    ensures
        r.deep_view() == custom_delta(v.deep_view()),
{
    match v {
        Some(v) => if v.as_object().is_some() {
            Some(RawCustomDelta { name: v.text("name"), input: v.text("input") })
        } else {
            None
        },
        None => None,
    }
}

/// More of a call.
pub open spec fn tool_delta(v: JsonV) -> RawToolCallDeltaV {
    RawToolCallDeltaV {
        index: count_of(part(v, "index"@, 0, 4)),
        id: text_of(part(v, "id"@, 1, 4)),
        function: function_delta(part(v, "function"@, 2, 4)),
        custom: custom_delta(part(v, "custom"@, 3, 4)),
    }
}

fn read_tool_delta(v: &Json) -> (r: RawToolCallDelta)
    ensures
        r@ == tool_delta(v@),
{
    RawToolCallDelta {
        index: match get_part(v, "index", 0, 4) {
            Some(Json::Number(JsonNumber::Unsigned(n))) => Some(*n),
            _ => None,
        },
        id: read_text(get_part(v, "id", 1, 4)),
        function: read_function(get_part(v, "function", 2, 4)),
        custom: read_custom(get_part(v, "custom", 3, 4)),
    }
}

/// More of a turn that an object holds.
pub open spec fn raw_delta(v: Option<JsonV>) -> Option<RawDeltaV> {
    match v {
        Some(v) => if v is Object {
            Some(
                RawDeltaV {
                    content: text_of(member(v, "content"@)),
                    reasoning_content: text_of(member(v, "reasoning_content"@)),
                    reasoning: text_of(member(v, "reasoning"@)),
                    reasoning_text: text_of(member(v, "reasoning_text"@)),
                    tool_calls: items_of(member(v, "tool_calls"@)).map_values(
                        |d: JsonV| tool_delta(d),
                    ),
                    reasoning_details: items_of(member(v, "reasoning_details"@)),
                },
            )
        } else {
            None
        },
        None => None,
    }
}

fn read_tool_deltas(v: Option<&Json>) -> (r: Vec<RawToolCallDelta>)
    ensures
        r.deep_view() == items_of(v.deep_view()).map_values(|d: JsonV| tool_delta(d)),
{
    let mut r: Vec<RawToolCallDelta> = Vec::new();
    let ghost all = items_of(v.deep_view());
    if let Some(v) = v {
        if let Some(items) = v.as_array() {
            let mut i: usize = 0;
            while i < items.len()
                invariant
                    i <= items@.len(),
                    r@.len() == i,
                    forall|k: int| 0 <= k < i ==> (#[trigger] r@[k])@ == tool_delta(items@[k]@),
                decreases items@.len() - i,
            {
                r.push(read_tool_delta(&items[i]));
                i += 1;
            }
            assert(all =~= items.deep_view());
        }
    }
    assert(r.deep_view() =~= all.map_values(|d: JsonV| tool_delta(d)));
    r
}

fn read_delta(v: Option<&Json>) -> (r: Option<RawDelta>)
    ensures
        r.deep_view() == raw_delta(v.deep_view()),
{
    match v {
        Some(v) => if v.as_object().is_some() {
            Some(
                RawDelta {
                    content: v.text("content"),
                    reasoning_content: v.text("reasoning_content"),
                    reasoning: v.text("reasoning"),
                    reasoning_text: v.text("reasoning_text"),
                    tool_calls: read_tool_deltas(v.get("tool_calls")),
                    reasoning_details: read_items(v.get("reasoning_details")),
                },
            )
        } else {
            None
        },
        None => None,
    }
}

/// What a chunk brings of one answer.
pub open spec fn raw_choice(v: JsonV) -> RawChoiceV {
    RawChoiceV {
        finish_reason: text_of(part(v, "finish_reason"@, 0, 3)),
        usage: raw_usage(part(v, "usage"@, 1, 3)),
        delta: raw_delta(part(v, "delta"@, 2, 3)),
    }
}

fn read_choice(v: &Json) -> (r: RawChoice)
    ensures
        r@ == raw_choice(v@),
{
    RawChoice {
        finish_reason: read_text(get_part(v, "finish_reason", 0, 3)),
        usage: read_usage(get_part(v, "usage", 1, 3)),
        delta: read_delta(get_part(v, "delta", 2, 3)),
    }
}

/// A chunk of a stream; one that is no object brings nothing.
pub open spec fn raw_chunk(v: JsonV) -> RawChunkV {
    RawChunkV {
        id: text_of(member(v, "id"@)),
        model: text_of(member(v, "model"@)),
        usage: raw_usage(member(v, "usage"@)),
        choices: items_of(member(v, "choices"@)).map_values(|c: JsonV| raw_choice(c)),
    }
}

/// Reads a chunk of a stream.
pub fn decode_chunk(v: &Json) -> (r: RawChunk)
    ensures
        r@ == raw_chunk(v@),
{
    let mut choices: Vec<RawChoice> = Vec::new();
    let ghost all = items_of(member(v@, "choices"@));
    if let Some(list) = v.get("choices") {
        if let Some(items) = list.as_array() {
            let mut i: usize = 0;
            while i < items.len()
                invariant
                    i <= items@.len(),
                    choices@.len() == i,
                    forall|k: int|
                        0 <= k < i ==> (#[trigger] choices@[k])@ == raw_choice(items@[k]@),
                decreases items@.len() - i,
            {
                choices.push(read_choice(&items[i]));
                i += 1;
            }
            assert(all =~= items.deep_view());
        }
    }
    assert(choices.deep_view() =~= all.map_values(|c: JsonV| raw_choice(c)));
    RawChunk {
        id: v.text("id"),
        model: v.text("model"),
        usage: read_usage(v.get("usage")),
        choices,
    }
}

} // verus!
