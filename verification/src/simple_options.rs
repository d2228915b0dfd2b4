//! What every API makes of the options of a caller who knows none.
use crate::assoc::put_all;
use crate::json::{extend, JsonObject, JsonV};
use crate::types::{
    Model, ModelThinkingLevel, ModelV, RequestOptionsV, SimpleStreamOptions, SimpleStreamOptionsV,
    StreamOptions, StreamOptionsV, ThinkingBudgets, ThinkingLevel,
};
use crate::assoc;
use crate::wire::no_fields;
use vstd::prelude::*;

verus! {

/// The tokens that are kept free of a context window.
pub const CONTEXT_SAFETY_TOKENS: u64 = 4096;

/// The fewest tokens that a full context window leaves to ask for.
pub const MIN_MAX_TOKENS: u64 = 1;

/// The tokens that reasoning leaves to the answer.
pub const MIN_ANSWER_TOKENS: u64 = 1024;

pub open spec fn larger(a: int, b: int) -> int {
    if a < b {
        b
    } else {
        a
    }
}

pub open spec fn smaller(a: int, b: int) -> int {
    if b < a {
        b
    } else {
        a
    }
}

/// The bound of an answer where the context takes about `estimated` tokens: what was asked for, but
/// no more than the window leaves free, and one where it leaves nothing.
pub open spec fn clamped_tokens(window: u64, estimated: u64, asked: u64) -> int {
    if window == 0 {
        larger(MIN_MAX_TOKENS as int, asked as int)
    } else {
        smaller(asked as int, larger(window - estimated - CONTEXT_SAFETY_TOKENS, MIN_MAX_TOKENS as int))
    }
}

/// Bounds an answer by what a context of about `estimated` tokens leaves free in the window of the
/// model.
pub fn clamp_max_tokens_to_context(model: &Model, estimated: u64, max_tokens: u64) -> (r: u64)
    ensures
        r == clamped_tokens(model@.context_window, estimated, max_tokens),
{
    if model.context_window == 0 {
        return if max_tokens < MIN_MAX_TOKENS {
            MIN_MAX_TOKENS
        } else {
            max_tokens
        };
    }
    let available: u64 = if estimated < model.context_window && CONTEXT_SAFETY_TOKENS
        < model.context_window - estimated {
        model.context_window - estimated - CONTEXT_SAFETY_TOKENS
    } else {
        MIN_MAX_TOKENS
    };
    if available < max_tokens {
        available
    } else {
        max_tokens
    }
}

/// The options of a caller who gives none.
pub open spec fn no_options() -> StreamOptionsV {
    StreamOptionsV {
        request: RequestOptionsV { api_key: None, headers: None },
        temperature: None,
        max_tokens: None,
        session_id: None,
        cache_retention: None,
        sampling_params: None,
        metadata: None,
    }
}

/// The parameters of a model with those of a caller put over them.
pub open spec fn merged_sampling(
    own: Option<Seq<(Seq<char>, JsonV)>>,
    asked: Option<Seq<(Seq<char>, JsonV)>>,
) -> Option<Seq<(Seq<char>, JsonV)>> {
    let base = match own {
        Some(own) => own,
        None => Seq::empty(),
    };
    match asked {
        Some(asked) => Some(put_all(base, asked)),
        None => own,
    }
}

/// What [`build_base_options`] returns.
pub open spec fn base_options(
    model: ModelV,
    estimated: u64,
    options: Option<SimpleStreamOptionsV>,
    api_key: Option<Seq<char>>,
) -> StreamOptionsV {
    let given = match options {
        Some(options) => options.stream,
        None => no_options(),
    };
    let asked = match given.max_tokens {
        Some(tokens) => tokens,
        None => model.max_tokens,
    };
    StreamOptionsV {
        sampling_params: merged_sampling(model.sampling_params, given.sampling_params),
        max_tokens: Some(clamped_tokens(model.context_window, estimated, asked) as u64),
        request: RequestOptionsV {
            api_key: match api_key {
                Some(key) => if key.len() > 0 {
                    Some(key)
                } else {
                    given.request.api_key
                },
                None => given.request.api_key,
            },
            ..given.request
        },
        ..given
    }
}

fn merge_sampling(own: &Option<JsonObject>, asked: &Option<JsonObject>) -> (r: Option<JsonObject>)
    ensures
        r.deep_view() == merged_sampling(own.deep_view(), asked.deep_view()),
{
    match asked {
        Some(asked) => {
            let mut merged = match own {
                Some(own) => assoc::copy_list(own),
                None => no_fields(),
            };
            extend(&mut merged, asked);
            Some(merged)
        },
        None => assoc::copy_optional_list(own),
    }
}

/// The options that every API starts from, for a context of about `estimated` tokens.
pub fn build_base_options(
    model: &Model,
    estimated: u64,
    options: Option<&SimpleStreamOptions>,
    api_key: Option<&str>,
) -> (r: StreamOptions)
    ensures
        r@ == base_options(
            model@,
            estimated,
            options.deep_view(),
            match api_key {
                Some(key) => Some(key@),
                None => None,
            },
        ),
{
    let given = match options {
        Some(options) => options.stream.clone(),
        None => StreamOptions::default(),
    };
    assert(options is None ==> given@ == no_options());
    let mut r = given;
    r.sampling_params = merge_sampling(&model.sampling_params, &r.sampling_params);
    let asked: u64 = match r.max_tokens {
        Some(tokens) => tokens,
        None => model.max_tokens,
    };
    r.max_tokens = Some(clamp_max_tokens_to_context(model, estimated, asked));
    if let Some(key) = api_key {
        if !key.is_empty() {
            r.request.api_key = Some(key.to_owned());
        }
    }
    r
}

/// The budgets of a caller who sets none.
pub open spec fn default_budgets() -> ThinkingBudgets {
    ThinkingBudgets { minimal: Some(1024), low: Some(2048), medium: Some(8192), high: Some(16384) }
}

/// The budgets of a caller who sets none.
pub fn default_thinking_budgets() -> (r: ThinkingBudgets)
    ensures
        r == default_budgets(),
{
    ThinkingBudgets { minimal: Some(1024), low: Some(2048), medium: Some(8192), high: Some(16384) }
}

/// A level as far as budgets know it.
pub open spec fn clamped_level(level: ThinkingLevel) -> ThinkingLevel {
    match level {
        ThinkingLevel::Xhigh | ThinkingLevel::Max => ThinkingLevel::High,
        level => level,
    }
}

/// Cuts a level to the highest that has a budget.
pub fn clamp_reasoning(effort: Option<ThinkingLevel>) -> (r: Option<ThinkingLevel>)
    ensures
        r == match effort {
            Some(level) => Some(clamped_level(level)),
            None => None,
        },
{
    match effort {
        Some(ThinkingLevel::Xhigh) | Some(ThinkingLevel::Max) => Some(ThinkingLevel::High),
        value => value,
    }
}

/// The budget that is set for a level.
pub open spec fn set_budget(level: ThinkingLevel, budgets: ThinkingBudgets) -> Option<u64> {
    match level {
        ThinkingLevel::Minimal => budgets.minimal,
        ThinkingLevel::Low => budgets.low,
        ThinkingLevel::Medium => budgets.medium,
        ThinkingLevel::High | ThinkingLevel::Xhigh | ThinkingLevel::Max => budgets.high,
    }
}

/// The budget of a level: the caller's, or else the default.
pub open spec fn budget(level: ThinkingLevel, custom: Option<ThinkingBudgets>) -> u64 {
    let default = set_budget(level, default_budgets())->Some_0;
    match custom {
        Some(budgets) => match set_budget(level, budgets) {
            Some(budget) => budget,
            None => default,
        },
        None => default,
    }
}

/// The budget of a level: the caller's, or else the default.
pub fn thinking_budget_for_level(
    reasoning_level: ThinkingLevel,
    custom_budgets: Option<&ThinkingBudgets>,
) -> (r: u64)
    ensures
        r == budget(reasoning_level, custom_budgets.deep_view()),
{
    let custom = match custom_budgets {
        Some(budgets) => match reasoning_level {
            ThinkingLevel::Minimal => budgets.minimal,
            ThinkingLevel::Low => budgets.low,
            ThinkingLevel::Medium => budgets.medium,
            ThinkingLevel::High | ThinkingLevel::Xhigh | ThinkingLevel::Max => budgets.high,
        },
        None => None,
    };
    match custom {
        Some(budget) => budget,
        None => match reasoning_level {
            ThinkingLevel::Minimal => 1024,
            ThinkingLevel::Low => 2048,
            ThinkingLevel::Medium => 8192,
            ThinkingLevel::High | ThinkingLevel::Xhigh | ThinkingLevel::Max => 16384,
        },
    }
}

/// A budget cut so that the answer keeps its room under the ceiling.
pub open spec fn roomy_budget(budget: int, ceiling: int) -> int {
    smaller(budget, larger(ceiling - MIN_ANSWER_TOKENS, 0))
}

/// Cuts a budget so that the answer keeps its room under the ceiling.
pub fn clamp_thinking_budget_to_answer_room(thinking_budget: u64, ceiling: u64) -> (r: u64)
    ensures
        r == roomy_budget(thinking_budget as int, ceiling as int),
{
    let room: u64 = if MIN_ANSWER_TOKENS < ceiling {
        ceiling - MIN_ANSWER_TOKENS
    } else {
        0
    };
    if room < thinking_budget {
        room
    } else {
        thinking_budget
    }
}

/// The bounds of an answer and of the reasoning in it.
#[derive(Clone, Copy, Debug, PartialEq, Eq, Structural)]
pub struct ThinkingTokenAdjustment {
    pub max_tokens: u64,
    pub thinking_budget: u64,
}

/// What [`adjust_max_tokens_for_thinking`] returns.
pub open spec fn adjusted(
    base: Option<u64>,
    model_max_tokens: u64,
    level: ThinkingLevel,
    custom: Option<ThinkingBudgets>,
) -> ThinkingTokenAdjustment {
    let budget = budget(level, custom);
    let max_tokens = match base {
        Some(base) => smaller(base + budget, model_max_tokens as int),
        None => model_max_tokens as int,
    };
    ThinkingTokenAdjustment {
        max_tokens: max_tokens as u64,
        thinking_budget: if max_tokens <= budget {
            roomy_budget(budget as int, max_tokens) as u64
        } else {
            budget
        },
    }
}

/// Makes room for reasoning above the answer that was asked for, up to what the model gives.
pub fn adjust_max_tokens_for_thinking(
    base_max_tokens: Option<u64>,
    model_max_tokens: u64,
    reasoning_level: ThinkingLevel,
    custom_budgets: Option<&ThinkingBudgets>,
) -> (r: ThinkingTokenAdjustment)
    ensures
        r == adjusted(
            base_max_tokens,
            model_max_tokens,
            reasoning_level,
            custom_budgets.deep_view(),
        ),
{
    let budget: u64 = thinking_budget_for_level(reasoning_level, custom_budgets);
    let max_tokens: u64 = match base_max_tokens {
        Some(base) => if base <= model_max_tokens && budget <= model_max_tokens - base {
            base + budget
        } else {
            model_max_tokens
        },
        None => model_max_tokens,
    };
    let thinking_budget: u64 = if max_tokens <= budget {
        clamp_thinking_budget_to_answer_room(budget, max_tokens)
    } else {
        budget
    };
    ThinkingTokenAdjustment { max_tokens, thinking_budget }
}

/// The level that a caller asks for, among those that a model may have.
pub open spec fn model_level(level: ThinkingLevel) -> ModelThinkingLevel {
    match level {
        ThinkingLevel::Minimal => ModelThinkingLevel::Minimal,
        ThinkingLevel::Low => ModelThinkingLevel::Low,
        ThinkingLevel::Medium => ModelThinkingLevel::Medium,
        ThinkingLevel::High => ModelThinkingLevel::High,
        ThinkingLevel::Xhigh => ModelThinkingLevel::Xhigh,
        ThinkingLevel::Max => ModelThinkingLevel::Max,
    }
}

/// The level that a caller asks for, among those that a model may have.
pub fn thinking_to_model_level(level: ThinkingLevel) -> (r: ModelThinkingLevel)
    ensures
        r == model_level(level),
{
    match level {
        ThinkingLevel::Minimal => ModelThinkingLevel::Minimal,
        ThinkingLevel::Low => ModelThinkingLevel::Low,
        ThinkingLevel::Medium => ModelThinkingLevel::Medium,
        ThinkingLevel::High => ModelThinkingLevel::High,
        ThinkingLevel::Xhigh => ModelThinkingLevel::Xhigh,
        ThinkingLevel::Max => ModelThinkingLevel::Max,
    }
}

/// The level of a model as a request names it: none where reasoning is off.
pub open spec fn request_level(level: ModelThinkingLevel) -> Option<ThinkingLevel> {
    match level {
        ModelThinkingLevel::Off => None,
        ModelThinkingLevel::Minimal => Some(ThinkingLevel::Minimal),
        ModelThinkingLevel::Low => Some(ThinkingLevel::Low),
        ModelThinkingLevel::Medium => Some(ThinkingLevel::Medium),
        ModelThinkingLevel::High => Some(ThinkingLevel::High),
        ModelThinkingLevel::Xhigh => Some(ThinkingLevel::Xhigh),
        ModelThinkingLevel::Max => Some(ThinkingLevel::Max),
    }
}

/// The level of a model as a request names it: none where reasoning is off.
pub fn model_level_to_thinking(level: ModelThinkingLevel) -> (r: Option<ThinkingLevel>)
    ensures
        r == request_level(level),
{
    match level {
        ModelThinkingLevel::Off => None,
        ModelThinkingLevel::Minimal => Some(ThinkingLevel::Minimal),
        ModelThinkingLevel::Low => Some(ThinkingLevel::Low),
        ModelThinkingLevel::Medium => Some(ThinkingLevel::Medium),
        ModelThinkingLevel::High => Some(ThinkingLevel::High),
        ModelThinkingLevel::Xhigh => Some(ThinkingLevel::Xhigh),
        ModelThinkingLevel::Max => Some(ThinkingLevel::Max),
    }
}

/// A level that a caller asks for comes back from the model's levels.
pub proof fn law_levels_round_trip(level: ThinkingLevel)
    ensures
        request_level(model_level(level)) == Some(level),
{
}

/// A budget asks for no level above the highest that has one.
pub proof fn law_budget_of_clamped_level(level: ThinkingLevel, custom: Option<ThinkingBudgets>)
    ensures
        budget(level, custom) == budget(clamped_level(level), custom),
        clamped_level(clamped_level(level)) == clamped_level(level),
{
}

/// A bound is never above what was asked for, except that one token is asked for where the window
/// is not known; with a window it fits in what the context and the safety margin leave, where they
/// leave anything.
pub proof fn law_clamped_tokens(window: u64, estimated: u64, asked: u64)
    ensures
        clamped_tokens(window, estimated, asked) <= larger(asked as int, 1),
        window != 0 && asked > 0 ==> clamped_tokens(window, estimated, asked) >= 1,
        window != 0 && estimated + CONTEXT_SAFETY_TOKENS < window ==> clamped_tokens(
            window,
            estimated,
            asked,
        ) + estimated + CONTEXT_SAFETY_TOKENS <= window,
{
}

/// The larger the estimate, the smaller the bound.
pub proof fn law_clamped_tokens_monotonic(window: u64, less: u64, more: u64, asked: u64)
    requires
        less <= more,
    ensures
        clamped_tokens(window, more, asked) <= clamped_tokens(window, less, asked),
{
}

/// Reasoning never takes the whole answer: it stays under the bound, or there is none. Neither
/// exceeds what the model and the budget give.
pub proof fn law_adjusted_leaves_room(
    base: Option<u64>,
    model_max_tokens: u64,
    level: ThinkingLevel,
    custom: Option<ThinkingBudgets>,
)
    ensures
        ({
            let r = adjusted(base, model_max_tokens, level, custom);
            &&& r.thinking_budget < r.max_tokens || r.thinking_budget == 0
            &&& r.max_tokens <= model_max_tokens
            &&& r.thinking_budget <= budget(level, custom)
        }),
{
}

/// A parameter that the caller sets wins over the model's; the others stay.
pub proof fn law_sampling_overrides_win(
    own: Seq<(Seq<char>, JsonV)>,
    asked: Seq<(Seq<char>, JsonV)>,
    key: Seq<char>,
)
    requires
        assoc::distinct(asked),
    ensures
        merged_sampling(Some(own), Some(asked)) matches Some(merged) && assoc::lookup(merged, key)
            == match assoc::lookup(asked, key) {
            Some(v) => Some(v),
            None => assoc::lookup(own, key),
        },
{
    assoc::lemma_put_all(own, asked, key);
}

} // verus!
