//! What the options of a request come to.
use crate::completions_types::{OpenAIChatToolChoiceMode, OpenAIChatToolChoiceV};
use crate::json::JsonV;
use crate::openai_completions;
use crate::openai_responses;
use crate::openai_responses::tier_tenths;
use crate::openai_responses_shared::{
    ResponseServiceTierV, ResponseToolChoiceMode, ResponseToolChoiceV,
};
use crate::request_laws::wished_tokens;
use crate::simple_options::{
    adjusted, base_options, budget, clamped_level, clamped_tokens, default_budgets, model_level,
    request_level, roomy_budget,
};
use crate::types::{
    ModelThinkingLevel, ModelV, SimpleStreamOptionsV, StreamOptionsV, ThinkingBudgets,
    ThinkingLevel, ToolChoice,
};
use vstd::prelude::*;

verus! {

/// How long an answer may be: what is asked for, less where the context would be overrun with 4096
/// tokens to spare, and at least one token. A model without a known window is asked as it is.
pub proof fn law_answer_fits_the_context(window: u64, estimated: u64, asked: u64)
    ensures
        window == 0 && asked > 0 ==> clamped_tokens(window, estimated, asked) == asked,
        window == 0 && asked == 0 ==> clamped_tokens(window, estimated, asked) == 1,
        window > 0 && estimated + 4096 + asked <= window ==> clamped_tokens(
            window,
            estimated,
            asked,
        ) == asked,
        estimated + 4097 <= window < estimated + 4096 + asked ==> clamped_tokens(
            window,
            estimated,
            asked,
        ) == window - estimated - 4096,
        0 < window < estimated + 4097 && asked > 0 ==> clamped_tokens(window, estimated, asked) == 1,
{
}

/// The tokens that a level may think for where nobody says otherwise.
pub proof fn law_thinking_has_a_budget(level: ThinkingLevel, custom: Option<ThinkingBudgets>)
    ensures
        budget(level, custom) == wished_tokens(level, custom),
        default_budgets() == (ThinkingBudgets {
            minimal: Some(1024),
            low: Some(2048),
            medium: Some(8192),
            high: Some(16384),
        }),
        budget(ThinkingLevel::Minimal, None) == 1024,
        budget(ThinkingLevel::Low, None) == 2048,
        budget(ThinkingLevel::Medium, None) == 8192,
        budget(ThinkingLevel::High, None) == 16384,
        budget(ThinkingLevel::Xhigh, custom) == budget(ThinkingLevel::High, custom),
        budget(ThinkingLevel::Max, custom) == budget(ThinkingLevel::High, custom),
{
}

/// The two highest levels count as high; the others as they are.
pub proof fn law_levels_are_clamped(level: ThinkingLevel)
    ensures
        clamped_level(level) == if level == ThinkingLevel::Xhigh || level == ThinkingLevel::Max {
            ThinkingLevel::High
        } else {
            level
        },
{
}

/// Thinking leaves 1024 tokens for the answer.
pub proof fn law_thinking_leaves_room(wished: u64, ceiling: u64)
    ensures
        ceiling <= 1024 ==> roomy_budget(wished as int, ceiling as int) == 0,
        ceiling > 1024 && wished <= ceiling - 1024 ==> roomy_budget(wished as int, ceiling as int)
            == wished,
        ceiling > 1024 && wished > ceiling - 1024 ==> roomy_budget(wished as int, ceiling as int)
            == ceiling - 1024,
{
}

/// The budget of thinking is added to what the answer may take, up to what the model can give, and is
/// cut where it would take all of it.
pub proof fn law_thinking_is_added(
    base: Option<u64>,
    model_max_tokens: u64,
    level: ThinkingLevel,
    custom: Option<ThinkingBudgets>,
)
    ensures
        ({
            let r = adjusted(base, model_max_tokens, level, custom);
            let wished = wished_tokens(level, custom);
            &&& base is None ==> r.max_tokens == model_max_tokens
            &&& base matches Some(base) ==> r.max_tokens == if base + wished <= model_max_tokens {
                base + wished
            } else {
                model_max_tokens as int
            }
            &&& wished < r.max_tokens ==> r.thinking_budget == wished
            &&& wished >= r.max_tokens ==> r.thinking_budget == if r.max_tokens > 1024 {
                r.max_tokens - 1024
            } else {
                0
            }
        }),
{
}

/// The levels of models are those of requests, and off, which asks for none.
pub proof fn law_levels_match(level: ThinkingLevel)
    ensures
        request_level(ModelThinkingLevel::Off) is None,
        request_level(ModelThinkingLevel::Minimal) == Some(ThinkingLevel::Minimal),
        request_level(ModelThinkingLevel::Low) == Some(ThinkingLevel::Low),
        request_level(ModelThinkingLevel::Medium) == Some(ThinkingLevel::Medium),
        request_level(ModelThinkingLevel::High) == Some(ThinkingLevel::High),
        request_level(ModelThinkingLevel::Xhigh) == Some(ThinkingLevel::Xhigh),
        request_level(ModelThinkingLevel::Max) == Some(ThinkingLevel::Max),
        model_level(level) == match level {
            ThinkingLevel::Minimal => ModelThinkingLevel::Minimal,
            ThinkingLevel::Low => ModelThinkingLevel::Low,
            ThinkingLevel::Medium => ModelThinkingLevel::Medium,
            ThinkingLevel::High => ModelThinkingLevel::High,
            ThinkingLevel::Xhigh => ModelThinkingLevel::Xhigh,
            ThinkingLevel::Max => ModelThinkingLevel::Max,
        },
{
}

/// What a caller asks for is taken over. The answer is bounded by what is asked for, else by what the
/// model can give, as far as the context leaves room; a key that is handed in outweighs one among
/// the options.
pub proof fn law_options_are_taken(
    model: ModelV,
    estimated: u64,
    options: SimpleStreamOptionsV,
    api_key: Option<Seq<char>>,
)
    ensures
        ({
            let taken = base_options(model, estimated, Some(options), api_key);
            let given = options.stream;
            &&& taken.temperature == given.temperature
            &&& taken.session_id == given.session_id
            &&& taken.cache_retention == given.cache_retention
            &&& taken.metadata == given.metadata
            &&& taken.request.headers == given.request.headers
            &&& taken.max_tokens == Some(
                clamped_tokens(
                    model.context_window,
                    estimated,
                    match given.max_tokens {
                        Some(tokens) => tokens,
                        None => model.max_tokens,
                    },
                ) as u64,
            )
            &&& taken.request.api_key == match api_key {
                Some(key) if key.len() > 0 => Some(key),
                _ => given.request.api_key,
            }
            &&& given.sampling_params is None ==> taken.sampling_params == model.sampling_params
            &&& model.sampling_params is None && (given.sampling_params matches Some(asked)
                && crate::assoc::distinct(asked)) ==> (taken.sampling_params matches Some(sent)
                && forall|key: Seq<char>|
                #[trigger] crate::assoc::lookup(sent, key) == crate::assoc::lookup(
                    given.sampling_params->Some_0,
                    key,
                ))
        }),
        ({
            let bare = base_options(model, estimated, None, api_key);
            &&& bare.temperature is None
            &&& bare.session_id is None
            &&& bare.cache_retention is None
            &&& bare.metadata is None
            &&& bare.request.headers is None
            &&& bare.sampling_params == model.sampling_params
            &&& bare.max_tokens == Some(
                clamped_tokens(model.context_window, estimated, model.max_tokens) as u64,
            )
        }),
{
    if let (None, Some(asked)) = (model.sampling_params, options.stream.sampling_params) {
        if crate::assoc::distinct(asked) {
            let none: Seq<(Seq<char>, JsonV)> = Seq::empty();
            assert forall|key: Seq<char>|
                #[trigger] crate::assoc::lookup(
                    crate::assoc::put_all(none, asked),
                    key,
                ) == crate::assoc::lookup(asked, key) by {
                crate::assoc::lemma_put_all(none, asked, key);
                crate::assoc::lemma_key_index(none, key, 0);
            }
        }
    }
}

/// A caller who knows no API gets the level that is asked for, no more freedom in the choice of tools
/// than it gives, and nothing that it did not ask for.
pub proof fn law_simple_options(
    model: ModelV,
    estimated: u64,
    level: Option<ModelThinkingLevel>,
    options: SimpleStreamOptionsV,
)
    ensures
        ({
            let chat = openai_completions::lowered(model, estimated, level, options);
            let responses = openai_responses::lowered(model, estimated, level, options);
            let stream = base_options(
                model,
                estimated,
                Some(options),
                options.stream.request.api_key,
            );
            let effort = match level {
                None | Some(ModelThinkingLevel::Off) => None,
                Some(ModelThinkingLevel::Minimal) => Some(ThinkingLevel::Minimal),
                Some(ModelThinkingLevel::Low) => Some(ThinkingLevel::Low),
                Some(ModelThinkingLevel::Medium) => Some(ThinkingLevel::Medium),
                Some(ModelThinkingLevel::High) => Some(ThinkingLevel::High),
                Some(ModelThinkingLevel::Xhigh) => Some(ThinkingLevel::Xhigh),
                Some(ModelThinkingLevel::Max) => Some(ThinkingLevel::Max),
            };
            &&& chat.stream == stream
            &&& responses.stream == stream
            &&& chat.reasoning_effort == effort
            &&& responses.reasoning_effort == effort
            &&& chat.thinking_budgets == options.thinking_budgets
            &&& responses.reasoning_summary is None
            &&& responses.service_tier is None
            &&& chat.tool_choice == match options.tool_choice {
                Some(ToolChoice::Auto) => Some(
                    OpenAIChatToolChoiceV::Mode(OpenAIChatToolChoiceMode::Auto),
                ),
                Some(ToolChoice::Never) => Some(
                    OpenAIChatToolChoiceV::Mode(OpenAIChatToolChoiceMode::Never),
                ),
                None => None,
            }
            &&& responses.tool_choice == match options.tool_choice {
                Some(ToolChoice::Auto) => Some(
                    ResponseToolChoiceV::Mode(ResponseToolChoiceMode::Auto),
                ),
                Some(ToolChoice::Never) => Some(
                    ResponseToolChoiceV::Mode(ResponseToolChoiceMode::Never),
                ),
                None => None,
            }
        }),
{
}

/// Plain options ask for nothing besides.
pub proof fn law_plain_options(stream: StreamOptionsV)
    ensures
        ({
            let chat = openai_completions::from_stream_options(stream);
            let responses = openai_responses::from_stream_options(stream);
            &&& chat.stream == stream
            &&& chat.tool_choice is None
            &&& chat.reasoning_effort is None
            &&& chat.thinking_budgets is None
            &&& responses.stream == stream
            &&& responses.reasoning_effort is None
            &&& responses.reasoning_summary is None
            &&& responses.service_tier is None
            &&& responses.tool_choice is None
        }),
{
}

/// What a tier costs, in tenths of the common price: half on the flexible tier, twice on the priority
/// tier, and two and a half times there for one model.
pub proof fn law_tier_has_its_price(model: ModelV, tier: Option<ResponseServiceTierV>)
    ensures
        tier == Some(ResponseServiceTierV::Flex) ==> tier_tenths(model, tier) == 5,
        tier == Some(ResponseServiceTierV::Priority) && model.id == "gpt-5.5"@ ==> tier_tenths(
            model,
            tier,
        ) == 25,
        tier == Some(ResponseServiceTierV::Priority) && model.id != "gpt-5.5"@ ==> tier_tenths(
            model,
            tier,
        ) == 20,
        tier != Some(ResponseServiceTierV::Flex) && tier != Some(ResponseServiceTierV::Priority)
            ==> tier_tenths(model, tier) == 10,
{
}

} // verus!
