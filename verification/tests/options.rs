//! Options of a caller who knows no API, and the key of the prompt cache.
use openai_api::json::{Json, JsonNumber};
use openai_api::openai_prompt_cache::clamp_open_ai_prompt_cache_key;
use openai_api::simple_options::{
    adjust_max_tokens_for_thinking, build_base_options, clamp_max_tokens_to_context,
    clamp_reasoning, clamp_thinking_budget_to_answer_room, default_thinking_budgets,
    model_level_to_thinking, thinking_budget_for_level, thinking_to_model_level,
    ThinkingTokenAdjustment,
};
use openai_api::types::{
    Model, ModelInput, ModelThinkingLevel, SimpleStreamOptions, ThinkingBudgets, ThinkingLevel,
};

fn number(n: u64) -> Json {
    Json::Number(JsonNumber::Unsigned(n))
}

fn model() -> Model {
    Model {
        id: "test".to_owned(),
        name: "Test".to_owned(),
        api: "openai-responses".to_owned(),
        provider: "openai".to_owned(),
        base_url: "https://example.test".to_owned(),
        reasoning: true,
        thinking_level_map: None,
        input: vec![ModelInput::Text],
        context_window: 10_000,
        max_tokens: 8_000,
        sampling_params: Some(vec![
            (
                "top_p".to_owned(),
                Json::Number(JsonNumber::Decimal("0.9".to_owned())),
            ),
            ("seed".to_owned(), number(1)),
        ]),
        headers: None,
        compat: None,
    }
}

#[test]
fn clamps_by_unicode_code_point_without_splitting_emoji() {
    assert_eq!(clamp_open_ai_prompt_cache_key(None), None);
    assert_eq!(
        clamp_open_ai_prompt_cache_key(Some("short")).as_deref(),
        Some("short")
    );
    let key = format!("{}tail", "🙈".repeat(64));
    assert_eq!(
        clamp_open_ai_prompt_cache_key(Some(&key)),
        Some("🙈".repeat(64))
    );
}

#[test]
fn base_options_merge_sampling_and_preserve_explicit_zero_and_empty() {
    let model = model();
    let mut options = SimpleStreamOptions::default();
    options.stream.temperature = Some(JsonNumber::Decimal("0.0".to_owned()));
    options.stream.max_tokens = Some(0);
    options.stream.request.api_key = Some(String::new());
    options.stream.sampling_params = Some(vec![
        ("seed".to_owned(), number(0)),
        ("custom".to_owned(), Json::Null),
    ]);
    options.stream.metadata = Some(vec![]);
    options.stream.request.headers = Some(vec![("x".to_owned(), None)]);
    let built = build_base_options(&model, 0, Some(&options), Some("resolved"));
    assert_eq!(
        built.temperature,
        Some(JsonNumber::Decimal("0.0".to_owned()))
    );
    assert_eq!(built.max_tokens, Some(0));
    assert_eq!(built.request.api_key.as_deref(), Some("resolved"));
    assert_eq!(
        built.sampling_params,
        Some(vec![
            (
                "top_p".to_owned(),
                Json::Number(JsonNumber::Decimal("0.9".to_owned()))
            ),
            ("seed".to_owned(), number(0)),
            ("custom".to_owned(), Json::Null),
        ])
    );
    assert_eq!(built.metadata, Some(vec![]));
    assert_eq!(built.request.headers, options.stream.request.headers);
}

#[test]
fn thinking_budgets_clamp_and_adjust_exactly() {
    assert_eq!(
        thinking_budget_for_level(ThinkingLevel::Minimal, None),
        1_024
    );
    assert_eq!(thinking_budget_for_level(ThinkingLevel::Max, None), 16_384);
    let custom = ThinkingBudgets {
        high: Some(20_000),
        ..ThinkingBudgets::default()
    };
    assert_eq!(
        thinking_budget_for_level(ThinkingLevel::Xhigh, Some(&custom)),
        20_000
    );
    assert_eq!(clamp_thinking_budget_to_answer_room(8_192, 5_000), 3_976);
    assert_eq!(clamp_thinking_budget_to_answer_room(1_024, 1_000), 0);
    assert_eq!(
        adjust_max_tokens_for_thinking(None, 4_096, ThinkingLevel::High, None),
        ThinkingTokenAdjustment {
            max_tokens: 4_096,
            thinking_budget: 3_072,
        }
    );
    assert_eq!(
        adjust_max_tokens_for_thinking(Some(1_000), 20_000, ThinkingLevel::Low, None),
        ThinkingTokenAdjustment {
            max_tokens: 3_048,
            thinking_budget: 2_048,
        }
    );
}

/// A system prompt of 4000 characters and a short question are about 1003 tokens.
#[test]
fn clamps_max_tokens_to_context_safety_room() {
    assert_eq!(clamp_max_tokens_to_context(&model(), 1_003, 8_000), 4_901);
}

/// The estimate of a stale conversation is 1005 tokens.
#[test]
fn context_usage_applies_only_to_the_prefix_it_describes() {
    let mut model = model();
    model.sampling_params = None;
    assert_eq!(
        build_base_options(&model, 1_005, None, None).max_tokens,
        Some(4_899)
    );
}

#[test]
fn full_context_leaves_one_token_and_unknown_window_leaves_all() {
    let mut model = model();
    assert_eq!(clamp_max_tokens_to_context(&model, 50_000, 8_000), 1);
    assert_eq!(clamp_max_tokens_to_context(&model, 5_904, 8_000), 1);
    assert_eq!(clamp_max_tokens_to_context(&model, 5_903, 8_000), 1);
    assert_eq!(clamp_max_tokens_to_context(&model, 5_902, 8_000), 2);
    model.context_window = 0;
    assert_eq!(clamp_max_tokens_to_context(&model, 50_000, 8_000), 8_000);
    assert_eq!(clamp_max_tokens_to_context(&model, 50_000, 0), 1);
}

#[test]
fn base_options_without_options_take_the_models_parameters() {
    let model = model();
    let built = build_base_options(&model, 0, None, Some(""));
    assert_eq!(built.sampling_params, model.sampling_params);
    assert_eq!(built.max_tokens, Some(5_904));
    assert_eq!(built.request.api_key, None);
}

#[test]
fn levels_round_trip_and_clamp() {
    for level in [
        ThinkingLevel::Minimal,
        ThinkingLevel::Low,
        ThinkingLevel::Medium,
        ThinkingLevel::High,
        ThinkingLevel::Xhigh,
        ThinkingLevel::Max,
    ] {
        assert_eq!(
            model_level_to_thinking(thinking_to_model_level(level)),
            Some(level)
        );
        assert_eq!(
            thinking_budget_for_level(level, None),
            thinking_budget_for_level(clamp_reasoning(Some(level)).unwrap(), None)
        );
    }
    assert_eq!(model_level_to_thinking(ModelThinkingLevel::Off), None);
    assert_eq!(clamp_reasoning(None), None);
    assert_eq!(
        clamp_reasoning(Some(ThinkingLevel::Xhigh)),
        Some(ThinkingLevel::High)
    );
    assert_eq!(default_thinking_budgets().medium, Some(8_192));
}

#[test]
fn huge_bounds_do_not_overflow() {
    assert_eq!(
        adjust_max_tokens_for_thinking(Some(u64::MAX), u64::MAX, ThinkingLevel::High, None),
        ThinkingTokenAdjustment {
            max_tokens: u64::MAX,
            thinking_budget: 16_384,
        }
    );
}
