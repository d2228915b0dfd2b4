//! The chat-completions API: what is asked of it and how.
use crate::completions_compat::{get_compat, resolved};
use crate::completions_messages::{convert_messages_wire, converted};
pub use crate::completions_types::{
    CustomToolType, FunctionToolType, OpenAIChatToolChoice, OpenAIChatToolChoiceFunction,
    OpenAIChatToolChoiceMode, OpenAICompletionsOptions, OpenAICompletionsOptionsV,
};
use crate::completions_types::{
    OpenAIChatToolChoiceV, ResolvedCompat, ResolvedCompatV, WireMessage,
};
use crate::constrained_sampling::{
    create_grammar_tool_input_properties, input_properties, outcome,
};
use crate::completions_request::{body, build_params};
use crate::headers::{
    cached_session, client_key, create_request_headers, endpoint, endpoint_url,
    get_client_api_key, request_headers, resolve_cache_retention, retention, ClientHeaders,
    PreparedRequest, PreparedRequestV,
};
use crate::json::{Json, JsonV};
use crate::provider_error::{with_raw, OpenAiSseError, OpenAiSseErrorV};
use crate::simple_options::{
    base_options, build_base_options, model_level_to_thinking, request_level,
};
use crate::types::{
    CacheRetention, Context, ContextV, Model, ModelThinkingLevel, ModelV, SimpleStreamOptions,
    SimpleStreamOptionsV, StreamOptions, StreamOptionsV, ToolChoice,
};
use crate::completions_messages::all_tools;
use crate::wire::{wires, ToJson};
use vstd::prelude::*;

verus! {

/// The chat-completions API.
#[derive(Clone, Copy, Debug, PartialEq, Eq, Structural)]
pub struct OpenAICompletionsApi;

impl Default for OpenAICompletionsApi {
    fn default() -> (r: Self)
        ensures
            r == OpenAICompletionsApi,
    {
        OpenAICompletionsApi
    }
}

/// The chat-completions API.
pub fn open_ai_completions_api() -> (r: OpenAICompletionsApi)
    ensures
        r == OpenAICompletionsApi,
{
    OpenAICompletionsApi
}

/// The options of a caller who asks for nothing that only this API has.
pub open spec fn from_stream_options(stream: StreamOptionsV) -> OpenAICompletionsOptionsV {
    OpenAICompletionsOptionsV {
        stream,
        tool_choice: None,
        reasoning_effort: None,
        thinking_budgets: None,
    }
}

impl OpenAICompletionsOptions {
    /// The options of a caller who asks for nothing that only this API has.
    pub fn from_stream(stream: StreamOptions) -> (r: Self)
        ensures
            r@ == from_stream_options(stream@),
    {
        OpenAICompletionsOptions {
            stream,
            tool_choice: None,
            reasoning_effort: None,
            thinking_budgets: None,
        }
    }
}

/// The choice of tools of a caller who knows no API.
pub open spec fn lowered_choice(choice: Option<ToolChoice>) -> Option<OpenAIChatToolChoiceV> {
    match choice {
        Some(ToolChoice::Auto) => Some(OpenAIChatToolChoiceV::Mode(OpenAIChatToolChoiceMode::Auto)),
        Some(ToolChoice::Never) => Some(
            OpenAIChatToolChoiceV::Mode(OpenAIChatToolChoiceMode::Never),
        ),
        None => None,
    }
}

/// What [`stream_simple`] returns.
pub open spec fn lowered(
    model: ModelV,
    estimated: u64,
    level: Option<ModelThinkingLevel>,
    options: SimpleStreamOptionsV,
) -> OpenAICompletionsOptionsV {
    OpenAICompletionsOptionsV {
        stream: base_options(model, estimated, Some(options), options.stream.request.api_key),
        tool_choice: lowered_choice(options.tool_choice),
        reasoning_effort: match level {
            Some(level) => request_level(level),
            None => None,
        },
        thinking_budgets: options.thinking_budgets,
    }
}

/// The options of a request for a caller who knows no API. `estimated` is about how many tokens the
/// context takes, and `level` the level that was asked for as far as the model has it.
pub fn stream_simple(
    model: &Model,
    estimated: u64,
    level: Option<ModelThinkingLevel>,
    options: &SimpleStreamOptions,
) -> (r: OpenAICompletionsOptions)
    ensures
        r@ == lowered(model@, estimated, level, options@),
{
    let api_key = match &options.stream.request.api_key {
        Some(key) => Some(key.as_str()),
        None => None,
    };
    OpenAICompletionsOptions {
        stream: build_base_options(model, estimated, Some(options), api_key),
        tool_choice: match options.tool_choice {
            Some(ToolChoice::Auto) => Some(
                OpenAIChatToolChoice::Mode(OpenAIChatToolChoiceMode::Auto),
            ),
            Some(ToolChoice::Never) => Some(
                OpenAIChatToolChoice::Mode(OpenAIChatToolChoiceMode::Never),
            ),
            None => None,
        },
        reasoning_effort: match level {
            Some(level) => model_level_to_thinking(level),
            None => None,
        },
        thinking_budgets: options.thinking_budgets,
    }
}

/// The session that the headers name, where the provider is told of it.
pub open spec fn named_session(session_id: Option<Seq<char>>, compat: ResolvedCompatV) -> Option<
    Seq<char>,
> {
    if compat.send_session_affinity_headers {
        session_id
    } else {
        None
    }
}

/// The headers of a chat-completions request.
pub fn create_headers(
    model: &Model,
    client: &ClientHeaders,
    api_key: &str,
    given: &Option<Vec<(String, Option<String>)>>,
    session_id: Option<&str>,
    compat: &ResolvedCompat,
) -> (r: Vec<(String, String)>)
    ensures
        r.deep_view() == request_headers(
            model@,
            client,
            api_key@,
            given.deep_view(),
            named_session(
                match session_id {
                    Some(id) => Some(id@),
                    None => None,
                },
                compat@,
            ),
            compat@.session_affinity_format,
            true,
        ),
{
    let session = if compat.send_session_affinity_headers {
        session_id
    } else {
        None
    };
    create_request_headers(
        model,
        client,
        api_key,
        given,
        session,
        compat.session_affinity_format,
        true,
    )
}

/// The request that a run makes, or why it makes none. `environment` is what the variable
/// `PI_CACHE_RETENTION` holds.
pub open spec fn prepared(
    model: ModelV,
    context: ContextV,
    options: OpenAICompletionsOptionsV,
    client: &ClientHeaders,
    environment: Option<Seq<char>>,
    now: i64,
) -> Result<PreparedRequestV, Seq<char>> {
    let compat = resolved(model);
    let properties = input_properties(
        all_tools(context.tools),
        compat.supports_open_ai_grammar_tools,
    );
    let kept = retention(options.stream.cache_retention, environment);
    let given = options.stream.request.headers;
    match client_key(model.provider, options.stream.request.api_key, given) {
        Err(e) => Err(e),
        Ok(key) => match body(model, context, options, compat, kept, properties, now) {
            Err(e) => Err(e),
            Ok(params) => Ok(
                PreparedRequestV {
                    url: endpoint(model.base_url, "/chat/completions"@),
                    headers: request_headers(
                        model,
                        client,
                        key,
                        given,
                        named_session(cached_session(options.stream.session_id, kept), compat),
                        compat.session_affinity_format,
                        true,
                    ),
                    params,
                    properties,
                },
            ),
        },
    }
}

/// The request that a run makes, or why it makes none. `environment` is what the variable
/// `PI_CACHE_RETENTION` holds.
pub fn prepare_request(
    model: &Model,
    context: &Context,
    options: &OpenAICompletionsOptions,
    client: &ClientHeaders,
    environment: Option<&str>,
    now: i64,
) -> (r: Result<PreparedRequest, String>)
    ensures
        outcome(r) == prepared(
            model@,
            context@,
            options@,
            client,
            match environment {
                Some(value) => Some(value@),
                None => None,
            },
            now,
        ),
{
    let key = match get_client_api_key(
        model.provider.as_str(),
        &options.stream.request.api_key,
        &options.stream.request.headers,
    ) {
        Ok(key) => key,
        Err(e) => {
            return Err(e);
        },
    };
    let compat = get_compat(model);
    let properties = create_grammar_tool_input_properties(
        &context.tools,
        compat.supports_open_ai_grammar_tools,
    );
    let kept = resolve_cache_retention(options.stream.cache_retention, environment);
    let session = match &options.stream.session_id {
        Some(id) => if kept == CacheRetention::Never {
            None
        } else {
            Some(id.as_str())
        },
        None => None,
    };
    let headers = create_headers(
        model,
        client,
        key.as_str(),
        &options.stream.request.headers,
        session,
        &compat,
    );
    match build_params(model, context, options, &compat, kept, &properties, now) {
        Ok(params) => Ok(
            PreparedRequest {
                url: endpoint_url(model.base_url.as_str(), "/chat/completions"),
                headers,
                params,
                properties,
            },
        ),
        Err(e) => Err(e),
    }
}

/// Why a conversation cannot be sent, in words.
#[derive(Debug, PartialEq, Eq)]
pub struct OpenAICompletionsBuildError {
    message: String,
}

impl View for OpenAICompletionsBuildError {
    type V = Seq<char>;

    closed spec fn view(&self) -> Seq<char> {
        self.message@
    }
}

impl DeepView for OpenAICompletionsBuildError {
    type V = Seq<char>;

    open spec fn deep_view(&self) -> Seq<char> {
        self@
    }
}

impl Clone for OpenAICompletionsBuildError {
    fn clone(&self) -> (r: Self)
        ensures
            r@ == self@,
    {
        OpenAICompletionsBuildError { message: self.message.clone() }
    }
}

impl OpenAICompletionsBuildError {
    /// The words of the error.
    pub fn message(&self) -> (r: String)
        ensures
            r@ == self@,
    {
        self.message.clone()
    }
}

/// What [`convert_messages`] returns.
pub open spec fn converted_json(model: ModelV, context: ContextV, now: i64) -> Result<
    Seq<JsonV>,
    Seq<char>,
> {
    let compat = resolved(model);
    let properties = input_properties(
        all_tools(context.tools),
        compat.supports_open_ai_grammar_tools,
    );
    match converted(model, context, compat, properties, now) {
        Ok(messages) => Ok(wires::<WireMessage>(messages)),
        Err(e) => Err(e),
    }
}

/// Converts a conversation to the messages of a request. Results that had to be made up carry the
/// time `now`.
pub fn convert_messages(model: &Model, context: &Context, now: i64) -> (r: Result<
    Vec<Json>,
    OpenAICompletionsBuildError,
>)
    ensures
        outcome(r) == converted_json(model@, context@, now),
{
    let compat = get_compat(model);
    let properties = create_grammar_tool_input_properties(
        &context.tools,
        compat.supports_open_ai_grammar_tools,
    );
    match convert_messages_wire(model, context, &compat, &properties, now) {
        Ok(messages) => {
            let mut r: Vec<Json> = Vec::new();
            let mut i: usize = 0;
            let ghost all = messages.deep_view();
            while i < messages.len()
                invariant
                    all == messages.deep_view(),
                    i <= messages@.len(),
                    r@.len() == i,
                    forall|k: int|
                        0 <= k < i ==> (#[trigger] r@[k])@ == WireMessage::wire(all[k]),
                decreases messages@.len() - i,
            {
                let message = messages[i].to_json();
                r.push(message);
                i += 1;
            }
            assert(r.deep_view() =~= wires::<WireMessage>(all));
            Ok(r)
        },
        Err(e) => Err(OpenAICompletionsBuildError { message: e }),
    }
}

/// What the run is told of a stream that failed: nothing where the caller gave it up.
pub open spec fn chunk_failure(error: OpenAiSseErrorV) -> Option<Seq<char>> {
    if error.aborted {
        None
    } else {
        Some(with_raw(error.message, error.raw_metadata))
    }
}

/// What the run is told of a stream that failed: nothing where the caller gave it up.
pub fn next_chunk_error(error: &OpenAiSseError) -> (r: Option<String>)
    ensures
        r.deep_view() == chunk_failure(error@),
{
    if error.aborted {
        None
    } else {
        Some(error.formatted(true))
    }
}

} // verus!
