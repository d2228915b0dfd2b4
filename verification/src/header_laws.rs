//! Where requests go and under which headers.
use crate::assoc::{distinct, lemma_key_index, lemma_put, lemma_put_all, lookup, put, put_all};
use crate::completions_compat::resolved as chat_support;
use crate::completions_messages::converted;
use crate::completions_request::body as chat_body;
use crate::completions_types::{OpenAICompletionsOptionsV, WireMessage};
use crate::constrained_sampling::input_properties;
use crate::headers::{
    base_headers, client_key, endpoint, has_name, overridden, request_headers, retention,
    same_name, with_session, ClientHeaders,
};
use crate::openai_completions;
use crate::openai_responses;
use crate::openai_responses::OpenAIResponsesOptionsV;
use crate::request_laws::lemma_push;
use crate::text::{blank, lowered};
use crate::transform_messages::ResponsesToolCallIds;
use crate::types::{CacheRetention, ContextV, ModelV, SessionAffinityFormat, ToolV};
use crate::wire::ToJson;
use vstd::prelude::*;

verus! {

/// Whether a caller gives a header of a name, in any case, that is not blank.
pub open spec fn gives(
    headers: Option<Seq<(Seq<char>, Option<Seq<char>>)>>,
    name: Seq<char>,
) -> bool {
    headers matches Some(headers) && exists|i: int|
        0 <= i < headers.len() && lowered((#[trigger] headers[i]).0) == lowered(name) && (
        headers[i].1 matches Some(value) && !blank(value))
}

/// A request goes out under the key that is given. Without one it goes out only where the caller
/// gives a header that stands for it; else it is refused in the name of the provider.
pub proof fn law_key_is_needed(
    provider: Seq<char>,
    api_key: Option<Seq<char>>,
    headers: Option<Seq<(Seq<char>, Option<Seq<char>>)>>,
)
    ensures
        client_key(provider, api_key, headers) == match api_key {
            Some(key) if key.len() > 0 => Ok::<Seq<char>, Seq<char>>(key),
            _ => if gives(headers, "authorization"@) || gives(headers, "cf-aig-authorization"@) {
                Ok("unused"@)
            } else {
                Err("No API key for provider: "@ + provider)
            },
        },
{
    assert(gives(headers, "authorization"@) == crate::headers::gives_header(
        headers,
        "authorization"@,
    ));
    assert(gives(headers, "cf-aig-authorization"@) == crate::headers::gives_header(
        headers,
        "cf-aig-authorization"@,
    ));
}

/// How long a cache is kept: as the caller says; else long where the environment says so, and short
/// otherwise.
pub proof fn law_retention(said: Option<CacheRetention>, environment: Option<Seq<char>>)
    ensures
        said matches Some(kept) ==> retention(said, environment) == kept,
        said is None && environment == Some("long"@) ==> retention(said, environment)
            == CacheRetention::Long,
        said is None && environment != Some("long"@) ==> retention(said, environment)
            == CacheRetention::Short,
{
}

/// An address is the base and the path, however many slashes the base ends in.
pub proof fn law_address(base: Seq<char>, path: Seq<char>)
    ensures
        base.len() == 0 || base.last() != '/' ==> endpoint(base, path) == base + path,
        endpoint(base.push('/'), path) == endpoint(base, path),
{
    assert(base.push('/').drop_last() =~= base);
}

/// The names of the headers differ.
proof fn lemma_names()
    ensures
        "Accept"@.len() == 6,
        "Content-Type"@.len() == 12,
        "User-Agent"@.len() == 10 && "User-Agent"@[0] == 'U',
        "Authorization"@.len() == 13,
        "x-session-id"@.len() == 12 && "x-session-id"@[0] == 'x',
        "session_id"@.len() == 10 && "session_id"@[0] == 's',
        "x-client-request-id"@.len() == 19,
        "x-session-affinity"@.len() == 18,
        "Content-Type"@[0] == 'C',
{
    reveal_strlit("Accept");
    reveal_strlit("Content-Type");
    reveal_strlit("User-Agent");
    reveal_strlit("Authorization");
    reveal_strlit("x-session-id");
    reveal_strlit("session_id");
    reveal_strlit("x-client-request-id");
    reveal_strlit("x-session-affinity");
}

/// Every request says what it takes, what it holds and who sends it. The headers of the platform
/// outweigh these, those of the model outweigh them, and those for Copilot are sent to it alone and
/// outweigh all.
pub proof fn law_common_headers(model: ModelV, client: &ClientHeaders, name: Seq<char>)
    requires
        distinct(client.platform.deep_view()),
        distinct(client.copilot.deep_view()),
        model.headers matches Some(own) ==> distinct(own),
    ensures
        lookup(base_headers(model, client), name) == if model.provider == "github-copilot"@ && lookup(
            client.copilot.deep_view(),
            name,
        ) is Some {
            lookup(client.copilot.deep_view(), name)
        } else if model.headers is Some && lookup(model.headers->Some_0, name) is Some {
            lookup(model.headers->Some_0, name)
        } else if lookup(client.platform.deep_view(), name) is Some {
            lookup(client.platform.deep_view(), name)
        } else if name == "Accept"@ || name == "Content-Type"@ {
            Some("application/json"@)
        } else if name == "User-Agent"@ {
            Some(client.user_agent@)
        } else {
            None
        },
{
    lemma_names();
    let start: Seq<(Seq<char>, Seq<char>)> = Seq::empty();
    lemma_key_index(start, name, 0);
    let one = start.push(("Accept"@, "application/json"@));
    lemma_push(start, "Accept"@, "application/json"@, name);
    let two = one.push(("Content-Type"@, "application/json"@));
    lemma_push(one, "Content-Type"@, "application/json"@, name);
    let fixed = two.push(("User-Agent"@, client.user_agent@));
    lemma_push(two, "User-Agent"@, client.user_agent@, name);
    assert(seq![
        ("Accept"@, "application/json"@),
        ("Content-Type"@, "application/json"@),
        ("User-Agent"@, client.user_agent@),
    ] =~= fixed);
    let platform = put_all(fixed, client.platform.deep_view());
    lemma_put_all(fixed, client.platform.deep_view(), name);
    let own = match model.headers {
        Some(headers) => put_all(platform, headers),
        None => platform,
    };
    if let Some(headers) = model.headers {
        lemma_put_all(platform, headers, name);
    }
    lemma_put_all(own, client.copilot.deep_view(), name);
}

/// A session is named under the headers that the provider knows: OpenRouter under one of its own,
/// the others as the request of a client, and under a session's own name and an affinity where they
/// take one.
pub proof fn law_session_headers(
    headers: Seq<(Seq<char>, Seq<char>)>,
    session_id: Option<Seq<char>>,
    format: SessionAffinityFormat,
    extra: bool,
    name: Seq<char>,
)
    ensures
        lookup(with_session(headers, session_id, format, extra), name) == if session_id is Some && (
        match format {
            SessionAffinityFormat::Openrouter => name == "x-session-id"@,
            SessionAffinityFormat::Openai => name == "session_id"@ || name
                == "x-client-request-id"@ || (extra && name == "x-session-affinity"@),
            SessionAffinityFormat::OpenaiNosession => name == "x-client-request-id"@ || (extra
                && name == "x-session-affinity"@),
        }) {
            session_id
        } else {
            lookup(headers, name)
        },
{
    lemma_names();
    if let Some(id) = session_id {
        lemma_put(headers, "x-session-id"@, id, name);
        lemma_put(headers, "session_id"@, id, name);
        let named = put(headers, "session_id"@, id);
        lemma_put(headers, "x-client-request-id"@, id, name);
        lemma_put(named, "x-client-request-id"@, id, name);
        lemma_put(put(headers, "x-client-request-id"@, id), "x-session-affinity"@, id, name);
        lemma_put(put(named, "x-client-request-id"@, id), "x-session-affinity"@, id, name);
    }
}

/// Whether headers authorize a request.
pub open spec fn is_borne(headers: Seq<(Seq<char>, Seq<char>)>) -> bool {
    exists|i: int|
        0 <= i < headers.len() && lowered((#[trigger] headers[i]).0) == lowered("authorization"@)
}

/// The key bears a request that no other header authorizes, and the headers are those of every
/// request, of the session and of the caller.
pub proof fn law_key_bears_the_request(
    model: ModelV,
    client: &ClientHeaders,
    api_key: Seq<char>,
    given: Option<Seq<(Seq<char>, Option<Seq<char>>)>>,
    session_id: Option<Seq<char>>,
    format: SessionAffinityFormat,
    extra: bool,
)
    ensures
        ({
            let session = with_session(base_headers(model, client), session_id, format, extra);
            let sent = request_headers(
                model,
                client,
                api_key,
                given,
                session_id,
                format,
                extra,
            );
            let others = match given {
                Some(given) => overridden(session, given),
                None => session,
            };
            &&& is_borne(others) ==> sent == others
            &&& !is_borne(others) ==> sent == others.push(("Authorization"@, "Bearer "@ + api_key))
        }),
{
    let session = with_session(base_headers(model, client), session_id, format, extra);
    let others = match given {
        Some(given) => overridden(session, given),
        None => session,
    };
    lemma_is_borne(others);
}

proof fn lemma_is_borne(headers: Seq<(Seq<char>, Seq<char>)>)
    ensures
        is_borne(headers) == has_name(headers, "authorization"@),
{
    if is_borne(headers) {
        let i = choose|i: int|
            0 <= i < headers.len() && lowered((#[trigger] headers[i]).0) == lowered(
                "authorization"@,
            );
        assert(same_name(headers[i].0, "authorization"@));
    }
    if has_name(headers, "authorization"@) {
        let i = choose|i: int|
            0 <= i < headers.len() && same_name((#[trigger] headers[i]).0, "authorization"@);
        assert(lowered(headers[i].0) == lowered("authorization"@));
    }
}

/// A chat-completions request: where it goes, what it holds, and under which headers. Its session is
/// named only where the provider is sent sessions and a cache is kept.
pub proof fn law_chat_request(
    model: ModelV,
    context: ContextV,
    options: OpenAICompletionsOptionsV,
    client: &ClientHeaders,
    environment: Option<Seq<char>>,
    now: i64,
)
    ensures
        ({
            let kept = retention(options.stream.cache_retention, environment);
            let support = chat_support(model);
            let given = options.stream.request.headers;
            match openai_completions::prepared(
                model,
                context,
                options,
                client,
                environment,
                now,
            ) {
                Ok(sent) => {
                    let key = client_key(
                        model.provider,
                        options.stream.request.api_key,
                        given,
                    );
                    &&& key is Ok
                    &&& sent.url == endpoint(model.base_url, "/chat/completions"@)
                    &&& chat_body(
                        model,
                        context,
                        options,
                        support,
                        kept,
                        sent.properties,
                        now,
                    ) == Ok::<crate::json::JsonV, Seq<char>>(sent.params)
                    &&& sent.headers == request_headers(
                        model,
                        client,
                        key->Ok_0,
                        given,
                        if support.send_session_affinity_headers && kept != CacheRetention::Never {
                            options.stream.session_id
                        } else {
                            None
                        },
                        support.session_affinity_format,
                        true,
                    )
                },
                Err(e) => client_key(
                    model.provider,
                    options.stream.request.api_key,
                    given,
                ) == Err::<Seq<char>, Seq<char>>(e) || chat_body(
                    model,
                    context,
                    options,
                    support,
                    kept,
                    input_properties(
                        match context.tools {
                            Some(tools) => tools,
                            None => Seq::empty(),
                        },
                        support.supports_open_ai_grammar_tools,
                    ),
                    now,
                ) == Err::<crate::json::JsonV, Seq<char>>(e),
            }
        }),
{
}

/// A Responses request: where it goes, what it holds, and under which headers. Its session is named
/// where a cache is kept.
pub proof fn law_responses_request(
    model: ModelV,
    context: ContextV,
    options: OpenAIResponsesOptionsV,
    client: &ClientHeaders,
    environment: Option<Seq<char>>,
    immediate: Seq<ToolV>,
    deferred: Seq<(Seq<char>, ToolV)>,
    ids: &ResponsesToolCallIds,
    now: i64,
)
    ensures
        ({
            let kept = retention(options.stream.cache_retention, environment);
            let support = openai_responses::resolved(model);
            let given = options.stream.request.headers;
            openai_responses::prepared(
                model,
                context,
                options,
                client,
                environment,
                immediate,
                deferred,
                ids,
                now,
            ) matches Ok(sent) ==> {
                let key = client_key(model.provider, options.stream.request.api_key, given);
                &&& key is Ok
                &&& sent.url == endpoint(model.base_url, "/responses"@)
                &&& openai_responses::body(
                    model,
                    context,
                    options,
                    support,
                    kept,
                    sent.properties,
                    immediate,
                    deferred,
                    ids,
                    now,
                ) == Ok::<crate::json::JsonV, Seq<char>>(sent.params)
                &&& sent.headers == request_headers(
                    model,
                    client,
                    key->Ok_0,
                    given,
                    if kept != CacheRetention::Never {
                        options.stream.session_id
                    } else {
                        None
                    },
                    support.session_affinity_format,
                    false,
                )
            }
        }),
{
}

/// The tools that take free-form input, and the property that holds it: the last tool of a name
/// counts, and none where the provider takes no grammars.
pub proof fn law_free_form_tools(tools: Seq<ToolV>, tool: ToolV, supported: bool, name: Seq<char>)
    ensures
        tools.len() == 0 || !supported ==> lookup(input_properties(tools, supported), name) is None,
        supported ==> lookup(input_properties(tools.push(tool), supported), name) == if tool.name
            == name && tool.grammar is Some {
            Some(tool.grammar->Some_0.input_property)
        } else {
            lookup(input_properties(tools, supported), name)
        },
    decreases tools.len(),
{
    assert(tools.push(tool).drop_last() =~= tools);
    if let Some(grammar) = tool.grammar {
        lemma_put(
            input_properties(tools, supported),
            tool.name,
            grammar.input_property,
            name,
        );
    }
    if tools.len() == 0 {
        lemma_key_index(input_properties(tools, supported), name, 0);
    } else if !supported {
        law_free_form_tools(tools.drop_last(), tool, supported, name);
    }
}

/// The messages of a conversation alone are those of the request, as they are written.
pub proof fn law_messages_alone(model: ModelV, context: ContextV, now: i64)
    ensures
        ({
            let support = chat_support(model);
            let properties = input_properties(
                match context.tools {
                    Some(tools) => tools,
                    None => Seq::empty(),
                },
                support.supports_open_ai_grammar_tools,
            );
            match (
                openai_completions::converted_json(model, context, now),
                converted(model, context, support, properties, now),
            ) {
                (Ok(written), Ok(messages)) => written.len() == messages.len() && forall|i: int|
                    0 <= i < written.len() ==> #[trigger] written[i] == WireMessage::wire(
                        messages[i],
                    ),
                (Err(e), Err(f)) => e == f,
                _ => false,
            }
        }),
{
}

} // verus!
