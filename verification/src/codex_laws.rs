//! What the transport of Codex sends, and how it reads what comes back.
use crate::assoc::{lemma_put, lookup, put};
use crate::codex_connections::{
    acquired, connected, counted_request, failure_recorded, fallback_recorded, handles_of, kept,
    names_without, others, released, sessions_closed, stats_of, stats_reset, timed_out, Acquisition, CachedConnectionV, CodexSessionsV,
    OpenAICodexWebSocketDebugStatsV,
};
use crate::codex_retry::retryable;
use crate::codex_stream::{
    connect_error, data_lines, event_step, frame_data, frame_length, frame_step, frame_value,
    frames_fed, read_frames, socket_step, whole_frames, EventStream, FrameEvent, FrameStreamV, ConnectEvent, SocketEvent, SocketStepV,
    SocketStream,
};
use crate::codex_transport::{
    baseline, close_text, codex_url, connection_id, continued, create_frame, input_of,
    normalized_event, sse_headers, websocket_headers,
    websocket_url, CodexErrorKindV, CodexRunErrorV, ContinuationV,
};
use crate::event_laws::{lemma_strung, strung};
use crate::json::{json_parse, json_text, member, same_value, text_of, JsonV};
use crate::openai_sse::lossy_text;
use crate::text::{blank, decimal, ends, lemma_position, lowered, trim_end, trimmed};
use vstd::prelude::*;

verus! {

/// Where Codex is asked: at the path of its responses below the base, of which the end may be there
/// already, whatever slashes the base ends in. Without a base it is asked at its home.
pub proof fn law_codex_address(base: Seq<char>)
    ensures
        blank(base) ==> codex_url(base) == "https://chatgpt.com/backend-api/codex/responses"@,
        !blank(base) && base.last() != '/' ==> {
            &&& ends(base, "/codex/responses"@) ==> codex_url(base) == base
            &&& ends(base, "/codex"@) ==> codex_url(base) == base + "/responses"@
            &&& !ends(base, "/codex/responses"@) && !ends(base, "/codex"@) ==> codex_url(base)
                == base + "/codex/responses"@
        },
        !blank(base) ==> codex_url(base.push('/')) == codex_url(base),
{
    reveal_strlit("https://chatgpt.com/backend-api");
    reveal_strlit("https://chatgpt.com/backend-api/codex/responses");
    reveal_strlit("/codex/responses");
    reveal_strlit("/codex");
    reveal_strlit("/responses");
    let home = "https://chatgpt.com/backend-api"@;
    assert(home.len() == 31);
    assert(home.last() == 'i');
    assert(trim_end(home, '/') == home);
    assert(home + "/codex/responses"@ =~= "https://chatgpt.com/backend-api/codex/responses"@);
    assert("/codex/responses"@.len() == 16 && "/codex"@.len() == 6);
    assert("/codex/responses"@[15] == 's' && "/codex"@[5] == 'x');
    if ends(home, "/codex/responses"@) {
        assert(home.skip(15)[15] == 'i');
    }
    if ends(home, "/codex"@) {
        assert(home.skip(25)[5] == 'i');
    }
    if !blank(base) {
        assert(base.push('/').drop_last() =~= base);
        if ends(base, "/codex"@) && ends(base, "/codex/responses"@) {
            let n = base.len();
            assert(base.skip(n - 6)[5] == base.last());
            assert(base.skip(n - 16)[15] == base.last());
        }
        let i = choose|i: int| 0 <= i < base.len() && !crate::text::white_space(base[i]);
        assert(base.push('/')[i] == base[i]);
    }
}

/// A web socket is opened at the same address, under the scheme that goes with it.
pub proof fn law_socket_address(scheme: Seq<char>, url: Seq<char>)
    ensures
        ({
            let opened = websocket_url(Ok((scheme, url)));
            let turned = if scheme == "https"@ {
                crate::codex_transport::url_with_scheme(url, "wss"@)
            } else {
                crate::codex_transport::url_with_scheme(url, "ws"@)
            };
            &&& scheme != "https"@ && scheme != "http"@ ==> opened == Ok::<
                Seq<char>,
                CodexRunErrorV,
            >(url)
            &&& scheme == "https"@ || scheme == "http"@ ==> match turned {
                Some(address) => opened == Ok::<Seq<char>, CodexRunErrorV>(address),
                None => opened matches Err(e) && e.message == "Invalid Codex WebSocket URL"@
                    && e.kind == CodexErrorKindV::Other,
            }
        }),
        forall|e: Seq<char>| #[trigger]
            websocket_url(Err(e)) matches Err(error) && error.message == e && error.kind
                == CodexErrorKindV::Other,
{
}

proof fn lemma_lower_names()
    ensures
        lowered("authorization"@) == "authorization"@ && "authorization"@.len() == 13,
        lowered("chatgpt-account-id"@) == "chatgpt-account-id"@ && "chatgpt-account-id"@.len()
            == 18,
        lowered("originator"@) == "originator"@ && "originator"@.len() == 10 && "originator"@[0]
            == 'o',
        lowered("user-agent"@) == "user-agent"@ && "user-agent"@.len() == 10 && "user-agent"@[0]
            == 'u',
        lowered("openai-beta"@) == "openai-beta"@ && "openai-beta"@.len() == 11,
        lowered("accept"@) == "accept"@ && "accept"@.len() == 6,
        lowered("content-type"@) == "content-type"@ && "content-type"@.len() == 12,
        lowered("session-id"@) == "session-id"@ && "session-id"@.len() == 10 && "session-id"@[0]
            == 's',
        lowered("x-client-request-id"@) == "x-client-request-id"@ && "x-client-request-id"@.len()
            == 19,
{
    reveal_strlit("authorization");
    reveal_strlit("chatgpt-account-id");
    reveal_strlit("originator");
    reveal_strlit("user-agent");
    reveal_strlit("openai-beta");
    reveal_strlit("accept");
    reveal_strlit("content-type");
    reveal_strlit("session-id");
    reveal_strlit("x-client-request-id");
    assert(lowered("authorization"@) =~= "authorization"@);
    assert(lowered("chatgpt-account-id"@) =~= "chatgpt-account-id"@);
    assert(lowered("originator"@) =~= "originator"@);
    assert(lowered("user-agent"@) =~= "user-agent"@);
    assert(lowered("openai-beta"@) =~= "openai-beta"@);
    assert(lowered("accept"@) =~= "accept"@);
    assert(lowered("content-type"@) =~= "content-type"@);
    assert(lowered("session-id"@) =~= "session-id"@);
    assert(lowered("x-client-request-id"@) =~= "x-client-request-id"@);
}

/// Whether a header is sent with a value.
pub open spec fn sends(
    headers: Map<Seq<char>, Seq<char>>,
    name: Seq<char>,
    value: Seq<char>,
) -> bool {
    headers.contains_key(name) && headers[name] == value
}

/// Whether headers bear the token, the account and who asks.
pub open spec fn bears(
    headers: Map<Seq<char>, Seq<char>>,
    account_id: Seq<char>,
    token: Seq<char>,
    user_agent: Seq<char>,
) -> bool {
    &&& sends(headers, "authorization"@, "Bearer "@ + token)
    &&& sends(headers, "chatgpt-account-id"@, account_id)
    &&& sends(headers, "originator"@, "pi"@)
    &&& sends(headers, "user-agent"@, user_agent)
}

/// A request for a stream of events bears the token, the account, who asks, what is taken and what
/// is sent, and names the session where there is one, whatever the caller's own headers say.
pub proof fn law_stream_headers(
    own: Seq<(Seq<char>, Seq<char>)>,
    given: Seq<(Seq<char>, Option<Seq<char>>)>,
    account_id: Seq<char>,
    token: Seq<char>,
    user_agent: Seq<char>,
    session_id: Option<Seq<char>>,
)
    ensures
        sse_headers(own, given, account_id, token, user_agent, session_id) matches Ok(headers)
            ==> {
            &&& bears(headers, account_id, token, user_agent)
            &&& sends(headers, "openai-beta"@, "responses=experimental"@)
            &&& sends(headers, "accept"@, "text/event-stream"@)
            &&& sends(headers, "content-type"@, "application/json"@)
            &&& session_id matches Some(id) ==> sends(headers, "session-id"@, id) && sends(
                headers,
                "x-client-request-id"@,
                id,
            )
        },
{
    lemma_lower_names();
}

/// A web socket is opened with the token, the account and who asks, and under the identifier of the
/// request, but without a word on what is taken or sent.
pub proof fn law_socket_headers(
    own: Seq<(Seq<char>, Seq<char>)>,
    given: Seq<(Seq<char>, Option<Seq<char>>)>,
    account_id: Seq<char>,
    token: Seq<char>,
    user_agent: Seq<char>,
    request_id: Seq<char>,
)
    ensures
        websocket_headers(own, given, account_id, token, user_agent, request_id) matches Ok(
            headers,
        ) ==> {
            &&& bears(headers, account_id, token, user_agent)
            &&& sends(headers, "openai-beta"@, "responses_websockets=2026-02-06"@)
            &&& sends(headers, "session-id"@, request_id)
            &&& sends(headers, "x-client-request-id"@, request_id)
            &&& !headers.contains_key("accept"@)
            &&& !headers.contains_key("content-type"@)
        },
{
    lemma_lower_names();
    assert(crate::header_map::is_name("accept"@)) by {
        reveal_strlit("accept");
    }
    assert(crate::header_map::is_name("content-type"@)) by {
        reveal_strlit("content-type");
    }
}

/// A request goes under the identifier of its session, or under a fresh one.
pub proof fn law_request_is_identified(session_id: Option<Seq<char>>, fresh: Seq<char>)
    ensures
        session_id matches Some(id) ==> (id.len() > 0 ==> connection_id(session_id, fresh) == id),
        session_id is None || session_id->Some_0.len() == 0 ==> connection_id(session_id, fresh)
            == fresh,
{
}

/// What is said of a connection that the other side closed.
pub proof fn law_close_is_told(code: u16, reason: Seq<char>)
    ensures
        close_text(None) == "WebSocket closed"@,
        reason.len() > 0 ==> close_text(Some((code, reason))) == "WebSocket closed "@ + decimal(
            code as nat,
        ) + " "@ + reason,
        reason.len() == 0 && code != 1009 ==> close_text(Some((code, reason)))
            == "WebSocket closed "@ + decimal(code as nat),
        reason.len() == 0 && code == 1009 ==> close_text(Some((code, reason)))
            == "WebSocket closed "@ + decimal(1009) + " "@ + "message too big"@,
{
    reveal_strlit("message too big");
    assert("message too big"@.len() == 15);
}

/// Whether a failure is told in these words.
pub open spec fn fails_with<T>(
    r: Result<T, CodexRunErrorV>,
    message: Seq<char>,
    kind: CodexErrorKindV,
) -> bool {
    r matches Err(e) && e.message == message && e.kind == kind
}

/// An error event is told with its message, else with its code, else as it is; each may stand in the
/// event or in its error.
pub proof fn law_error_event_is_told(v: JsonV, words: Seq<char>)
    requires
        member(v, "type"@) == Some(JsonV::Str("error"@)),
    ensures
        member(v, "message"@) == Some(JsonV::Str(words)) ==> (normalized_event(v) matches Err(e)
            && e.message == "Codex error: "@ + words),
        member(v, "message"@) is None && (member(v, "error"@) matches Some(error) && member(
            error,
            "message"@,
        ) == Some(JsonV::Str(words))) ==> (normalized_event(v) matches Err(e) && e.message
            == "Codex error: "@ + words),
        member(v, "code"@) == Some(JsonV::Str(words)) ==> (normalized_event(v) matches Err(e)
            && e.kind == (CodexErrorKindV::Api { code: Some(words) })),
        member(v, "message"@) is None && member(v, "error"@) is None && member(v, "code"@) == Some(
            JsonV::Str(words),
        ) ==> (normalized_event(v) matches Err(e) && e.message == "Codex error: "@ + words),
        member(v, "message"@) is None && member(v, "error"@) is None && member(v, "code"@) is None
            ==> fails_with(
            normalized_event(v),
            "Codex error: "@ + json_text(v),
            CodexErrorKindV::Api { code: None },
        ),
{
}

/// A failed response is told with the message of its error, and with its code.
pub proof fn law_failed_response_is_told(v: JsonV, response: JsonV)
    requires
        member(v, "type"@) == Some(JsonV::Str("response.failed"@)),
        member(v, "response"@) == Some(response),
    ensures
        ({
            let said = match member(response, "error"@) {
                Some(error) => text_of(member(error, "message"@)),
                None => None,
            };
            let code = match member(response, "error"@) {
                Some(error) => text_of(member(error, "code"@)),
                None => None,
            };
            fails_with(
                normalized_event(v),
                match said {
                    Some(message) if message.len() > 0 => message,
                    _ => "Codex response failed"@,
                },
                CodexErrorKindV::Api { code },
            )
        }),
{
    reveal_strlit("response.failed");
    reveal_strlit("error");
    assert("response.failed"@.len() == 15 && "error"@.len() == 5);
}

/// A response that is done, completed or incomplete ends the stream, as a completed one. Of its
/// members the status is kept where it is known.
pub proof fn law_response_is_completed(
    v: JsonV,
    response: Seq<(Seq<char>, JsonV)>,
    status: Seq<char>,
)
    requires
        v is Object,
        member(v, "type"@) matches Some(JsonV::Str(kind)) && (kind == "response.done"@ || kind
            == "response.completed"@ || kind == "response.incomplete"@),
        member(v, "response"@) == Some(JsonV::Object(response)),
        lookup(response, "status"@) == Some(JsonV::Str(status)),
        lookup(response, "end_turn"@) is None,
        status == "completed"@ || status == "incomplete"@ || status == "failed"@ || status
            == "cancelled"@ || status == "queued"@ || status == "in_progress"@,
    ensures
        normalized_event(v) matches Ok(Some((event, true))) && {
            &&& member(event, "type"@) == Some(JsonV::Str("response.completed"@))
            &&& member(event, "response"@) == Some(JsonV::Object(response))
            &&& forall|key: Seq<char>|
                key != "type"@ && key != "response"@ ==> #[trigger] member(event, key) == member(
                    v,
                    key,
                )
        },
{
    reveal_strlit("response.done");
    reveal_strlit("response.completed");
    reveal_strlit("response.incomplete");
    reveal_strlit("response.failed");
    reveal_strlit("error");
    reveal_strlit("type");
    reveal_strlit("response");
    assert("response.done"@.len() == 13 && "response.completed"@.len() == 18
        && "response.incomplete"@.len() == 19 && "response.failed"@.len() == 15 && "error"@.len()
        == 5 && "type"@.len() == 4 && "response"@.len() == 8);
    let fields = v->Object_0;
    let done = JsonV::Str("response.completed"@);
    let typed = put(fields, "type"@, done);
    lemma_put(fields, "type"@, done, "response"@);
    lemma_put(fields, "type"@, done, "type"@);
    let inner = JsonV::Object(response);
    assert(crate::codex_transport::normalized_response(response) == response);
    let event = JsonV::Object(put(typed, "response"@, inner));
    lemma_put(typed, "response"@, inner, "response"@);
    lemma_put(typed, "response"@, inner, "type"@);
    assert forall|key: Seq<char>| key != "type"@ && key != "response"@ implies #[trigger] member(
        event,
        key,
    ) == member(v, key) by {
        lemma_put(typed, "response"@, inner, key);
        lemma_put(fields, "type"@, done, key);
    }
}

/// Any other event goes on as it is, and a value without a type is passed over.
pub proof fn law_other_events_go_on(v: JsonV)
    ensures
        member(v, "type"@) is None ==> normalized_event(v) == Ok::<
            Option<(JsonV, bool)>,
            CodexRunErrorV,
        >(None),
        member(v, "type"@) matches Some(JsonV::Str(kind)) ==> (kind != "error"@ && kind
            != "response.failed"@ && kind != "response.done"@ && kind != "response.completed"@
            && kind != "response.incomplete"@ ==> normalized_event(v) == Ok::<
            Option<(JsonV, bool)>,
            CodexRunErrorV,
        >(Some((v, false)))),
{
}

/// A refusal is worth another try where it is for a limit or a fault of the server, by its status or
/// by what it says.
pub proof fn law_some_refusals_are_retried(status: u64, before: Seq<char>, after: Seq<char>)
    ensures
        status == 429 || status == 500 || status == 502 || status == 503 || status == 504
            ==> retryable(status, before),
        retryable(status, before + "rate limit"@ + after),
        retryable(status, before + "ratelimit"@ + after),
        retryable(status, before + "connection refused"@ + after),
        status != 429 && status != 500 && status != 502 && status != 503 && status != 504
            ==> !retryable(status, Seq::empty()),
{
    reveal_strlit("rate");
    reveal_strlit("limit");
    reveal_strlit("connection");
    reveal_strlit("refused");
    reveal_strlit("rate limit");
    reveal_strlit("ratelimit");
    reveal_strlit("connection refused");
    let n = before.len() as int;
    let a = before + "rate limit"@ + after;
    assert(lowered(a).subrange(n, n + 4) =~= "rate"@);
    assert(lowered(a).subrange(n + 5, n + 10) =~= "limit"@);
    assert(lowered(a)[n + 4] == ' ');
    assert(crate::codex_retry::loosely_at(lowered(a), "rate"@, "limit"@, n));
    let b = before + "ratelimit"@ + after;
    assert(lowered(b).subrange(n, n + 4) =~= "rate"@);
    assert(lowered(b).subrange(n + 4, n + 9) =~= "limit"@);
    assert(crate::codex_retry::loosely_at(lowered(b), "rate"@, "limit"@, n));
    let c = before + "connection refused"@ + after;
    assert(lowered(c).subrange(n, n + 10) =~= "connection"@);
    assert(lowered(c).subrange(n + 11, n + 18) =~= "refused"@);
    assert(lowered(c)[n + 10] == ' ');
    assert(crate::codex_retry::loosely_at(lowered(c), "connection"@, "refused"@, n));
}

/// A request goes on from the last one of its connection where nothing but its input changed and its
/// input begins with what was sent and answered: only the rest is sent, behind the identifier of
/// the last response. Otherwise it is sent whole and the connection forgets.
pub proof fn law_request_goes_on(
    c: ContinuationV,
    fields: Seq<(Seq<char>, JsonV)>,
    input: Seq<JsonV>,
    key: Seq<char>,
)
    requires
        lookup(fields, "input"@) == Some(JsonV::Array(input)),
    ensures
        ({
            let body = JsonV::Object(fields);
            let sent = match member(c.last_request_body, "input"@) {
                Some(JsonV::Array(items)) => items,
                _ => Seq::empty(),
            };
            let known = sent + c.last_response_items;
            let begins = known.len() <= input.len() && forall|i: int|
                0 <= i < known.len() ==> same_value(#[trigger] input[i], known[i]);
            let same = json_text(crate::codex_transport::stripped(body)) == json_text(
                crate::codex_transport::stripped(c.last_request_body),
            );
            let (next, request) = continued(Some(c), body);
            &&& same && begins ==> {
                &&& next == Some(c)
                &&& member(request, key) == if key == "input"@ {
                    Some(JsonV::Array(input.skip(known.len() as int)))
                } else if key == "previous_response_id"@ {
                    Some(JsonV::Str(c.last_response_id))
                } else {
                    member(body, key)
                }
            }
            &&& !(same && begins) ==> next is None && request == body
            &&& continued(None, body) == (None::<ContinuationV>, body)
        }),
{
    reveal_strlit("input");
    reveal_strlit("previous_response_id");
    assert("input"@.len() == 5 && "previous_response_id"@.len() == 20);
    let id = JsonV::Str(c.last_response_id);
    let known = baseline(c);
    lemma_put(fields, "previous_response_id"@, id, key);
    lemma_put(
        put(fields, "previous_response_id"@, id),
        "input"@,
        JsonV::Array(input.skip(known.len() as int)),
        key,
    );
    let body = JsonV::Object(fields);
    assert(input_of(body) == input);
    let begins = known.len() <= input.len() && forall|i: int|
        0 <= i < known.len() ==> same_value(#[trigger] input[i], known[i]);
    assert(begins == crate::codex_transport::goes_on(input, known));
}

/// Two requests that differ in their input and in what they go on from are alike.
pub proof fn law_likeness_passes_over_the_input(fields: Seq<(Seq<char>, JsonV)>, key: Seq<char>)
    requires
        crate::assoc::distinct(fields),
    ensures
        member(crate::codex_transport::stripped(JsonV::Object(fields)), key) == if key == "input"@
            || key == "previous_response_id"@ {
            None
        } else {
            lookup(fields, key)
        },
{
    crate::assoc::lemma_removed(fields, "input"@, key);
    crate::assoc::lemma_removed(
        crate::assoc::removed(fields, "input"@),
        "previous_response_id"@,
        key,
    );
}

/// A request over a web socket is its body, as the creation of a response.
pub proof fn law_frame_creates_a_response(fields: Seq<(Seq<char>, JsonV)>, key: Seq<char>)
    requires
        crate::assoc::distinct(fields),
    ensures
        member(create_frame(JsonV::Object(fields)), key) == match lookup(fields, key) {
            Some(v) => Some(v),
            None => if key == "type"@ {
                Some(JsonV::Str("response.create"@))
            } else {
                None
            },
        },
{
    let start = seq![("type"@, JsonV::Str("response.create"@))];
    crate::assoc::lemma_put_all(start, fields, key);
    crate::assoc::lemma_key_index(
        start,
        key,
        if key == "type"@ {
            0
        } else {
            1
        },
    );
}

/// What is said of a connection that was not made.
pub proof fn law_connect_failure_is_told(event: ConnectEvent)
    ensures
        event is Done ==> connect_error(event) is None,
        event matches ConnectEvent::Failed(words) ==> connect_error(event) == Some(
            CodexRunErrorV { message: words@, kind: CodexErrorKindV::Transport },
        ),
        event matches ConnectEvent::TimedOut(n) ==> connect_error(event) == Some(
            CodexRunErrorV {
                message: "WebSocket connect timeout after "@ + decimal(n as nat) + "ms"@,
                kind: CodexErrorKindV::Transport,
            },
        ),
        event is Abort ==> connect_error(event) == Some(
            CodexRunErrorV {
                message: "Request was aborted"@,
                kind: CodexErrorKindV::Aborted,
            },
        ),
{
}

/// How a connection is waited for and kept: fifteen seconds for the connection unless the caller says
/// otherwise, five minutes when it is idle, and no longer than fifty-five minutes.
pub proof fn law_times()
    ensures
        crate::codex_transport::DEFAULT_WEBSOCKET_CONNECT_TIMEOUT_MS == 15000,
        crate::codex_connections::SESSION_WEBSOCKET_CACHE_TTL_MS == 300000,
        crate::codex_connections::SESSION_WEBSOCKET_MAX_AGE_MS == 3300000,
        crate::requests::DEFAULT_REQUEST_TIMEOUT_MS == 600000,
        crate::codex_stream::limit(Some(0)) is None,
        crate::codex_stream::limit(None) is None,
        forall|n: u64| n > 0 ==> #[trigger] crate::codex_stream::limit(Some(n)) == Some(n),
{
}

/// Whether a stream over a web socket failed in these words, with a connection that is of no more
/// use.
pub open spec fn breaks(
    step: (SocketStream, SocketStepV),
    message: Seq<char>,
    kind: CodexErrorKindV,
) -> bool {
    &&& step.1 == SocketStepV::Failure(CodexRunErrorV { message, kind })
    &&& step.0.done
    &&& !step.0.alive
}

/// What comes over a web socket is handed on as it is read. A close or an end after the response is
/// complete is no failure; before, it is, as is everything else that breaks the connection.
pub proof fn law_socket_is_read(s: SocketStream, event: SocketEvent)
    requires
        !s.done,
    ensures
        ({
            let step = socket_step(s, event);
            match event {
                SocketEvent::Text(text) => match json_parse(text@) {
                    Ok(v) => {
                        &&& step.1 == SocketStepV::Value(v)
                        &&& !step.0.done
                        &&& step.0.alive == s.alive
                        &&& step.0.saw_completion == (s.saw_completion || member(v, "type"@)
                            == Some(JsonV::Str("response.done"@)) || member(v, "type"@) == Some(
                            JsonV::Str("response.completed"@),
                        ) || member(v, "type"@) == Some(JsonV::Str("response.incomplete"@)))
                    },
                    Err(e) => step.1 == SocketStepV::Failure(
                        CodexRunErrorV {
                            message: "Invalid Codex WebSocket JSON: "@ + e,
                            kind: CodexErrorKindV::Protocol,
                        },
                    ) && step.0.done,
                },
                SocketEvent::Binary(_) => true,
                SocketEvent::Silence => step == (s, SocketStepV::Wanted),
                SocketEvent::Close(frame) => if s.saw_completion {
                    step.1 == SocketStepV::Finished && step.0.done && !step.0.alive
                } else {
                    breaks(
                        step,
                        close_text(
                            match frame {
                                Some((code, reason)) => Some((code, reason@)),
                                None => None,
                            },
                        ),
                        CodexErrorKindV::WebSocketClose {
                            code: match frame {
                                Some((code, _)) => Some(code),
                                None => None,
                            },
                        },
                    )
                },
                SocketEvent::End => if s.saw_completion {
                    step.1 == SocketStepV::Finished && step.0.done && !step.0.alive
                } else {
                    breaks(
                        step,
                        "WebSocket stream closed before response.completed"@,
                        CodexErrorKindV::Transport,
                    )
                },
                SocketEvent::Failed(words) => breaks(step, words@, CodexErrorKindV::Transport),
                SocketEvent::Idle(n) => breaks(
                    step,
                    "WebSocket idle timeout after "@ + decimal(n as nat) + "ms"@,
                    CodexErrorKindV::Transport,
                ),
                SocketEvent::Closed => breaks(
                    step,
                    "WebSocket closed"@,
                    CodexErrorKindV::Transport,
                ),
                SocketEvent::Abort => breaks(
                    step,
                    "Request was aborted"@,
                    CodexErrorKindV::Aborted,
                ),
            }
        }),
{
}

/// The data of a frame is read as a value, or refused in words.
pub proof fn law_frame_is_read(data: Seq<char>)
    ensures
        json_parse(data) matches Ok(v) ==> frame_value(data) == Ok::<JsonV, CodexRunErrorV>(v),
        json_parse(data) matches Err(e) ==> fails_with(
            frame_value(data),
            "Invalid Codex SSE JSON: "@ + e,
            CodexErrorKindV::Protocol,
        ),
{
}

/// Which connection a request gets: the one that is kept for its session and its account, where that
/// is free, not fifty-five minutes old and alive; else a new one, and one that is of no more use is
/// given up.
pub proof fn law_connection_is_chosen(
    entries: Seq<CachedConnectionV>,
    session: Seq<char>,
    account: Seq<char>,
    now: u64,
    alive: bool,
)
    ensures
        ({
            let (after, got) = acquired(entries, session, account, now, alive);
            match kept(entries, session, account) {
                None => got == Acquisition::Connect && after == entries,
                Some(entry) => if entry.busy {
                    got == Acquisition::Connect && after == entries
                } else if now - entry.created_at >= 3300000 {
                    got == (Acquisition::ReplaceAged { handle: entry.handle }) && after.len()
                        == entries.len() - 1
                } else if alive {
                    got == (Acquisition::Reuse { handle: entry.handle }) && after.len()
                        == entries.len()
                } else {
                    got == (Acquisition::ReplaceDead { handle: entry.handle }) && after.len()
                        == entries.len() - 1
                },
            }
        }),
{
}

/// What is kept for a session and an account belongs to them.
pub proof fn law_kept_connection_is_its_own(
    entries: Seq<CachedConnectionV>,
    session: Seq<char>,
    account: Seq<char>,
)
    ensures
        kept(entries, session, account) matches Some(entry) ==> entry.session == session
            && entry.account == account && entries.contains(entry),
        kept(entries, session, account) is None ==> forall|i: int|
            0 <= i < entries.len() ==> !((#[trigger] entries[i]).session == session
                && entries[i].account == account),
    decreases entries.len(),
{
    if entries.len() > 0 {
        let rest = entries.drop_first();
        law_kept_connection_is_its_own(rest, session, account);
        if kept(entries, session, account) is None {
            assert forall|i: int| 0 <= i < entries.len() implies !((#[trigger] entries[i]).session
                == session && entries[i].account == account) by {
                if i > 0 {
                    assert(entries[i] == rest[i - 1]);
                }
            }
        }
        if let Some(entry) = kept(entries, session, account) {
            if !(entries[0].session == session && entries[0].account == account) {
                let i = choose|i: int| 0 <= i < rest.len() && rest[i] == entry;
                assert(entries[i + 1] == entry);
            }
        }
    }
}

/// A connection that is given back is kept where it is alive and wanted, and closed otherwise. One
/// that has been replaced meanwhile is forgotten.
pub proof fn law_connection_is_given_back(
    entries: Seq<CachedConnectionV>,
    session: Seq<char>,
    account: Seq<char>,
    handle: u64,
    keep: bool,
    alive: bool,
)
    ensures
        ({
            let (after, what) = released(entries, session, account, handle, keep, alive);
            let known = kept(entries, session, account) matches Some(entry) && entry.handle
                == handle;
            &&& !keep || !alive ==> what is Close && after.len() == entries.len() - if known {
                1int
            } else {
                0
            }
            &&& keep && alive && known ==> what is Keep && after.len() == entries.len()
            &&& keep && alive && !known ==> what is Forgotten && after == entries
        }),
{
}

/// An idle connection is closed only where it has not been used since the clock was set for it.
pub proof fn law_idle_connection_is_closed(
    entries: Seq<CachedConnectionV>,
    session: Seq<char>,
    account: Seq<char>,
    handle: u64,
    generation: u64,
)
    ensures
        timed_out(entries, session, account, handle, generation).1 <==> (kept(
            entries,
            session,
            account,
        ) matches Some(entry) && entry.handle == handle && !entry.busy && entry.idle_generation
            == generation),
        !timed_out(entries, session, account, handle, generation).1 ==> timed_out(
            entries,
            session,
            account,
            handle,
            generation,
        ).0 == entries,
{
}

/// Each request is counted: by whether its connection was used again, whether its context was
/// cached, whether it is stored, and whether it goes on from another.
pub proof fn law_requests_are_counted(
    stats: OpenAICodexWebSocketDebugStatsV,
    reused: bool,
    cached: bool,
    body: JsonV,
)
    requires
        crate::codex_connections::can_count(stats),
    ensures
        ({
            let after = counted_request(stats, reused, cached, body);
            let goes_on = match member(body, "previous_response_id"@) {
                Some(JsonV::Str(id)) if id.len() > 0 => Some(id),
                _ => None,
            };
            &&& after.requests == stats.requests + 1
            &&& after.connections_reused + after.connections_created == stats.connections_reused
                + stats.connections_created + 1
            &&& reused ==> after.connections_reused == stats.connections_reused + 1
            &&& !reused ==> after.connections_created == stats.connections_created + 1
            &&& after.cached_context_requests == stats.cached_context_requests + if cached {
                1int
            } else {
                0
            }
            &&& after.store_true_requests == stats.store_true_requests + if member(
                body,
                "store"@,
            ) == Some(JsonV::Bool(true)) {
                1int
            } else {
                0
            }
            &&& after.delta_requests == stats.delta_requests + if goes_on is Some {
                1int
            } else {
                0
            }
            &&& after.full_context_requests == stats.full_context_requests + if goes_on is Some {
                0int
            } else {
                1
            }
            &&& after.last_previous_response_id == goes_on
            &&& after.last_delta_input_items is Some <==> goes_on is Some
            &&& after.websocket_failures == stats.websocket_failures
            &&& after.sse_fallbacks == stats.sse_fallbacks
            &&& after.last_websocket_error == stats.last_websocket_error
        }),
{
}

/// A failure of a web socket is counted and makes its session fall back; a fallback is counted.
pub proof fn law_failures_are_counted(s: CodexSessionsV, session: Seq<char>, message: Seq<char>)
    requires
        crate::codex_connections::can_count(stats_of(s, session)),
    ensures
        ({
            let before = stats_of(s, session);
            let failed = failure_recorded(s, Some(session), message);
            let fallen = fallback_recorded(s, Some(session));
            &&& failed.fallbacks.contains(session)
            &&& stats_of(failed, session).websocket_failures == before.websocket_failures + 1
            &&& stats_of(failed, session).last_websocket_error == Some(message)
            &&& stats_of(failed, session).websocket_fallback_active == Some(true)
            &&& stats_of(failed, session).sse_fallbacks == before.sse_fallbacks
            &&& fallen.fallbacks == s.fallbacks
            &&& stats_of(fallen, session).sse_fallbacks == before.sse_fallbacks + 1
            &&& stats_of(fallen, session).websocket_fallback_active == Some(
                s.fallbacks.contains(session),
            )
            &&& stats_of(fallen, session).websocket_failures == before.websocket_failures
            &&& failure_recorded(s, None, message) == s
            &&& fallback_recorded(s, None) == s
        }),
{
    let before = stats_of(s, session);
    let failed = failure_recorded(s, Some(session), message);
    let fallen = fallback_recorded(s, Some(session));
    lemma_put(
        s.stats,
        session,
        OpenAICodexWebSocketDebugStatsV {
            websocket_failures: (before.websocket_failures + 1) as u64,
            last_websocket_error: Some(message),
            websocket_fallback_active: Some(true),
            ..before
        },
        session,
    );
    lemma_put(
        s.stats,
        session,
        OpenAICodexWebSocketDebugStatsV {
            sse_fallbacks: (before.sse_fallbacks + 1) as u64,
            websocket_fallback_active: Some(s.fallbacks.contains(session)),
            ..before
        },
        session,
    );
    if !s.fallbacks.contains(session) {
        assert(failed.fallbacks[s.fallbacks.len() as int] == session);
    }
}

/// Where a session is closed, its connections are closed and all others are kept; without a session
/// all are closed.
pub proof fn law_sessions_are_closed(
    entries: Seq<CachedConnectionV>,
    session: Seq<char>,
    entry: CachedConnectionV,
)
    requires
        session.len() > 0,
        entries.contains(entry),
    ensures
        sessions_closed(entries, Some(session)).0.contains(entry) <==> entry.session != session,
        entry.session == session ==> sessions_closed(entries, Some(session)).1.contains(
            entry.handle,
        ),
        sessions_closed(entries, None).0.len() == 0,
        sessions_closed(entries, None).1.contains(entry.handle),
    decreases entries.len(),
{
    let at = choose|i: int| 0 <= i < entries.len() && entries[i] == entry;
    assert(sessions_closed(entries, None).1[at] == entry.handle);
    lemma_others(entries, session, entry);
}

proof fn lemma_others(
    entries: Seq<CachedConnectionV>,
    session: Seq<char>,
    entry: CachedConnectionV,
)
    ensures
        others(entries, session).contains(entry) <==> entries.contains(entry) && entry.session
            != session,
        entries.contains(entry) && entry.session == session ==> handles_of(
            entries,
            session,
        ).contains(entry.handle),
    decreases entries.len(),
{
    if entries.len() > 0 {
        let front = entries.drop_last();
        let last = entries.last();
        lemma_others(front, session, entry);
        assert(entries.contains(entry) <==> front.contains(entry) || last == entry) by {
            if front.contains(entry) {
                let i = choose|i: int| 0 <= i < front.len() && front[i] == entry;
                assert(entries[i] == entry);
            }
            if last == entry {
                assert(entries[entries.len() - 1] == entry);
            }
            if entries.contains(entry) && last != entry {
                let i = choose|i: int| 0 <= i < entries.len() && entries[i] == entry;
                assert(front[i] == entry);
            }
        }
        let before = others(front, session);
        let all = others(entries, session);
        let given = handles_of(front, session);
        let handles = handles_of(entries, session);
        if last.session != session {
            assert(all == before.push(last));
            if before.contains(entry) {
                let i = choose|i: int| 0 <= i < before.len() && before[i] == entry;
                assert(all[i] == entry);
            }
            if last == entry {
                assert(all[before.len() as int] == entry);
            }
            if all.contains(entry) && last != entry {
                let i = choose|i: int| 0 <= i < all.len() && all[i] == entry;
                assert(before[i] == entry);
            }
        } else {
            assert(handles == given.push(last.handle));
            if given.contains(entry.handle) {
                let i = choose|i: int| 0 <= i < given.len() && given[i] == entry.handle;
                assert(handles[i] == entry.handle);
            }
            if last == entry {
                assert(handles[given.len() as int] == entry.handle);
            }
        }
    }
}

/// The caller's own headers are sent too, and one that it takes back is not. The names that the
/// request needs for itself are not the caller's to set.
pub proof fn law_own_headers_are_sent(
    own: Seq<(Seq<char>, Seq<char>)>,
    given: Seq<(Seq<char>, Option<Seq<char>>)>,
    name: Seq<char>,
    value: Option<Seq<char>>,
    account_id: Seq<char>,
    token: Seq<char>,
    user_agent: Seq<char>,
)
    requires
        crate::header_map::is_name(name),
        lowered(name) != "authorization"@,
        lowered(name) != "chatgpt-account-id"@,
        lowered(name) != "originator"@,
        lowered(name) != "user-agent"@,
        lowered(name) != "openai-beta"@,
        lowered(name) != "accept"@,
        lowered(name) != "content-type"@,
    ensures
        sse_headers(
            own,
            given.push((name, value)),
            account_id,
            token,
            user_agent,
            None,
        ) matches Ok(headers) ==> match value {
            Some(value) => sends(headers, lowered(name), value),
            None => !headers.contains_key(lowered(name)),
        },
{
    lemma_lower_names();
    assert(given.push((name, value)).drop_last() =~= given);
}

/// A status that nobody knows is left out of a completed response, and so is what is said of the end
/// of a turn where it is no truth value.
pub proof fn law_unknown_status_is_dropped(
    v: JsonV,
    response: Seq<(Seq<char>, JsonV)>,
    key: Seq<char>,
)
    requires
        v is Object,
        member(v, "type"@) == Some(JsonV::Str("response.completed"@)),
        member(v, "response"@) == Some(JsonV::Object(response)),
        crate::assoc::distinct(response),
        lookup(response, "status"@) is None || (lookup(response, "status"@) matches Some(
            JsonV::Str(status),
        ) && status != "completed"@ && status != "incomplete"@ && status != "failed"@ && status
            != "cancelled"@ && status != "queued"@ && status != "in_progress"@),
    ensures
        normalized_event(v) matches Ok(Some((event, true))) && (member(
            event,
            "response"@,
        ) matches Some(inner) && member(inner, key) == if key == "status"@ {
            None
        } else if key == "end_turn"@ && !(lookup(response, key) matches Some(JsonV::Bool(_)))
            && !(lookup(response, key) matches Some(JsonV::Null)) {
            None
        } else {
            lookup(response, key)
        }),
{
    reveal_strlit("response.completed");
    reveal_strlit("response.failed");
    reveal_strlit("error");
    reveal_strlit("type");
    reveal_strlit("response");
    reveal_strlit("status");
    reveal_strlit("end_turn");
    assert("response.completed"@.len() == 18 && "response.failed"@.len() == 15 && "error"@.len()
        == 5 && "type"@.len() == 4 && "response"@.len() == 8 && "status"@.len() == 6
        && "end_turn"@.len() == 8);
    let fields = v->Object_0;
    let done = JsonV::Str("response.completed"@);
    let typed = put(fields, "type"@, done);
    lemma_put(fields, "type"@, done, "response"@);
    crate::assoc::lemma_removed(response, "end_turn"@, key);
    crate::assoc::lemma_removed(response, "end_turn"@, "status"@);
    crate::assoc::lemma_removed(response, "status"@, key);
    crate::assoc::lemma_removed(crate::assoc::removed(response, "end_turn"@), "status"@, key);
    let inner = JsonV::Object(crate::codex_transport::normalized_response(response));
    lemma_put(typed, "response"@, inner, "response"@);
}

/// The data of a frame is what stands behind `data:` on its lines, without the white space around it.
pub proof fn law_frame_data(words: Seq<char>, rest: Seq<char>)
    requires
        forall|i: int| 0 <= i < words.len() ==> words[i] != '\n',
    ensures
        data_lines("data:"@ + words) == seq![trimmed(words)],
        data_lines(("data:"@ + words).push('\n') + rest) == seq![trimmed(words)] + data_lines(rest),
        data_lines(("event:"@ + words).push('\n') + rest) == data_lines(rest),
{
    reveal_strlit("data:");
    reveal_strlit("event:");
    let line = "data:"@ + words;
    lemma_position(line, '\n', line.len() as int);
    assert(line.take(line.len() as int) =~= line);
    assert(line.take(5) =~= "data:"@);
    assert(line.skip(5) =~= words);
    let more = line.push('\n') + rest;
    assert forall|k: int| 0 <= k < line.len() implies more[k] != '\n' by {
        assert(more[k] == line[k]);
    }
    lemma_position(more, '\n', line.len() as int);
    assert(more.take(line.len() as int) =~= line);
    assert(more.skip(line.len() as int + 1) =~= rest);
    let named = "event:"@ + words;
    let other = named.push('\n') + rest;
    assert forall|k: int| 0 <= k < named.len() implies other[k] != '\n' by {
        assert(other[k] == named[k]);
    }
    lemma_position(other, '\n', named.len() as int);
    assert(other.take(named.len() as int) =~= named);
    assert(other.skip(named.len() as int + 1) =~= rest);
    if crate::text::begins(named, "data:"@) {
        assert(named.take(5)[0] == 'e');
    }
    assert(Seq::<Seq<char>>::empty() + data_lines(rest) =~= data_lines(rest));
}

/// A frame without data, or with the word that ends a stream, gives nothing.
pub proof fn law_frame_gives_its_data(frame: Seq<u8>)
    ensures
        ({
            let data = trimmed(strung(data_lines(lossy_text(frame)), "\n"@));
            frame_data(frame) == if data.len() == 0 || data == "[DONE]"@ {
                None
            } else {
                Some(data)
            }
        }),
{
    lemma_strung(data_lines(lossy_text(frame)), "\n"@);
}

/// A frame ends at the first two line feeds that stand together.
pub proof fn law_frames_end(frame: Seq<u8>, rest: Seq<u8>)
    requires
        forall|i: int|
            0 <= i < frame.len() ==> !(#[trigger] frame[i] == 10 && (i + 1 == frame.len()
                || frame[i + 1] == 10)),
    ensures
        whole_frames(frame.push(10u8).push(10u8) + rest) == seq![frame] + whole_frames(rest),
        read_frames(frame.push(10u8).push(10u8) + rest) == (
            read_frames(rest).0,
            match frame_data(frame) {
                Some(data) => seq![data] + read_frames(rest).1,
                None => read_frames(rest).1,
            },
        ),
        whole_frames(frame).len() == 0,
        read_frames(frame) == (frame, Seq::<Seq<char>>::empty()),
{
    let n = frame.len() as int;
    let all = frame.push(10u8).push(10u8) + rest;
    assert forall|i: int| 0 <= i < n implies !(#[trigger] all[i] == 10 && all[i + 1] == 10) by {
        assert(all[i] == frame[i]);
        if i + 1 < n {
            assert(all[i + 1] == frame[i + 1]);
        }
    }
    lemma_frame_length(all, n);
    assert(all.take(n) =~= frame);
    assert(all.skip(n + 2) =~= rest);
    lemma_no_frame(frame);
}

proof fn lemma_frame_length(bytes: Seq<u8>, n: int)
    requires
        0 <= n,
        n + 2 <= bytes.len(),
        bytes[n] == 10 && bytes[n + 1] == 10,
        forall|i: int| 0 <= i < n ==> !(#[trigger] bytes[i] == 10 && bytes[i + 1] == 10),
    ensures
        frame_length(bytes) == n,
    decreases n,
{
    if n > 0 {
        let rest = bytes.drop_first();
        assert(!(bytes[0] == 10 && bytes[1] == 10));
        assert forall|i: int| 0 <= i < n - 1 implies !(#[trigger] rest[i] == 10 && rest[i + 1]
            == 10) by {
            assert(rest[i] == bytes[i + 1]);
            assert(rest[i + 1] == bytes[i + 2]);
            assert(!(bytes[i + 1] == 10 && bytes[i + 1 + 1] == 10));
        }
        lemma_frame_length(rest, n - 1);
    }
}

proof fn lemma_no_frame(bytes: Seq<u8>)
    requires
        forall|i: int|
            0 <= i < bytes.len() ==> !(#[trigger] bytes[i] == 10 && (i + 1 == bytes.len()
                || bytes[i + 1] == 10)),
    ensures
        frame_length(bytes) == bytes.len(),
    decreases bytes.len(),
{
    if bytes.len() >= 2 {
        let rest = bytes.drop_first();
        assert(!(bytes[0] == 10 && bytes[1] == 10));
        assert forall|i: int| 0 <= i < rest.len() implies !(#[trigger] rest[i] == 10 && (i + 1
            == rest.len() || rest[i + 1] == 10)) by {
            assert(rest[i] == bytes[i + 1]);
            if i + 1 < rest.len() {
                assert(rest[i + 1] == bytes[i + 2]);
            }
        }
        lemma_no_frame(rest);
    }
}

/// Where the numbers of a session are reset, they begin anew and it falls back no more; others keep
/// theirs.
pub proof fn law_numbers_are_reset(s: CodexSessionsV, session: Seq<char>, other: Seq<char>)
    requires
        session.len() > 0,
        other != session,
        crate::assoc::distinct(s.stats),
    ensures
        ({
            let after = stats_reset(s, Some(session));
            &&& lookup(after.stats, session) is None
            &&& lookup(after.stats, other) == lookup(s.stats, other)
            &&& !after.fallbacks.contains(session)
            &&& after.fallbacks.contains(other) == s.fallbacks.contains(other)
            &&& stats_reset(s, None).stats.len() == 0
            &&& stats_reset(s, None).fallbacks.len() == 0
        }),
{
    crate::assoc::lemma_removed(s.stats, session, session);
    crate::assoc::lemma_removed(s.stats, session, other);
    lemma_names_without(s.fallbacks, session, session);
    lemma_names_without(s.fallbacks, session, other);
}

proof fn lemma_names_without(names: Seq<Seq<char>>, name: Seq<char>, other: Seq<char>)
    ensures
        names_without(names, name).contains(other) <==> names.contains(other) && other != name,
    decreases names.len(),
{
    if names.len() > 0 {
        let front = names.drop_last();
        let last = names.last();
        lemma_names_without(front, name, other);
        assert(names.contains(other) <==> front.contains(other) || last == other) by {
            if front.contains(other) {
                let i = choose|i: int| 0 <= i < front.len() && front[i] == other;
                assert(names[i] == other);
            }
            if last == other {
                assert(names[names.len() - 1] == other);
            }
            if names.contains(other) && last != other {
                let i = choose|i: int| 0 <= i < names.len() && names[i] == other;
                assert(front[i] == other);
            }
        }
        let before = names_without(front, name);
        let all = names_without(names, name);
        if last != name {
            assert(all == before.push(last));
            if before.contains(other) {
                let i = choose|i: int| 0 <= i < before.len() && before[i] == other;
                assert(all[i] == other);
            }
            if last == other {
                assert(all[before.len() as int] == other);
            }
            if all.contains(other) && last != other {
                let i = choose|i: int| 0 <= i < all.len() && all[i] == other;
                assert(before[i] == other);
            }
        }
    }
}

/// A connection that was made for a session is kept for it, in use, where none is in use for it yet.
pub proof fn law_new_connection_is_kept(
    entries: Seq<CachedConnectionV>,
    session: Seq<char>,
    account: Seq<char>,
    handle: u64,
    now: u64,
)
    ensures
        ({
            let (after, taken) = connected(entries, session, account, handle, now);
            let fresh = CachedConnectionV {
                session,
                account,
                handle,
                busy: true,
                created_at: now,
                idle_generation: 0,
            };
            match kept(entries, session, account) {
                None => taken && after == entries.push(fresh),
                Some(entry) => if entry.busy {
                    !taken && after == entries
                } else {
                    taken && after.len() == entries.len() && after.contains(fresh)
                },
            }
        }),
{
    let (after, taken) = connected(entries, session, account, handle, now);
    let i = crate::codex_connections::entry_index(entries, session, account) as int;
    if taken && i < entries.len() {
        assert(after[i].handle == handle);
    }
}

/// What is handed on of a response: each event as it is made to read, the end with the event that
/// ends the response, and a failure at once.
pub proof fn law_events_are_handed_on(s: EventStream, item: Result<JsonV, CodexRunErrorV>)
    requires
        !s.done,
    ensures
        ({
            let (next, step) = event_step(s, item);
            match item {
                Err(e) => step == SocketStepV::Failure(e) && next.done && next.announced
                    == s.announced,
                Ok(v) => match normalized_event(v) {
                    Ok(Some((event, terminal))) => step == SocketStepV::Value(event) && next.done
                        == terminal && next.started && next.announced,
                    Ok(None) => step == SocketStepV::Wanted && next == s,
                    Err(e) => step == SocketStepV::Failure(e) && next.done && next.announced
                        == s.announced,
                },
            }
        }),
{
}

/// What comes of a body: a break or an abort is told, and its end is no failure.
pub proof fn law_body_ends(s: FrameStreamV, words: String)
    requires
        !s.events.done,
    ensures
        frames_fed(s, FrameEvent::Broken(words)).1 == SocketStepV::Failure(
            CodexRunErrorV { message: words@, kind: CodexErrorKindV::Transport },
        ),
        frames_fed(s, FrameEvent::Abort).1 == SocketStepV::Failure(
            CodexRunErrorV {
                message: "Request was aborted"@,
                kind: CodexErrorKindV::Aborted,
            },
        ),
        frames_fed(s, FrameEvent::End).1 == SocketStepV::Finished,
        frames_fed(s, FrameEvent::Broken(words)).0.events.done,
        frames_fed(s, FrameEvent::Abort).0.events.done,
        frames_fed(s, FrameEvent::End).0.events.done,
{
}

/// What has been read of a body is handed on frame by frame, in order.
pub proof fn law_frames_are_handed_on(s: FrameStreamV)
    requires
        !s.events.done,
    ensures
        s.pending.len() == 0 ==> frame_step(s) == (s, SocketStepV::Wanted),
        s.pending.len() > 0 ==> {
            let (events, step) = event_step(s.events, frame_value(s.pending[0]));
            let next = FrameStreamV { pending: s.pending.drop_first(), events, ..s };
            &&& !(step is Wanted) ==> frame_step(s) == (next, step)
            &&& step is Wanted ==> frame_step(s) == frame_step(next)
        },
{
}

} // verus!
