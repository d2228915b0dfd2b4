//! The Codex transport: addresses, headers, frames and events.
use crate::assoc;
use crate::assoc::{lookup, put, put_all, removed};
use crate::header_map::{
    came_out, held, insert_header, insert_headers, no_headers, nothing, remove_header,
    with_header, with_headers, without_header, MAX_HEADER_NAMES,
};
use crate::json::{
    array, equal_values, extend, json_text, member, object, same_value, string, text_of, write_json, Json, JsonObject, JsonV,
};
use crate::text::{
    begins, blank, concat, decimal, ends, ends_with, is_blank, same, to_chars, to_decimal,
    trim_end, trim_end_matches, white_space,
};
use crate::wire::no_fields;
use vstd::prelude::*;

verus! {

/// What kind of failure stopped a run.
#[allow(inconsistent_fields)]
#[derive(Debug, PartialEq)]
pub enum CodexErrorKind {
    Other,
    Aborted,
    /// The connection failed.
    Transport,
    /// What came is not what should come.
    Protocol,
    /// The provider reports an error.
    Api { code: Option<String> },
    /// The provider closed the connection.
    WebSocketClose { code: Option<u16> },
}

/// The model of [`CodexErrorKind`].
#[allow(inconsistent_fields)]
pub enum CodexErrorKindV {
    Other,
    Aborted,
    Transport,
    Protocol,
    Api { code: Option<Seq<char>> },
    WebSocketClose { code: Option<u16> },
}

impl View for CodexErrorKind {
    type V = CodexErrorKindV;

    open spec fn view(&self) -> CodexErrorKindV {
        match self {
            CodexErrorKind::Other => CodexErrorKindV::Other,
            CodexErrorKind::Aborted => CodexErrorKindV::Aborted,
            CodexErrorKind::Transport => CodexErrorKindV::Transport,
            CodexErrorKind::Protocol => CodexErrorKindV::Protocol,
            CodexErrorKind::Api { code } => CodexErrorKindV::Api { code: code.deep_view() },
            CodexErrorKind::WebSocketClose { code } => CodexErrorKindV::WebSocketClose { code: code.deep_view() },
        }
    }
}

impl DeepView for CodexErrorKind {
    type V = CodexErrorKindV;

    open spec fn deep_view(&self) -> CodexErrorKindV {
        self@
    }
}

impl Clone for CodexErrorKind {
    fn clone(&self) -> (r: Self)
        ensures
            r@ == self@,
    {
        match self {
            CodexErrorKind::Other => CodexErrorKind::Other,
            CodexErrorKind::Aborted => CodexErrorKind::Aborted,
            CodexErrorKind::Transport => CodexErrorKind::Transport,
            CodexErrorKind::Protocol => CodexErrorKind::Protocol,
            CodexErrorKind::Api { code } => CodexErrorKind::Api { code: code.clone() },
            CodexErrorKind::WebSocketClose { code } => CodexErrorKind::WebSocketClose { code: *code },
        }
    }
}

/// Why a Codex run failed.
#[derive(Debug, PartialEq)]
pub struct CodexRunError {
    pub message: String,
    pub kind: CodexErrorKind,
}

/// The model of [`CodexRunError`].
pub struct CodexRunErrorV {
    pub message: Seq<char>,
    pub kind: CodexErrorKindV,
}

impl View for CodexRunError {
    type V = CodexRunErrorV;

    open spec fn view(&self) -> CodexRunErrorV {
        CodexRunErrorV {
            message: self.message.deep_view(),
            kind: self.kind.deep_view(),
        }
    }
}

impl DeepView for CodexRunError {
    type V = CodexRunErrorV;

    open spec fn deep_view(&self) -> CodexRunErrorV {
        self@
    }
}

impl Clone for CodexRunError {
    fn clone(&self) -> (r: Self)
        ensures
            r@ == self@,
    {
        CodexRunError {
            message: self.message.clone(),
            kind: self.kind.clone(),
        }
    }
}

/// What a connection remembers of its last response.
#[derive(Debug, PartialEq)]
pub struct Continuation {
    pub last_request_body: Json,
    pub last_response_id: String,
    pub last_response_items: Vec<Json>,
}

/// The model of [`Continuation`].
pub struct ContinuationV {
    pub last_request_body: JsonV,
    pub last_response_id: Seq<char>,
    pub last_response_items: Seq<JsonV>,
}

impl View for Continuation {
    type V = ContinuationV;

    open spec fn view(&self) -> ContinuationV {
        ContinuationV {
            last_request_body: self.last_request_body.deep_view(),
            last_response_id: self.last_response_id.deep_view(),
            last_response_items: self.last_response_items.deep_view(),
        }
    }
}

impl DeepView for Continuation {
    type V = ContinuationV;

    open spec fn deep_view(&self) -> ContinuationV {
        self@
    }
}

impl Clone for Continuation {
    fn clone(&self) -> (r: Self)
        ensures
            r@ == self@,
    {
        let r = Continuation {
            last_request_body: self.last_request_body.clone(),
            last_response_id: self.last_response_id.clone(),
            last_response_items: self.last_response_items.clone(),
        };
        proof {
            assert(r.last_response_items.deep_view() =~= self.last_response_items.deep_view());
        }
        r
    }
}

/// The address of the provider, where none is configured.
pub const DEFAULT_CODEX_BASE_URL: &'static str = "https://chatgpt.com/backend-api";

/// The beta that a request asks for.
pub const OPENAI_BETA_SSE: &'static str = "responses=experimental";

/// The beta that a connection asks for.
pub const OPENAI_BETA_WEBSOCKETS: &'static str = "responses_websockets=2026-02-06";

/// How long a connection may take to come about, where nothing is said of it.
pub const DEFAULT_WEBSOCKET_CONNECT_TIMEOUT_MS: u64 = 15000;

/// The address of the endpoint.
pub open spec fn codex_url(base_url: Seq<char>) -> Seq<char> {
    let base = trim_end(
        if blank(base_url) {
            DEFAULT_CODEX_BASE_URL@
        } else {
            base_url
        },
        '/',
    );
    if ends(base, "/codex/responses"@) {
        base
    } else if ends(base, "/codex"@) {
        base + "/responses"@
    } else {
        base + "/codex/responses"@
    }
}

/// The address of the endpoint.
pub fn resolve_codex_url(base_url: &str) -> (r: String)
    ensures
        r@ == codex_url(base_url@),
{
    let base = if is_blank(base_url) {
        trim_end_matches(DEFAULT_CODEX_BASE_URL, '/')
    } else {
        trim_end_matches(base_url, '/')
    };
    if ends_with(base.as_str(), "/codex/responses") {
        base
    } else if ends_with(base.as_str(), "/codex") {
        concat(base.as_str(), "/responses")
    } else {
        concat(base.as_str(), "/codex/responses")
    }
}

/// What `url::Url::parse` makes of a text: the scheme and the whole of the URL, or what is wrong.
pub uninterp spec fn url_parse(text: Seq<char>) -> Result<(Seq<char>, Seq<char>), Seq<char>>;

/// What `url::Url::set_scheme` makes of a URL, where it takes the scheme.
pub uninterp spec fn url_with_scheme(url: Seq<char>, scheme: Seq<char>) -> Option<Seq<char>>;

/// The model of what a parse returns.
pub open spec fn parsed_url(r: Result<(String, String), String>) -> Result<
    (Seq<char>, Seq<char>),
    Seq<char>,
> {
    match r {
        Ok((scheme, url)) => Ok((scheme@, url@)),
        Err(e) => Err(e@),
    }
}

/// Calls `url::Url::parse`. The scheme and the text of the URL that it returns depend on the text
/// alone and are named [`url_parse`]; an error is given by its words.
#[verifier::external_body]
fn parse_url(text: &str) -> (r: Result<(String, String), String>)
    ensures
        parsed_url(r) == url_parse(text@),
{
    match url::Url::parse(text) {
        Ok(url) => Ok((url.scheme().to_owned(), String::from(url))),
        Err(e) => Err(e.to_string()),
    }
}

/// Calls `url::Url::set_scheme` on the URL that a text is. The URL that comes of it depends on the
/// two texts alone and is named [`url_with_scheme`]; there is none where the text is no URL or the
/// scheme is not taken. A URL that is given begins with the scheme, where that is `wss` or `ws`.
#[verifier::external_body]
fn set_url_scheme(text: &str, scheme: &str) -> (r: Option<String>)
    ensures
        r.deep_view() == url_with_scheme(text@, scheme@),
        (scheme@ == "wss"@ || scheme@ == "ws"@) && r is Some ==> begins(
            r.deep_view()->Some_0,
            scheme@ + ":"@,
        ),
{
    let mut url = url::Url::parse(text).ok()?;
    url.set_scheme(scheme).ok()?;
    Some(String::from(url))
}

/// The address of a connection to the endpoint, by what the endpoint's address parses to.
pub open spec fn websocket_url(parsed: Result<(Seq<char>, Seq<char>), Seq<char>>) -> Result<
    Seq<char>,
    CodexRunErrorV,
> {
    match parsed {
        Err(e) => Err(other_error(e)),
        Ok((scheme, url)) => if scheme == "https"@ || scheme == "http"@ {
            match url_with_scheme(
                url,
                if scheme == "https"@ {
                    "wss"@
                } else {
                    "ws"@
                },
            ) {
                Some(url) => Ok(url),
                None => Err(other_error("Invalid Codex WebSocket URL"@)),
            }
        } else {
            Ok(url)
        },
    }
}

/// A failure of no particular kind.
pub open spec fn other_error(message: Seq<char>) -> CodexRunErrorV {
    CodexRunErrorV { message, kind: CodexErrorKindV::Other }
}

impl CodexRunError {
    /// A failure of no particular kind.
    pub fn new(message: String) -> (r: Self)
        ensures
            r@ == other_error(message@),
    {
        CodexRunError { message, kind: CodexErrorKind::Other }
    }

    /// A request that the caller gave up.
    pub fn aborted(message: String) -> (r: Self)
        ensures
            r@ == (CodexRunErrorV { message: message@, kind: CodexErrorKindV::Aborted }),
    {
        CodexRunError { message, kind: CodexErrorKind::Aborted }
    }

    /// A connection that failed.
    pub fn transport(message: String) -> (r: Self)
        ensures
            r@ == (CodexRunErrorV { message: message@, kind: CodexErrorKindV::Transport }),
    {
        CodexRunError { message, kind: CodexErrorKind::Transport }
    }

    /// Something that should not have come.
    pub fn protocol(message: String) -> (r: Self)
        ensures
            r@ == (CodexRunErrorV { message: message@, kind: CodexErrorKindV::Protocol }),
    {
        CodexRunError { message, kind: CodexErrorKind::Protocol }
    }

    /// An error that the provider reports.
    pub fn api(message: String, code: Option<String>) -> (r: Self)
        ensures
            r@ == (CodexRunErrorV {
                message: message@,
                kind: CodexErrorKindV::Api { code: code.deep_view() },
            }),
    {
        CodexRunError { message, kind: CodexErrorKind::Api { code } }
    }

    /// A connection that the provider closed.
    pub fn websocket_close(message: String, code: Option<u16>) -> (r: Self)
        ensures
            r@ == (CodexRunErrorV {
                message: message@,
                kind: CodexErrorKindV::WebSocketClose { code },
            }),
    {
        CodexRunError { message, kind: CodexErrorKind::WebSocketClose { code } }
    }
}

/// What kind of failure an error is.
pub fn classify_failure(error: &CodexRunError) -> (r: &CodexErrorKind)
    ensures
        r@ == error@.kind,
{
    &error.kind
}

/// The address of a connection, by what the endpoint's address parses to.
pub fn choose_websocket_url(parsed: Result<(String, String), String>) -> (r: Result<
    String,
    CodexRunError,
>)
    ensures
        crate::constrained_sampling::outcome(r) == websocket_url(parsed_url(parsed)),
        parsed matches Ok((scheme, _)) ==> {
            &&& scheme@ == "https"@ ==> (r matches Ok(url) ==> begins(url@, "wss:"@))
            &&& scheme@ == "http"@ ==> (r matches Ok(url) ==> begins(url@, "ws:"@))
        },
{
    proof {
        reveal_strlit("https");
        reveal_strlit("http");
        reveal_strlit("wss");
        reveal_strlit("ws");
        reveal_strlit(":");
        reveal_strlit("wss:");
        reveal_strlit("ws:");
        assert("wss"@ + ":"@ =~= "wss:"@);
        assert("ws"@ + ":"@ =~= "ws:"@);
        assert("https"@.len() == 5 && "http"@.len() == 4);
    }
    match parsed {
        Err(e) => Err(CodexRunError::new(e)),
        Ok((scheme, url)) => {
            let secure = same(scheme.as_str(), "https");
            if !secure && !same(scheme.as_str(), "http") {
                return Ok(url);
            }
            let next = if secure {
                set_url_scheme(url.as_str(), "wss")
            } else {
                set_url_scheme(url.as_str(), "ws")
            };
            match next {
                Some(url) => Ok(url),
                None => Err(CodexRunError::new("Invalid Codex WebSocket URL".to_owned())),
            }
        },
    }
}

/// The address of a connection to the endpoint.
pub fn resolve_codex_websocket_url(base_url: &str) -> (r: Result<String, CodexRunError>)
    ensures
        crate::constrained_sampling::outcome(r) == websocket_url(url_parse(codex_url(base_url@))),
{
    let url = resolve_codex_url(base_url);
    choose_websocket_url(parse_url(url.as_str()))
}

/// Headers with those of a caller, which are set or taken out in turn.
pub open spec fn with_given(
    start: Result<Map<Seq<char>, Seq<char>>, Seq<char>>,
    given: Seq<(Seq<char>, Option<Seq<char>>)>,
) -> Result<Map<Seq<char>, Seq<char>>, Seq<char>>
    decreases given.len(),
{
    if given.len() == 0 {
        start
    } else {
        match with_given(start, given.drop_last()) {
            Ok(headers) => match given.last().1 {
                Some(value) => with_header(Ok(headers), given.last().0, value),
                None => Ok(without_header(headers, given.last().0)),
            },
            Err(e) => Err(e),
        }
    }
}

/// The headers that every Codex request has.
pub open spec fn codex_headers(
    own: Seq<(Seq<char>, Seq<char>)>,
    given: Seq<(Seq<char>, Option<Seq<char>>)>,
    account_id: Seq<char>,
    token: Seq<char>,
    user_agent: Seq<char>,
) -> Result<Map<Seq<char>, Seq<char>>, Seq<char>> {
    let headers = with_given(with_headers(nothing(), own), given);
    let headers = with_header(headers, "authorization"@, "Bearer "@ + token);
    let headers = with_header(headers, "chatgpt-account-id"@, account_id);
    let headers = with_header(headers, "originator"@, "pi"@);
    with_header(headers, "user-agent"@, user_agent)
}

/// The headers of a request.
pub open spec fn sse_headers(
    own: Seq<(Seq<char>, Seq<char>)>,
    given: Seq<(Seq<char>, Option<Seq<char>>)>,
    account_id: Seq<char>,
    token: Seq<char>,
    user_agent: Seq<char>,
    session_id: Option<Seq<char>>,
) -> Result<Map<Seq<char>, Seq<char>>, Seq<char>> {
    let headers = codex_headers(own, given, account_id, token, user_agent);
    let headers = with_header(headers, "openai-beta"@, OPENAI_BETA_SSE@);
    let headers = with_header(headers, "accept"@, "text/event-stream"@);
    let headers = with_header(headers, "content-type"@, "application/json"@);
    match session_id {
        Some(id) => with_header(
            with_header(headers, "session-id"@, id),
            "x-client-request-id"@,
            id,
        ),
        None => headers,
    }
}

/// The headers of a connection.
pub open spec fn websocket_headers(
    own: Seq<(Seq<char>, Seq<char>)>,
    given: Seq<(Seq<char>, Option<Seq<char>>)>,
    account_id: Seq<char>,
    token: Seq<char>,
    user_agent: Seq<char>,
    request_id: Seq<char>,
) -> Result<Map<Seq<char>, Seq<char>>, Seq<char>> {
    match codex_headers(own, given, account_id, token, user_agent) {
        Ok(headers) => {
            let headers = without_header(headers, "accept"@);
            let headers = without_header(headers, "content-type"@);
            let headers = without_header(headers, "openai-beta"@);
            let headers = with_header(Ok(headers), "openai-beta"@, OPENAI_BETA_WEBSOCKETS@);
            let headers = with_header(headers, "x-client-request-id"@, request_id);
            with_header(headers, "session-id"@, request_id)
        },
        Err(e) => Err(e),
    }
}

/// Headers, or why there are none.
pub open spec fn header_outcome(
    r: Result<http::HeaderMap<http::HeaderValue>, CodexRunError>,
    expected: Result<Map<Seq<char>, Seq<char>>, Seq<char>>,
) -> bool {
    match r {
        Ok(headers) => expected == Ok::<Map<Seq<char>, Seq<char>>, Seq<char>>(held(headers)),
        Err(e) => expected == Err::<Map<Seq<char>, Seq<char>>, Seq<char>>(e@.message) && e@
            == other_error(e@.message),
    }
}

/// The number of headers that a request has of its own at most.
pub const OWN_HEADERS: usize = 16;

proof fn lemma_given_fail(
    start: Result<Map<Seq<char>, Seq<char>>, Seq<char>>,
    given: Seq<(Seq<char>, Option<Seq<char>>)>,
    n: int,
)
    requires
        0 <= n <= given.len(),
        with_given(start, given.take(n)) is Err,
    ensures
        with_given(start, given) == with_given(start, given.take(n)),
    decreases given.len(),
{
    if n < given.len() {
        assert(given.drop_last().take(n) =~= given.take(n));
        lemma_given_fail(start, given.drop_last(), n);
    } else {
        assert(given.take(n) =~= given);
    }
}

fn apply_given(
    headers: &mut http::HeaderMap<http::HeaderValue>,
    given: &Vec<(String, Option<String>)>,
) -> (r: Result<(), String>)
    requires
        held(*old(headers)).dom().finite(),
        held(*old(headers)).dom().len() + given@.len() <= MAX_HEADER_NAMES,
    ensures
        came_out(
            r,
            held(*final(headers)),
            with_given(Ok(held(*old(headers))), given.deep_view()),
        ),
        held(*final(headers)).dom().finite(),
        held(*final(headers)).dom().len() <= held(*old(headers)).dom().len() + given@.len(),
{
    let ghost start = Ok::<Map<Seq<char>, Seq<char>>, Seq<char>>(held(*headers));
    let ghost n = held(*headers).dom().len();
    let ghost all = given.deep_view();
    let mut i: usize = 0;
    assert(all.take(0) =~= Seq::empty());
    while i < given.len()
        invariant
            all == given.deep_view(),
            start == Ok::<Map<Seq<char>, Seq<char>>, Seq<char>>(held(*old(headers))),
            n == held(*old(headers)).dom().len(),
            i <= given@.len(),
            with_given(start, all.take(i as int)) == Ok::<Map<Seq<char>, Seq<char>>, Seq<char>>(
                held(*headers),
            ),
            held(*headers).dom().finite(),
            held(*headers).dom().len() <= n + i,
            n + given@.len() <= MAX_HEADER_NAMES,
        decreases given@.len() - i,
    {
        assert(all.take(i + 1).drop_last() =~= all.take(i as int));
        assert(all.take(i + 1).last() == (given@[i as int].0@, given@[i as int].1.deep_view()));
        match &given[i].1 {
            Some(value) => match insert_header(headers, given[i].0.as_str(), value.as_str()) {
                Ok(_) => {},
                Err(e) => {
                    proof {
                        lemma_given_fail(start, all, i + 1);
                    }
                    return Err(e);
                },
            },
            None => {
                remove_header(headers, given[i].0.as_str());
            },
        }
        i += 1;
    }
    assert(all.take(i as int) =~= all);
    Ok(())
}

fn base_headers(
    own: &Vec<(String, String)>,
    given: &Vec<(String, Option<String>)>,
    account_id: &str,
    token: &str,
    user_agent: &str,
) -> (r: Result<http::HeaderMap<http::HeaderValue>, String>)
    requires
        own@.len() + given@.len() + OWN_HEADERS <= MAX_HEADER_NAMES,
    ensures
        match r {
            Ok(headers) => codex_headers(
                own.deep_view(),
                given.deep_view(),
                account_id@,
                token@,
                user_agent@,
            ) == Ok::<Map<Seq<char>, Seq<char>>, Seq<char>>(held(headers)) && held(
                headers,
            ).dom().finite() && held(headers).dom().len() <= own@.len() + given@.len() + 4,
            Err(e) => codex_headers(
                own.deep_view(),
                given.deep_view(),
                account_id@,
                token@,
                user_agent@,
            ) == Err::<Map<Seq<char>, Seq<char>>, Seq<char>>(e@),
        },
{
    let mut headers = no_headers();
    match insert_headers(&mut headers, own) {
        Ok(_) => {},
        Err(e) => {
            proof {
                lemma_given_fail(with_headers(nothing(), own.deep_view()), given.deep_view(), 0);
            }
            return Err(e);
        },
    }
    match apply_given(&mut headers, given) {
        Ok(_) => {},
        Err(e) => {
            return Err(e);
        },
    }
    let bearer = concat("Bearer ", token);
    match insert_header(&mut headers, "authorization", bearer.as_str()) {
        Ok(_) => {},
        Err(e) => {
            return Err(e);
        },
    }
    match insert_header(&mut headers, "chatgpt-account-id", account_id) {
        Ok(_) => {},
        Err(e) => {
            return Err(e);
        },
    }
    match insert_header(&mut headers, "originator", "pi") {
        Ok(_) => {},
        Err(e) => {
            return Err(e);
        },
    }
    match insert_header(&mut headers, "user-agent", user_agent) {
        Ok(_) => {},
        Err(e) => {
            return Err(e);
        },
    }
    Ok(headers)
}

/// The headers of a request, or why it has none.
pub fn build_sse_headers(
    own: &Vec<(String, String)>,
    given: &Vec<(String, Option<String>)>,
    account_id: &str,
    token: &str,
    user_agent: &str,
    session_id: Option<&str>,
) -> (r: Result<http::HeaderMap<http::HeaderValue>, CodexRunError>)
    requires
        own@.len() + given@.len() + OWN_HEADERS <= MAX_HEADER_NAMES,
    ensures
        header_outcome(
            r,
            sse_headers(
                own.deep_view(),
                given.deep_view(),
                account_id@,
                token@,
                user_agent@,
                match session_id {
                    Some(id) => Some(id@),
                    None => None,
                },
            ),
        ),
{
    let mut headers = match base_headers(own, given, account_id, token, user_agent) {
        Ok(headers) => headers,
        Err(e) => {
            return Err(CodexRunError::new(e));
        },
    };
    match insert_header(&mut headers, "openai-beta", OPENAI_BETA_SSE) {
        Ok(_) => {},
        Err(e) => {
            return Err(CodexRunError::new(e));
        },
    }
    match insert_header(&mut headers, "accept", "text/event-stream") {
        Ok(_) => {},
        Err(e) => {
            return Err(CodexRunError::new(e));
        },
    }
    match insert_header(&mut headers, "content-type", "application/json") {
        Ok(_) => {},
        Err(e) => {
            return Err(CodexRunError::new(e));
        },
    }
    if let Some(id) = session_id {
        match insert_header(&mut headers, "session-id", id) {
            Ok(_) => {},
            Err(e) => {
                return Err(CodexRunError::new(e));
            },
        }
        match insert_header(&mut headers, "x-client-request-id", id) {
            Ok(_) => {},
            Err(e) => {
                return Err(CodexRunError::new(e));
            },
        }
    }
    Ok(headers)
}

/// The headers of a connection, or why it has none.
pub fn build_websocket_headers(
    own: &Vec<(String, String)>,
    given: &Vec<(String, Option<String>)>,
    account_id: &str,
    token: &str,
    user_agent: &str,
    request_id: &str,
) -> (r: Result<http::HeaderMap<http::HeaderValue>, CodexRunError>)
    requires
        own@.len() + given@.len() + OWN_HEADERS <= MAX_HEADER_NAMES,
    ensures
        header_outcome(
            r,
            websocket_headers(
                own.deep_view(),
                given.deep_view(),
                account_id@,
                token@,
                user_agent@,
                request_id@,
            ),
        ),
{
    let mut headers = match base_headers(own, given, account_id, token, user_agent) {
        Ok(headers) => headers,
        Err(e) => {
            return Err(CodexRunError::new(e));
        },
    };
    remove_header(&mut headers, "accept");
    remove_header(&mut headers, "content-type");
    remove_header(&mut headers, "openai-beta");
    match insert_header(&mut headers, "openai-beta", OPENAI_BETA_WEBSOCKETS) {
        Ok(_) => {},
        Err(e) => {
            return Err(CodexRunError::new(e));
        },
    }
    match insert_header(&mut headers, "x-client-request-id", request_id) {
        Ok(_) => {},
        Err(e) => {
            return Err(CodexRunError::new(e));
        },
    }
    match insert_header(&mut headers, "session-id", request_id) {
        Ok(_) => {},
        Err(e) => {
            return Err(CodexRunError::new(e));
        },
    }
    Ok(headers)
}

/// Calls `uuid::Uuid::now_v7` for an identifier that no other request has. It is written with
/// hyphens, in 36 characters; which identifier it is depends on the time and on chance.
#[verifier::external_body]
fn fresh_request_id() -> (r: String)
    ensures
        r@.len() == 36,
{
    uuid::Uuid::now_v7().to_string()
}

/// The identifier of a connection: the session's, or else a fresh one.
pub open spec fn connection_id(session_id: Option<Seq<char>>, fresh: Seq<char>) -> Seq<char> {
    match session_id {
        Some(id) => if id.len() > 0 {
            id
        } else {
            fresh
        },
        None => fresh,
    }
}

/// The identifier of a connection: the session's, or else the fresh one.
pub fn choose_request_id(session_id: Option<&str>, fresh: String) -> (r: String)
    ensures
        r@ == connection_id(
            match session_id {
                Some(id) => Some(id@),
                None => None,
            },
            fresh@,
        ),
{
    match session_id {
        Some(id) => if !id.is_empty() {
            id.to_owned()
        } else {
            fresh
        },
        None => fresh,
    }
}

/// The identifier of a connection: the session's, or else one that no other connection has.
pub fn websocket_request_id(session_id: Option<&str>) -> (r: String)
    ensures
        exists|fresh: Seq<char>|
            fresh.len() == 36 && r@ == connection_id(
                match session_id {
                    Some(id) => Some(id@),
                    None => None,
                },
                fresh,
            ),
        session_id matches Some(id) ==> (id@.len() > 0 ==> r@ == id@),
{
    let fresh = fresh_request_id();
    choose_request_id(session_id, fresh)
}

/// What is said of a connection that the other side closed.
pub open spec fn close_text(frame: Option<(u16, Seq<char>)>) -> Seq<char> {
    match frame {
        None => "WebSocket closed"@,
        Some((code, reason)) => {
            let told = if reason.len() == 0 && code == 1009 {
                "message too big"@
            } else {
                reason
            };
            let start = "WebSocket closed "@ + decimal(code as nat);
            if told.len() == 0 {
                start
            } else {
                start + " "@ + told
            }
        },
    }
}

/// What is said of a connection that the other side closed, with a code and a reason where it gave
/// them.
pub fn close_message(frame: Option<(u16, &str)>) -> (r: String)
    ensures
        r@ == close_text(
            match frame {
                Some((code, reason)) => Some((code, reason@)),
                None => None,
            },
        ),
{
    match frame {
        None => "WebSocket closed".to_owned(),
        Some((code, reason)) => {
            let number = to_decimal(code as u64);
            let mut r = concat("WebSocket closed ", number.as_str());
            if reason.is_empty() && code == 1009 {
                proof {
                    reveal_strlit("message too big");
                }
                r.push_str(" ");
                r.push_str("message too big");
            } else if !reason.is_empty() {
                r.push_str(" ");
                r.push_str(reason);
            }
            r
        },
    }
}

/// The input of a request.
pub open spec fn input_of(body: JsonV) -> Seq<JsonV> {
    match member(body, "input"@) {
        Some(JsonV::Array(items)) => items,
        _ => Seq::empty(),
    }
}

/// The input of a request.
pub fn body_input(body: &Json) -> (r: Vec<Json>)
    ensures
        r.deep_view() == input_of(body@),
{
    if let Some(input) = body.get("input") {
        if let Some(items) = input.as_array() {
            let r = items.clone();
            assert(r.deep_view() =~= items.deep_view());
            return r;
        }
    }
    let r: Vec<Json> = Vec::new();
    assert(r.deep_view() =~= Seq::empty());
    r
}

/// A request without its input and the response that it follows.
pub open spec fn stripped(body: JsonV) -> JsonV {
    match body {
        JsonV::Object(fields) => JsonV::Object(
            removed(removed(fields, "input"@), "previous_response_id"@),
        ),
        _ => body,
    }
}

fn strip(body: &Json) -> (r: Json)
    ensures
        r@ == stripped(body@),
{
    match body.as_object() {
        Some(fields) => {
            let mut rest = assoc::copy_list(fields);
            assoc::remove(&mut rest, "input");
            assoc::remove(&mut rest, "previous_response_id");
            object(rest)
        },
        None => body.clone(),
    }
}

/// Whether two requests are the same but for their input and the response that they follow.
pub open spec fn bodies_match(a: JsonV, b: JsonV) -> bool {
    json_text(stripped(a)) == json_text(stripped(b))
}

/// Whether two requests are the same but for their input and the response that they follow.
pub fn bodies_match_except_input(a: &Json, b: &Json) -> (r: bool)
    ensures
        r == bodies_match(a@, b@),
{
    let a = write_json(&strip(a));
    let b = write_json(&strip(b));
    same(a.as_str(), b.as_str())
}

/// Whether items are equal to those that a list begins with.
pub open spec fn goes_on(items: Seq<JsonV>, beginning: Seq<JsonV>) -> bool {
    beginning.len() <= items.len() && forall|i: int|
        0 <= i < beginning.len() ==> same_value(#[trigger] items[i], beginning[i])
}

/// What a connection has seen of the conversation: the input of the last request and what it was
/// answered.
pub open spec fn baseline(c: ContinuationV) -> Seq<JsonV> {
    input_of(c.last_request_body) + c.last_response_items
}

/// A request that follows a response, with the input that is new since.
pub open spec fn following(body: JsonV, id: Seq<char>, input: Seq<JsonV>) -> JsonV {
    match body {
        JsonV::Object(fields) => JsonV::Object(
            put(put(fields, "previous_response_id"@, JsonV::Str(id)), "input"@, JsonV::Array(input)),
        ),
        _ => body,
    }
}

/// The request that is sent over a connection, and what the connection still remembers then: only
/// the new input where the request goes on from what it remembers, and else the whole, upon which it
/// forgets.
pub open spec fn continued(c: Option<ContinuationV>, body: JsonV) -> (
    Option<ContinuationV>,
    JsonV,
) {
    match c {
        None => (None, body),
        Some(c) => if bodies_match(body, c.last_request_body) && goes_on(
            input_of(body),
            baseline(c),
        ) {
            (
                Some(c),
                following(
                    body,
                    c.last_response_id,
                    input_of(body).skip(baseline(c).len() as int),
                ),
            )
        } else {
            (None, body)
        },
    }
}

fn begins_with_items(items: &Vec<Json>, beginning: &Vec<Json>) -> (r: bool)
    ensures
        r == goes_on(items.deep_view(), beginning.deep_view()),
{
    if items.len() < beginning.len() {
        return false;
    }
    let ghost a = items.deep_view();
    let ghost b = beginning.deep_view();
    let mut i: usize = 0;
    while i < beginning.len()
        invariant
            a == items.deep_view(),
            b == beginning.deep_view(),
            b.len() <= a.len(),
            i <= beginning@.len(),
            forall|k: int| 0 <= k < i ==> same_value(#[trigger] a[k], b[k]),
        decreases beginning@.len() - i,
    {
        assert(a[i as int] == items@[i as int]@ && b[i as int] == beginning@[i as int]@);
        if !equal_values(&items[i], &beginning[i]) {
            return false;
        }
        i += 1;
    }
    true
}

/// The request that is sent over a connection: only the new input where it goes on from what the
/// connection remembers, and else the whole, upon which the connection forgets.
pub fn cached_request_body(continuation: &mut Option<Continuation>, body: &Json) -> (r: Json)
    ensures
        (final(continuation).deep_view(), r@) == continued(old(continuation).deep_view(), body@),
{
    let c = match continuation {
        Some(c) => c.clone(),
        None => {
            return body.clone();
        },
    };
    if !bodies_match_except_input(body, &c.last_request_body) {
        *continuation = None;
        return body.clone();
    }
    let mut current = body_input(body);
    let mut seen = body_input(&c.last_request_body);
    let ghost before = seen.deep_view();
    let mut items = c.last_response_items.clone();
    assert(items.deep_view() =~= c@.last_response_items);
    seen.append(&mut items);
    assert(seen.deep_view() =~= baseline(c@));
    if !begins_with_items(&current, &seen) {
        *continuation = None;
        return body.clone();
    }
    let ghost all = current.deep_view();
    let rest = current.split_off(seen.len());
    assert(rest.deep_view() =~= all.skip(seen@.len() as int));
    assert(seen.deep_view().len() == seen@.len());
    match body.as_object() {
        Some(fields) => {
            let mut fields = assoc::copy_list(fields);
            assoc::insert(
                &mut fields,
                "previous_response_id".to_owned(),
                Json::Str(c.last_response_id.clone()),
            );
            assoc::insert(&mut fields, "input".to_owned(), array(rest));
            object(fields)
        },
        None => body.clone(),
    }
}

/// Nothing of a conversation is lost where only the new input is sent: what the connection has seen
/// and the input that is sent make up the whole input, and the response that it follows is named.
pub proof fn law_delta_completes_input(c: ContinuationV, body: JsonV)
    requires
        body is Object,
        continued(Some(c), body).0 is Some,
    ensures
        ({
            let sent = continued(Some(c), body).1;
            &&& input_of(body) == input_of(body).take(baseline(c).len() as int) + input_of(sent)
            &&& goes_on(input_of(body).take(baseline(c).len() as int), baseline(c))
            &&& member(sent, "previous_response_id"@) == Some(JsonV::Str(c.last_response_id))
        }),
{
    let fields = body->Object_0;
    let n = baseline(c).len() as int;
    let input = input_of(body).skip(n);
    let first = put(fields, "previous_response_id"@, JsonV::Str(c.last_response_id));
    reveal_strlit("input");
    reveal_strlit("previous_response_id");
    assert("input"@.len() != "previous_response_id"@.len());
    assoc::lemma_put(first, "input"@, JsonV::Array(input), "input"@);
    assoc::lemma_put(first, "input"@, JsonV::Array(input), "previous_response_id"@);
    assoc::lemma_put(
        fields,
        "previous_response_id"@,
        JsonV::Str(c.last_response_id),
        "previous_response_id"@,
    );
    assert(input_of(body).take(n) + input =~= input_of(body));
    assert forall|i: int| 0 <= i < n implies same_value(
        #[trigger] input_of(body).take(n)[i],
        baseline(c)[i],
    ) by {
        assert(input_of(body).take(n)[i] == input_of(body)[i]);
    }
}

/// The text of a member of an object, or of the same member of the error in it.
pub open spec fn own_or_nested(v: JsonV, key: Seq<char>) -> Option<Seq<char>> {
    match text_of(member(v, key)) {
        Some(text) => Some(text),
        None => match member(v, "error"@) {
            Some(error) => text_of(member(error, key)),
            None => None,
        },
    }
}

fn find_own_or_nested(v: &Json, key: &str) -> (r: Option<String>)
    ensures
        r.deep_view() == own_or_nested(v@, key@),
{
    match v.text(key) {
        Some(text) => Some(text),
        None => match v.get("error") {
            Some(error) => error.text(key),
            None => None,
        },
    }
}

/// The failure that an event of the kind `error` reports.
pub open spec fn event_error(v: JsonV) -> CodexRunErrorV {
    let code = own_or_nested(v, "code"@);
    let detail = match (own_or_nested(v, "message"@), code) {
        (Some(message), _) => message,
        (None, Some(code)) => code,
        (None, None) => json_text(v),
    };
    CodexRunErrorV { message: "Codex error: "@ + detail, kind: CodexErrorKindV::Api { code } }
}

/// The failure that a failed response reports.
pub open spec fn response_error(v: JsonV) -> CodexRunErrorV {
    let error = match member(v, "response"@) {
        Some(response) => member(response, "error"@),
        None => None,
    };
    let (code, message) = match error {
        Some(error) => (text_of(member(error, "code"@)), text_of(member(error, "message"@))),
        None => (None, None),
    };
    CodexRunErrorV {
        message: if message is Some && message->Some_0.len() > 0 {
            message->Some_0
        } else {
            "Codex response failed"@
        },
        kind: CodexErrorKindV::Api { code },
    }
}

/// Whether a status is one that the API defines.
pub open spec fn known_status(status: Option<Seq<char>>) -> bool {
    ||| status == Some("completed"@)
    ||| status == Some("incomplete"@)
    ||| status == Some("failed"@)
    ||| status == Some("cancelled"@)
    ||| status == Some("queued"@)
    ||| status == Some("in_progress"@)
}

/// A response without what the API does not define.
pub open spec fn normalized_response(fields: Seq<(Seq<char>, JsonV)>) -> Seq<(Seq<char>, JsonV)> {
    let turned = match lookup(fields, "end_turn"@) {
        Some(v) => if v is Bool || v is Null {
            fields
        } else {
            removed(fields, "end_turn"@)
        },
        None => fields,
    };
    if known_status(text_of(lookup(turned, "status"@))) {
        turned
    } else {
        removed(turned, "status"@)
    }
}

/// The event that ends a response, as the Responses API has it.
pub open spec fn terminal_event(fields: Seq<(Seq<char>, JsonV)>) -> Seq<(Seq<char>, JsonV)> {
    let typed = put(fields, "type"@, JsonV::Str("response.completed"@));
    match lookup(typed, "response"@) {
        Some(JsonV::Object(response)) => put(
            typed,
            "response"@,
            JsonV::Object(normalized_response(response)),
        ),
        _ => typed,
    }
}

/// Whether an event ends a response.
pub open spec fn is_terminal(kind: Seq<char>) -> bool {
    kind == "response.done"@ || kind == "response.completed"@ || kind == "response.incomplete"@
}

/// An event as the Responses API has it, and whether it ends the response. One without a kind is
/// none; an error is a failure.
pub open spec fn normalized_event(v: JsonV) -> Result<Option<(JsonV, bool)>, CodexRunErrorV> {
    match text_of(member(v, "type"@)) {
        None => Ok(None),
        Some(kind) => if kind == "error"@ {
            Err(event_error(v))
        } else if kind == "response.failed"@ {
            Err(response_error(v))
        } else if is_terminal(kind) {
            Ok(Some((JsonV::Object(terminal_event(v->Object_0)), true)))
        } else {
            Ok(Some((v, false)))
        },
    }
}

fn report_event_error(v: &Json) -> (r: CodexRunError)
    ensures
        r@ == event_error(v@),
{
    let code = find_own_or_nested(v, "code");
    let detail = match find_own_or_nested(v, "message") {
        Some(message) => message,
        None => match &code {
            Some(code) => code.clone(),
            None => write_json(v),
        },
    };
    CodexRunError::api(concat("Codex error: ", detail.as_str()), code)
}

fn report_response_error(v: &Json) -> (r: CodexRunError)
    ensures
        r@ == response_error(v@),
{
    let error = match v.get("response") {
        Some(response) => response.get("error"),
        None => None,
    };
    let (code, message) = match error {
        Some(error) => (error.text("code"), error.text("message")),
        None => (None, None),
    };
    if let Some(message) = message {
        if !message.as_str().is_empty() {
            return CodexRunError::api(message, code);
        }
    }
    CodexRunError::api("Codex response failed".to_owned(), code)
}

fn normalize_response(fields: &JsonObject) -> (r: JsonObject)
    ensures
        r.deep_view() == normalized_response(fields.deep_view()),
{
    let mut r = assoc::copy_list(fields);
    let odd = match assoc::get(&r, "end_turn") {
        Some(Json::Bool(_)) => false,
        Some(Json::Null) => false,
        Some(_) => true,
        None => false,
    };
    if odd {
        assoc::remove(&mut r, "end_turn");
    }
    let known = match assoc::get(&r, "status") {
        Some(Json::Str(status)) => same(status.as_str(), "completed") || same(
            status.as_str(),
            "incomplete",
        ) || same(status.as_str(), "failed") || same(status.as_str(), "cancelled") || same(
            status.as_str(),
            "queued",
        ) || same(status.as_str(), "in_progress"),
        _ => false,
    };
    if !known {
        assoc::remove(&mut r, "status");
    }
    r
}

fn end_event(fields: &JsonObject) -> (r: JsonObject)
    ensures
        r.deep_view() == terminal_event(fields.deep_view()),
{
    let mut r = assoc::copy_list(fields);
    assoc::insert(&mut r, "type".to_owned(), string("response.completed"));
    let response = match assoc::get(&r, "response") {
        Some(response) => match response.as_object() {
            Some(fields) => Some(normalize_response(fields)),
            None => None,
        },
        None => None,
    };
    if let Some(response) = response {
        assoc::insert(&mut r, "response".to_owned(), object(response));
    }
    r
}

/// The model of an event that was normalized.
pub open spec fn event_outcome(r: Result<Option<(Json, bool)>, CodexRunError>) -> Result<
    Option<(JsonV, bool)>,
    CodexRunErrorV,
> {
    match r {
        Ok(Some((v, terminal))) => Ok(Some((v@, terminal))),
        Ok(None) => Ok(None),
        Err(e) => Err(e@),
    }
}

/// An event as the Responses API has it, and whether it ends the response.
pub fn normalize_event(v: &Json) -> (r: Result<Option<(Json, bool)>, CodexRunError>)
    ensures
        event_outcome(r) == normalized_event(v@),
{
    let kind = match v.text("type") {
        Some(kind) => kind,
        None => {
            return Ok(None);
        },
    };
    if same(kind.as_str(), "error") {
        return Err(report_event_error(v));
    }
    if same(kind.as_str(), "response.failed") {
        return Err(report_response_error(v));
    }
    if same(kind.as_str(), "response.done") || same(kind.as_str(), "response.completed") || same(
        kind.as_str(),
        "response.incomplete",
    ) {
        if let Some(fields) = v.as_object() {
            return Ok(Some((object(end_event(fields)), true)));
        }
    }
    Ok(Some((v.clone(), false)))
}

/// Values under their numbers.
pub open spec fn numbered(items: Seq<JsonV>) -> Seq<(Seq<char>, JsonV)> {
    Seq::new(items.len(), |i: int| (decimal(i as nat), items[i]))
}

/// The characters of a text, each a text of its own.
pub open spec fn letters(text: Seq<char>) -> Seq<JsonV> {
    Seq::new(text.len(), |i: int| JsonV::Str(seq![text[i]]))
}

/// The members that a request adds to the frame that it is sent in.
pub open spec fn frame_members(body: JsonV) -> Seq<(Seq<char>, JsonV)> {
    match body {
        JsonV::Object(fields) => fields,
        JsonV::Array(items) => numbered(items),
        JsonV::Str(text) => numbered(letters(text)),
        _ => Seq::empty(),
    }
}

/// The frame that a request is sent in.
pub open spec fn create_frame(body: JsonV) -> JsonV {
    JsonV::Object(
        put_all(seq![("type"@, JsonV::Str("response.create"@))], frame_members(body)),
    )
}

fn number_items(items: &Vec<Json>) -> (r: JsonObject)
    ensures
        r.deep_view() == numbered(items.deep_view()),
{
    let ghost all = items.deep_view();
    let mut r = no_fields();
    let mut i: usize = 0;
    while i < items.len()
        invariant
            all == items.deep_view(),
            i <= items@.len(),
            r.deep_view() == numbered(all.take(i as int)),
        decreases items@.len() - i,
    {
        let key = to_decimal(i as u64);
        crate::json::add_field(&mut r, key.as_str(), items[i].clone());
        assert(r.deep_view() =~= numbered(all.take(i + 1)));
        i += 1;
    }
    assert(all.take(i as int) =~= all);
    r
}

fn split_letters(text: &str) -> (r: Vec<Json>)
    ensures
        r.deep_view() == letters(text@),
{
    let v = to_chars(text);
    let mut r: Vec<Json> = Vec::new();
    let mut i: usize = 0;
    while i < v.len()
        invariant
            v@ == text@,
            i <= v@.len(),
            r@.len() == i,
            forall|k: int| 0 <= k < i ==> (#[trigger] r@[k])@ == JsonV::Str(seq![v@[k]]),
        decreases v@.len() - i,
    {
        let mut letter = String::new();
        letter.push(v[i]);
        assert(letter@ =~= seq![v@[i as int]]);
        r.push(Json::Str(letter));
        i += 1;
    }
    assert(r.deep_view() =~= letters(text@));
    r
}

/// The text of the frame that a request is sent in.
pub fn response_create_frame(body: &Json) -> (r: String)
    ensures
        r@ == json_text(create_frame(body@)),
{
    let mut fields = no_fields();
    crate::json::add_field(&mut fields, "type", string("response.create"));
    assert(fields.deep_view() =~= seq![("type"@, JsonV::Str("response.create"@))]);
    match body {
        Json::Object(_) => {
            if let Some(members) = body.as_object() {
                extend(&mut fields, members);
            }
        },
        Json::Array(_) => {
            if let Some(items) = body.as_array() {
                let members = number_items(items);
                extend(&mut fields, &members);
            }
        },
        Json::Str(text) => {
            let letters = split_letters(text.as_str());
            let members = number_items(&letters);
            extend(&mut fields, &members);
        },
        _ => {},
    }
    let frame = object(fields);
    write_json(&frame)
}

/// The address of the endpoint is its own endpoint, and it ends with the endpoint's path.
pub proof fn law_codex_url_is_settled(base_url: Seq<char>)
    ensures
        ends(codex_url(base_url), "/codex/responses"@),
        codex_url(codex_url(base_url)) == codex_url(base_url),
{
    reveal_strlit("/codex/responses");
    reveal_strlit("/codex");
    reveal_strlit("/responses");
    assert("/codex"@ + "/responses"@ =~= "/codex/responses"@);
    let url = codex_url(base_url);
    let base = trim_end(
        if blank(base_url) {
            DEFAULT_CODEX_BASE_URL@
        } else {
            base_url
        },
        '/',
    );
    if !ends(base, "/codex/responses"@) {
        if ends(base, "/codex"@) {
            let n = base.len() - "/codex"@.len();
            assert(url =~= base.take(n) + "/codex/responses"@) by {
                assert(base =~= base.take(n) + "/codex"@);
            }
            assert(url.skip(n) =~= "/codex/responses"@);
        } else {
            assert(url.skip(base.len() as int) =~= "/codex/responses"@);
        }
    }
    assert(ends(url, "/codex/responses"@));
    let last = url.len() - 1;
    assert(url[last] == "/codex/responses"@[15]);
    assert(url[last] == 's');
    assert(!white_space(url[last]));
    assert(!blank(url));
    assert(trim_end(url, '/') == url);
}

} // verus!
