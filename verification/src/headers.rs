//! The headers of a request, and the key that it is made with.
use crate::assoc;
use crate::assoc::{put, put_all};
use crate::json::{Json, JsonV};
use crate::text::{
    blank, concat, is_blank, lowered, same, same_ignoring_case, trim_end, trim_end_matches,
};
use crate::types::{CacheRetention, Model, ModelV, SessionAffinityFormat};
use vstd::prelude::*;

verus! {

/// Whether two names of headers are the same.
pub open spec fn same_name(a: Seq<char>, b: Seq<char>) -> bool {
    lowered(a) == lowered(b)
}

/// Whether a header is set, in whatever case its name is written.
pub open spec fn has_name(headers: Seq<(Seq<char>, Seq<char>)>, name: Seq<char>) -> bool {
    exists|i: int| 0 <= i < headers.len() && same_name((#[trigger] headers[i]).0, name)
}

/// Whether a caller gives a header that is not blank.
pub open spec fn gives_header(
    headers: Option<Seq<(Seq<char>, Option<Seq<char>>)>>,
    name: Seq<char>,
) -> bool {
    match headers {
        Some(headers) => exists|i: int|
            0 <= i < headers.len() && same_name((#[trigger] headers[i]).0, name) && match headers[i].1 {
                Some(value) => !blank(value),
                None => false,
            },
        None => false,
    }
}

/// Whether a caller gives a header that is not blank.
pub fn has_header(headers: &Option<Vec<(String, Option<String>)>>, name: &str) -> (r: bool)
    ensures
        r == gives_header(headers.deep_view(), name@),
{
    match headers {
        Some(list) => {
            let ghost all = headers.deep_view()->Some_0;
            let mut i: usize = 0;
            while i < list.len()
                invariant
                    all == list.deep_view(),
                    headers.deep_view() == Some(all),
                    i <= list@.len(),
                    forall|k: int|
                        0 <= k < i ==> !(same_name((#[trigger] all[k]).0, name@) && match all[k].1 {
                            Some(value) => !blank(value),
                            None => false,
                        }),
                decreases list@.len() - i,
            {
                assert(all[i as int] == (list@[i as int].0@, list@[i as int].1.deep_view()));
                if same_ignoring_case(list[i].0.as_str(), name) {
                    if let Some(value) = &list[i].1 {
                        if !is_blank(value.as_str()) {
                            return true;
                        }
                    }
                }
                i += 1;
            }
            false
        },
        None => false,
    }
}

/// The key that a request is made with; where a caller authorizes it by a header, none is used.
pub open spec fn client_key(
    provider: Seq<char>,
    api_key: Option<Seq<char>>,
    headers: Option<Seq<(Seq<char>, Option<Seq<char>>)>>,
) -> Result<Seq<char>, Seq<char>> {
    if api_key is Some && api_key->Some_0.len() > 0 {
        Ok(api_key->Some_0)
    } else if gives_header(headers, "authorization"@) || gives_header(
        headers,
        "cf-aig-authorization"@,
    ) {
        Ok("unused"@)
    } else {
        Err("No API key for provider: "@ + provider)
    }
}

/// The key that a request is made with.
pub fn get_client_api_key(
    provider: &str,
    api_key: &Option<String>,
    headers: &Option<Vec<(String, Option<String>)>>,
) -> (r: Result<String, String>)
    ensures
        crate::constrained_sampling::outcome(r) == client_key(
            provider@,
            api_key.deep_view(),
            headers.deep_view(),
        ),
{
    if let Some(key) = api_key {
        if !key.as_str().is_empty() {
            return Ok(key.clone());
        }
    }
    if has_header(headers, "authorization") || has_header(headers, "cf-aig-authorization") {
        return Ok("unused".to_owned());
    }
    Err(concat("No API key for provider: ", provider))
}

/// How long prompts stay in the cache: as the caller says, or else as the environment does.
pub open spec fn retention(
    cache_retention: Option<CacheRetention>,
    environment: Option<Seq<char>>,
) -> CacheRetention {
    match cache_retention {
        Some(retention) => retention,
        None => if environment == Some("long"@) {
            CacheRetention::Long
        } else {
            CacheRetention::Short
        },
    }
}

/// How long prompts stay in the cache, where `environment` is what the variable
/// `PI_CACHE_RETENTION` holds.
pub fn resolve_cache_retention(
    cache_retention: Option<CacheRetention>,
    environment: Option<&str>,
) -> (r: CacheRetention)
    ensures
        r == retention(
            cache_retention,
            match environment {
                Some(value) => Some(value@),
                None => None,
            },
        ),
{
    match cache_retention {
        Some(retention) => retention,
        None => match environment {
            Some(value) => if same(value, "long") {
                CacheRetention::Long
            } else {
                CacheRetention::Short
            },
            None => CacheRetention::Short,
        },
    }
}

/// Headers without those of a name.
pub open spec fn without(headers: Seq<(Seq<char>, Seq<char>)>, name: Seq<char>) -> Seq<
    (Seq<char>, Seq<char>),
>
    decreases headers.len(),
{
    if headers.len() == 0 {
        Seq::empty()
    } else {
        let rest = without(headers.drop_last(), name);
        if same_name(headers.last().0, name) {
            rest
        } else {
            rest.push(headers.last())
        }
    }
}

/// Headers with those of a caller put over them, and without those that a caller takes out.
pub open spec fn overridden(
    headers: Seq<(Seq<char>, Seq<char>)>,
    given: Seq<(Seq<char>, Option<Seq<char>>)>,
) -> Seq<(Seq<char>, Seq<char>)>
    decreases given.len(),
{
    if given.len() == 0 {
        headers
    } else {
        let rest = without(overridden(headers, given.drop_last()), given.last().0);
        match given.last().1 {
            Some(value) => rest.push((given.last().0, value)),
            None => rest,
        }
    }
}

/// Headers that authorize the request.
pub open spec fn authorized(headers: Seq<(Seq<char>, Seq<char>)>, api_key: Seq<char>) -> Seq<
    (Seq<char>, Seq<char>),
> {
    if has_name(headers, "authorization"@) {
        headers
    } else {
        headers.push(("Authorization"@, "Bearer "@ + api_key))
    }
}

/// What is known of the client: how it names itself, and what it says of its platform and, to
/// GitHub Copilot, of the conversation.
#[derive(Debug)]
pub struct ClientHeaders {
    pub user_agent: String,
    pub platform: Vec<(String, String)>,
    pub copilot: Vec<(String, String)>,
}

/// The headers that every request starts from.
pub open spec fn base_headers(model: ModelV, client: &ClientHeaders) -> Seq<
    (Seq<char>, Seq<char>),
> {
    let fixed = seq![
        ("Accept"@, "application/json"@),
        ("Content-Type"@, "application/json"@),
        ("User-Agent"@, client.user_agent@),
    ];
    let platform = put_all(fixed, client.platform.deep_view());
    let own = match model.headers {
        Some(headers) => put_all(platform, headers),
        None => platform,
    };
    if model.provider == "github-copilot"@ {
        put_all(own, client.copilot.deep_view())
    } else {
        own
    }
}

/// Headers with those that keep the requests of a session together. Where there is an `extra` name
/// it is one more of them.
pub open spec fn with_session(
    headers: Seq<(Seq<char>, Seq<char>)>,
    session_id: Option<Seq<char>>,
    format: SessionAffinityFormat,
    extra: bool,
) -> Seq<(Seq<char>, Seq<char>)> {
    match session_id {
        Some(id) => match format {
            SessionAffinityFormat::Openrouter => put(headers, "x-session-id"@, id),
            SessionAffinityFormat::Openai | SessionAffinityFormat::OpenaiNosession => {
                let named = if format == SessionAffinityFormat::Openai {
                    put(headers, "session_id"@, id)
                } else {
                    headers
                };
                let requested = put(named, "x-client-request-id"@, id);
                if extra {
                    put(requested, "x-session-affinity"@, id)
                } else {
                    requested
                }
            },
        },
        None => headers,
    }
}

/// The headers of a request.
pub open spec fn request_headers(
    model: ModelV,
    client: &ClientHeaders,
    api_key: Seq<char>,
    given: Option<Seq<(Seq<char>, Option<Seq<char>>)>>,
    session_id: Option<Seq<char>>,
    format: SessionAffinityFormat,
    extra: bool,
) -> Seq<(Seq<char>, Seq<char>)> {
    let session = with_session(base_headers(model, client), session_id, format, extra);
    authorized(
        match given {
            Some(given) => overridden(session, given),
            None => session,
        },
        api_key,
    )
}

fn has_named(headers: &Vec<(String, String)>, name: &str) -> (r: bool)
    ensures
        r == has_name(headers.deep_view(), name@),
{
    let ghost all = headers.deep_view();
    let mut i: usize = 0;
    while i < headers.len()
        invariant
            all == headers.deep_view(),
            i <= headers@.len(),
            forall|k: int| 0 <= k < i ==> !same_name((#[trigger] all[k]).0, name@),
        decreases headers@.len() - i,
    {
        assert(all[i as int].0 == headers@[i as int].0@);
        if same_ignoring_case(headers[i].0.as_str(), name) {
            return true;
        }
        i += 1;
    }
    false
}

fn push_header(headers: &mut Vec<(String, String)>, name: &str, value: &str)
    ensures
        final(headers).deep_view() == old(headers).deep_view().push((name@, value@)),
{
    let ghost before = headers.deep_view();
    headers.push((name.to_owned(), value.to_owned()));
    assert(headers.deep_view() =~= before.push((name@, value@)));
}

fn remove_named(headers: &Vec<(String, String)>, name: &str) -> (r: Vec<(String, String)>)
    ensures
        r.deep_view() == without(headers.deep_view(), name@),
{
    let ghost all = headers.deep_view();
    let mut r: Vec<(String, String)> = Vec::new();
    let mut i: usize = 0;
    assert(all.take(0) =~= Seq::empty());
    assert(r.deep_view() =~= Seq::empty());
    while i < headers.len()
        invariant
            all == headers.deep_view(),
            i <= headers@.len(),
            r.deep_view() == without(all.take(i as int), name@),
        decreases headers@.len() - i,
    {
        assert(all.take(i + 1).drop_last() =~= all.take(i as int));
        assert(all.take(i + 1).last() == (headers@[i as int].0@, headers@[i as int].1@));
        if !same_ignoring_case(headers[i].0.as_str(), name) {
            push_header(&mut r, headers[i].0.as_str(), headers[i].1.as_str());
        }
        i += 1;
    }
    assert(all.take(i as int) =~= all);
    r
}

fn put_every(headers: &mut Vec<(String, String)>, more: &Vec<(String, String)>)
    ensures
        final(headers).deep_view() == put_all(old(headers).deep_view(), more.deep_view()),
{
    let ghost start = headers.deep_view();
    let ghost all = more.deep_view();
    let mut i: usize = 0;
    assert(all.take(0) =~= Seq::empty());
    while i < more.len()
        invariant
            all == more.deep_view(),
            i <= more@.len(),
            headers.deep_view() == put_all(start, all.take(i as int)),
        decreases more@.len() - i,
    {
        assert(all.take(i + 1).drop_last() =~= all.take(i as int));
        assert(all.take(i + 1).last() == (more@[i as int].0@, more@[i as int].1@));
        assoc::insert(headers, more[i].0.clone(), more[i].1.clone());
        i += 1;
    }
    assert(all.take(i as int) =~= all);
}

fn override_headers(headers: Vec<(String, String)>, given: &Vec<(String, Option<String>)>) -> (r: Vec<
    (String, String),
>)
    ensures
        r.deep_view() == overridden(headers.deep_view(), given.deep_view()),
{
    let ghost start = headers.deep_view();
    let ghost all = given.deep_view();
    let mut r = headers;
    let mut i: usize = 0;
    assert(all.take(0) =~= Seq::empty());
    while i < given.len()
        invariant
            all == given.deep_view(),
            i <= given@.len(),
            r.deep_view() == overridden(start, all.take(i as int)),
        decreases given@.len() - i,
    {
        assert(all.take(i + 1).drop_last() =~= all.take(i as int));
        assert(all.take(i + 1).last() == (given@[i as int].0@, given@[i as int].1.deep_view()));
        r = remove_named(&r, given[i].0.as_str());
        if let Some(value) = &given[i].1 {
            push_header(&mut r, given[i].0.as_str(), value.as_str());
        }
        i += 1;
    }
    assert(all.take(i as int) =~= all);
    r
}

fn add_session_headers(
    headers: &mut Vec<(String, String)>,
    session_id: Option<&str>,
    format: SessionAffinityFormat,
    extra: bool,
)
    ensures
        final(headers).deep_view() == with_session(
            old(headers).deep_view(),
            match session_id {
                Some(id) => Some(id@),
                None => None,
            },
            format,
            extra,
        ),
{
    if let Some(id) = session_id {
        match format {
            SessionAffinityFormat::Openrouter => {
                assoc::insert(headers, "x-session-id".to_owned(), id.to_owned());
            },
            SessionAffinityFormat::Openai | SessionAffinityFormat::OpenaiNosession => {
                if format == SessionAffinityFormat::Openai {
                    assoc::insert(headers, "session_id".to_owned(), id.to_owned());
                }
                assoc::insert(headers, "x-client-request-id".to_owned(), id.to_owned());
                if extra {
                    assoc::insert(headers, "x-session-affinity".to_owned(), id.to_owned());
                }
            },
        }
    }
}

/// The headers of a request, each name once as it is written.
pub fn create_request_headers(
    model: &Model,
    client: &ClientHeaders,
    api_key: &str,
    given: &Option<Vec<(String, Option<String>)>>,
    session_id: Option<&str>,
    format: SessionAffinityFormat,
    extra: bool,
) -> (r: Vec<(String, String)>)
    ensures
        r.deep_view() == request_headers(
            model@,
            client,
            api_key@,
            given.deep_view(),
            match session_id {
                Some(id) => Some(id@),
                None => None,
            },
            format,
            extra,
        ),
{
    let mut headers: Vec<(String, String)> = Vec::new();
    assert(headers.deep_view() =~= Seq::empty());
    push_header(&mut headers, "Accept", "application/json");
    push_header(&mut headers, "Content-Type", "application/json");
    push_header(&mut headers, "User-Agent", client.user_agent.as_str());
    assert(headers.deep_view() =~= seq![
        ("Accept"@, "application/json"@),
        ("Content-Type"@, "application/json"@),
        ("User-Agent"@, client.user_agent@),
    ]);
    put_every(&mut headers, &client.platform);
    if let Some(own) = &model.headers {
        put_every(&mut headers, own);
    }
    if same(model.provider.as_str(), "github-copilot") {
        put_every(&mut headers, &client.copilot);
    }
    assert(headers.deep_view() == base_headers(model@, client));
    add_session_headers(&mut headers, session_id, format, extra);
    if let Some(given) = given {
        headers = override_headers(headers, given);
    }
    if !has_named(&headers, "authorization") {
        let value = concat("Bearer ", api_key);
        push_header(&mut headers, "Authorization", value.as_str());
    }
    headers
}

/// A request that is ready to be sent.
#[derive(Debug)]
pub struct PreparedRequest {
    pub url: String,
    /// The headers; the client sets them in the order of their names.
    pub headers: Vec<(String, String)>,
    /// The body.
    pub params: Json,
    /// The properties that hold the input of grammar tools, by tool.
    pub properties: Vec<(String, String)>,
}

/// The model of [`PreparedRequest`].
pub struct PreparedRequestV {
    pub url: Seq<char>,
    pub headers: Seq<(Seq<char>, Seq<char>)>,
    pub params: JsonV,
    pub properties: Seq<(Seq<char>, Seq<char>)>,
}

impl View for PreparedRequest {
    type V = PreparedRequestV;

    open spec fn view(&self) -> PreparedRequestV {
        PreparedRequestV {
            url: self.url@,
            headers: self.headers.deep_view(),
            params: self.params@,
            properties: self.properties.deep_view(),
        }
    }
}

impl DeepView for PreparedRequest {
    type V = PreparedRequestV;

    open spec fn deep_view(&self) -> PreparedRequestV {
        self@
    }
}

/// The session whose prompts are cached: none where prompts are not.
pub open spec fn cached_session(session_id: Option<Seq<char>>, retention: CacheRetention) -> Option<
    Seq<char>,
> {
    if retention == CacheRetention::Never {
        None
    } else {
        session_id
    }
}

/// The address of an endpoint.
pub open spec fn endpoint(base_url: Seq<char>, path: Seq<char>) -> Seq<char> {
    trim_end(base_url, '/') + path
}

/// The address of an endpoint.
pub fn endpoint_url(base_url: &str, path: &str) -> (r: String)
    ensures
        r@ == endpoint(base_url@, path@),
{
    let base = trim_end_matches(base_url, '/');
    concat(base.as_str(), path)
}

proof fn lemma_without(headers: Seq<(Seq<char>, Seq<char>)>, name: Seq<char>)
    ensures
        !has_name(without(headers, name), name),
        forall|h: (Seq<char>, Seq<char>)|
            without(headers, name).contains(h) <==> headers.contains(h) && !same_name(h.0, name),
    decreases headers.len(),
{
    if headers.len() > 0 {
        let rest = headers.drop_last();
        lemma_without(rest, name);
        let r = without(headers, name);
        assert(headers =~= rest.push(headers.last()));
        assert forall|h: (Seq<char>, Seq<char>)| r.contains(h) <==> headers.contains(h)
            && !same_name(h.0, name) by {
            vstd::seq_lib::lemma_seq_contains_after_push(rest, headers.last(), h);
            vstd::seq_lib::lemma_seq_contains_after_push(without(rest, name), headers.last(), h);
        }
        if has_name(r, name) {
            let i = choose|i: int| 0 <= i < r.len() && same_name((#[trigger] r[i]).0, name);
            assert(r.contains(r[i]));
        }
    }
}

/// A caller's last word on a header counts: the header has the value that was given last, and no
/// other, or is gone.
pub proof fn law_given_header_wins(
    headers: Seq<(Seq<char>, Seq<char>)>,
    given: Seq<(Seq<char>, Option<Seq<char>>)>,
    name: Seq<char>,
    value: Option<Seq<char>>,
)
    ensures
        ({
            let r = overridden(headers, given.push((name, value)));
            forall|h: (Seq<char>, Seq<char>)|
                r.contains(h) && same_name(h.0, name) <==> value == Some(h.1) && h.0 == name
        }),
{
    let all = given.push((name, value));
    assert(all.drop_last() =~= given);
    let before = overridden(headers, given);
    let rest = without(before, name);
    lemma_without(before, name);
    let r = overridden(headers, all);
    assert forall|h: (Seq<char>, Seq<char>)| r.contains(h) && same_name(h.0, name) <==> value == Some(
        h.1,
    ) && h.0 == name by {
        if value is Some {
            vstd::seq_lib::lemma_seq_contains_after_push(rest, (name, value->Some_0), h);
        }
    }
}

/// A header that a caller does not speak of stays as it is.
pub proof fn law_other_headers_stay(
    headers: Seq<(Seq<char>, Seq<char>)>,
    given: Seq<(Seq<char>, Option<Seq<char>>)>,
    h: (Seq<char>, Seq<char>),
)
    requires
        forall|i: int| 0 <= i < given.len() ==> !same_name(h.0, (#[trigger] given[i]).0),
    ensures
        overridden(headers, given).contains(h) == headers.contains(h),
    decreases given.len(),
{
    if given.len() > 0 {
        let rest = given.drop_last();
        assert forall|i: int| 0 <= i < rest.len() implies !same_name(
            h.0,
            (#[trigger] rest[i]).0,
        ) by {
            assert(rest[i] == given[i]);
        }
        law_other_headers_stay(headers, rest, h);
        let before = overridden(headers, rest);
        lemma_without(before, given.last().0);
        assert(given[given.len() - 1] == given.last());
        if given.last().1 is Some {
            vstd::seq_lib::lemma_seq_contains_after_push(
                without(before, given.last().0),
                (given.last().0, given.last().1->Some_0),
                h,
            );
        }
    }
}

/// Every request is authorized: by the header of a caller or of the model, and else by the key.
pub proof fn law_request_is_authorized(
    model: ModelV,
    client: &ClientHeaders,
    api_key: Seq<char>,
    given: Option<Seq<(Seq<char>, Option<Seq<char>>)>>,
    session_id: Option<Seq<char>>,
    format: SessionAffinityFormat,
    extra: bool,
)
    ensures
        has_name(
            request_headers(model, client, api_key, given, session_id, format, extra),
            "authorization"@,
        ),
{
    let r = request_headers(model, client, api_key, given, session_id, format, extra);
    reveal_strlit("authorization");
    reveal_strlit("Authorization");
    assert(lowered("Authorization"@) =~= lowered("authorization"@));
    if !(r.len() > 0 && r.last() == ("Authorization"@, "Bearer "@ + api_key)) {
        assert(has_name(r, "authorization"@));
    } else {
        assert(same_name(r[r.len() - 1].0, "authorization"@));
    }
}

/// How often a header is set, in whatever case its name is written.
pub open spec fn count_named(headers: Seq<(Seq<char>, Seq<char>)>, name: Seq<char>) -> nat
    decreases headers.len(),
{
    if headers.len() == 0 {
        0
    } else if same_name(headers.last().0, name) {
        count_named(headers.drop_last(), name) + 1
    } else {
        count_named(headers.drop_last(), name)
    }
}

/// What a caller says last of a header.
pub open spec fn last_word(given: Seq<(Seq<char>, Option<Seq<char>>)>, name: Seq<char>) -> Option<
    Option<Seq<char>>,
>
    decreases given.len(),
{
    if given.len() == 0 {
        None
    } else if same_name(given.last().0, name) {
        Some(given.last().1)
    } else {
        last_word(given.drop_last(), name)
    }
}

proof fn lemma_count_push(
    headers: Seq<(Seq<char>, Seq<char>)>,
    h: (Seq<char>, Seq<char>),
    name: Seq<char>,
)
    ensures
        count_named(headers.push(h), name) == count_named(headers, name) + if same_name(h.0, name) {
            1nat
        } else {
            0
        },
{
    assert(headers.push(h).drop_last() =~= headers);
}

proof fn lemma_count_without(
    headers: Seq<(Seq<char>, Seq<char>)>,
    taken: Seq<char>,
    name: Seq<char>,
)
    ensures
        count_named(without(headers, taken), name) == if same_name(taken, name) {
            0
        } else {
            count_named(headers, name)
        },
    decreases headers.len(),
{
    if headers.len() > 0 {
        lemma_count_without(headers.drop_last(), taken, name);
        lemma_count_push(without(headers.drop_last(), taken), headers.last(), name);
    }
}

/// A header that a caller sets is sent once, one that a caller takes out is not sent, and any other
/// as often as before.
pub proof fn law_given_headers_are_sent_once(
    headers: Seq<(Seq<char>, Seq<char>)>,
    given: Seq<(Seq<char>, Option<Seq<char>>)>,
    name: Seq<char>,
)
    ensures
        count_named(overridden(headers, given), name) == match last_word(given, name) {
            Some(Some(_)) => 1,
            Some(None) => 0,
            None => count_named(headers, name),
        },
    decreases given.len(),
{
    if given.len() > 0 {
        let rest = given.drop_last();
        law_given_headers_are_sent_once(headers, rest, name);
        let before = overridden(headers, rest);
        lemma_count_without(before, given.last().0, name);
        if let Some(value) = given.last().1 {
            lemma_count_push(without(before, given.last().0), (given.last().0, value), name);
        }
    }
}

proof fn lemma_count_has(headers: Seq<(Seq<char>, Seq<char>)>, name: Seq<char>)
    ensures
        has_name(headers, name) <==> count_named(headers, name) > 0,
    decreases headers.len(),
{
    if headers.len() > 0 {
        let rest = headers.drop_last();
        lemma_count_has(rest, name);
        if same_name(headers.last().0, name) {
            assert(same_name(headers[headers.len() - 1].0, name));
        }
        if has_name(rest, name) {
            let i = choose|i: int| 0 <= i < rest.len() && same_name((#[trigger] rest[i]).0, name);
            assert(same_name(headers[i].0, name));
        }
        if has_name(headers, name) && !same_name(headers.last().0, name) {
            let i = choose|i: int|
                0 <= i < headers.len() && same_name((#[trigger] headers[i]).0, name);
            assert(same_name(rest[i].0, name));
        }
    }
}

/// A request carries its authorization exactly once: that of the caller where there is one, and the
/// key where neither the caller nor the model and the client have any.
pub proof fn law_authorization_is_sent_once(
    model: ModelV,
    client: &ClientHeaders,
    api_key: Seq<char>,
    given: Seq<(Seq<char>, Option<Seq<char>>)>,
    session_id: Option<Seq<char>>,
    format: SessionAffinityFormat,
    extra: bool,
)
    requires
        last_word(given, "authorization"@) is Some || count_named(
            with_session(base_headers(model, client), session_id, format, extra),
            "authorization"@,
        ) == 0,
    ensures
        count_named(
            request_headers(model, client, api_key, Some(given), session_id, format, extra),
            "authorization"@,
        ) == 1,
{
    let session = with_session(base_headers(model, client), session_id, format, extra);
    let kept = overridden(session, given);
    law_given_headers_are_sent_once(session, given, "authorization"@);
    lemma_count_has(kept, "authorization"@);
    reveal_strlit("authorization");
    reveal_strlit("Authorization");
    assert(lowered("Authorization"@) =~= lowered("authorization"@));
    lemma_count_push(kept, ("Authorization"@, "Bearer "@ + api_key), "authorization"@);
}

} // verus!
