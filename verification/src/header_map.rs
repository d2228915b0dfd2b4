//! Header maps of the `http` crate.
use crate::order::{by_name, sort_by_name};
use crate::provider_error::{OpenAiHttpError, OpenAiHttpErrorV};
use crate::text::lowered;
use vstd::prelude::*;

verus! {

/// The `http` crate's map of headers.
#[verifier::external_type_specification]
#[verifier::external_body]
#[verifier::reject_recursive_types(T)]
pub struct ExHeaderMap<T>(http::HeaderMap<T>);

/// The `http` crate's value of a header.
#[verifier::external_type_specification]
#[verifier::external_body]
pub struct ExHeaderValue(http::HeaderValue);

/// What a map holds: by the name of each header, in lower case, its value, which is the first where
/// there are several.
pub uninterp spec fn held(headers: http::HeaderMap<http::HeaderValue>) -> Map<Seq<char>, Seq<char>>;

/// What a map without headers holds.
pub open spec fn nothing() -> Map<Seq<char>, Seq<char>> {
    Map::empty()
}

/// The number of names up to which one more always fits in a map.
pub const MAX_HEADER_NAMES: usize = 6553;

/// Whether a character may stand in the name of a header.
pub open spec fn name_char(c: char) -> bool {
    ||| 'a' <= c <= 'z'
    ||| 'A' <= c <= 'Z'
    ||| '0' <= c <= '9'
    ||| c == '!' || c == '#' || c == '$' || c == '%' || c == '&' || c == '\'' || c == '*' || c
        == '+' || c == '-' || c == '.' || c == '^' || c == '_' || c == '`' || c == '|' || c == '~'
}

/// Whether a text is the name of a header.
pub open spec fn is_name(name: Seq<char>) -> bool {
    &&& 1 <= name.len() <= 65535
    &&& forall|i: int| 0 <= i < name.len() ==> name_char(#[trigger] name[i])
}

/// Whether a text is the value of a header: one without control characters other than tabs.
pub open spec fn is_value(value: Seq<char>) -> bool {
    forall|i: int|
        0 <= i < value.len() ==> (#[trigger] value[i] == '\t' || (value[i] as u32 >= 32
            && value[i] as u32 != 127))
}

/// What is said of a text that is no name.
pub open spec fn name_error() -> Seq<char> {
    "invalid HTTP header name"@
}

/// What is said of a text that is no value.
pub open spec fn value_error() -> Seq<char> {
    "failed to parse header value"@
}

/// Whether a check of `name` came out as it should: the name in lower case, or the error.
pub open spec fn names(r: Result<String, String>, name: Seq<char>) -> bool {
    match r {
        Ok(n) => is_name(name) && n@ == lowered(name),
        Err(e) => !is_name(name) && e@ == name_error(),
    }
}

/// Whether a check of `value` came out as it should.
pub open spec fn allows(r: Result<(), String>, value: Seq<char>) -> bool {
    match r {
        Ok(_) => is_value(value),
        Err(e) => !is_value(value) && e@ == value_error(),
    }
}

/// Calls `http::HeaderName::from_bytes` on the bytes of a text: a name is one to 65535 of the
/// characters that HTTP allows there, and comes back in lower case; any other text is an error.
#[verifier::external_body]
fn header_name(name: &str) -> (r: Result<String, String>)
    ensures
        names(r, name@),
{
    match http::HeaderName::from_bytes(name.as_bytes()) {
        Ok(name) => Ok(name.as_str().to_owned()),
        Err(e) => Err(e.to_string()),
    }
}

/// Calls `http::HeaderValue::from_str`: a value has no control characters other than tabs; any other
/// text is an error.
#[verifier::external_body]
fn header_value(value: &str) -> (r: Result<(), String>)
    ensures
        allows(r, value@),
{
    match http::HeaderValue::from_str(value) {
        Ok(_) => Ok(()),
        Err(e) => Err(e.to_string()),
    }
}

/// Calls `http::HeaderMap::new`: the map holds nothing.
#[verifier::external_body]
fn new_map() -> (r: http::HeaderMap<http::HeaderValue>)
    ensures
        held(r) == nothing(),
{
    http::HeaderMap::new()
}

/// Calls `http::HeaderMap::insert` with a name and a value: the map then holds the value, and no
/// other, under the name in lower case. The map grows by doubling, at the latest when it is three
/// quarters full and never before it is a fifth full, and panics beyond 32768 places; with no more
/// than [`MAX_HEADER_NAMES`] names it does not come to that.
#[verifier::external_body]
fn insert(headers: &mut http::HeaderMap<http::HeaderValue>, name: &str, value: &str)
    requires
        is_name(name@),
        is_value(value@),
        held(*old(headers)).dom().finite(),
        held(*old(headers)).dom().len() <= MAX_HEADER_NAMES,
    ensures
        held(*final(headers)) == held(*old(headers)).insert(lowered(name@), value@),
{
    if let (Ok(name), Ok(value)) = (
        http::HeaderName::from_bytes(name.as_bytes()),
        http::HeaderValue::from_str(value),
    ) {
        headers.insert(name, value);
    }
}

/// Calls `http::HeaderMap::remove` with a name: the map then holds nothing under the name in lower
/// case.
#[verifier::external_body]
fn remove(headers: &mut http::HeaderMap<http::HeaderValue>, name: &str)
    requires
        is_name(name@),
    ensures
        held(*final(headers)) == held(*old(headers)).remove(lowered(name@)),
{
    if let Ok(name) = http::HeaderName::from_bytes(name.as_bytes()) {
        headers.remove(name);
    }
}

/// A map with one more header, or why it cannot have it.
pub open spec fn with_header(
    headers: Result<Map<Seq<char>, Seq<char>>, Seq<char>>,
    name: Seq<char>,
    value: Seq<char>,
) -> Result<Map<Seq<char>, Seq<char>>, Seq<char>> {
    match headers {
        Ok(headers) => if !is_name(name) {
            Err(name_error())
        } else if !is_value(value) {
            Err(value_error())
        } else {
            Ok(headers.insert(lowered(name), value))
        },
        Err(e) => Err(e),
    }
}

/// A map without a header.
pub open spec fn without_header(headers: Map<Seq<char>, Seq<char>>, name: Seq<char>) -> Map<
    Seq<char>,
    Seq<char>,
> {
    if is_name(name) {
        headers.remove(lowered(name))
    } else {
        headers
    }
}

/// Whether a map has no more than `n` names.
pub open spec fn holds_at_most(headers: Map<Seq<char>, Seq<char>>, n: int) -> bool {
    headers.dom().finite() && headers.dom().len() <= n
}

/// A map without headers.
pub fn no_headers() -> (r: http::HeaderMap<http::HeaderValue>)
    ensures
        held(r) == nothing(),
{
    new_map()
}

/// Sets a header, or says why it cannot be.
pub fn insert_header(
    headers: &mut http::HeaderMap<http::HeaderValue>,
    name: &str,
    value: &str,
) -> (r: Result<(), String>)
    requires
        holds_at_most(held(*old(headers)), MAX_HEADER_NAMES as int),
    ensures
        match r {
            Ok(_) => with_header(Ok(held(*old(headers))), name@, value@) == Ok::<
                Map<Seq<char>, Seq<char>>,
                Seq<char>,
            >(held(*final(headers))),
            Err(e) => with_header(Ok(held(*old(headers))), name@, value@) == Err::<
                Map<Seq<char>, Seq<char>>,
                Seq<char>,
            >(e@) && held(*final(headers)) == held(*old(headers)),
        },
        held(*final(headers)).dom().finite(),
        held(*final(headers)).dom().len() <= held(*old(headers)).dom().len() + 1,
{
    match header_name(name) {
        Ok(_) => {},
        Err(e) => {
            return Err(e);
        },
    }
    match header_value(value) {
        Ok(_) => {},
        Err(e) => {
            return Err(e);
        },
    }
    let ghost before = held(*headers);
    insert(headers, name, value);
    proof {
        assert(held(*headers).dom() =~= before.dom().insert(lowered(name@)));
    }
    Ok(())
}

/// Takes a header out.
pub fn remove_header(headers: &mut http::HeaderMap<http::HeaderValue>, name: &str)
    requires
        held(*old(headers)).dom().finite(),
    ensures
        held(*final(headers)) == without_header(held(*old(headers)), name@),
        held(*final(headers)).dom().finite(),
        held(*final(headers)).dom().len() <= held(*old(headers)).dom().len(),
{
    if header_name(name).is_ok() {
        let ghost before = held(*headers);
        remove(headers, name);
        proof {
            assert(held(*headers).dom() =~= before.dom().remove(lowered(name@)));
        }
    }
}

/// A map with more headers, or why it cannot have one of them.
pub open spec fn with_headers(
    start: Map<Seq<char>, Seq<char>>,
    more: Seq<(Seq<char>, Seq<char>)>,
) -> Result<Map<Seq<char>, Seq<char>>, Seq<char>>
    decreases more.len(),
{
    if more.len() == 0 {
        Ok(start)
    } else {
        with_header(with_headers(start, more.drop_last()), more.last().0, more.last().1)
    }
}

proof fn lemma_with_headers_fail(
    start: Map<Seq<char>, Seq<char>>,
    more: Seq<(Seq<char>, Seq<char>)>,
    n: int,
)
    requires
        0 <= n <= more.len(),
        with_headers(start, more.take(n)) is Err,
    ensures
        with_headers(start, more) == with_headers(start, more.take(n)),
    decreases more.len(),
{
    if n < more.len() {
        assert(more.drop_last().take(n) =~= more.take(n));
        lemma_with_headers_fail(start, more.drop_last(), n);
    } else {
        assert(more.take(n) =~= more);
    }
}

/// Whether a check of headers came out as `expected`.
pub open spec fn came_out(
    r: Result<(), String>,
    headers: Map<Seq<char>, Seq<char>>,
    expected: Result<Map<Seq<char>, Seq<char>>, Seq<char>>,
) -> bool {
    match r {
        Ok(_) => expected == Ok::<Map<Seq<char>, Seq<char>>, Seq<char>>(headers),
        Err(e) => expected == Err::<Map<Seq<char>, Seq<char>>, Seq<char>>(e@),
    }
}

/// Sets more headers, or says why one of them cannot be.
pub fn insert_headers(
    headers: &mut http::HeaderMap<http::HeaderValue>,
    more: &Vec<(String, String)>,
) -> (r: Result<(), String>)
    requires
        holds_at_most(held(*old(headers)), MAX_HEADER_NAMES + 1 - more@.len()),
    ensures
        came_out(r, held(*final(headers)), with_headers(held(*old(headers)), more.deep_view())),
        held(*final(headers)).dom().finite(),
        held(*final(headers)).dom().len() <= held(*old(headers)).dom().len() + more@.len(),
{
    let ghost start = held(*headers);
    let ghost all = more.deep_view();
    let mut i: usize = 0;
    assert(all.take(0) =~= Seq::empty());
    while i < more.len()
        invariant
            all == more.deep_view(),
            start == held(*old(headers)),
            i <= more@.len(),
            with_headers(start, all.take(i as int)) == Ok::<Map<Seq<char>, Seq<char>>, Seq<char>>(
                held(*headers),
            ),
            held(*headers).dom().finite(),
            held(*headers).dom().len() <= start.dom().len() + i,
            start.dom().len() <= MAX_HEADER_NAMES + 1 - more@.len(),
        decreases more@.len() - i,
    {
        assert(all.take(i + 1).drop_last() =~= all.take(i as int));
        assert(all.take(i + 1).last() == (more@[i as int].0@, more@[i as int].1@));
        match insert_header(headers, more[i].0.as_str(), more[i].1.as_str()) {
            Ok(_) => {},
            Err(e) => {
                proof {
                    lemma_with_headers_fail(start, all, i + 1);
                }
                return Err(e);
            },
        }
        i += 1;
    }
    assert(all.take(i as int) =~= all);
    Ok(())
}

/// The headers of a request as the client takes them, or why it does not. They are set in the order
/// of their names; of names that differ only in case the last one counts.
pub fn request_headers(headers: &Vec<(String, String)>) -> (r: Result<
    http::HeaderMap<http::HeaderValue>,
    OpenAiHttpError,
>)
    requires
        headers@.len() <= MAX_HEADER_NAMES,
    ensures
        match r {
            Ok(map) => with_headers(nothing(), by_name(headers.deep_view())) == Ok::<
                Map<Seq<char>, Seq<char>>,
                Seq<char>,
            >(held(map)),
            Err(e) => with_headers(nothing(), by_name(headers.deep_view())) == Err::<
                Map<Seq<char>, Seq<char>>,
                Seq<char>,
            >(e@.message) && e@ == (OpenAiHttpErrorV {
                message: e@.message,
                status: None,
                headers: Seq::empty(),
                error: None,
                raw_metadata: None,
                aborted: false,
            }),
        },
{
    let mut map = no_headers();
    let sorted = sort_by_name(headers);
    match insert_headers(&mut map, &sorted) {
        Ok(_) => Ok(map),
        Err(e) => Err(OpenAiHttpError::transport(e.as_str(), false)),
    }
}

} // verus!
