//! JSON values.
use crate::assoc;
use crate::assoc::{lookup, put_all};
use crate::text::{begins, same};
use vstd::prelude::*;

verus! {

/// A JSON number.
#[derive(Debug, PartialEq)]
pub enum JsonNumber {
    /// An integer that is not negative.
    Unsigned(u64),
    /// A negative integer.
    Negative(i64),
    /// Any other number, by its decimal text.
    Decimal(String),
}

/// A JSON value.
#[derive(Debug, PartialEq)]
pub enum Json {
    Null,
    Bool(bool),
    Number(JsonNumber),
    Str(String),
    Array(Vec<Json>),
    Object(Vec<(String, Json)>),
}

pub enum JsonNumberV {
    Unsigned(u64),
    Negative(i64),
    Decimal(Seq<char>),
}

pub enum JsonV {
    Null,
    Bool(bool),
    Number(JsonNumberV),
    Str(Seq<char>),
    Array(Seq<JsonV>),
    Object(Seq<(Seq<char>, JsonV)>),
}

impl View for JsonNumber {
    type V = JsonNumberV;

    open spec fn view(&self) -> JsonNumberV {
        match self {
            JsonNumber::Unsigned(n) => JsonNumberV::Unsigned(*n),
            JsonNumber::Negative(n) => JsonNumberV::Negative(*n),
            JsonNumber::Decimal(t) => JsonNumberV::Decimal(t@),
        }
    }
}

pub open spec fn json_view(v: Json) -> JsonV
    decreases v,
{
    match v {
        Json::Null => JsonV::Null,
        Json::Bool(b) => JsonV::Bool(b),
        Json::Number(n) => JsonV::Number(n@),
        Json::Str(s) => JsonV::Str(s@),
        Json::Array(items) => JsonV::Array(
            Seq::new(items@.len(), |i: int| if 0 <= i < items@.len() { json_view(items@[i]) } else { JsonV::Null }),
        ),
        Json::Object(fields) => JsonV::Object(
            Seq::new(fields@.len(), |i: int| if 0 <= i < fields@.len() { (fields@[i].0@, json_view(fields@[i].1)) } else { (Seq::empty(), JsonV::Null) }),
        ),
    }
}

impl DeepView for JsonNumber {
    type V = JsonNumberV;

    open spec fn deep_view(&self) -> JsonNumberV {
        self@
    }
}

impl DeepView for Json {
    type V = JsonV;

    open spec fn deep_view(&self) -> JsonV {
        self@
    }
}

impl View for Json {
    type V = JsonV;

    open spec fn view(&self) -> JsonV {
        json_view(*self)
    }
}

impl Clone for JsonNumber {
    fn clone(&self) -> (r: Self)
        ensures
            r@ == self@,
    {
        match self {
            JsonNumber::Unsigned(n) => JsonNumber::Unsigned(*n),
            JsonNumber::Negative(n) => JsonNumber::Negative(*n),
            JsonNumber::Decimal(t) => JsonNumber::Decimal(t.clone()),
        }
    }
}

pub proof fn lemma_item_decreases(v: Json, i: int)
    requires
        v is Array,
        0 <= i < v->Array_0@.len(),
    ensures
        decreases_to!(v => v->Array_0@[i]),
{
}

pub proof fn lemma_field_decreases(v: Json, i: int)
    requires
        v is Object,
        0 <= i < v->Object_0@.len(),
    ensures
        decreases_to!(v => v->Object_0@[i].1),
{
    assert(decreases_to!(v => v->Object_0@[i]));
}

impl Clone for Json {
    fn clone(&self) -> (r: Self)
        ensures
            r@ == self@,
        decreases self,
    {
        match self {
            Json::Null => Json::Null,
            Json::Bool(b) => Json::Bool(*b),
            Json::Number(n) => Json::Number(n.clone()),
            Json::Str(s) => Json::Str(s.clone()),
            Json::Array(items) => {
                let mut out: Vec<Json> = Vec::new();
                let mut i: usize = 0;
                while i < items.len()
                    invariant
                        i <= items@.len(),
                        out@.len() == i,
                        forall|k: int| 0 <= k < i ==> (#[trigger] out@[k])@ == items@[k]@,
                        *self == Json::Array(*items),
                    decreases items@.len() - i,
                {
                    proof { lemma_item_decreases(*self, i as int); }
                    let item = (&items[i]).clone();
                    out.push(item);
                    i += 1;
                }
                let r = Json::Array(out);
                assert(r@->Array_0 =~= self@->Array_0);
                r
            },
            Json::Object(fields) => {
                let mut out: Vec<(String, Json)> = Vec::new();
                let mut i: usize = 0;
                while i < fields.len()
                    invariant
                        i <= fields@.len(),
                        out@.len() == i,
                        forall|k: int| 0 <= k < i ==> (#[trigger] out@[k]).0@ == fields@[k].0@ && out@[k].1@ == fields@[k].1@,
                        *self == Json::Object(*fields),
                    decreases fields@.len() - i,
                {
                    let field = &fields[i];
                    proof { lemma_field_decreases(*self, i as int); }
                    let item = (&field.1).clone();
                    out.push((field.0.clone(), item));
                    i += 1;
                }
                let r = Json::Object(out);
                assert(r@->Object_0 =~= self@->Object_0);
                r
            },
        }
    }
}

impl assoc::Duplicate for Json {
    fn duplicate(&self) -> (r: Self) {
        self.clone()
    }
}

/// The members of an object, in order.
pub type JsonObject = Vec<(String, Json)>;

/// Whether no key occurs twice.
pub open spec fn distinct_keys<V>(fields: Seq<(Seq<char>, V)>) -> bool {
    forall|i: int, j: int|
        0 <= i < j < fields.len() ==> (#[trigger] fields[i]).0 != (#[trigger] fields[j]).0
}

/// Whether a value holds no decimals and no key twice in an object, and nests at most `levels`
/// deep.
pub open spec fn plain(v: JsonV, levels: nat) -> bool
    decreases levels,
{
    match v {
        JsonV::Number(JsonNumberV::Decimal(_)) => false,
        JsonV::Number(JsonNumberV::Negative(n)) => n < 0,
        JsonV::Array(items) => levels > 0 && forall|i: int|
            0 <= i < items.len() ==> plain(#[trigger] items[i], (levels - 1) as nat),
        JsonV::Object(fields) => levels > 0 && distinct_keys(fields) && forall|i: int|
            0 <= i < fields.len() ==> plain((#[trigger] fields[i]).1, (levels - 1) as nat),
        _ => true,
    }
}

/// What `serde_json::from_str` makes of a text: a value, or the words of its error.
pub uninterp spec fn json_parse(text: Seq<char>) -> Result<JsonV, Seq<char>>;

/// What `serde_json` writes for a value, with no white space between the tokens.
pub uninterp spec fn json_text(v: JsonV) -> Seq<char>;

/// `serde_json::Value`, which stands between a text and a [`Json`].
#[verifier::external_type_specification]
#[verifier::external_body]
pub struct ExValue(serde_json::Value);

/// Converts a `serde_json::Value`, member by member. A number with a fraction or an exponent is
/// kept as the text that `serde_json` writes for it.
#[verifier::external_body]
fn from_value(v: serde_json::Value) -> (r: Json) {
    match v {
        serde_json::Value::Null => Json::Null,
        serde_json::Value::Bool(b) => Json::Bool(b),
        serde_json::Value::Number(n) => Json::Number(match (n.as_u64(), n.as_i64()) {
            (Some(u), _) => JsonNumber::Unsigned(u),
            (None, Some(i)) => JsonNumber::Negative(i),
            (None, None) => JsonNumber::Decimal(n.to_string()),
        }),
        serde_json::Value::String(s) => Json::Str(s),
        serde_json::Value::Array(a) => Json::Array(a.into_iter().map(from_value).collect()),
        serde_json::Value::Object(o) => Json::Object(
            o.into_iter().map(|(k, m)| (k, from_value(m))).collect()),
    }
}

/// Converts to a `serde_json::Value`, member by member.
#[verifier::external_body]
fn to_value(v: &Json) -> (r: serde_json::Value) {
    match v {
        Json::Null => serde_json::Value::Null,
        Json::Bool(b) => serde_json::Value::Bool(*b),
        Json::Number(JsonNumber::Unsigned(n)) => serde_json::Value::from(*n),
        Json::Number(JsonNumber::Negative(n)) => serde_json::Value::from(*n),
        Json::Number(JsonNumber::Decimal(t)) => serde_json::from_str(t).unwrap_or_default(),
        Json::Str(s) => serde_json::Value::String(s.clone()),
        Json::Array(a) => serde_json::Value::Array(a.iter().map(to_value).collect()),
        Json::Object(o) => serde_json::Value::Object(
            o.iter().map(|(k, m)| (k.clone(), to_value(m))).collect()),
    }
}

/// The model of what a parse returns.
pub open spec fn parsed_view(r: Result<Json, String>) -> Result<JsonV, Seq<char>> {
    match r {
        Ok(v) => Ok(v@),
        Err(e) => Err(e@),
    }
}

/// Whether a parse gave `v`.
pub open spec fn reads_as(parsed: Result<JsonV, Seq<char>>, v: JsonV) -> bool {
    parsed == Ok::<JsonV, Seq<char>>(v)
}

/// Calls `serde_json::from_str`. What comes back depends on the text alone and is named
/// [`json_parse`]; an error is given by its words.
#[verifier::external_body]
pub(crate) fn parse_json(text: &str) -> (r: Result<Json, String>)
    ensures
        parsed_view(r) == json_parse(text@),
{
    match serde_json::from_str::<serde_json::Value>(text) {
        Ok(v) => Ok(from_value(v)),
        Err(e) => Err(e.to_string()),
    }
}

/// Writes a value with the compact `Display` of `serde_json::Value`. What it writes depends on
/// the value alone and is named [`json_text`]. Where the value is [`plain`] and nests no deeper
/// than `serde_json` reads, reading the text gives the value back. The text of an object begins with
/// a brace.
#[verifier::external_body]
pub(crate) fn write_json(v: &Json) -> (r: String)
    ensures
        r@ == json_text(v@),
        plain(v@, 127) ==> reads_as(json_parse(r@), v@),
        v@ is Object ==> begins(r@, "{"@),
{
    to_value(v).to_string()
}

/// The member `key` of a value, if it is an object that has one.
pub open spec fn member(v: JsonV, key: Seq<char>) -> Option<JsonV> {
    match v {
        JsonV::Object(fields) => lookup(fields, key),
        _ => None,
    }
}

/// The string that a value is.
pub open spec fn text_of(v: Option<JsonV>) -> Option<Seq<char>> {
    match v {
        Some(JsonV::Str(s)) => Some(s),
        _ => None,
    }
}

/// The whole number, not negative, that a value is.
pub open spec fn count_of(v: Option<JsonV>) -> Option<u64> {
    match v {
        Some(JsonV::Number(JsonNumberV::Unsigned(n))) => Some(n),
        _ => None,
    }
}

impl Json {
    /// The text of the value, with no white space between the tokens, as it is sent. Where the value
    /// is [`plain`] and nests no deeper than texts are read, reading the text gives it back.
    pub fn to_text(&self) -> (r: String)
        ensures
            r@ == json_text(self@),
            plain(self@, 127) ==> json_parse(r@) == Ok::<JsonV, Seq<char>>(self@),
    {
        write_json(self)
    }

    /// The member `key`, if the value is an object that has one.
    pub fn get(&self, key: &str) -> (r: Option<&Json>)
        ensures
            r.deep_view() == member(self@, key@),
    {
        match self {
            Json::Object(fields) => {
                assert(self@->Object_0 =~= fields.deep_view());
                assoc::get(fields, key)
            },
            _ => None,
        }
    }

    /// The string, if the value is one.
    pub fn as_str(&self) -> (r: Option<&String>)
        ensures
            r.deep_view() == text_of(Some(self@)),
    {
        match self {
            Json::Str(s) => Some(s),
            _ => None,
        }
    }

    /// The members, if the value is an object.
    pub fn as_object(&self) -> (r: Option<&JsonObject>)
        ensures
            match r {
                Some(fields) => self@ == JsonV::Object(fields.deep_view()),
                None => !(self@ is Object),
            },
    {
        match self {
            Json::Object(fields) => {
                assert(self@->Object_0 =~= fields.deep_view());
                Some(fields)
            },
            _ => None,
        }
    }

    /// The items, if the value is an array.
    pub fn as_array(&self) -> (r: Option<&Vec<Json>>)
        ensures
            match r {
                Some(items) => self@ == JsonV::Array(items.deep_view()),
                None => !(self@ is Array),
            },
    {
        match self {
            Json::Array(items) => {
                assert(self@->Array_0 =~= items.deep_view());
                Some(items)
            },
            _ => None,
        }
    }

    /// A copy of the string member `key`.
    pub fn text(&self, key: &str) -> (r: Option<String>)
        ensures
            r.deep_view() == text_of(member(self@, key@)),
    {
        match self.get(key) {
            Some(Json::Str(s)) => Some(s.clone()),
            _ => None,
        }
    }

    /// The whole number, not negative, in the member `key`.
    pub fn count(&self, key: &str) -> (r: Option<u64>)
        ensures
            r == count_of(member(self@, key@)),
    {
        match self.get(key) {
            Some(Json::Number(JsonNumber::Unsigned(n))) => Some(*n),
            _ => None,
        }
    }
}

/// The value of an object.
pub fn object(fields: JsonObject) -> (r: Json)
    ensures
        r@ == JsonV::Object(fields.deep_view()),
{
    let r = Json::Object(fields);
    assert(r@->Object_0 =~= fields.deep_view());
    r
}

/// The value of an array.
pub fn array(items: Vec<Json>) -> (r: Json)
    ensures
        r@ == JsonV::Array(items.deep_view()),
{
    let r = Json::Array(items);
    assert(r@->Array_0 =~= items.deep_view());
    r
}

/// A string value.
pub fn string(s: &str) -> (r: Json)
    ensures
        r@ == JsonV::Str(s@),
{
    Json::Str(s.to_owned())
}

/// Appends a member.
pub fn add_field(fields: &mut JsonObject, key: &str, value: Json)
    ensures
        final(fields).deep_view() == old(fields).deep_view().push((key@, value@)),
{
    let ghost model = fields.deep_view();
    let ghost pair = (key@, value@);
    fields.push((key.to_owned(), value));
    assert(fields.deep_view() =~= model.push(pair));
}

/// Puts each member of `more` in, in order.
pub fn extend(fields: &mut JsonObject, more: &JsonObject)
    ensures
        final(fields).deep_view() == put_all(old(fields).deep_view(), more.deep_view()),
{
    let ghost start = fields.deep_view();
    let ghost all = more.deep_view();
    let mut i: usize = 0;
    assert(all.take(0) =~= Seq::empty());
    while i < more.len()
        invariant
            all == more.deep_view(),
            i <= more@.len(),
            fields.deep_view() == put_all(start, all.take(i as int)),
        decreases more@.len() - i,
    {
        assert(all.take(i + 1).drop_last() =~= all.take(i as int));
        assert(all.take(i + 1).last() == (more@[i as int].0@, more@[i as int].1@));
        assoc::insert(fields, more[i].0.clone(), more[i].1.clone());
        i += 1;
    }
    assert(all.take(i as int) =~= all);
}

/// Whether two numbers are equal. A whole number never equals a decimal; zero has two decimals.
pub open spec fn same_number(a: JsonNumberV, b: JsonNumberV) -> bool {
    match (a, b) {
        (JsonNumberV::Decimal(s), JsonNumberV::Decimal(t)) => s == t || (zero(s) && zero(t)),
        _ => a == b,
    }
}

/// Whether a decimal is zero.
pub open spec fn zero(text: Seq<char>) -> bool {
    text == "0.0"@ || text == "-0.0"@
}

/// Whether two values are equal, in whatever order the members of their objects stand.
pub open spec fn same_value(a: JsonV, b: JsonV) -> bool
    decreases a,
{
    match (a, b) {
        (JsonV::Number(x), JsonV::Number(y)) => same_number(x, y),
        (JsonV::Array(x), JsonV::Array(y)) => x.len() == y.len() && forall|i: int|
            0 <= i < x.len() ==> same_value(#[trigger] x[i], y[i]),
        (JsonV::Object(x), JsonV::Object(y)) => x.len() == y.len() && forall|i: int|
            #![trigger x[i]]
            0 <= i < x.len() ==> lookup(y, x[i].0) is Some && same_value(
                x[i].1,
                lookup(y, x[i].0)->Some_0,
            ),
        _ => a == b,
    }
}

fn equal_numbers(a: &JsonNumber, b: &JsonNumber) -> (r: bool)
    ensures
        r == same_number(a@, b@),
{
    match (a, b) {
        (JsonNumber::Unsigned(x), JsonNumber::Unsigned(y)) => *x == *y,
        (JsonNumber::Negative(x), JsonNumber::Negative(y)) => *x == *y,
        (JsonNumber::Decimal(s), JsonNumber::Decimal(t)) => {
            same(s.as_str(), t.as_str()) || ((same(s.as_str(), "0.0") || same(s.as_str(), "-0.0"))
                && (same(t.as_str(), "0.0") || same(t.as_str(), "-0.0")))
        },
        _ => false,
    }
}

/// Whether two values are equal, in whatever order the members of their objects stand.
pub fn equal_values(a: &Json, b: &Json) -> (r: bool)
    ensures
        r == same_value(a@, b@),
    decreases a,
{
    match (a, b) {
        (Json::Null, Json::Null) => true,
        (Json::Bool(x), Json::Bool(y)) => *x == *y,
        (Json::Number(x), Json::Number(y)) => equal_numbers(x, y),
        (Json::Str(x), Json::Str(y)) => same(x.as_str(), y.as_str()),
        (Json::Array(x), Json::Array(y)) => {
            if x.len() != y.len() {
                return false;
            }
            let ghost xs = a@->Array_0;
            let ghost ys = b@->Array_0;
            let mut i: usize = 0;
            while i < x.len()
                invariant
                    *a == Json::Array(*x),
                    *b == Json::Array(*y),
                    xs == a@->Array_0,
                    ys == b@->Array_0,
                    x@.len() == y@.len(),
                    i <= x@.len(),
                    forall|k: int| 0 <= k < i ==> same_value(#[trigger] xs[k], ys[k]),
                decreases x@.len() - i,
            {
                proof {
                    lemma_item_decreases(*a, i as int);
                }
                assert(xs[i as int] == x@[i as int]@ && ys[i as int] == y@[i as int]@);
                if !equal_values(&x[i], &y[i]) {
                    return false;
                }
                i += 1;
            }
            true
        },
        (Json::Object(x), Json::Object(y)) => {
            if x.len() != y.len() {
                return false;
            }
            let ghost xs = a@->Object_0;
            let ghost ys = b@->Object_0;
            assert(ys =~= y.deep_view());
            let mut i: usize = 0;
            while i < x.len()
                invariant
                    *a == Json::Object(*x),
                    *b == Json::Object(*y),
                    xs == a@->Object_0,
                    ys == b@->Object_0,
                    ys == y.deep_view(),
                    x@.len() == y@.len(),
                    i <= x@.len(),
                    forall|k: int|
                        #![trigger xs[k]]
                        0 <= k < i ==> lookup(ys, xs[k].0) is Some && same_value(
                            xs[k].1,
                            lookup(ys, xs[k].0)->Some_0,
                        ),
                decreases x@.len() - i,
            {
                proof {
                    lemma_field_decreases(*a, i as int);
                }
                assert(xs[i as int] == (x@[i as int].0@, x@[i as int].1@));
                match assoc::get(y, x[i].0.as_str()) {
                    None => {
                        return false;
                    },
                    Some(other) => {
                        if !equal_values(&x[i].1, other) {
                            return false;
                        }
                    },
                }
                i += 1;
            }
            true
        },
        _ => false,
    }
}

} // verus!
