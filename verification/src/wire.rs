//! Values as JSON on the wire.
use crate::json;
use crate::json::{add_field, string, Json, JsonNumber, JsonNumberV, JsonObject, JsonV};
use vstd::prelude::*;

verus! {

/// A type that has a form on the wire.
pub trait ToJson: DeepView {
    /// The form of a value.
    spec fn wire(v: <Self as DeepView>::V) -> JsonV;

    /// The form of a value.
    fn to_json(&self) -> (r: Json)
        ensures
            r@ == Self::wire(self.deep_view()),
    ;
}

impl ToJson for bool {
    open spec fn wire(v: bool) -> JsonV {
        JsonV::Bool(v)
    }

    fn to_json(&self) -> (r: Json) {
        Json::Bool(*self)
    }
}

impl ToJson for u64 {
    open spec fn wire(v: u64) -> JsonV {
        JsonV::Number(JsonNumberV::Unsigned(v))
    }

    fn to_json(&self) -> (r: Json) {
        Json::Number(JsonNumber::Unsigned(*self))
    }
}

impl ToJson for usize {
    open spec fn wire(v: usize) -> JsonV {
        JsonV::Number(JsonNumberV::Unsigned(v as u64))
    }

    fn to_json(&self) -> (r: Json) {
        Json::Number(JsonNumber::Unsigned(*self as u64))
    }
}

impl ToJson for String {
    open spec fn wire(v: Seq<char>) -> JsonV {
        JsonV::Str(v)
    }

    fn to_json(&self) -> (r: Json) {
        string(self.as_str())
    }
}

impl ToJson for JsonNumber {
    open spec fn wire(v: JsonNumberV) -> JsonV {
        JsonV::Number(v)
    }

    fn to_json(&self) -> (r: Json) {
        Json::Number(self.clone())
    }
}

impl ToJson for Json {
    open spec fn wire(v: JsonV) -> JsonV {
        v
    }

    fn to_json(&self) -> (r: Json) {
        self.clone()
    }
}

impl<T: ToJson> ToJson for Option<T> {
    open spec fn wire(v: Option<T::V>) -> JsonV {
        match v {
            Some(v) => T::wire(v),
            None => JsonV::Null,
        }
    }

    fn to_json(&self) -> (r: Json) {
        match self {
            Some(v) => v.to_json(),
            None => Json::Null,
        }
    }
}

/// The forms of values, in order.
pub open spec fn wires<T: ToJson>(v: Seq<T::V>) -> Seq<JsonV> {
    Seq::new(v.len(), |i: int| T::wire(v[i]))
}

impl<T: ToJson> ToJson for Vec<T> {
    open spec fn wire(v: Seq<T::V>) -> JsonV {
        JsonV::Array(wires::<T>(v))
    }

    fn to_json(&self) -> (r: Json) {
        let mut items: Vec<Json> = Vec::new();
        let mut i: usize = 0;
        while i < self.len()
            invariant
                i <= self@.len(),
                items@.len() == i,
                forall|k: int|
                    0 <= k < i ==> (#[trigger] items@[k])@ == T::wire(self.deep_view()[k]),
            decreases self@.len() - i,
        {
            let item = self[i].to_json();
            items.push(item);
            i += 1;
        }
        assert(items.deep_view() =~= wires::<T>(self.deep_view()));
        json::array(items)
    }
}

/// The members of an object with one more, where there is a value for it.
pub open spec fn with<T: ToJson>(
    fields: Seq<(Seq<char>, JsonV)>,
    key: Seq<char>,
    value: Option<T::V>,
) -> Seq<(Seq<char>, JsonV)> {
    match value {
        Some(v) => fields.push((key, T::wire(v))),
        None => fields,
    }
}

/// Appends a member where there is a value for it.
pub fn add_optional<T: ToJson>(fields: &mut JsonObject, key: &str, value: &Option<T>)
    ensures
        final(fields).deep_view() == with::<T>(old(fields).deep_view(), key@, value.deep_view()),
{
    if let Some(v) = value {
        add_field(fields, key, v.to_json());
    }
}

/// The members of an object without any.
pub fn no_fields() -> (r: JsonObject)
    ensures
        r.deep_view() == Seq::<(Seq<char>, JsonV)>::empty(),
{
    let r: JsonObject = Vec::new();
    assert(r.deep_view() =~= Seq::<(Seq<char>, JsonV)>::empty());
    r
}

} // verus!
