//! The details of reasoning that providers send and take back.
use crate::json::{json_text, member, text_of, write_json, Json, JsonV};
use crate::text::same;
use vstd::prelude::*;

verus! {

/// Whether a member is missing or a string.
pub open spec fn missing_or_text(v: Option<JsonV>) -> bool {
    v is None || v->Some_0 is Str
}

/// Whether a member is missing, null or a string.
pub open spec fn missing_null_or_text(v: Option<JsonV>) -> bool {
    v is None || v->Some_0 is Null || v->Some_0 is Str
}

/// Whether a value is a detail of reasoning that can be replayed.
pub open spec fn is_detail(v: JsonV) -> bool {
    let kind = text_of(member(v, "type"@));
    &&& v is Object
    &&& missing_null_or_text(member(v, "id"@))
    &&& missing_or_text(member(v, "format"@))
    &&& member(v, "index"@) is None || member(v, "index"@)->Some_0 is Number
    &&& {
        ||| kind == Some("reasoning.summary"@) && text_of(member(v, "summary"@)) is Some
        ||| kind == Some("reasoning.encrypted"@) && text_of(member(v, "data"@)) is Some
        ||| kind == Some("reasoning.text"@) && text_of(member(v, "text"@)) is Some
            && missing_null_or_text(member(v, "signature"@))
    }
}

fn absent_or_text(v: Option<&Json>, null: bool) -> (r: bool)
    ensures
        r == if null {
            missing_null_or_text(v.deep_view())
        } else {
            missing_or_text(v.deep_view())
        },
{
    match v {
        None => true,
        Some(Json::Str(_)) => true,
        Some(Json::Null) => null,
        Some(_) => false,
    }
}

fn has_text(v: &Json, key: &str) -> (r: bool)
    ensures
        r == (text_of(member(v@, key@)) is Some),
{
    match v.get(key) {
        Some(Json::Str(_)) => true,
        _ => false,
    }
}

/// Whether a value is a detail of reasoning that can be replayed.
pub fn is_open_ai_reasoning_detail(v: &Json) -> (r: bool)
    ensures
        r == is_detail(v@),
{
    if v.as_object().is_none() {
        return false;
    }
    if !absent_or_text(v.get("id"), true) || !absent_or_text(v.get("format"), false) {
        return false;
    }
    let numbered = match v.get("index") {
        None => true,
        Some(Json::Number(_)) => true,
        Some(_) => false,
    };
    if !numbered {
        return false;
    }
    match v.get("type") {
        Some(Json::Str(kind)) => {
            (same(kind.as_str(), "reasoning.summary") && has_text(v, "summary")) || (same(
                kind.as_str(),
                "reasoning.encrypted",
            ) && has_text(v, "data")) || (same(kind.as_str(), "reasoning.text") && has_text(
                v,
                "text",
            ) && absent_or_text(v.get("signature"), true))
        },
        _ => false,
    }
}

/// The call that encrypted reasoning belongs to, and the text that is kept with it.
pub open spec fn encrypted(v: JsonV) -> Option<(Seq<char>, Seq<char>)> {
    match (text_of(member(v, "type"@)), text_of(member(v, "id"@)), text_of(member(v, "data"@))) {
        (Some(kind), Some(id), Some(data)) => if kind == "reasoning.encrypted"@ && id.len() > 0
            && data.len() > 0 {
            Some((id, json_text(v)))
        } else {
            None
        },
        _ => None,
    }
}

/// The call that encrypted reasoning belongs to, and the text that is kept with it.
pub fn encrypted_reasoning_detail(v: &Json) -> (r: Option<(String, String)>)
    ensures
        r.deep_view() == encrypted(v@),
{
    match (v.text("type"), v.text("id"), v.text("data")) {
        (Some(kind), Some(id), Some(data)) => if same(kind.as_str(), "reasoning.encrypted")
            && !id.as_str().is_empty() && !data.as_str().is_empty() {
            Some((id, write_json(v)))
        } else {
            None
        },
        _ => None,
    }
}

} // verus!
