//! The signature of a text: which message of the provider it comes from, and which part of the
//! turn it belongs to.
use crate::decode::{check_word, read_word, word_fault, word_of};
use crate::json::{
    add_field, count_of, json_parse, json_text, member, object, parse_json, string, text_of,
    write_json, Json, JsonNumber, JsonNumberV, JsonObject, JsonV,
};
use crate::text::{begins, same, starts_with};
use crate::types::TextSignaturePhase;
use vstd::prelude::*;

verus! {

/// What the signature of a text holds: the identifier and the phase of its message.
pub open spec fn text_signature(id: Seq<char>, phase: Option<TextSignaturePhase>) -> JsonV {
    let fields = seq![
        ("v"@, JsonV::Number(JsonNumberV::Unsigned(1))),
        ("id"@, JsonV::Str(id)),
    ];
    JsonV::Object(
        match phase {
            Some(p) => fields.push(("phase"@, JsonV::Str(phase_name(p)))),
            None => fields,
        },
    )
}

/// The name of a phase.
pub open spec fn phase_name(phase: TextSignaturePhase) -> Seq<char> {
    match phase {
        TextSignaturePhase::Commentary => "commentary"@,
        TextSignaturePhase::FinalAnswer => "final_answer"@,
    }
}

/// The name of a phase.
pub fn name_of_phase(phase: TextSignaturePhase) -> (r: &'static str)
    ensures
        r@ == phase_name(phase),
{
    match phase {
        TextSignaturePhase::Commentary => "commentary",
        TextSignaturePhase::FinalAnswer => "final_answer",
    }
}

/// Writes the signature of a text.
pub fn encode_text_signature_v1(id: &str, phase: Option<TextSignaturePhase>) -> (r: String)
    ensures
        r@ == json_text(text_signature(id@, phase)),
        signature_parts(Some(r@)) == Some((id@, phase)),
{
    let mut fields: JsonObject = Vec::new();
    assert(fields.deep_view() =~= Seq::empty());
    add_field(&mut fields, "v", Json::Number(JsonNumber::Unsigned(1)));
    add_field(&mut fields, "id", string(id));
    if let Some(phase) = phase {
        add_field(&mut fields, "phase", string(name_of_phase(phase)));
    }
    let v = object(fields);
    assert(v@->Object_0 =~= text_signature(id@, phase)->Object_0);
    proof {
        lemma_text_signature_plain(id@, phase);
    }
    let r = write_json(&v);
    proof {
        reveal_strlit("{");
        assert("{"@.len() == 1);
        lemma_signature_members(id@, phase);
    }
    r
}

/// A signature can be read back.
proof fn lemma_text_signature_plain(id: Seq<char>, phase: Option<TextSignaturePhase>)
    ensures
        crate::json::plain(text_signature(id, phase), 127),
{
    reveal_strlit("v");
    reveal_strlit("id");
    reveal_strlit("phase");
    assert("v"@.len() == 1 && "id"@.len() == 2 && "phase"@.len() == 5);
    let fields = text_signature(id, phase)->Object_0;
    assert forall|i: int| 0 <= i < fields.len() implies crate::json::plain(
        (#[trigger] fields[i]).1,
        126,
    ) by {}
}

/// Where the members of a signature are found.
proof fn lemma_signature_members(id: Seq<char>, phase: Option<TextSignaturePhase>)
    ensures
        count_of(member(text_signature(id, phase), "v"@)) == Some(1u64),
        text_of(member(text_signature(id, phase), "id"@)) == Some(id),
        member(text_signature(id, phase), "phase"@) == match phase {
            Some(p) => Some(JsonV::Str(phase_name(p))),
            None => None,
        },
        phase is Some ==> phase_named(phase_name(phase->Some_0)) == phase,
{
    reveal_strlit("v");
    reveal_strlit("id");
    reveal_strlit("phase");
    reveal_strlit("commentary");
    reveal_strlit("final_answer");
    assert("v"@.len() == 1 && "id"@.len() == 2 && "phase"@.len() == 5);
    assert("commentary"@.len() == 10 && "final_answer"@.len() == 12);
    let fields = text_signature(id, phase)->Object_0;
    crate::assoc::lemma_key_index(fields, "v"@, 0);
    crate::assoc::lemma_key_index(fields, "id"@, 1);
    crate::assoc::lemma_key_index(fields, "phase"@, 2);
}

/// The phase that a word names.
pub open spec fn phase_named(word: Seq<char>) -> Option<TextSignaturePhase> {
    if word == "commentary"@ {
        Some(TextSignaturePhase::Commentary)
    } else if word == "final_answer"@ {
        Some(TextSignaturePhase::FinalAnswer)
    } else {
        None
    }
}

/// The phase that a word names.
pub fn phase_from_name(word: &str) -> (r: Option<TextSignaturePhase>)
    ensures
        r == phase_named(word@),
{
    if same(word, "commentary") {
        Some(TextSignaturePhase::Commentary)
    } else if same(word, "final_answer") {
        Some(TextSignaturePhase::FinalAnswer)
    } else {
        None
    }
}

/// The phase that a value names, where nothing is wrong with it.
pub open spec fn phase_of(v: JsonV) -> Option<TextSignaturePhase> {
    match word_of(v) {
        Some(word) => phase_named(word),
        None => None,
    }
}

/// The phase that a value names, where nothing is wrong with it.
pub fn read_phase(v: &Json) -> (r: Option<TextSignaturePhase>)
    ensures
        r == phase_of(v@),
{
    match read_word(v) {
        Some(word) => phase_from_name(word),
        None => None,
    }
}

/// What is wrong with a phase.
pub open spec fn phase_fault(v: JsonV) -> Option<Seq<char>> {
    word_fault(v, phase_of(v) is Some, "`commentary` or `final_answer`"@)
}

/// Says what is wrong with a phase.
pub fn check_phase(v: &Json) -> (r: Option<String>)
    ensures
        r.deep_view() == phase_fault(v@),
{
    check_word(v, read_phase(v).is_some(), "`commentary` or `final_answer`")
}

/// The phase in a member, where it is one.
pub open spec fn valid_phase(v: Option<JsonV>) -> Option<TextSignaturePhase> {
    match v {
        Some(v) => if phase_fault(v) is None {
            phase_of(v)
        } else {
            None
        },
        None => None,
    }
}

/// The identifier and the phase that a signature gives: those it holds, else the signature itself
/// for the identifier.
pub open spec fn signature_parts(signature: Option<Seq<char>>) -> Option<
    (Seq<char>, Option<TextSignaturePhase>),
> {
    match signature {
        None => None,
        Some(s) => if s.len() == 0 {
            None
        } else if begins(s, "{"@) {
            match json_parse(s) {
                Ok(v) => match (count_of(member(v, "v"@)), text_of(member(v, "id"@))) {
                    (Some(1), Some(id)) => Some(
                        (
                            id,
                            valid_phase(member(v, "phase"@)),
                        ),
                    ),
                    _ => Some((s, None)),
                },
                Err(_) => Some((s, None)),
            }
        } else {
            Some((s, None))
        },
    }
}

/// Reads a signature.
pub fn parse_text_signature(signature: &Option<String>) -> (r: Option<
    (String, Option<TextSignaturePhase>),
>)
    ensures
        r.deep_view() == signature_parts(signature.deep_view()),
{
    let s = match signature {
        None => {
            return None;
        },
        Some(s) => s,
    };
    if s.as_str().is_empty() {
        return None;
    }
    if starts_with(s.as_str(), "{") {
        if let Ok(v) = parse_json(s.as_str()) {
            if let Some(1) = v.count("v") {
                if let Some(id) = v.text("id") {
                    let phase = match v.get("phase") {
                        Some(phase) => match check_phase(phase) {
                            None => read_phase(phase),
                            Some(_) => None,
                        },
                        None => None,
                    };
                    return Some((id, phase));
                }
            }
        }
    }
    Some((s.clone(), None))
}

} // verus!
