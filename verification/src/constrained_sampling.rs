//! Tools whose input is sampled from a schema or a grammar, and input that arrives in pieces.
use crate::assoc;
use crate::assoc::put;
use crate::json::{
    add_field, json_parse, json_text, member, object, parse_json, string, text_of, write_json, Json,
    JsonObject, JsonV,
};
use crate::text::{begins, concat, from_range, starts_with, to_chars};
use crate::types::{Tool, ToolGrammar, ToolGrammarV, ToolV};
use vstd::prelude::*;

verus! {

/// The model of a result: what it holds, or the words of the error.
pub open spec fn outcome<T: DeepView, E: DeepView>(r: Result<T, E>) -> Result<T::V, E::V> {
    match r {
        Ok(t) => Ok(t.deep_view()),
        Err(e) => Err(e.deep_view()),
    }
}

/// The grammar of a tool, where the target takes grammars.
pub open spec fn grammar_of(tool: ToolV, supported: bool) -> Option<ToolGrammarV> {
    if supported {
        tool.grammar
    } else {
        None
    }
}

/// The grammar of a tool, where the target takes grammars.
pub fn resolve_grammar_constrained_sampling(tool: &Tool, supported: bool) -> (r: Option<
    &ToolGrammar,
>)
    ensures
        r.deep_view() == grammar_of(tool@, supported),
{
    if supported {
        tool.grammar.as_ref()
    } else {
        None
    }
}

/// The strictness that a tool asks for, where the target can be strict.
pub open spec fn strictness_of(tool: ToolV, supported: bool) -> Option<bool> {
    if supported {
        tool.strict
    } else {
        None
    }
}

/// The strictness that a tool asks for, where the target can be strict.
pub fn resolve_json_schema_strict_sampling(tool: &Tool, supported: bool) -> (r: Option<bool>)
    ensures
        r == strictness_of(tool@, supported),
{
    if supported {
        tool.strict
    } else {
        None
    }
}

/// The schema that is sent for a tool.
pub open spec fn schema_of(tool: ToolV, strict: Option<bool>) -> JsonV {
    if strict == Some(true) {
        tool.strict_parameters
    } else {
        tool.parameters
    }
}

/// The schema that is sent for a tool.
pub fn get_json_schema_tool_parameters(tool: &Tool, strict: Option<bool>) -> (r: Json)
    ensures
        r@ == schema_of(tool@, strict),
{
    match strict {
        Some(true) => tool.strict_parameters.clone(),
        _ => tool.parameters.clone(),
    }
}

/// The tools whose input is sampled from a grammar, each with the property that holds it.
pub open spec fn input_properties(tools: Seq<ToolV>, supported: bool) -> Seq<(Seq<char>, Seq<char>)>
    decreases tools.len(),
{
    if tools.len() == 0 {
        Seq::empty()
    } else {
        let rest = input_properties(tools.drop_last(), supported);
        match grammar_of(tools.last(), supported) {
            Some(g) => put(rest, tools.last().name, g.input_property),
            None => rest,
        }
    }
}

/// The tools whose input is sampled from a grammar, each with the property that holds it.
pub fn create_grammar_tool_input_properties(tools: &Option<Vec<Tool>>, supported: bool) -> (r: Vec<
    (String, String),
>)
    ensures
        r.deep_view() == match tools.deep_view() {
            Some(tools) => input_properties(tools, supported),
            None => Seq::empty(),
        },
{
    let mut r: Vec<(String, String)> = Vec::new();
    assert(r.deep_view() =~= Seq::empty());
    if let Some(tools) = tools {
        let ghost all = tools.deep_view();
        let mut i: usize = 0;
        assert(all.take(0) =~= Seq::empty());
        while i < tools.len()
            invariant
                all == tools.deep_view(),
                i <= tools@.len(),
                r.deep_view() == input_properties(all.take(i as int), supported),
            decreases tools@.len() - i,
        {
            assert(all.take(i + 1).drop_last() =~= all.take(i as int));
            assert(all.take(i + 1).last() == tools@[i as int]@);
            if let Some(grammar) = resolve_grammar_constrained_sampling(&tools[i], supported) {
                assoc::insert(&mut r, tools[i].name.clone(), grammar.input_property.clone());
            }
            i += 1;
        }
        assert(all.take(i as int) =~= all);
    }
    r
}

/// The input of a call of a grammar tool, or the words of the error where the arguments hold
/// none.
pub open spec fn grammar_input(
    name: Seq<char>,
    arguments: JsonV,
    property: Seq<char>,
) -> Result<Seq<char>, Seq<char>> {
    match text_of(member(arguments, property)) {
        Some(input) => Ok(input),
        None => Err("Tool "@ + name + " has no string argument "@ + property),
    }
}

/// Reads the input of a call of a grammar tool out of its arguments.
pub fn get_grammar_tool_input(name: &str, arguments: &Json, property: &str) -> (r: Result<
    String,
    String,
>)
    ensures
        outcome(r) == grammar_input(name@, arguments@, property@),
{
    match arguments.text(property) {
        Some(input) => Ok(input),
        None => {
            let mut e = concat("Tool ", name);
            e.push_str(" has no string argument ");
            e.push_str(property);
            Err(e)
        },
    }
}

/// The arguments that hold nothing but an input.
pub open spec fn input_arguments(property: Seq<char>, input: Seq<char>) -> JsonV {
    JsonV::Object(seq![(property, JsonV::Str(input))])
}

/// Arguments that hold nothing but an input.
pub fn make_input_arguments(property: &str, input: &str) -> (r: Json)
    ensures
        r@ == input_arguments(property@, input@),
{
    let mut fields: JsonObject = Vec::new();
    assert(fields.deep_view() =~= Seq::empty());
    add_field(&mut fields, property, string(input));
    object(fields)
}

/// What has been sent of the JSON text of an input that arrives in pieces.
#[derive(Debug, PartialEq)]
pub struct GrammarToolInputJsonBuffer {
    pub sent: String,
}

impl View for GrammarToolInputJsonBuffer {
    type V = Seq<char>;

    open spec fn view(&self) -> Seq<char> {
        self.sent@
    }
}

impl DeepView for GrammarToolInputJsonBuffer {
    type V = Seq<char>;

    open spec fn deep_view(&self) -> Seq<char> {
        self@
    }
}

impl Clone for GrammarToolInputJsonBuffer {
    fn clone(&self) -> (r: Self)
        ensures
            r@ == self@,
    {
        GrammarToolInputJsonBuffer { sent: self.sent.clone() }
    }
}

impl Default for GrammarToolInputJsonBuffer {
    fn default() -> (r: Self)
        ensures
            r@ == Seq::<char>::empty(),
    {
        GrammarToolInputJsonBuffer { sent: String::new() }
    }
}

/// What of the JSON text of an input can be sent: all of it, or, while more input may come, all
/// but the quote and the brace that close it.
pub open spec fn input_text(property: Seq<char>, input: Seq<char>, close: bool) -> Seq<char> {
    let text = json_text(input_arguments(property, input));
    if close || text.len() < 2 {
        text
    } else {
        text.take(text.len() - 2)
    }
}

/// What is said where input does not go on as it began.
pub const INPUT_CHANGED: &'static str = "Grammar tool input changed while it was streamed";

/// What is to be sent next, and what has been sent then; an error where what has been sent is no
/// beginning of what should be.
pub open spec fn input_delta(
    sent: Seq<char>,
    property: Seq<char>,
    input: Seq<char>,
    close: bool,
) -> (Seq<char>, Result<Option<Seq<char>>, Seq<char>>) {
    let target = input_text(property, input, close);
    if begins(target, sent) {
        (
            target,
            Ok(
                if target.len() == sent.len() {
                    None
                } else {
                    Some(target.skip(sent.len() as int))
                },
            ),
        )
    } else {
        (sent, Err(INPUT_CHANGED@))
    }
}

/// Brings what has been sent up to the given input; returns what is to be sent for that.
pub fn append_grammar_tool_input_json_delta(
    buffer: &mut GrammarToolInputJsonBuffer,
    property: &str,
    input: &str,
    close: bool,
) -> (r: Result<Option<String>, String>)
    ensures
        (final(buffer)@, outcome(r)) == input_delta(old(buffer)@, property@, input@, close),
        r matches Ok(Some(delta)) ==> final(buffer)@ == old(buffer)@ + delta@,
        !(r matches Ok(Some(_))) ==> final(buffer)@ == old(buffer)@,
{
    let arguments = make_input_arguments(property, input);
    let text = write_json(&arguments);
    let v = to_chars(text.as_str());
    let n: usize = if close || v.len() < 2 {
        v.len()
    } else {
        v.len() - 2
    };
    let target = from_range(&v, 0, n);
    assert(target@ =~= input_text(property@, input@, close));
    if !starts_with(target.as_str(), buffer.sent.as_str()) {
        return Err(INPUT_CHANGED.to_owned());
    }
    let done: usize = to_chars(buffer.sent.as_str()).len();
    let ghost sent = buffer@;
    assert(sent =~= target@.take(done as int));
    if done == n {
        assert(sent =~= target@);
        return Ok(None);
    }
    let delta = from_range(&v, done, n);
    assert(delta@ =~= target@.skip(done as int));
    assert(target@ =~= sent + delta@);
    buffer.sent = target;
    Ok(Some(delta))
}

/// A way to read arguments that may not be complete yet.
pub trait StreamingJson {
    /// What a text is read as.
    spec fn reading(&self, text: Seq<char>) -> JsonV;

    /// Reads a text.
    fn parse_streaming_json(&self, text: &str) -> (r: Json)
        ensures
            r@ == self.reading(text@),
    ;
}

/// Reads complete arguments, and takes any other text for no arguments.
pub struct CompleteJson;

impl StreamingJson for CompleteJson {
    open spec fn reading(&self, text: Seq<char>) -> JsonV {
        match json_parse(text) {
            Ok(v) => v,
            Err(_) => JsonV::Object(Seq::empty()),
        }
    }

    fn parse_streaming_json(&self, text: &str) -> (r: Json) {
        match parse_json(text) {
            Ok(v) => v,
            Err(_) => {
                let fields: JsonObject = Vec::new();
                assert(fields.deep_view() =~= Seq::empty());
                object(fields)
            },
        }
    }
}

/// Once input is complete, what has been sent of it is the whole JSON text.
pub proof fn law_complete_input_is_sent_whole(
    sent: Seq<char>,
    property: Seq<char>,
    input: Seq<char>,
)
    requires
        input_delta(sent, property, input, true).1 is Ok,
    ensures
        input_delta(sent, property, input, true).0 == json_text(input_arguments(property, input)),
{
}

} // verus!
