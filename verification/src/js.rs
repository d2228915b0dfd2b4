//! JSON values as JavaScript reads and writes them.
use crate::json::{json_text, object, write_json, Json, JsonNumber, JsonNumberV, JsonV};
use crate::text::{ends, joined, same, to_chars};
use vstd::prelude::*;

verus! {

/// Whether all characters are decimal digits.
pub open spec fn all_digits(s: Seq<char>) -> bool {
    forall|i: int| 0 <= i < s.len() ==> '0' <= #[trigger] s[i] && s[i] <= '9'
}

/// The number that decimal digits stand for.
pub open spec fn digits_value(s: Seq<char>) -> nat
    decreases s.len(),
{
    if s.len() == 0 {
        0
    } else {
        digits_value(s.drop_last()) * 10 + ((s.last() as u32) - 48) as nat
    }
}

/// The digits before a fraction of zero, where there are at most fifteen of them.
pub open spec fn whole_part(text: Seq<char>) -> Option<Seq<char>> {
    if ends(text, ".0"@) && 2 < text.len() && text.len() <= 17 && all_digits(
        text.take(text.len() - 2),
    ) {
        Some(text.take(text.len() - 2))
    } else {
        None
    }
}

/// A number as JavaScript writes it: one without a fraction is a whole number.
pub open spec fn js_number(n: JsonNumberV) -> JsonNumberV {
    match n {
        JsonNumberV::Decimal(t) => match whole_part(t) {
            Some(d) => JsonNumberV::Unsigned(digits_value(d) as u64),
            None => if t.len() > 0 && t[0] == '-' {
                match whole_part(t.skip(1)) {
                    Some(d) => if digits_value(d) == 0 {
                        JsonNumberV::Unsigned(0)
                    } else {
                        JsonNumberV::Negative((-digits_value(d)) as i64)
                    },
                    None => n,
                }
            } else {
                n
            },
        },
        _ => n,
    }
}

proof fn lemma_digits_bound(s: Seq<char>)
    requires
        all_digits(s),
        s.len() <= 15,
    ensures
        digits_value(s) < 1_000_000_000_000_000,
        s.len() <= 14 ==> digits_value(s) < 100_000_000_000_000,
{
    reveal_with_fuel(digits_value, 16);

}

fn whole_digits(v: &Vec<char>, from: usize) -> (r: Option<u64>)
    requires
        from <= v@.len(),
    ensures
        match whole_part(v@.skip(from as int)) {
            Some(d) => r == Some(digits_value(d) as u64) && digits_value(d)
                < 1_000_000_000_000_000,
            None => r is None,
        },
{
    let ghost t = v@.skip(from as int);
    let n: usize = v.len() - from;
    proof {
        reveal_strlit(".0");
        assert(".0"@.len() == 2);
        if n >= 2 {
            assert(t.skip(n - 2).len() == 2);
            assert(t.skip(n - 2)[0] == t[n - 2]);
            assert(t.skip(n - 2)[1] == t[n - 1]);
            if t[n - 2] == '.' && t[n - 1] == '0' {
                assert(t.skip(n - 2) =~= ".0"@);
            }
        }
    }
    if n <= 2 || n > 17 || v[v.len() - 2] != '.' || v[v.len() - 1] != '0' {
        return None;
    }
    let to: usize = v.len() - 2;
    let ghost d = t.take(n - 2);
    let mut value: u64 = 0;
    let mut i: usize = from;
    assert(d.take(0) =~= Seq::empty());
    while i < to
        invariant
            from <= i <= to < v@.len(),
            d.len() == to - from,
            d.len() <= 15,
            forall|k: int| 0 <= k < d.len() ==> d[k] == v@[from + k],
            all_digits(d.take(i - from)),
            value == digits_value(d.take(i - from)),
            d == t.take(n - 2),
            t == v@.skip(from as int),
            n == t.len(),
        decreases to - i,
    {
        let c: char = v[i];
        assert(d[i - from] == c);
        if c < '0' || c > '9' {
            assert(!all_digits(d));
            return None;
        }
        proof {
            assert(d.take(i - from + 1).drop_last() =~= d.take(i - from));
            assert(d.take(i - from + 1).last() == c);
            assert(all_digits(d.take(i - from + 1)));
            lemma_digits_bound(d.take(i - from));
        }
        value = value * 10 + (c as u64 - 48);
        i += 1;
    }
    proof {
        assert(d.take(i - from) =~= d);
        lemma_digits_bound(d);
    }
    Some(value)
}

/// Rewrites a number as JavaScript writes it.
pub fn to_js_number(n: &JsonNumber) -> (r: JsonNumber)
    ensures
        r@ == js_number(n@),
{
    match n {
        JsonNumber::Decimal(t) => {
            let v = to_chars(t.as_str());
            assert(v@.skip(0) =~= v@);
            match whole_digits(&v, 0) {
                Some(value) => JsonNumber::Unsigned(value),
                None => {
                    if v.len() > 0 && v[0] == '-' {
                        match whole_digits(&v, 1) {
                            Some(value) => if value == 0 {
                                JsonNumber::Unsigned(0)
                            } else {
                                JsonNumber::Negative(-(value as i64))
                            },
                            None => n.clone(),
                        }
                    } else {
                        n.clone()
                    }
                },
            }
        },
        _ => n.clone(),
    }
}

/// A value with each number as JavaScript writes it.
pub open spec fn js_value(v: JsonV) -> JsonV
    decreases v,
{
    match v {
        JsonV::Number(n) => JsonV::Number(js_number(n)),
        JsonV::Array(items) => JsonV::Array(
            Seq::new(
                items.len(),
                |i: int|
                    if 0 <= i < items.len() {
                        js_value(items[i])
                    } else {
                        JsonV::Null
                    },
            ),
        ),
        JsonV::Object(fields) => JsonV::Object(
            Seq::new(
                fields.len(),
                |i: int|
                    if 0 <= i < fields.len() {
                        (fields[i].0, js_value(fields[i].1))
                    } else {
                        (Seq::empty(), JsonV::Null)
                    },
            ),
        ),
        _ => v,
    }
}

fn to_js_value(v: &Json) -> (r: Json)
    ensures
        r@ == js_value(v@),
    decreases v,
{
    match v {
        Json::Number(n) => Json::Number(to_js_number(n)),
        Json::Array(items) => {
            let mut out: Vec<Json> = Vec::new();
            let mut i: usize = 0;
            while i < items.len()
                invariant
                    i <= items@.len(),
                    out@.len() == i,
                    forall|k: int| 0 <= k < i ==> (#[trigger] out@[k])@ == js_value(items@[k]@),
                    *v == Json::Array(*items),
                decreases items@.len() - i,
            {
                proof {
                    crate::json::lemma_item_decreases(*v, i as int);
                }
                let item = to_js_value(&items[i]);
                out.push(item);
                i += 1;
            }
            let r = Json::Array(out);
            assert(r@->Array_0 =~= js_value(v@)->Array_0);
            r
        },
        Json::Object(fields) => {
            let mut out: Vec<(String, Json)> = Vec::new();
            let mut i: usize = 0;
            while i < fields.len()
                invariant
                    i <= fields@.len(),
                    out@.len() == i,
                    forall|k: int|
                        0 <= k < i ==> (#[trigger] out@[k]).0@ == fields@[k].0@ && out@[k].1@
                            == js_value(fields@[k].1@),
                    *v == Json::Object(*fields),
                decreases fields@.len() - i,
            {
                proof {
                    crate::json::lemma_field_decreases(*v, i as int);
                }
                let item = to_js_value(&fields[i].1);
                out.push((fields[i].0.clone(), item));
                i += 1;
            }
            let r = Json::Object(out);
            assert(r@->Object_0 =~= js_value(v@)->Object_0);
            r
        },
        _ => v.clone(),
    }
}

/// What `JSON.stringify` writes for a value.
pub open spec fn stringified(v: JsonV) -> Seq<char> {
    json_text(js_value(v))
}

/// Writes a value as `JSON.stringify` does.
pub fn safe_json_stringify(v: &Json) -> (r: String)
    ensures
        r@ == stringified(v@),
{
    let w = to_js_value(v);
    write_json(&w)
}

/// Whether JavaScript takes a value for true.
pub open spec fn truthy(v: JsonV) -> bool {
    match v {
        JsonV::Null => false,
        JsonV::Bool(b) => b,
        JsonV::Number(JsonNumberV::Unsigned(n)) => n != 0,
        JsonV::Number(JsonNumberV::Negative(n)) => n != 0,
        JsonV::Number(JsonNumberV::Decimal(t)) => t != "0.0"@ && t != "-0.0"@,
        JsonV::Str(s) => s.len() > 0,
        JsonV::Array(_) | JsonV::Object(_) => true,
    }
}

/// Whether JavaScript takes a value for true.
pub fn js_truthy(v: &Json) -> (r: bool)
    ensures
        r == truthy(v@),
{
    match v {
        Json::Null => false,
        Json::Bool(b) => *b,
        Json::Number(JsonNumber::Unsigned(n)) => *n != 0,
        Json::Number(JsonNumber::Negative(n)) => *n != 0,
        Json::Number(JsonNumber::Decimal(t)) => !same(t.as_str(), "0.0") && !same(
            t.as_str(),
            "-0.0",
        ),
        Json::Str(s) => !s.as_str().is_empty(),
        Json::Array(_) | Json::Object(_) => true,
    }
}

/// What `String(value)` gives in JavaScript.
pub open spec fn js_text(v: JsonV) -> Seq<char>
    decreases v,
{
    match v {
        JsonV::Null => "null"@,
        JsonV::Bool(b) => if b {
            "true"@
        } else {
            "false"@
        },
        JsonV::Number(_) => stringified(v),
        JsonV::Str(s) => s,
        JsonV::Array(items) => joined(js_parts(items), ","@),
        JsonV::Object(_) => "[object Object]"@,
    }
}

/// The items of an array as JavaScript joins them: nothing for null.
pub open spec fn js_parts(items: Seq<JsonV>) -> Seq<Seq<char>>
    decreases items,
{
    Seq::new(
        items.len(),
        |i: int|
            if 0 <= i < items.len() && !(items[i] is Null) {
                js_text(items[i])
            } else {
                Seq::empty()
            },
    )
}

/// Writes a value as `String(value)` does in JavaScript.
pub fn js_string(v: &Json) -> (r: String)
    ensures
        r@ == js_text(v@),
    decreases v,
{
    match v {
        Json::Null => "null".to_owned(),
        Json::Bool(b) => if *b {
            "true".to_owned()
        } else {
            "false".to_owned()
        },
        Json::Number(_) => safe_json_stringify(v),
        Json::Str(s) => s.clone(),
        Json::Array(items) => {
            let mut parts: Vec<String> = Vec::new();
            let mut i: usize = 0;
            while i < items.len()
                invariant
                    i <= items@.len(),
                    parts@.len() == i,
                    forall|k: int|
                        0 <= k < i ==> (#[trigger] parts@[k])@ == if items@[k]@ is Null {
                            Seq::empty()
                        } else {
                            js_text(items@[k]@)
                        },
                    *v == Json::Array(*items),
                decreases items@.len() - i,
            {
                proof {
                    crate::json::lemma_item_decreases(*v, i as int);
                }
                let part = match &items[i] {
                    Json::Null => String::new(),
                    item => js_string(item),
                };
                parts.push(part);
                i += 1;
            }
            let r = crate::text::join(&parts, ",");
            proof {
                assert(parts.deep_view() =~= js_parts(v@->Array_0));
            }
            r
        },
        Json::Object(_) => "[object Object]".to_owned(),
    }
}

} // verus!
