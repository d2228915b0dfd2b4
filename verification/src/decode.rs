//! Records and words that are read from JSON, and what is said of those that cannot be read.
use crate::json::{json_text, member, text_of, write_json, Json, JsonNumber, JsonNumberV, JsonV};
use crate::text::{concat, decimal, same, to_decimal};
use vstd::prelude::*;

verus! {

/// What the `Debug` of a string writes.
pub uninterp spec fn debug_text(s: Seq<char>) -> Seq<char>;

/// Writes a string with the `Debug` of `str`. What it writes depends on the string alone and is
/// named [`debug_text`].
#[verifier::external_body]
fn write_debug(s: &str) -> (r: String)
    ensures
        r@ == debug_text(s@),
{
    format!("{:?}", s)
}

/// What is said of a member that is missing.
pub open spec fn missing_field(key: Seq<char>) -> Seq<char> {
    "missing field `"@ + key + "`"@
}

/// What is said of a member that is missing.
pub fn missing_field_error(key: &str) -> (r: String)
    ensures
        r@ == missing_field(key@),
{
    let mut r = concat("missing field `", key);
    r.push_str("`");
    r
}

/// A value in the words of an error.
pub open spec fn described(v: JsonV) -> Seq<char> {
    match v {
        JsonV::Null => "null"@,
        JsonV::Bool(b) => "boolean `"@ + if b {
            "true"@
        } else {
            "false"@
        } + "`"@,
        JsonV::Number(JsonNumberV::Decimal(t)) => "floating point `"@ + t + "`"@,
        JsonV::Number(_) => "integer `"@ + json_text(v) + "`"@,
        JsonV::Str(s) => "string "@ + debug_text(s),
        JsonV::Array(_) => "sequence"@,
        JsonV::Object(_) => "map"@,
    }
}

fn describe(v: &Json) -> (r: String)
    ensures
        r@ == described(v@),
{
    match v {
        Json::Null => "null".to_owned(),
        Json::Bool(b) => {
            let mut r = "boolean `".to_owned();
            r.push_str(if *b {
                "true"
            } else {
                "false"
            });
            r.push_str("`");
            r
        },
        Json::Number(JsonNumber::Decimal(t)) => {
            let mut r = concat("floating point `", t.as_str());
            r.push_str("`");
            r
        },
        Json::Number(_) => {
            let text = write_json(v);
            let mut r = concat("integer `", text.as_str());
            r.push_str("`");
            r
        },
        Json::Str(s) => {
            let text = write_debug(s.as_str());
            concat("string ", text.as_str())
        },
        Json::Array(_) => "sequence".to_owned(),
        Json::Object(_) => "map".to_owned(),
    }
}

/// What is said of a value of the wrong type.
pub open spec fn mistyped(v: JsonV, expected: Seq<char>) -> Seq<char> {
    "invalid type: "@ + described(v) + ", expected "@ + expected
}

/// What is said of a value of the wrong type.
pub fn mistyped_error(v: &Json, expected: &str) -> (r: String)
    ensures
        r@ == mistyped(v@, expected@),
{
    let what = describe(v);
    let mut r = concat("invalid type: ", what.as_str());
    r.push_str(", expected ");
    r.push_str(expected);
    r
}

/// What is said of a value of the right type that is still none of those expected.
pub open spec fn misvalued(v: JsonV, expected: Seq<char>) -> Seq<char> {
    "invalid value: "@ + described(v) + ", expected "@ + expected
}

/// What is said of a value of the right type that is still none of those expected.
pub fn misvalued_error(v: &Json, expected: &str) -> (r: String)
    ensures
        r@ == misvalued(v@, expected@),
{
    let what = describe(v);
    let mut r = concat("invalid value: ", what.as_str());
    r.push_str(", expected ");
    r.push_str(expected);
    r
}

/// What is said of a word that is none of those expected.
pub open spec fn unknown_variant(word: Seq<char>, expected: Seq<char>) -> Seq<char> {
    "unknown variant `"@ + word + "`, expected "@ + expected
}

/// What is said of a word that is none of those expected.
pub fn unknown_variant_error(word: &str, expected: &str) -> (r: String)
    ensures
        r@ == unknown_variant(word@, expected@),
{
    let mut r = concat("unknown variant `", word);
    r.push_str("`, expected ");
    r.push_str(expected);
    r
}

/// What is said of a list of the wrong length.
pub open spec fn mislength(n: nat, expected: Seq<char>) -> Seq<char> {
    "invalid length "@ + decimal(n) + ", expected "@ + expected
}

/// What is said of a list of the wrong length.
pub fn mislength_error(n: usize, expected: &str) -> (r: String)
    ensures
        r@ == mislength(n as nat, expected@),
{
    let number = to_decimal(n as u64);
    let mut r = concat("invalid length ", number.as_str());
    r.push_str(", expected ");
    r.push_str(expected);
    r
}

/// The first of several faults, where there is one.
pub open spec fn first(faults: Seq<Option<Seq<char>>>) -> Option<Seq<char>>
    decreases faults.len(),
{
    if faults.len() == 0 {
        None
    } else {
        match first(faults.drop_last()) {
            Some(fault) => Some(fault),
            None => faults.last(),
        }
    }
}

/// A fault among the first is the first of all.
pub proof fn lemma_first(faults: Seq<Option<Seq<char>>>, n: int)
    requires
        0 <= n <= faults.len(),
        first(faults.take(n)) is Some,
    ensures
        first(faults) == first(faults.take(n)),
    decreases faults.len(),
{
    if n < faults.len() {
        assert(faults.drop_last().take(n) =~= faults.take(n));
        lemma_first(faults.drop_last(), n);
    } else {
        assert(faults.take(n) =~= faults);
    }
}

/// One more of several faults.
pub proof fn lemma_first_step(faults: Seq<Option<Seq<char>>>, n: int)
    requires
        0 <= n < faults.len(),
        first(faults.take(n)) is None,
    ensures
        first(faults.take(n + 1)) == faults[n],
        faults[n] is Some ==> first(faults) == faults[n],
{
    assert(faults.take(n + 1).drop_last() =~= faults.take(n));
    if faults[n] is Some {
        lemma_first(faults, n + 1);
    }
}

/// A kind of record: the names of its fields, in order, and what is wrong with a value of one.
pub trait Record {
    /// The names of the fields.
    spec fn keys(&self) -> Seq<Seq<char>>;

    /// What is wrong with the value of the field at `i`.
    spec fn fault(&self, i: int, v: JsonV) -> Option<Seq<char>>;

    /// The names of the fields.
    fn names(&self) -> (r: Vec<&'static str>)
        ensures
            r@.len() == self.keys().len(),
            forall|i: int| 0 <= i < r@.len() ==> (#[trigger] r@[i])@ == self.keys()[i],
    ;

    /// Says what is wrong with the value of the field at `i`.
    fn check(&self, i: usize, v: &Json) -> (r: Option<String>)
        ensures
            r.deep_view() == self.fault(i as int, v@),
    ;
}

/// The position of a name, or the number of names where it is none of them.
pub open spec fn place(keys: Seq<Seq<char>>, key: Seq<char>) -> nat
    decreases keys.len(),
{
    if keys.len() == 0 {
        0
    } else if keys[0] == key {
        0
    } else {
        1 + place(keys.drop_first(), key)
    }
}

proof fn lemma_place(keys: Seq<Seq<char>>, key: Seq<char>, i: int)
    requires
        0 <= i <= keys.len(),
        forall|k: int| 0 <= k < i ==> keys[k] != key,
        i < keys.len() ==> keys[i] == key,
    ensures
        place(keys, key) == i,
    decreases keys.len(),
{
    if keys.len() > 0 && keys[0] != key {
        lemma_place(keys.drop_first(), key, i - 1);
    }
}

fn find_place(names: &Vec<&'static str>, key: &str, Ghost(keys): Ghost<Seq<Seq<char>>>) -> (r:
    usize)
    requires
        names@.len() == keys.len(),
        forall|i: int| 0 <= i < names@.len() ==> (#[trigger] names@[i])@ == keys[i],
    ensures
        r == place(keys, key@),
        r <= keys.len(),
{
    let mut i: usize = 0;
    while i < names.len()
        invariant
            names@.len() == keys.len(),
            forall|i: int| 0 <= i < names@.len() ==> (#[trigger] names@[i])@ == keys[i],
            i <= keys.len(),
            forall|k: int| 0 <= k < i ==> keys[k] != key@,
        decreases keys.len() - i,
    {
        assert(names@[i as int]@ == keys[i as int]);
        if same(names[i], key) {
            proof {
                lemma_place(keys, key@, i as int);
            }
            return i;
        }
        i += 1;
    }
    proof {
        lemma_place(keys, key@, i as int);
    }
    i
}

/// What is wrong with a member of a record. One that is no field is passed over.
pub open spec fn member_fault<R: Record>(record: &R, m: (Seq<char>, JsonV)) -> Option<Seq<char>> {
    let i = place(record.keys(), m.0) as int;
    if i < record.keys().len() {
        record.fault(i, m.1)
    } else {
        None
    }
}

/// What is wrong with the members of a record, each in its turn.
pub open spec fn member_faults<R: Record>(record: &R, fields: Seq<(Seq<char>, JsonV)>) -> Seq<
    Option<Seq<char>>,
> {
    Seq::new(fields.len(), |i: int| member_fault(record, fields[i]))
}

/// What is wrong first with the members of an object, in their own order.
pub open spec fn members_fault<R: Record>(record: &R, v: JsonV) -> Option<Seq<char>> {
    match v {
        JsonV::Object(fields) => first(member_faults(record, fields)),
        _ => None,
    }
}

/// Says what is wrong first with the members of an object.
pub fn check_members<R: Record>(record: &R, v: &Json) -> (r: Option<String>)
    ensures
        r.deep_view() == members_fault(record, v@),
{
    match v.as_object() {
        None => None,
        Some(fields) => {
            let names = record.names();
            let ghost keys = record.keys();
            let ghost all = fields.deep_view();
            let ghost faults = member_faults(record, all);
            let mut i: usize = 0;
            assert(faults.take(0) =~= Seq::empty());
            while i < fields.len()
                invariant
                    keys == record.keys(),
                    names@.len() == keys.len(),
                    forall|i: int| 0 <= i < names@.len() ==> (#[trigger] names@[i])@ == keys[i],
                    all == fields.deep_view(),
                    v@ == JsonV::Object(all),
                    faults == member_faults(record, all),
                    i <= fields@.len(),
                    first(faults.take(i as int)) is None,
                decreases fields@.len() - i,
            {
                assert(all[i as int] == (fields@[i as int].0@, fields@[i as int].1@));
                let at = find_place(&names, fields[i].0.as_str(), Ghost(keys));
                proof {
                    lemma_first_step(faults, i as int);
                }
                if at < names.len() {
                    let fault = record.check(at, &fields[i].1);
                    if fault.is_some() {
                        return fault;
                    }
                }
                i += 1;
            }
            assert(faults.take(i as int) =~= faults);
            None
        },
    }
}

/// What is wrong with the items of an array that is a record, field by field.
pub open spec fn item_faults<R: Record>(record: &R, items: Seq<JsonV>) -> Seq<Option<Seq<char>>> {
    Seq::new(
        if items.len() < record.keys().len() {
            items.len()
        } else {
            record.keys().len()
        },
        |i: int| record.fault(i, items[i]),
    )
}

/// What is wrong first with a record: an object, or an array that holds the fields in order and may
/// leave out the last of them.
pub open spec fn record_fault<R: Record>(record: &R, name: Seq<char>, v: JsonV) -> Option<
    Seq<char>,
> {
    match v {
        JsonV::Object(fields) => members_fault(record, v),
        JsonV::Array(items) => match first(item_faults(record, items)) {
            Some(fault) => Some(fault),
            None => if items.len() > record.keys().len() {
                Some(mislength(items.len(), "fewer elements in array"@))
            } else {
                None
            },
        },
        _ => Some(mistyped(v, "struct "@ + name)),
    }
}

fn check_items<R: Record>(record: &R, items: &Vec<Json>) -> (r: Option<String>)
    ensures
        r.deep_view() == record_fault(record, Seq::empty(), JsonV::Array(items.deep_view())),
{
    let count = record.names().len();
    let ghost all = items.deep_view();
    let ghost faults = item_faults(record, all);
    let mut i: usize = 0;
    assert(faults.take(0) =~= Seq::empty());
    while i < items.len() && i < count
        invariant
            count == record.keys().len(),
            all == items.deep_view(),
            faults == item_faults(record, all),
            i <= items@.len(),
            i <= count,
            first(faults.take(i as int)) is None,
        decreases items@.len() - i,
    {
        assert(all[i as int] == items@[i as int]@);
        let fault = record.check(i, &items[i]);
        proof {
            lemma_first_step(faults, i as int);
        }
        if fault.is_some() {
            return fault;
        }
        i += 1;
    }
    assert(faults.take(i as int) =~= faults);
    if items.len() > count {
        Some(mislength_error(items.len(), "fewer elements in array"))
    } else {
        None
    }
}

/// Says what is wrong first with a record.
pub fn check_record<R: Record>(record: &R, name: &str, v: &Json) -> (r: Option<String>)
    ensures
        r.deep_view() == record_fault(record, name@, v@),
{
    if let Some(items) = v.as_array() {
        return check_items(record, items);
    }
    match v {
        Json::Object(_) => check_members(record, v),
        _ => {
            let expected = concat("struct ", name);
            Some(mistyped_error(v, expected.as_str()))
        },
    }
}

/// A field of a record: a member of an object, or, where the record is an array of no more than
/// `count` items, the item at its position.
pub open spec fn part(v: JsonV, key: Seq<char>, position: nat, count: nat) -> Option<JsonV> {
    match v {
        JsonV::Array(items) => if items.len() <= count && position < items.len() {
            Some(items[position as int])
        } else {
            None
        },
        _ => member(v, key),
    }
}

/// A field of a record.
pub fn get_part<'a>(v: &'a Json, key: &str, position: usize, count: usize) -> (r: Option<&'a Json>)
    ensures
        r.deep_view() == part(v@, key@, position as nat, count as nat),
{
    match v.as_array() {
        Some(items) => if items.len() <= count && position < items.len() {
            Some(&items[position])
        } else {
            None
        },
        None => v.get(key),
    }
}

/// What is wrong with a value that may be null.
pub open spec fn unless_null(v: JsonV, fault: Option<Seq<char>>) -> Option<Seq<char>> {
    if v is Null {
        None
    } else {
        fault
    }
}

/// What is wrong with a string.
pub open spec fn text_fault(v: JsonV) -> Option<Seq<char>> {
    if v is Str {
        None
    } else {
        Some(mistyped(v, "a string"@))
    }
}

/// Says what is wrong with a string.
pub fn check_text(v: &Json) -> (r: Option<String>)
    ensures
        r.deep_view() == text_fault(v@),
{
    match v {
        Json::Str(_) => None,
        _ => Some(mistyped_error(v, "a string")),
    }
}

/// Says what is wrong with a string that may be null.
pub fn check_optional_text(v: &Json) -> (r: Option<String>)
    ensures
        r.deep_view() == unless_null(v@, text_fault(v@)),
{
    match v {
        Json::Null => None,
        _ => check_text(v),
    }
}

/// What is wrong with a whole number that is not negative.
pub open spec fn count_fault(v: JsonV) -> Option<Seq<char>> {
    match v {
        JsonV::Number(JsonNumberV::Unsigned(_)) => None,
        JsonV::Number(JsonNumberV::Negative(_)) => Some(misvalued(v, "u64"@)),
        _ => Some(mistyped(v, "u64"@)),
    }
}

/// Says what is wrong with a whole number that is not negative.
pub fn check_count(v: &Json) -> (r: Option<String>)
    ensures
        r.deep_view() == count_fault(v@),
{
    match v {
        Json::Number(JsonNumber::Unsigned(_)) => None,
        Json::Number(JsonNumber::Negative(_)) => Some(misvalued_error(v, "u64")),
        _ => Some(mistyped_error(v, "u64")),
    }
}

/// Says what is wrong with a whole number that is not negative and may be null.
pub fn check_optional_count(v: &Json) -> (r: Option<String>)
    ensures
        r.deep_view() == unless_null(v@, count_fault(v@)),
{
    match v {
        Json::Null => None,
        _ => check_count(v),
    }
}

/// What is wrong with a list of anything.
pub open spec fn list_fault(v: JsonV) -> Option<Seq<char>> {
    if v is Array {
        None
    } else {
        Some(mistyped(v, "a sequence"@))
    }
}

/// Says what is wrong with a list of anything.
pub fn check_list(v: &Json) -> (r: Option<String>)
    ensures
        r.deep_view() == list_fault(v@),
{
    match v {
        Json::Array(_) => None,
        _ => Some(mistyped_error(v, "a sequence")),
    }
}

/// The word by which a value names one thing of several: the value itself, or the key of its only
/// member.
pub open spec fn word_of(v: JsonV) -> Option<Seq<char>> {
    match v {
        JsonV::Str(word) => Some(word),
        JsonV::Object(fields) => if fields.len() == 1 {
            Some(fields[0].0)
        } else {
            None
        },
        _ => None,
    }
}

/// The word by which a value names one thing of several.
pub fn read_word(v: &Json) -> (r: Option<&str>)
    ensures
        match r {
            Some(word) => word_of(v@) == Some(word@),
            None => word_of(v@) is None,
        },
{
    match v {
        Json::Str(word) => Some(word.as_str()),
        Json::Object(fields) => {
            if fields.len() == 1 {
                assert(fields.deep_view()[0] == (fields@[0].0@, fields@[0].1@));
                Some(fields[0].0.as_str())
            } else {
                None
            }
        },
        _ => None,
    }
}

/// What is wrong with a word, where `known` says whether it names one of the things that are
/// expected. The value of the only member is null.
pub open spec fn word_fault(v: JsonV, known: bool, expected: Seq<char>) -> Option<Seq<char>> {
    match word_of(v) {
        Some(word) => if !known {
            Some(unknown_variant(word, expected))
        } else {
            match v {
                JsonV::Object(fields) => if fields[0].1 is Null {
                    None
                } else {
                    Some(mistyped(fields[0].1, "unit"@))
                },
                _ => None,
            }
        },
        None => if v is Object {
            Some(misvalued(v, "map with a single key"@))
        } else {
            Some(mistyped(v, "string or map"@))
        },
    }
}

/// Says what is wrong with a word.
pub fn check_word(v: &Json, known: bool, expected: &str) -> (r: Option<String>)
    ensures
        r.deep_view() == word_fault(v@, known, expected@),
{
    match read_word(v) {
        Some(word) => {
            if !known {
                return Some(unknown_variant_error(word, expected));
            }
            match v {
                Json::Object(fields) => {
                    assert(fields.deep_view()[0] == (fields@[0].0@, fields@[0].1@));
                    match &fields[0].1 {
                        Json::Null => None,
                        other => Some(mistyped_error(other, "unit")),
                    }
                },
                _ => None,
            }
        },
        None => match v {
            Json::Object(_) => Some(misvalued_error(v, "map with a single key")),
            _ => Some(mistyped_error(v, "string or map")),
        },
    }
}

/// The string that a field is, or none.
pub open spec fn text_or_none(v: Option<JsonV>) -> Seq<char> {
    match text_of(v) {
        Some(text) => text,
        None => Seq::empty(),
    }
}

/// The string that a field is.
pub fn read_text(v: Option<&Json>) -> (r: Option<String>)
    ensures
        r.deep_view() == text_of(v.deep_view()),
{
    match v {
        Some(Json::Str(s)) => Some(s.clone()),
        _ => None,
    }
}

/// The string that a field is, or an empty one.
pub fn read_text_or_none(v: Option<&Json>) -> (r: String)
    ensures
        r@ == text_or_none(v.deep_view()),
{
    match v {
        Some(Json::Str(s)) => s.clone(),
        _ => String::new(),
    }
}

/// The string that a field is, with null told apart from nothing.
pub open spec fn nullable(v: Option<JsonV>) -> Option<Option<Seq<char>>> {
    match v {
        Some(JsonV::Null) => Some(None),
        Some(JsonV::Str(s)) => Some(Some(s)),
        _ => None,
    }
}

/// The string that a field is, with null told apart from nothing.
pub fn read_nullable(v: Option<&Json>) -> (r: Option<Option<String>>)
    ensures
        r.deep_view() == nullable(v.deep_view()),
{
    match v {
        Some(Json::Null) => Some(None),
        Some(Json::Str(s)) => Some(Some(s.clone())),
        _ => None,
    }
}

/// The count that a field is, or zero.
pub open spec fn count_or_zero(v: Option<JsonV>) -> u64 {
    match v {
        Some(JsonV::Number(JsonNumberV::Unsigned(n))) => n,
        _ => 0,
    }
}

/// The count that a field is, or zero.
pub fn read_count_or_zero(v: Option<&Json>) -> (r: u64)
    ensures
        r == count_or_zero(v.deep_view()),
{
    match v {
        Some(Json::Number(JsonNumber::Unsigned(n))) => *n,
        _ => 0,
    }
}

/// The flag that a field is, where it is one.
pub open spec fn flag_of(v: Option<JsonV>) -> Option<bool> {
    match v {
        Some(JsonV::Bool(b)) => Some(b),
        _ => None,
    }
}

/// The flag that a field is, where it is one.
pub fn read_flag(v: Option<&Json>) -> (r: Option<bool>)
    ensures
        r == flag_of(v.deep_view()),
{
    match v {
        Some(Json::Bool(b)) => Some(*b),
        _ => None,
    }
}

/// The items that an array holds, none where a value is no array.
pub open spec fn items_of(v: Option<JsonV>) -> Seq<JsonV> {
    match v {
        Some(JsonV::Array(items)) => items,
        _ => Seq::empty(),
    }
}

/// The items that an array holds.
pub fn read_items(v: Option<&Json>) -> (r: Vec<Json>)
    ensures
        r.deep_view() == items_of(v.deep_view()),
{
    let ghost all = items_of(v.deep_view());
    if let Some(v) = v {
        if let Some(items) = v.as_array() {
            let r = items.clone();
            assert(r.deep_view() =~= all);
            return r;
        }
    }
    let r: Vec<Json> = Vec::new();
    assert(r.deep_view() =~= all);
    r
}

} // verus!
