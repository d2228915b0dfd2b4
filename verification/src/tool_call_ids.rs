//! Tool-call identifiers in the forms that the APIs accept.
use crate::assoc;
use crate::assoc::{lookup, put};
use crate::hash::{hashed, short_hash};
use crate::id_laws::law_mistral_candidate;
use crate::text::{
    after, before, begins, char_units, decimal, first_chars, same, split_once, starts_with,
    take_chars, to_chars, to_decimal, to_units, trim_end, trim_end_matches, units,
};
use crate::types::{AssistantMessage, AssistantMessageV, Model, ModelV};
use vstd::prelude::*;

verus! {

/// The length of an identifier that Mistral accepts.
pub const MISTRAL_TOOL_CALL_ID_LENGTH: usize = 9;

/// Whether a UTF-16 unit is an ASCII letter or digit.
pub open spec fn alphanumeric_unit(u: u16) -> bool {
    48 <= u <= 57 || 65 <= u <= 90 || 97 <= u <= 122
}

/// Whether a UTF-16 unit may stand in an identifier: a letter, a digit, `-` or `_`.
pub open spec fn id_unit(u: u16) -> bool {
    alphanumeric_unit(u) || u == 45 || u == 95
}

/// Whether a character may stand in an identifier.
pub open spec fn id_char(c: char) -> bool {
    (c as u32) < 128 && id_unit((c as u32) as u16)
}

/// The identifier character for a UTF-16 unit.
pub open spec fn id_char_of(u: u16) -> char {
    if id_unit(u) {
        u as char
    } else {
        '_'
    }
}

/// A string with each UTF-16 unit that may not stand in an identifier made a `_`.
pub open spec fn sanitized(s: Seq<char>) -> Seq<char> {
    units(s).map_values(|u: u16| id_char_of(u))
}

fn sanitize_id_part(s: &str) -> (r: String)
    ensures
        r@ == sanitized(s@),
{
    let u = to_units(s);
    let mut r = String::new();
    let mut i: usize = 0;
    while i < u.len()
        invariant
            u@ == units(s@),
            i <= u@.len(),
            r@ == sanitized(s@).take(i as int),
        decreases u@.len() - i,
    {
        let unit: u16 = u[i];
        let c: char = if (48 <= unit && unit <= 57) || (65 <= unit && unit <= 90) || (97 <= unit
            && unit <= 122) || unit == 45 || unit == 95 {
            (unit as u8) as char
        } else {
            '_'
        };
        r.push(c);
        assert(sanitized(s@).take(i + 1) =~= sanitized(s@).take(i as int).push(c));
        i += 1;
    }
    assert(sanitized(s@).take(i as int) =~= sanitized(s@));
    r
}

/// A string as an identifier of at most sixty-four characters.
pub open spec fn anthropic_id(id: Seq<char>) -> Seq<char> {
    first_chars(sanitized(id), 64)
}

/// Turns an identifier into one that Anthropic accepts.
pub fn normalize_anthropic_tool_call_id(id: &str) -> (r: String)
    ensures
        r@ == anthropic_id(id@),
{
    let s = sanitize_id_part(id);
    take_chars(s.as_str(), 64)
}

/// The longest beginning of `s` with at most `room` UTF-16 units.
pub open spec fn units_prefix(s: Seq<char>, room: nat) -> Seq<char>
    decreases s.len(),
{
    if s.len() == 0 || char_units(s[0]).len() > room {
        Seq::empty()
    } else {
        seq![s[0]] + units_prefix(s.drop_first(), (room - char_units(s[0]).len()) as nat)
    }
}

fn take_utf16(s: &str, maximum: usize) -> (r: String)
    ensures
        r@ == units_prefix(s@, maximum as nat),
{
    let v = to_chars(s);
    let mut r = String::new();
    let mut room: usize = maximum;
    let mut i: usize = 0;
    assert(s@.skip(0) =~= s@);
    assert(units_prefix(s@, maximum as nat) =~= r@ + units_prefix(s@.skip(0), room as nat));
    while i < v.len()
        invariant
            v@ == s@,
            i <= v@.len(),
            units_prefix(s@, maximum as nat) == r@ + units_prefix(s@.skip(i as int), room as nat),
        decreases v@.len() - i,
    {
        let c: char = v[i];
        let n: usize = if (c as u32) < 0x10000 {
            1
        } else {
            2
        };
        assert(char_units(c).len() == n);
        assert(s@.skip(i as int)[0] == c);
        if n > room {
            assert(units_prefix(s@.skip(i as int), room as nat) =~= Seq::empty());
            assert(r@ + Seq::<char>::empty() =~= r@);
            return r;
        }
        assert(s@.skip(i as int).drop_first() =~= s@.skip(i + 1));
        assert(r@ + (seq![c] + units_prefix(s@.skip(i + 1), (room - n) as nat)) =~= r@.push(c)
            + units_prefix(s@.skip(i + 1), (room - n) as nat));
        r.push(c);
        room -= n;
        i += 1;
    }
    assert(s@.skip(i as int) =~= Seq::empty());
    assert(r@ + units_prefix(s@.skip(i as int), room as nat) =~= r@);
    r
}

/// The identifier that a chat-completions request carries. One made of two parts is joined, and
/// cut to a part of the first and a hash where it is longer than forty characters.
pub open spec fn completions_id(id: Seq<char>, provider: Seq<char>) -> Seq<char> {
    match after(id, '|') {
        Some(rest) => {
            let call = sanitized(before(id, '|'));
            let item = sanitized(rest);
            let combined = if item.len() == 0 {
                call
            } else {
                call + "_"@ + item
            };
            if combined.len() <= 40 {
                combined
            } else {
                let hash = first_chars(hashed(id), 8);
                first_chars(call, (39 - hash.len()) as nat) + "_"@ + hash
            }
        },
        None => if provider == "openai"@ {
            units_prefix(id, 40)
        } else {
            id
        },
    }
}

/// Turns an identifier into one that a chat-completions provider accepts.
pub fn normalize_open_ai_completions_tool_call_id(id: &str, model: &Model) -> (r: String)
    ensures
        r@ == completions_id(id@, model@.provider),
{
    let (head, rest) = split_once(id, '|');
    match rest {
        Some(rest) => {
            let call = sanitize_id_part(head.as_str());
            let item = sanitize_id_part(rest.as_str());
            let mut combined = call.clone();
            if !item.as_str().is_empty() {
                combined.push_str("_");
                combined.push_str(item.as_str());
            }
            if to_chars(combined.as_str()).len() <= 40 {
                return combined;
            }
            let whole = short_hash(id);
            let hash = take_chars(whole.as_str(), 8);
            let n: usize = to_chars(hash.as_str()).len();
            let mut r = take_chars(call.as_str(), 39 - n);
            r.push_str("_");
            r.push_str(hash.as_str());
            r
        },
        None => {
            if same(model.provider.as_str(), "openai") {
                take_utf16(id, 40)
            } else {
                id.to_owned()
            }
        },
    }
}

/// A string as a part of a Responses identifier.
pub open spec fn responses_part(part: Seq<char>) -> Seq<char> {
    trim_end(first_chars(sanitized(part), 64), '_')
}

fn normalize_responses_id_part(part: &str) -> (r: String)
    ensures
        r@ == responses_part(part@),
{
    let s = sanitize_id_part(part);
    let cut = take_chars(s.as_str(), 64);
    trim_end_matches(cut.as_str(), '_')
}

/// The item part of a Responses identifier.
pub open spec fn responses_item(item: Seq<char>, foreign: bool) -> Seq<char> {
    let normalized = if foreign {
        first_chars("fc_"@ + hashed(item), 64)
    } else {
        responses_part(item)
    };
    if begins(normalized, "fc_"@) {
        normalized
    } else {
        responses_part("fc_"@ + normalized)
    }
}

/// The identifier that a Responses request carries. Only some providers take one made of a call
/// and an item; the item of another provider or API is replaced by its hash.
pub open spec fn responses_id(
    id: Seq<char>,
    model: ModelV,
    source: AssistantMessageV,
    allowed: Seq<Seq<char>>,
) -> Seq<char> {
    match after(id, '|') {
        Some(rest) => if allowed.contains(model.provider) {
            responses_part(before(id, '|')) + "|"@ + responses_item(
                before(rest, '|'),
                source.provider != model.provider || source.api != model.api,
            )
        } else {
            responses_part(id)
        },
        None => responses_part(id),
    }
}

/// Whether `names` holds `name`.
pub fn contains_name(names: &Vec<String>, name: &str) -> (r: bool)
    ensures
        r == names.deep_view().contains(name@),
{
    let mut i: usize = 0;
    while i < names.len()
        invariant
            i <= names@.len(),
            forall|k: int| 0 <= k < i ==> names.deep_view()[k] != name@,
        decreases names@.len() - i,
    {
        if same(names[i].as_str(), name) {
            assert(names.deep_view()[i as int] == name@);
            return true;
        }
        i += 1;
    }
    false
}

/// Turns an identifier into one that a Responses provider accepts.
pub fn normalize_responses_tool_call_id(
    id: &str,
    model: &Model,
    source: &AssistantMessage,
    allowed_tool_call_providers: &Vec<String>,
) -> (r: String)
    ensures
        r@ == responses_id(id@, model@, source@, allowed_tool_call_providers.deep_view()),
{
    if !contains_name(allowed_tool_call_providers, model.provider.as_str()) {
        return normalize_responses_id_part(id);
    }
    let (call, rest) = split_once(id, '|');
    let rest = match rest {
        Some(rest) => rest,
        None => {
            return normalize_responses_id_part(id);
        },
    };
    let (item, _) = split_once(rest.as_str(), '|');
    let mut r = normalize_responses_id_part(call.as_str());
    let foreign = !same(source.provider.as_str(), model.provider.as_str()) || !same(
        source.api.as_str(),
        model.api.as_str(),
    );
    let mut normalized = if foreign {
        let mut s = "fc_".to_owned();
        let hash = short_hash(item.as_str());
        s.push_str(hash.as_str());
        take_chars(s.as_str(), 64)
    } else {
        normalize_responses_id_part(item.as_str())
    };
    if !starts_with(normalized.as_str(), "fc_") {
        let mut s = "fc_".to_owned();
        s.push_str(normalized.as_str());
        normalized = normalize_responses_id_part(s.as_str());
    }
    r.push_str("|");
    r.push_str(normalized.as_str());
    r
}

/// Whether a character is an ASCII letter or digit.
pub open spec fn alphanumeric(c: char) -> bool {
    ('0' <= c && c <= '9') || ('A' <= c && c <= 'Z') || ('a' <= c && c <= 'z')
}

/// The ASCII letters and digits of a string.
pub open spec fn alphanumerics(s: Seq<char>) -> Seq<char>
    decreases s.len(),
{
    if s.len() == 0 {
        Seq::empty()
    } else if alphanumeric(s.last()) {
        alphanumerics(s.drop_last()).push(s.last())
    } else {
        alphanumerics(s.drop_last())
    }
}

fn keep_alphanumerics(s: &str) -> (r: String)
    ensures
        r@ == alphanumerics(s@),
{
    let v = to_chars(s);
    let mut r = String::new();
    let mut i: usize = 0;
    assert(s@.take(0) =~= Seq::empty());
    while i < v.len()
        invariant
            v@ == s@,
            i <= v@.len(),
            r@ == alphanumerics(s@.take(i as int)),
        decreases v@.len() - i,
    {
        let c: char = v[i];
        assert(s@.take(i + 1).drop_last() =~= s@.take(i as int));
        if ('0' <= c && c <= '9') || ('A' <= c && c <= 'Z') || ('a' <= c && c <= 'z') {
            r.push(c);
        }
        i += 1;
    }
    assert(s@.take(i as int) =~= s@);
    r
}

/// The identifier that is tried for Mistral at the given attempt.
pub open spec fn mistral_candidate(id: Seq<char>, attempt: nat) -> Seq<char> {
    let normalized = alphanumerics(id);
    if attempt == 0 && normalized.len() == MISTRAL_TOOL_CALL_ID_LENGTH {
        normalized
    } else {
        let base = if normalized.len() == 0 {
            id
        } else {
            normalized
        };
        let seed = if attempt == 0 {
            base
        } else {
            base + ":"@ + decimal(attempt)
        };
        first_chars(alphanumerics(hashed(seed)), MISTRAL_TOOL_CALL_ID_LENGTH as nat)
    }
}

fn derive_mistral_tool_call_id(id: &str, attempt: u64) -> (r: String)
    ensures
        r@ == mistral_candidate(id@, attempt as nat),
{
    let normalized = keep_alphanumerics(id);
    if attempt == 0 && to_chars(normalized.as_str()).len() == MISTRAL_TOOL_CALL_ID_LENGTH {
        return normalized;
    }
    let mut seed = if normalized.as_str().is_empty() {
        id.to_owned()
    } else {
        normalized
    };
    if attempt != 0 {
        let number = to_decimal(attempt);
        seed.push_str(":");
        seed.push_str(number.as_str());
    }
    let hash = short_hash(seed.as_str());
    let kept = keep_alphanumerics(hash.as_str());
    take_chars(kept.as_str(), MISTRAL_TOOL_CALL_ID_LENGTH)
}

/// Whether an identifier is at most nine letters and digits.
pub open spec fn mistral_form(id: Seq<char>) -> bool {
    &&& id.len() <= MISTRAL_TOOL_CALL_ID_LENGTH
    &&& forall|i: int| 0 <= i < id.len() ==> alphanumeric(#[trigger] id[i])
}

/// Gives each identifier one of its own that Mistral accepts.
#[derive(Debug)]
pub struct MistralToolCallIdNormalizer {
    id_map: Vec<(String, String)>,
    reverse_map: Vec<(String, String)>,
}

/// The model of [`MistralToolCallIdNormalizer`].
pub struct MistralIdsV {
    /// The identifiers with what they were given.
    pub given: Seq<(Seq<char>, Seq<char>)>,
    /// What was given, with whom it was given to.
    pub owners: Seq<(Seq<char>, Seq<char>)>,
}

impl View for MistralToolCallIdNormalizer {
    type V = MistralIdsV;

    closed spec fn view(&self) -> MistralIdsV {
        MistralIdsV { given: self.id_map.deep_view(), owners: self.reverse_map.deep_view() }
    }
}

impl MistralIdsV {
    /// What `id` was given.
    pub open spec fn assigned(self, id: Seq<char>) -> Option<Seq<char>> {
        lookup(self.given, id)
    }

    /// Whom `candidate` was given to.
    pub open spec fn owner(self, candidate: Seq<char>) -> Option<Seq<char>> {
        lookup(self.owners, candidate)
    }

    /// Each identifier owns what it was given, and was given what it owns; that is at most nine
    /// letters and digits.
    pub open spec fn wf(self) -> bool {
        &&& forall|id: Seq<char>, candidate: Seq<char>|
            (#[trigger] self.assigned(id) == Some(candidate)) <==> (#[trigger] self.owner(candidate)
                == Some(id))
        &&& forall|id: Seq<char>|
            (#[trigger] self.assigned(id) matches Some(candidate) ==> mistral_form(candidate))
    }

    /// Whether the identifier of `attempt` can be given to `id`: nobody else has it.
    pub open spec fn free(self, id: Seq<char>, attempt: nat) -> bool {
        match self.owner(mistral_candidate(id, attempt)) {
            Some(owner) => owner == id,
            None => true,
        }
    }
}

/// The first attempt from `attempt` on that is free, among those that a `u64` counts.
pub open spec fn first_free(ids: MistralIdsV, id: Seq<char>, attempt: nat) -> Option<nat>
    decreases u64::MAX - attempt,
{
    if attempt >= u64::MAX {
        None
    } else if ids.free(id, attempt) {
        Some(attempt)
    } else {
        first_free(ids, id, attempt + 1)
    }
}

/// What `id` is given: what it was given before, else the first attempt that is free.
pub open spec fn mistral_choice(ids: MistralIdsV, id: Seq<char>) -> Option<Seq<char>> {
    match ids.assigned(id) {
        Some(given) => Some(given),
        None => match first_free(ids, id, 0) {
            Some(attempt) => Some(mistral_candidate(id, attempt)),
            None => None,
        },
    }
}

/// What is remembered once `id` has been given its identifier.
pub open spec fn mistral_noted(ids: MistralIdsV, id: Seq<char>) -> MistralIdsV {
    match (ids.assigned(id), mistral_choice(ids, id)) {
        (None, Some(given)) => MistralIdsV {
            given: put(ids.given, id, given),
            owners: put(ids.owners, given, id),
        },
        _ => ids,
    }
}

impl Default for MistralToolCallIdNormalizer {
    fn default() -> (r: Self)
        ensures
            r@ == (MistralIdsV { given: Seq::empty(), owners: Seq::empty() }),
            r@.wf(),
    {
        let r = MistralToolCallIdNormalizer { id_map: Vec::new(), reverse_map: Vec::new() };
        assert(r.id_map.deep_view() =~= Seq::empty());
        assert(r.reverse_map.deep_view() =~= Seq::empty());
        r
    }
}

impl MistralToolCallIdNormalizer {
    /// Gives `id` an identifier of at most nine letters and digits, the same one each time and none
    /// that another one has. There is none only if every attempt that a `u64` counts is taken.
    pub fn normalize(&mut self, id: &str) -> (r: Option<String>)
        ensures
            r.deep_view() == mistral_choice(old(self)@, id@),
            final(self)@ == mistral_noted(old(self)@, id@),
            old(self)@.wf() ==> final(self)@.wf(),
    {
        let known = assoc::get(&self.id_map, id);
        if let Some(existing) = known {
            return Some(existing.clone());
        }
        let mut attempt: u64 = 0;
        while attempt < u64::MAX
            invariant
                *self == *old(self),
                self@.assigned(id@) is None,
                first_free(self@, id@, 0) == first_free(self@, id@, attempt as nat),
            decreases u64::MAX - attempt,
        {
            let candidate = derive_mistral_tool_call_id(id, attempt);
            let free = match assoc::get(&self.reverse_map, candidate.as_str()) {
                Some(owner) => same(owner.as_str(), id),
                None => true,
            };
            if free {
                assert(self@.free(id@, attempt as nat));
                assoc::insert(&mut self.id_map, id.to_owned(), candidate.clone());
                assoc::insert(&mut self.reverse_map, candidate.clone(), id.to_owned());
                proof {
                    if old(self)@.wf() {
                        lemma_noted_wf(old(self)@, id@, attempt as nat);
                    }
                }
                return Some(candidate);
            }
            assert(!self@.free(id@, attempt as nat));
            attempt += 1;
        }
        None
    }
}

proof fn lemma_noted_wf(ids: MistralIdsV, id: Seq<char>, attempt: nat)
    requires
        ids.wf(),
        ids.assigned(id) is None,
        ids.free(id, attempt),
    ensures
        (MistralIdsV {
            given: put(ids.given, id, mistral_candidate(id, attempt)),
            owners: put(ids.owners, mistral_candidate(id, attempt), id),
        }).wf(),
{
    let candidate = mistral_candidate(id, attempt);
    let after = MistralIdsV {
        given: put(ids.given, id, candidate),
        owners: put(ids.owners, candidate, id),
    };
    law_mistral_candidate(id, attempt);
    assert(ids.owner(candidate) is None) by {
        if ids.owner(candidate) is Some {
            assert(ids.assigned(id) == Some(candidate) <==> ids.owner(candidate) == Some(id));
        }
    }
    assert forall|i: Seq<char>| #[trigger]
        after.assigned(i) == if i == id {
            Some(candidate)
        } else {
            ids.assigned(i)
        } by {
        assoc::lemma_put(ids.given, id, candidate, i);
    }
    assert forall|c: Seq<char>| #[trigger]
        after.owner(c) == if c == candidate {
            Some(id)
        } else {
            ids.owner(c)
        } by {
        assoc::lemma_put(ids.owners, candidate, id, c);
    }
    assert forall|i: Seq<char>, c: Seq<char>|
        (#[trigger] after.assigned(i) == Some(c)) <==> (#[trigger] after.owner(c) == Some(i)) by {
        assert((ids.assigned(i) == Some(c)) <==> (ids.owner(c) == Some(i)));
        assert(ids.assigned(id) == Some(c) <==> ids.owner(c) == Some(id));
        assert(ids.assigned(i) == Some(candidate) <==> ids.owner(candidate) == Some(i));
    }
}

/// No two identifiers are given the same one.
pub proof fn law_mistral_ids_are_distinct(
    ids: MistralIdsV,
    a: Seq<char>,
    b: Seq<char>,
)
    requires
        ids.wf(),
        ids.assigned(a) is Some,
        ids.assigned(a) == ids.assigned(b),
    ensures
        a == b,
{
    let given = ids.assigned(a)->Some_0;
    assert(ids.assigned(a) == Some(given));
    assert(ids.assigned(b) == Some(given));
    assert(ids.owner(given) == Some(a));
    assert(ids.owner(given) == Some(b));
}

/// What an identifier was given it is given again, whoever came in between.
pub proof fn law_mistral_ids_stay(ids: MistralIdsV, id: Seq<char>, other: Seq<char>)
    requires
        mistral_choice(ids, id) is Some,
    ensures
        mistral_choice(mistral_noted(mistral_noted(ids, id), other), id) == mistral_choice(ids, id),
{
    let once = mistral_noted(ids, id);
    if ids.assigned(id) is None {
        assoc::lemma_put(ids.given, id, mistral_choice(ids, id)->Some_0, id);
    }
    assert(once.assigned(id) == mistral_choice(ids, id));
    if once.assigned(other) is None {
        if let Some(given) = mistral_choice(once, other) {
            assoc::lemma_put(once.given, other, given, id);
        }
    }
}

} // verus!
