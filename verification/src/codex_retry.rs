//! Which failures of a Codex request are worth another attempt, and what its tiers cost.
use crate::openai_responses::{service_tier_cost_multiplier, tier_tenths};
use crate::openai_responses_shared::ResponseServiceTier;
use crate::text::{lowered, matches_at, part_at, to_chars, to_lower};
use crate::types::Model;
use vstd::prelude::*;

verus! {

/// Whether a character ends no line and is one unit of UTF-16.
pub open spec fn one_unit(c: char) -> bool {
    c != '\n' && c != '\r' && c != '\u{2028}' && c != '\u{2029}' && (c as u32) < 0x10000
}

/// Whether `a` stands at `i` and `b` behind it, with one character between them at most.
pub open spec fn loosely_at(text: Seq<char>, a: Seq<char>, b: Seq<char>, i: int) -> bool {
    let next = i + a.len();
    part_at(text, a, i) && (part_at(text, b, next) || (next < text.len() && one_unit(text[next])
        && part_at(text, b, next + 1)))
}

/// Whether `a` and `b` stand in a text, one behind the other, with one character between them at
/// most.
pub open spec fn loosely(text: Seq<char>, a: Seq<char>, b: Seq<char>) -> bool {
    exists|i: int| 0 <= i <= text.len() && #[trigger] loosely_at(text, a, b, i)
}

fn is_one_unit(c: char) -> (r: bool)
    ensures
        r == one_unit(c),
{
    c != '\n' && c != '\r' && c != '\u{2028}' && c != '\u{2029}' && (c as u32) < 0x10000
}

fn has_loosely(text: &Vec<char>, a: &str, b: &str) -> (r: bool)
    ensures
        r == loosely(text@, a@, b@),
{
    let front = to_chars(a);
    let back = to_chars(b);
    let mut i: usize = 0;
    let mut more = true;
    while more
        invariant
            front@ == a@,
            back@ == b@,
            i <= text@.len(),
            forall|k: int| 0 <= k < i ==> !#[trigger] loosely_at(text@, a@, b@, k),
            !more ==> i == text@.len() && !loosely_at(text@, a@, b@, i as int),
        decreases
            text@.len() - i,
            if more {
                1int
            } else {
                0
            },
    {
        if matches_at(text, &front, i) {
            assert(i + front@.len() <= text.len());
            let next: usize = i + front.len();
            if matches_at(text, &back, next) {
                assert(loosely_at(text@, a@, b@, i as int));
                return true;
            }
            if next < text.len() && is_one_unit(text[next]) && matches_at(text, &back, next + 1) {
                assert(loosely_at(text@, a@, b@, i as int));
                return true;
            }
        }
        assert(!loosely_at(text@, a@, b@, i as int));
        if i < text.len() {
            i += 1;
        } else {
            more = false;
        }
    }
    false
}

/// Whether a response with a status and a text is worth another attempt.
pub open spec fn retryable(status: u64, text: Seq<char>) -> bool {
    ||| status == 429 || status == 500 || status == 502 || status == 503 || status == 504
    ||| loosely(lowered(text), "rate"@, "limit"@)
    ||| loosely(lowered(text), "connection"@, "refused"@)
}

/// Whether a response with a status and a text is worth another attempt.
pub fn is_retryable_error(status: u64, text: &str) -> (r: bool)
    ensures
        r == retryable(status, text@),
{
    if status == 429 || status == 500 || status == 502 || status == 503 || status == 504 {
        return true;
    }
    let lower = to_lower(text);
    let v = to_chars(lower.as_str());
    has_loosely(&v, "rate", "limit") || has_loosely(&v, "connection", "refused")
}

/// What a tier costs, in tenths of the price of the default one.
pub fn service_tier_multiplier(model: &Model, tier: &Option<ResponseServiceTier>) -> (r: u64)
    ensures
        r == tier_tenths(model@, tier.deep_view()),
{
    service_tier_cost_multiplier(model, tier)
}

} // verus!
