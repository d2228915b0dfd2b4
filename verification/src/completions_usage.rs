//! The usage of a chat-completions turn, counted as JavaScript counts.
use crate::completions_chunks::{RawUsage, RawUsageV};
use crate::text::{concat, decimal, find_char, position, to_chars, to_decimal};
use crate::types::{Usage, UsageV, UsageValue, UsageValueV};
use vstd::prelude::*;

verus! {

/// The largest whole number up to which JavaScript counts without a gap.
pub const MAX_SAFE_COUNT: u64 = 9007199254740992;

/// Whether a count is not zero and not empty.
pub open spec fn counts(v: UsageValueV) -> bool {
    match v {
        UsageValueV::Count(n) => n != 0,
        UsageValueV::Fraction(_) => true,
        UsageValueV::Text(s) => s.len() > 0,
    }
}

/// A count, or zero where there is none that counts.
pub open spec fn or_zero(v: Option<UsageValueV>) -> UsageValueV {
    match v {
        Some(v) => if counts(v) {
            v
        } else {
            UsageValueV::Count(0)
        },
        None => UsageValueV::Count(0),
    }
}

fn js_or_zero(v: &Option<UsageValue>) -> (r: UsageValue)
    ensures
        r@ == or_zero(v.deep_view()),
{
    match v {
        Some(v) => {
            let counted = match v {
                UsageValue::Count(n) => *n != 0,
                UsageValue::Fraction(_) => true,
                UsageValue::Text(s) => !s.as_str().is_empty(),
            };
            if counted {
                v.clone()
            } else {
                UsageValue::Count(0)
            }
        },
        None => UsageValue::Count(0),
    }
}

/// The cached tokens that a chunk reports, in the first of the places where they may stand.
pub open spec fn cached(raw: RawUsageV) -> UsageValueV {
    let detailed = match raw.prompt_tokens_details {
        Some(details) => details.cached_tokens,
        None => None,
    };
    match (detailed, raw.prompt_cache_hit_tokens, raw.cached_tokens) {
        (Some(v), _, _) => v,
        (None, Some(v), _) => v,
        (None, None, Some(v)) => v,
        (None, None, None) => UsageValueV::Count(0),
    }
}

fn find_cached(raw: &RawUsage) -> (r: UsageValue)
    ensures
        r@ == cached(raw@),
{
    if let Some(details) = &raw.prompt_tokens_details {
        if let Some(v) = &details.cached_tokens {
            return v.clone();
        }
    }
    if let Some(v) = &raw.prompt_cache_hit_tokens {
        return v.clone();
    }
    if let Some(v) = &raw.cached_tokens {
        return v.clone();
    }
    UsageValue::Count(0)
}

/// Whether a decimal text is written as JavaScript writes the number.
pub open spec fn plain_decimal(text: Seq<char>) -> bool {
    position(text, 'e') == text.len() && position(text, 'E') == text.len()
}

fn is_plain_decimal(text: &str) -> (r: bool)
    ensures
        r == plain_decimal(text@),
{
    let v = to_chars(text);
    find_char(&v, 'e') == v.len() && find_char(&v, 'E') == v.len()
}

/// The tokens of a prompt that were neither read from a cache nor written to one, and never fewer
/// than none. None is given where that takes fractions or numbers that are no longer exact.
pub open spec fn fresh_input(
    prompt: UsageValueV,
    read: UsageValueV,
    write: UsageValueV,
) -> Option<UsageValueV> {
    match (prompt, read, write) {
        (UsageValueV::Count(p), UsageValueV::Count(r), UsageValueV::Count(w)) => if p
            <= MAX_SAFE_COUNT && r <= MAX_SAFE_COUNT && w <= MAX_SAFE_COUNT && r + w
            <= MAX_SAFE_COUNT {
            Some(
                UsageValueV::Count(
                    if p >= r + w {
                        (p - r - w) as u64
                    } else {
                        0
                    },
                ),
            )
        } else {
            None
        },
        (UsageValueV::Fraction(text), UsageValueV::Count(r), UsageValueV::Count(w)) => if r == 0
            && w == 0 && plain_decimal(text) {
            if text.len() > 0 && text[0] == '-' {
                Some(UsageValueV::Count(0))
            } else {
                Some(prompt)
            }
        } else {
            None
        },
        _ => None,
    }
}

fn subtract_cached(prompt: &UsageValue, read: &UsageValue, write: &UsageValue) -> (r: Option<
    UsageValue,
>)
    ensures
        r.deep_view() == fresh_input(prompt@, read@, write@),
{
    match (prompt, read, write) {
        (UsageValue::Count(p), UsageValue::Count(r), UsageValue::Count(w)) => {
            if *p > MAX_SAFE_COUNT || *r > MAX_SAFE_COUNT || *w > MAX_SAFE_COUNT || *w
                > MAX_SAFE_COUNT - *r {
                return None;
            }
            let cached: u64 = *r + *w;
            Some(
                UsageValue::Count(
                    if *p >= cached {
                        *p - cached
                    } else {
                        0
                    },
                ),
            )
        },
        (UsageValue::Fraction(text), UsageValue::Count(r), UsageValue::Count(w)) => {
            if *r != 0 || *w != 0 || !is_plain_decimal(text.as_str()) {
                return None;
            }
            let v = to_chars(text.as_str());
            if v.len() > 0 && v[0] == '-' {
                Some(UsageValue::Count(0))
            } else {
                Some(prompt.clone())
            }
        },
        _ => None,
    }
}

/// A count as JavaScript writes it.
pub open spec fn count_text(v: UsageValueV) -> Option<Seq<char>> {
    match v {
        UsageValueV::Count(n) => if n <= MAX_SAFE_COUNT {
            Some(decimal(n as nat))
        } else {
            None
        },
        UsageValueV::Fraction(text) => if plain_decimal(text) {
            Some(text)
        } else {
            None
        },
        UsageValueV::Text(text) => Some(text),
    }
}

fn write_count(v: &UsageValue) -> (r: Option<String>)
    ensures
        r.deep_view() == count_text(v@),
{
    match v {
        UsageValue::Count(n) => if *n <= MAX_SAFE_COUNT {
            Some(to_decimal(*n))
        } else {
            None
        },
        UsageValue::Fraction(text) => if is_plain_decimal(text.as_str()) {
            Some(text.clone())
        } else {
            None
        },
        UsageValue::Text(text) => Some(text.clone()),
    }
}

/// What JavaScript's `+` makes of two counts: a sum, or, where one of them is a string, their texts
/// one behind the other. None is given where that takes fractions or numbers that are no longer
/// exact.
pub open spec fn added(a: UsageValueV, b: UsageValueV) -> Option<UsageValueV> {
    match (a, b) {
        (UsageValueV::Count(x), UsageValueV::Count(y)) => if x + y <= MAX_SAFE_COUNT {
            Some(UsageValueV::Count((x + y) as u64))
        } else {
            None
        },
        (UsageValueV::Fraction(_), UsageValueV::Count(y)) => if y == 0 {
            Some(a)
        } else {
            None
        },
        (UsageValueV::Count(x), UsageValueV::Fraction(_)) => if x == 0 {
            Some(b)
        } else {
            None
        },
        (UsageValueV::Fraction(_), UsageValueV::Fraction(_)) => None,
        _ => match (count_text(a), count_text(b)) {
            (Some(s), Some(t)) => Some(UsageValueV::Text(s + t)),
            _ => None,
        },
    }
}

fn js_add(a: &UsageValue, b: &UsageValue) -> (r: Option<UsageValue>)
    ensures
        r.deep_view() == added(a@, b@),
{
    match (a, b) {
        (UsageValue::Count(x), UsageValue::Count(y)) => if *x <= MAX_SAFE_COUNT && *y
            <= MAX_SAFE_COUNT - *x {
            Some(UsageValue::Count(*x + *y))
        } else {
            None
        },
        (UsageValue::Fraction(_), UsageValue::Count(y)) => if *y == 0 {
            Some(a.clone())
        } else {
            None
        },
        (UsageValue::Count(x), UsageValue::Fraction(_)) => if *x == 0 {
            Some(b.clone())
        } else {
            None
        },
        (UsageValue::Fraction(_), UsageValue::Fraction(_)) => None,
        _ => match (write_count(a), write_count(b)) {
            (Some(s), Some(t)) => Some(UsageValue::Text(concat(s.as_str(), t.as_str()))),
            _ => None,
        },
    }
}

/// The sum of four counts, from the left.
pub open spec fn total(
    a: UsageValueV,
    b: UsageValueV,
    c: UsageValueV,
    d: UsageValueV,
) -> Option<UsageValueV> {
    match added(a, b) {
        Some(ab) => match added(ab, c) {
            Some(abc) => added(abc, d),
            None => None,
        },
        None => None,
    }
}

/// The tokens that a chunk reports as written to a cache.
pub open spec fn written(raw: RawUsageV) -> UsageValueV {
    or_zero(
        match raw.prompt_tokens_details {
            Some(details) => details.cache_write_tokens,
            None => None,
        },
    )
}

/// What [`parse_chunk_usage`] returns.
pub open spec fn chunk_usage(raw: RawUsageV) -> Option<UsageV> {
    let prompt = or_zero(raw.prompt_tokens);
    let read = cached(raw);
    let write = written(raw);
    let output = or_zero(raw.completion_tokens);
    let reasoning = or_zero(
        match raw.completion_tokens_details {
            Some(details) => details.reasoning_tokens,
            None => None,
        },
    );
    match fresh_input(prompt, read, write) {
        Some(input) => match total(input, output, read, write) {
            Some(total_tokens) => Some(
                UsageV {
                    input,
                    output,
                    cache_read: read,
                    cache_write: write,
                    reasoning: Some(reasoning),
                    total_tokens,
                },
            ),
            None => None,
        },
        None => None,
    }
}

/// The usage that a chunk reports. None where it takes fractions or numbers that are no longer
/// exact.
pub fn parse_chunk_usage(raw: &RawUsage) -> (r: Option<Usage>)
    ensures
        r.deep_view() == chunk_usage(raw@),
{
    let prompt = js_or_zero(&raw.prompt_tokens);
    let read = find_cached(raw);
    let write = match &raw.prompt_tokens_details {
        Some(details) => js_or_zero(&details.cache_write_tokens),
        None => UsageValue::Count(0),
    };
    let output = js_or_zero(&raw.completion_tokens);
    let reasoning = match &raw.completion_tokens_details {
        Some(details) => js_or_zero(&details.reasoning_tokens),
        None => UsageValue::Count(0),
    };
    let input = match subtract_cached(&prompt, &read, &write) {
        Some(input) => input,
        None => {
            return None;
        },
    };
    let sum = match js_add(&input, &output) {
        Some(sum) => sum,
        None => {
            return None;
        },
    };
    let sum = match js_add(&sum, &read) {
        Some(sum) => sum,
        None => {
            return None;
        },
    };
    match js_add(&sum, &write) {
        Some(total_tokens) => Some(
            Usage {
                input,
                output,
                cache_read: read,
                cache_write: write,
                reasoning: Some(reasoning),
                total_tokens,
            },
        ),
        None => None,
    }
}

/// Of whole counts that are small enough the parts add up to the total, and the prompt to its parts
/// where those are no more than it.
pub proof fn law_usage_adds_up(
    raw: RawUsageV,
    prompt: u64,
    output: u64,
    read: u64,
    write: u64,
)
    requires
        or_zero(raw.prompt_tokens) == UsageValueV::Count(prompt),
        or_zero(raw.completion_tokens) == UsageValueV::Count(output),
        cached(raw) == UsageValueV::Count(read),
        written(raw) == UsageValueV::Count(write),
        prompt + output + read + write <= MAX_SAFE_COUNT,
    ensures
        chunk_usage(raw) matches Some(usage) && usage.input matches UsageValueV::Count(input)
            && usage.total_tokens == UsageValueV::Count(
            (input + output + read + write) as u64,
        ) && (read + write <= prompt ==> input + read + write == prompt),
{
}

} // verus!
