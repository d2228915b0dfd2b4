//! What the small operations on texts, identifiers and streams of bytes come to.
use crate::assoc::lookup;
use crate::constrained_sampling::input_delta;
use crate::error_laws::lemma_digits_value;
use crate::hash::{hashed, mix_all};
use crate::id_laws::{
    is_id, law_anthropic_id, law_completions_id_of_two_parts, law_responses_part,
};
use crate::json::{json_parse, json_text, member, same_value, JsonNumberV, JsonV};
use crate::openai_sse::{first_line, joined_lines, line_length, read_line, SseDecoderV};
use crate::order::less;
use crate::text::{
    after, begins, blank, char_units, decimal, digit, digits, ends, first_chars, has_part, lemma_position,
    lower, lowered, part_at, trim_left, trim_right, trimmed, units, white_space,
};
use crate::text_signature::signature_parts;
use crate::tool_call_ids::{
    alphanumeric, anthropic_id, completions_id, first_free, id_char, mistral_candidate,
    mistral_choice, responses_id, responses_item, responses_part, sanitized, units_prefix,
    MistralIdsV,
};
use crate::types::{AssistantMessageV, ModelV, TextSignaturePhase};
use vstd::prelude::*;

verus! {

/// The characters that are white space.
pub proof fn law_white_space(c: char)
    ensures
        white_space(c) <==> {
            ||| c == '\t' || c == '\n' || c == '\u{b}' || c == '\u{c}' || c == '\r' || c == ' '
            ||| c == '\u{85}' || c == '\u{a0}' || c == '\u{1680}'
            ||| '\u{2000}' <= c <= '\u{200a}'
            ||| c == '\u{2028}' || c == '\u{2029}' || c == '\u{202f}' || c == '\u{205f}' || c
                == '\u{3000}'
        },
{
}

proof fn lemma_trim_left(s: Seq<char>) -> (n: int)
    ensures
        0 <= n <= s.len(),
        trim_left(s) == s.skip(n),
        blank(s.take(n)),
        n < s.len() ==> !white_space(s[n]),
    decreases s.len(),
{
    if s.len() > 0 && white_space(s[0]) {
        let rest = s.drop_first();
        let n = lemma_trim_left(rest);
        assert(rest.skip(n) =~= s.skip(n + 1));
        assert forall|i: int| 0 <= i < n + 1 implies white_space(#[trigger] s.take(n + 1)[i]) by {
            if i > 0 {
                assert(s.take(n + 1)[i] == rest.take(n)[i - 1]);
            }
        }
        if n < rest.len() {
            assert(rest[n] == s[n + 1]);
        }
        n + 1
    } else {
        assert(s.skip(0) =~= s);
        0
    }
}

proof fn lemma_trim_right(s: Seq<char>) -> (n: int)
    ensures
        0 <= n <= s.len(),
        trim_right(s) == s.take(n),
        blank(s.skip(n)),
        n > 0 ==> !white_space(s[n - 1]),
    decreases s.len(),
{
    if s.len() > 0 && white_space(s.last()) {
        let front = s.drop_last();
        let n = lemma_trim_right(front);
        assert(front.take(n) =~= s.take(n));
        assert forall|i: int| 0 <= i < s.skip(n).len() implies white_space(
            #[trigger] s.skip(n)[i],
        ) by {
            if i < front.skip(n).len() {
                assert(s.skip(n)[i] == front.skip(n)[i]);
            }
        }
        n
    } else {
        assert(s.take(s.len() as int) =~= s);
        s.len() as int
    }
}

/// A text is trimmed of the white space at its two ends, and of nothing else.
pub proof fn law_trimmed(s: Seq<char>)
    ensures
        exists|a: int, b: int|
            #![trigger s.subrange(a, b)]
            0 <= a <= b <= s.len() && trimmed(s) == s.subrange(a, b) && blank(s.take(a)) && blank(
                s.skip(b),
            ) && (a < b ==> !white_space(s[a]) && !white_space(s[b - 1])),
{
    let a = lemma_trim_left(s);
    let rest = s.skip(a);
    let n = lemma_trim_right(rest);
    assert(rest.take(n) =~= s.subrange(a, a + n));
    assert(rest.skip(n) =~= s.skip(a + n));
    if n > 0 {
        assert(rest[n - 1] == s[a + n - 1]);
        if white_space(s[a]) {
            assert(a == s.len());
        }
    }
}

/// The letters from A to Z become small, and nothing else changes.
pub proof fn law_lowered(s: Seq<char>, i: int)
    requires
        0 <= i < s.len(),
    ensures
        lowered(s).len() == s.len(),
        'A' <= s[i] <= 'Z' ==> lowered(s)[i] as u32 == s[i] as u32 + 32,
        !('A' <= s[i] <= 'Z') ==> lowered(s)[i] == s[i],
{
    let c = s[i];
    if 'A' <= c <= 'Z' {
        let n: u32 = ((c as u32) + 32) as u32;
        assert(lower(c) as u32 == c as u32 + 32);
    }
}

/// A number is written in its digits, the first of which is zero only where it stands alone.
pub proof fn law_decimal(n: nat)
    ensures
        crate::js::all_digits(decimal(n)),
        crate::js::digits_value(decimal(n)) == n,
        decimal(n).len() > 0,
{
    lemma_digits_value(n);
}

/// A line of an event stream: one that is empty ends the event, one that begins with a colon is
/// passed over, `data` adds a line of data and `event` names the event; one space behind the colon
/// does not count.
pub proof fn law_event_lines(s: SseDecoderV, value: Seq<u8>)
    ensures
        ({
            let data = seq![100u8, 97u8, 116u8, 97u8, 58u8];
            let event = seq![101u8, 118u8, 101u8, 110u8, 116u8, 58u8];
            &&& read_line(s, data.push(32u8) + value) == (
                SseDecoderV { data_lines: s.data_lines.push(value), ..s },
                Seq::<Seq<u8>>::empty(),
            )
            &&& value.len() == 0 || value[0] != 32 ==> read_line(s, data + value) == (
                SseDecoderV { data_lines: s.data_lines.push(value), ..s },
                Seq::<Seq<u8>>::empty(),
            )
            &&& read_line(s, event.push(32u8) + value) == (
                SseDecoderV { event: Some(value), ..s },
                Seq::<Seq<u8>>::empty(),
            )
            &&& read_line(s, seq![58u8] + value) == (s, Seq::<Seq<u8>>::empty())
            &&& s.data_lines.len() > 0 ==> read_line(s, Seq::empty()) == (
                SseDecoderV { event: None, data_lines: Seq::empty(), ..s },
                seq![joined_lines(s.data_lines)],
            )
            &&& s.data_lines.len() == 0 && s.event is None ==> read_line(s, Seq::empty()) == (
                s,
                Seq::<Seq<u8>>::empty(),
            )
        }),
{
    let data = seq![100u8, 97u8, 116u8, 97u8, 58u8];
    let event = seq![101u8, 118u8, 101u8, 110u8, 116u8, 58u8];
    lemma_field(data.push(32u8) + value, 4);
    assert((data.push(32u8) + value).take(4) =~= crate::openai_sse::data_name());
    assert((data.push(32u8) + value).skip(6) =~= value);
    lemma_field(data + value, 4);
    assert((data + value).take(4) =~= crate::openai_sse::data_name());
    assert((data + value).skip(5) =~= value);
    if value.len() > 0 {
        assert((data + value)[5] == value[0]);
    }
    lemma_field(event.push(32u8) + value, 5);
    assert((event.push(32u8) + value).take(5) =~= crate::openai_sse::event_name());
    assert((event.push(32u8) + value).skip(7) =~= value);
    assert(crate::openai_sse::event_name().len() == 5);
    assert(crate::openai_sse::data_name().len() == 4);
}

proof fn lemma_field(line: Seq<u8>, n: int)
    requires
        0 <= n < line.len(),
        line[n] == 58,
        forall|k: int| 0 <= k < n ==> line[k] != 58,
    ensures
        crate::openai_sse::colon(line) == n,
    decreases n,
{
    if n > 0 {
        assert(line[0] != 58);
        lemma_field(line.drop_first(), n - 1);
    }
}

/// Lines of data are joined by line breaks.
pub proof fn law_data_lines_are_joined(lines: Seq<Seq<u8>>, line: Seq<u8>)
    ensures
        joined_lines(seq![line]) == line,
        lines.len() > 0 ==> joined_lines(lines.push(line)) == joined_lines(lines) + seq![10u8]
            + line,
{
    if lines.len() > 0 {
        assert(lines.push(line).drop_last() =~= lines);
        assert(joined_lines(lines).push(10) =~= joined_lines(lines) + seq![10u8]);
    }
}

/// What signs a text: an identifier, or an object of the first version with an identifier and a
/// phase.
pub proof fn law_signature_is_read(signature: Seq<char>, v: JsonV, id: Seq<char>)
    ensures
        signature_parts(None) is None,
        signature.len() == 0 ==> signature_parts(Some(signature)) is None,
        signature.len() > 0 && signature[0] != '{' ==> signature_parts(Some(signature)) == Some(
            (signature, None::<TextSignaturePhase>),
        ),
        signature.len() > 0 && signature[0] == '{' && json_parse(signature) == Ok::<
            JsonV,
            Seq<char>,
        >(v) && member(v, "v"@) == Some(JsonV::Number(JsonNumberV::Unsigned(1))) && member(v, "id"@)
            == Some(JsonV::Str(id)) ==> {
            &&& member(v, "phase"@) is None ==> signature_parts(Some(signature)) == Some(
                (id, None::<TextSignaturePhase>),
            )
            &&& member(v, "phase"@) == Some(JsonV::Str("commentary"@)) ==> signature_parts(
                Some(signature),
            ) == Some((id, Some(TextSignaturePhase::Commentary)))
            &&& member(v, "phase"@) == Some(JsonV::Str("final_answer"@)) ==> signature_parts(
                Some(signature),
            ) == Some((id, Some(TextSignaturePhase::FinalAnswer)))
        },
        signature.len() > 0 && json_parse(signature) is Err ==> signature_parts(Some(signature))
            == Some((signature, None::<TextSignaturePhase>)),
{
    reveal_strlit("{");
    assert("{"@.len() == 1);
    assert("{"@[0] == '{');
    if signature.len() > 0 {
        assert(signature.take(1)[0] == signature[0]);
        if signature[0] == '{' {
            assert(signature.take(1) =~= "{"@);
        }
    }
    reveal_strlit("commentary");
    reveal_strlit("final_answer");
    assert("commentary"@.len() == 10 && "final_answer"@.len() == 12);
}

/// Whether a text is made of letters, digits, hyphens and low lines.
pub open spec fn is_plain_id(id: Seq<char>) -> bool {
    forall|i: int|
        0 <= i < id.len() ==> {
            ||| 'a' <= #[trigger] id[i] <= 'z'
            ||| 'A' <= id[i] <= 'Z'
            ||| '0' <= id[i] <= '9'
            ||| id[i] == '-'
            ||| id[i] == '_'
        }
}

proof fn lemma_sanitized(id: Seq<char>)
    requires
        is_plain_id(id),
    ensures
        sanitized(id) == id,
        units(id).len() == id.len(),
    decreases id.len(),
{
    if id.len() > 0 {
        let front = id.drop_last();
        assert forall|i: int| 0 <= i < front.len() implies ({
            ||| 'a' <= #[trigger] front[i] <= 'z'
            ||| 'A' <= front[i] <= 'Z'
            ||| '0' <= front[i] <= '9'
            ||| front[i] == '-'
            ||| front[i] == '_'
        }) by {
            assert(front[i] == id[i]);
        }
        lemma_sanitized(front);
        let c = id.last();
        assert(c == id[id.len() - 1]);
        assert(char_units(c) == seq![(c as u32) as u16]);
        assert(units(id) =~= units(front).push((c as u32) as u16));
        assert(crate::tool_call_ids::id_char_of((c as u32) as u16) == c) by {
            let u: u16 = (c as u32) as u16;
            assert(u as u32 == c as u32);
        }
        assert forall|i: int| 0 <= i < id.len() implies #[trigger] sanitized(id)[i] == id[i] by {
            if i < front.len() {
                assert(sanitized(front)[i] == front[i]);
                assert(units(id)[i] == units(front)[i]);
            }
        }
        assert(sanitized(id) =~= id);
    } else {
        assert(sanitized(id) =~= id);
    }
}

/// An identifier that another model can take as it is stays as it is. The two parts of one from the
/// Responses API become one, joined by a low line.
pub proof fn law_plain_ids_stay(id: Seq<char>, call: Seq<char>, item: Seq<char>, provider: Seq<char>)
    requires
        is_plain_id(id),
        is_plain_id(call),
        is_plain_id(item),
        item.len() > 0,
    ensures
        id.len() <= 64 ==> anthropic_id(id) == id,
        id.len() <= 64 && (id.len() == 0 || id.last() != '_') ==> responses_part(id) == id,
        call.len() + 1 + item.len() <= 40 ==> completions_id(call.push('|') + item, provider)
            == call + "_"@ + item,
        call.len() <= 40 ==> completions_id(call.push('|'), provider) == call,
{
    lemma_sanitized(id);
    lemma_sanitized(call);
    lemma_sanitized(item);
    reveal_strlit("_");
    assert("_"@.len() == 1);
    let both = call.push('|') + item;
    assert forall|k: int| 0 <= k < call.len() implies both[k] != '|' by {
        assert(both[k] == call[k]);
    }
    lemma_position(both, '|', call.len() as int);
    assert(both.take(call.len() as int) =~= call);
    assert(both.skip(call.len() as int + 1) =~= item);
    let bare = call.push('|');
    assert forall|k: int| 0 <= k < call.len() implies bare[k] != '|' by {
        assert(bare[k] == call[k]);
    }
    lemma_position(bare, '|', call.len() as int);
    assert(bare.take(call.len() as int) =~= call);
    assert(bare.skip(call.len() as int + 1) =~= Seq::<char>::empty());
    let none: Seq<char> = Seq::empty();
    assert(is_plain_id(none));
    lemma_sanitized(none);
}

/// For a provider that keeps the two parts of an identifier, those that its own API gave stay; an item
/// that another gave gets an identifier of the sort that the API takes. For any other provider the
/// identifier becomes one part.
pub proof fn law_responses_ids(
    call: Seq<char>,
    item: Seq<char>,
    model: ModelV,
    source: AssistantMessageV,
    allowed: Seq<Seq<char>>,
)
    requires
        is_plain_id(call),
        is_plain_id(item),
        call.len() <= 64,
        call.len() == 0 || call.last() != '_',
        item.len() <= 64,
        item.len() == 0 || item.last() != '_',
        begins(item, "fc_"@),
        allowed.contains(model.provider),
    ensures
        ({
            let id = responses_id(call.push('|') + item, model, source, allowed);
            &&& source.provider == model.provider && source.api == model.api ==> id == call.push(
                '|',
            ) + item
            &&& source.provider != model.provider || source.api != model.api ==> id == call.push(
                '|',
            ) + first_chars("fc_"@ + hashed(item), 64)
        }),
{
    lemma_sanitized(call);
    lemma_sanitized(item);
    let both = call.push('|') + item;
    assert forall|k: int| 0 <= k < call.len() implies both[k] != '|' by {
        assert(both[k] == call[k]);
    }
    lemma_position(both, '|', call.len() as int);
    assert(both.take(call.len() as int) =~= call);
    assert(both.skip(call.len() as int + 1) =~= item);
    assert forall|k: int| 0 <= k < item.len() implies item[k] != '|' by {}
    lemma_position(item, '|', item.len() as int);
    assert(item.take(item.len() as int) =~= item);
    reveal_strlit("|");
    assert(call + "|"@ =~= call.push('|'));
    reveal_strlit("fc_");
    let made = "fc_"@ + hashed(item);
    assert(first_chars(made, 64).take(3) =~= "fc_"@);
}

/// A character is one unit of text, or two that stand for it together.
pub proof fn law_units(s: Seq<char>, c: char)
    ensures
        units(Seq::<char>::empty()).len() == 0,
        (c as u32) < 0x10000 ==> units(s.push(c)) == units(s) + seq![(c as u32) as u16],
        (c as u32) >= 0x10000 ==> units(s.push(c)).len() == units(s).len() + 2 && 0xd800
            <= units(s.push(c))[units(s).len() as int] < 0xdc00 <= units(
            s.push(c),
        )[units(s).len() as int + 1] < 0xe000 && (units(s.push(c))[units(s).len() as int] - 0xd800)
            * 0x400 + (units(s.push(c))[units(s).len() as int + 1] - 0xdc00) + 0x10000 == c as u32,
{
    assert(s.push(c).drop_last() =~= s);
    let n = c as u32;
    if n >= 0x10000 {
        let m = n - 0x10000;
        assert(m < 0x100000);
        assert(m / 0x400 < 0x400);
        assert((m / 0x400) * 0x400 + m % 0x400 == m);
    }
}

/// A line of bytes ends in a line feed, a carriage return, or both, and the rest follows; without an
/// end it is a line only where nothing more comes.
pub proof fn law_lines_end(line: Seq<u8>, rest: Seq<u8>, eof: bool)
    requires
        forall|i: int| 0 <= i < line.len() ==> #[trigger] line[i] != 10 && line[i] != 13,
    ensures
        first_line(line.push(10u8) + rest, eof) == Some((line, rest)),
        first_line(line.push(13u8).push(10u8) + rest, eof) == Some((line, rest)),
        rest.len() > 0 && rest[0] != 10 ==> first_line(line.push(13u8) + rest, eof) == Some(
            (line, rest),
        ),
        first_line(line.push(13u8), false) is None,
        first_line(line.push(13u8), true) == Some((line, Seq::<u8>::empty())),
        first_line(line, false) is None,
        line.len() > 0 ==> first_line(line, true) == Some((line, Seq::<u8>::empty())),
        line.len() == 0 ==> first_line(line, true) is None,
{
    let n = line.len() as int;
    let a = line.push(10u8) + rest;
    lemma_line_length(a, n);
    assert(a.take(n) =~= line);
    assert(a.skip(n + 1) =~= rest);
    let b = line.push(13u8).push(10u8) + rest;
    lemma_line_length(b, n);
    assert(b.take(n) =~= line);
    assert(b.skip(n + 2) =~= rest);
    let c = line.push(13u8) + rest;
    lemma_line_length(c, n);
    assert(c.take(n) =~= line);
    assert(c.skip(n + 1) =~= rest);
    if rest.len() > 0 {
        assert(c[n + 1] == rest[0]);
    }
    let d = line.push(13u8);
    lemma_line_length(d, n);
    assert(d.take(n) =~= line);
    assert(d.skip(n + 1) =~= Seq::<u8>::empty());
    lemma_line_length(line, n);
}

proof fn lemma_line_length(bytes: Seq<u8>, n: int)
    requires
        0 <= n <= bytes.len(),
        forall|k: int| 0 <= k < n ==> #[trigger] bytes[k] != 10 && bytes[k] != 13,
        n < bytes.len() ==> bytes[n] == 10 || bytes[n] == 13,
    ensures
        line_length(bytes) == n,
    decreases n,
{
    if n > 0 {
        let rest = bytes.drop_first();
        assert(bytes[0] != 10 && bytes[0] != 13);
        assert forall|k: int| 0 <= k < n - 1 implies #[trigger] rest[k] != 10 && rest[k] != 13 by {
            assert(rest[k] == bytes[k + 1]);
        }
        lemma_line_length(rest, n - 1);
    }
}

/// An item without the prefix that the API asks for gets it. Two parts that are too long together are
/// cut to forty characters, the last eight of which tell them from others.
pub proof fn law_long_ids_are_cut(id: Seq<char>, call: Seq<char>, item: Seq<char>, provider: Seq<char>)
    requires
        is_plain_id(id),
        id.len() <= 61,
        id.len() > 0,
        id.last() != '_',
        !begins(id, "fc_"@),
        is_plain_id(call),
        is_plain_id(item),
        item.len() > 0,
        call.len() + 1 + item.len() > 40,
        hashed(call.push('|') + item).len() >= 8,
    ensures
        responses_item(id, false) == "fc_"@ + id,
        completions_id(call.push('|') + item, provider) == (if call.len() <= 31 {
            call
        } else {
            call.take(31)
        }) + "_"@ + hashed(call.push('|') + item).take(8),
{
    reveal_strlit("fc_");
    lemma_sanitized(id);
    let made = "fc_"@ + id;
    assert(is_plain_id(made)) by {
        assert forall|i: int| 0 <= i < made.len() implies ({
            ||| 'a' <= #[trigger] made[i] <= 'z'
            ||| 'A' <= made[i] <= 'Z'
            ||| '0' <= made[i] <= '9'
            ||| made[i] == '-'
            ||| made[i] == '_'
        }) by {
            if i >= 3 {
                assert(made[i] == id[i - 3]);
            }
        }
    }
    lemma_sanitized(made);
    assert(made.last() == id.last());
    lemma_sanitized(call);
    lemma_sanitized(item);
    reveal_strlit("_");
    assert("_"@.len() == 1);
    let both = call.push('|') + item;
    assert forall|k: int| 0 <= k < call.len() implies both[k] != '|' by {
        assert(both[k] == call[k]);
    }
    lemma_position(both, '|', call.len() as int);
    assert(both.take(call.len() as int) =~= call);
    assert(both.skip(call.len() as int + 1) =~= item);
    let hash = hashed(both);
    if hash.len() == 8 {
        assert(hash.take(8) =~= hash);
    }
}

/// How one more unit changes the two numbers that a text is hashed to: it is mixed into each, which
/// is then multiplied by a number of its own.
pub proof fn law_hash_takes_each_unit(front: Seq<u16>, unit: u16)
    ensures
        mix_all(Seq::<u16>::empty()) == (3735928559u32, 1103547991u32),
        mix_all(front.push(unit)).0 == ((mix_all(front).0 ^ (unit as u32)) * 2654435761)
            % 4294967296,
        mix_all(front.push(unit)).1 == ((mix_all(front).1 ^ (unit as u32)) * 1597334677)
            % 4294967296,
{
    assert(front.push(unit).drop_last() =~= front);
}

/// A text is hashed to the digits of two numbers, the second first.
pub proof fn law_hash_is_written(s: Seq<char>)
    ensures
        ({
            let (x, y) = mix_all(units(s));
            let p = ((x ^ (x >> 16u32)) * 2246822507) % 4294967296;
            let q = ((y ^ (y >> 13u32)) * 3266489909) % 4294967296;
            let a = (p as u32) ^ (q as u32);
            let r = ((y ^ (y >> 16u32)) * 2246822507) % 4294967296;
            let t = ((a ^ (a >> 13u32)) * 3266489909) % 4294967296;
            let b = (r as u32) ^ (t as u32);
            hashed(s) == digits(b as nat, 36) + digits(a as nat, 36)
        }),
{
}

/// A number is written digit by digit; behind nine come the letters from a to z.
pub proof fn law_digits(n: nat, d: nat, base: nat)
    requires
        2 <= base <= 36,
        d < base,
    ensures
        digits(d, base).len() == 1,
        d < 10 ==> digits(d, base)[0] as u32 == '0' as u32 + d,
        d >= 10 ==> digits(d, base)[0] as u32 == 'a' as u32 + d - 10,
        n > 0 ==> digits(n * base + d, base) == digits(n, base) + digits(d, base),
{
    let c: u32 = if d < 10 {
        (48 + d) as u32
    } else {
        (87 + d) as u32
    };
    assert(digit(d) as u32 == c);
    if n > 0 {
        let m = n * base + d;
        assert(m >= base && m / base == n && m % base == d) by (nonlinear_arith)
            requires
                m == n * base + d,
                d < base,
                n > 0,
                base >= 2,
        ;
        assert(digits(m, base) =~= digits(n, base) + digits(d, base));
    }
}

/// What the listener is told of free-form input while it comes is the object that it will be, without
/// the end that is still to come; when it is complete, the rest.
pub proof fn law_input_is_told_piece_by_piece(
    sent: Seq<char>,
    property: Seq<char>,
    input: Seq<char>,
    close: bool,
)
    ensures
        ({
            let whole = json_text(JsonV::Object(seq![(property, JsonV::Str(input))]));
            let so_far = if close || whole.len() < 2 {
                whole
            } else {
                whole.take(whole.len() - 2)
            };
            let (now, told) = input_delta(sent, property, input, close);
            &&& sent == so_far ==> told == Ok::<Option<Seq<char>>, Seq<char>>(None) && now == so_far
            &&& forall|more: Seq<char>|
                #![trigger sent + more]
                more.len() > 0 && so_far == sent + more ==> told == Ok::<
                    Option<Seq<char>>,
                    Seq<char>,
                >(Some(more)) && now == so_far
            &&& !begins(so_far, sent) ==> now == sent && told == Err::<
                Option<Seq<char>>,
                Seq<char>,
            >("Grammar tool input changed while it was streamed"@)
        }),
{
    let whole = json_text(JsonV::Object(seq![(property, JsonV::Str(input))]));
    let so_far = if close || whole.len() < 2 {
        whole
    } else {
        whole.take(whole.len() - 2)
    };
    if sent == so_far {
        assert(so_far.take(sent.len() as int) =~= sent);
    }
    let (now, told) = input_delta(sent, property, input, close);
    assert forall|more: Seq<char>|
        #![trigger sent + more]
        more.len() > 0 && so_far == sent + more implies told == Ok::<
        Option<Seq<char>>,
        Seq<char>,
    >(Some(more)) && now == so_far by {
        assert(so_far.take(sent.len() as int) =~= sent);
        assert(so_far.skip(sent.len() as int) =~= more);
    }
}

/// The characters that identifiers are made of.
pub proof fn law_id_characters(c: char)
    ensures
        id_char(c) <==> ('a' <= c <= 'z' || 'A' <= c <= 'Z' || '0' <= c <= '9' || c == '-' || c
            == '_'),
        alphanumeric(c) <==> ('a' <= c <= 'z' || 'A' <= c <= 'Z' || '0' <= c <= '9'),
{
    let n = c as u32;
    if n < 128 {
        let u: u16 = n as u16;
        assert(u as u32 == n);
    }
}

/// Identifiers that are made to fit are made of letters, digits, hyphens and low lines.
pub proof fn law_made_ids_are_plain(id: Seq<char>, provider: Seq<char>)
    ensures
        is_plain_id(anthropic_id(id)),
        is_plain_id(responses_part(id)),
        after(id, '|') is Some ==> is_plain_id(completions_id(id, provider)),
{
    law_anthropic_id(id);
    law_responses_part(id);
    if after(id, '|') is Some {
        law_completions_id_of_two_parts(id, provider);
        lemma_is_plain(completions_id(id, provider));
    }
    lemma_is_plain(anthropic_id(id));
    lemma_is_plain(responses_part(id));
}

proof fn lemma_is_plain(id: Seq<char>)
    requires
        is_id(id),
    ensures
        is_plain_id(id),
{
    assert forall|i: int| 0 <= i < id.len() implies ({
        ||| 'a' <= #[trigger] id[i] <= 'z'
        ||| 'A' <= id[i] <= 'Z'
        ||| '0' <= id[i] <= '9'
        ||| id[i] == '-'
        ||| id[i] == '_'
    }) by {
        law_id_characters(id[i]);
    }
}

/// OpenAI takes forty characters of an identifier of one part; any other provider takes it as it is.
pub proof fn law_single_ids(id: Seq<char>)
    requires
        is_plain_id(id),
    ensures
        completions_id(id, "openai"@) == if id.len() <= 40 {
            id
        } else {
            id.take(40)
        },
        forall|provider: Seq<char>|
            provider != "openai"@ ==> #[trigger] completions_id(id, provider) == id,
{
    assert forall|k: int| 0 <= k < id.len() implies id[k] != '|' by {}
    lemma_position(id, '|', id.len() as int);
    lemma_units_prefix(id, 40);
}

proof fn lemma_units_prefix(s: Seq<char>, room: nat)
    requires
        is_plain_id(s),
    ensures
        units_prefix(s, room) == if s.len() <= room {
            s
        } else {
            s.take(room as int)
        },
    decreases s.len(),
{
    if s.len() > 0 {
        let c = s[0];
        assert(char_units(c).len() == 1);
        if room > 0 {
            let rest = s.drop_first();
            assert forall|i: int| 0 <= i < rest.len() implies ({
                ||| 'a' <= #[trigger] rest[i] <= 'z'
                ||| 'A' <= rest[i] <= 'Z'
                ||| '0' <= rest[i] <= '9'
                ||| rest[i] == '-'
                ||| rest[i] == '_'
            }) by {
                assert(rest[i] == s[i + 1]);
            }
            lemma_units_prefix(rest, (room - 1) as nat);
            assert(units_prefix(s, room) =~= if s.len() <= room {
                s
            } else {
                s.take(room as int)
            });
        } else {
            assert(units_prefix(s, room) =~= s.take(0));
        }
    } else {
        assert(units_prefix(s, room) =~= s);
    }
}

/// Mistral is given the first candidate that no other identifier has; nine letters and digits are
/// their own candidate.
pub proof fn law_mistral_takes_the_first_free(ids: MistralIdsV, id: Seq<char>, attempt: nat)
    requires
        ids.assigned(id) is None,
        attempt < u64::MAX,
        ids.owner(mistral_candidate(id, attempt)) is None || ids.owner(
            mistral_candidate(id, attempt),
        ) == Some(id),
        forall|k: nat|
            k < attempt ==> (ids.owner(#[trigger] mistral_candidate(id, k)) matches Some(owner)
                && owner != id),
    ensures
        mistral_choice(ids, id) == Some(mistral_candidate(id, attempt)),
{
    lemma_first_free(ids, id, 0, attempt);
}

proof fn lemma_first_free(ids: MistralIdsV, id: Seq<char>, from: nat, attempt: nat)
    requires
        from <= attempt,
        attempt < u64::MAX,
        ids.owner(mistral_candidate(id, attempt)) is None || ids.owner(
            mistral_candidate(id, attempt),
        ) == Some(id),
        forall|k: nat|
            k < attempt ==> (ids.owner(#[trigger] mistral_candidate(id, k)) matches Some(owner)
                && owner != id),
    ensures
        first_free(ids, id, from) == Some(attempt),
    decreases attempt - from,
{
    if from < attempt {
        assert(ids.owner(mistral_candidate(id, from)) is Some);
        lemma_first_free(ids, id, from + 1, attempt);
    }
}

/// One text stands before another where it is its beginning, or where its character at the first
/// place at which they differ has the smaller number.
pub proof fn law_order_of_texts(common: Seq<char>, a: Seq<char>, b: Seq<char>)
    ensures
        b.len() > 0 ==> less(common, common + b) && !less(common + b, common),
        !less(common, common),
        a.len() > 0 && b.len() > 0 && a[0] != b[0] ==> (less(common + a, common + b) <==> (
        a[0] as u32) < (b[0] as u32)),
    decreases common.len(),
{
    if common.len() > 0 {
        let rest = common.drop_first();
        law_order_of_texts(rest, a, b);
        assert((common + a).drop_first() =~= rest + a);
        assert((common + b).drop_first() =~= rest + b);
    } else {
        assert(common + a =~= a);
        assert(common + b =~= b);
    }
}

/// When two values are the same: numbers as they are written, but for the two ways to write nothing,
/// lists item by item, objects whatever the order of their members, and all else as it is.
pub proof fn law_sameness(a: JsonV, b: JsonV)
    ensures
        (a is Null || a is Bool || a is Str) ==> (same_value(a, b) <==> a == b),
        a matches JsonV::Array(x) ==> (same_value(a, b) <==> (b matches JsonV::Array(y) && x.len()
            == y.len() && forall|i: int| 0 <= i < x.len() ==> same_value(#[trigger] x[i], y[i]))),
        a matches JsonV::Number(x) ==> (b matches JsonV::Number(y) ==> (same_value(a, b) <==> x == y
            || ((x == JsonNumberV::Decimal("0.0"@) || x == JsonNumberV::Decimal("-0.0"@)) && (y
            == JsonNumberV::Decimal("0.0"@) || y == JsonNumberV::Decimal("-0.0"@))))),
        a matches JsonV::Object(x) ==> (b matches JsonV::Object(y) ==> (same_value(a, b)
            ==> x.len() == y.len() && forall|i: int|
            #![trigger x[i]]
            0 <= i < x.len() ==> (lookup(y, x[i].0) matches Some(v) && same_value(x[i].1, v)))),
{
}

/// A text is blank where every character of it is white space.
pub proof fn law_blank(s: Seq<char>, c: char)
    ensures
        blank(Seq::<char>::empty()),
        blank(s.push(c)) <==> blank(s) && white_space(c),
{
    let all = s.push(c);
    if blank(all) {
        assert forall|i: int| 0 <= i < s.len() implies white_space(#[trigger] s[i]) by {
            assert(all[i] == s[i]);
        }
        assert(all[s.len() as int] == c);
    }
    if blank(s) && white_space(c) {
        assert forall|i: int| 0 <= i < all.len() implies white_space(#[trigger] all[i]) by {
            if i < s.len() {
                assert(all[i] == s[i]);
            }
        }
    }
}

/// What a text begins with, and what it ends in.
pub proof fn law_ends_of_a_text(s: Seq<char>, part: Seq<char>, front: Seq<char>, rest: Seq<char>)
    ensures
        begins(part + rest, part),
        begins(s, part) ==> s == part + s.skip(part.len() as int),
        ends(front + part, part),
        ends(s, part) ==> s == s.take(s.len() - part.len()) + part,
{
    assert((part + rest).take(part.len() as int) =~= part);
    assert((front + part).skip(front.len() as int) =~= part);
    if begins(s, part) {
        assert(s =~= part + s.skip(part.len() as int));
    }
    if ends(s, part) {
        assert(s =~= s.take(s.len() - part.len()) + part);
    }
}

/// What a text holds.
pub proof fn law_part_of_a_text(part: Seq<char>, front: Seq<char>, rest: Seq<char>)
    ensures
        has_part(front + part + rest, part),
{
    let whole = front + part + rest;
    let n = front.len() as int;
    assert(whole.subrange(n, n + part.len()) =~= part);
    assert(part_at(whole, part, n));
}

/// A text holds a part only where the part stands in it.
pub proof fn law_no_part_of_a_text(s: Seq<char>, part: Seq<char>)
    requires
        forall|i: int|
            0 <= i && i + part.len() <= s.len() ==> #[trigger] s.subrange(i, i + part.len())
                != part,
    ensures
        !has_part(s, part),
{
}

} // verus!
