//! What holds of every tool-call identifier that a provider is sent.
use crate::hash::{finish, hashed, mix_all};
use crate::text::{
    after, before, char_units, digit, digits, first_chars, lemma_position, lemma_position_props,
    lemma_trim_end, units,
};
use crate::tool_call_ids::{
    alphanumeric, alphanumerics, anthropic_id, completions_id, id_char, id_char_of, id_unit,
    mistral_candidate, mistral_choice, mistral_form, responses_item, responses_part, sanitized, units_prefix,
    MistralIdsV, MISTRAL_TOOL_CALL_ID_LENGTH,
};
use vstd::prelude::*;

verus! {

/// Whether all characters may stand in an identifier.
pub open spec fn is_id(s: Seq<char>) -> bool {
    forall|i: int| 0 <= i < s.len() ==> id_char(#[trigger] s[i])
}

proof fn lemma_id_char_of(u: u16)
    ensures
        id_char(id_char_of(u)),
{
}

proof fn lemma_sanitized(s: Seq<char>)
    ensures
        is_id(sanitized(s)),
{
    assert forall|i: int| 0 <= i < sanitized(s).len() implies id_char(
        #[trigger] sanitized(s)[i],
    ) by {
        lemma_id_char_of(units(s)[i]);
    }
}

proof fn lemma_first(s: Seq<char>, n: nat)
    requires
        is_id(s),
    ensures
        is_id(first_chars(s, n)),
        first_chars(s, n).len() <= n,
{
    let r = first_chars(s, n);
    assert forall|i: int| 0 <= i < r.len() implies id_char(#[trigger] r[i]) by {
        assert(r[i] == s[i]);
    }
}

proof fn lemma_joined(a: Seq<char>, b: Seq<char>)
    requires
        is_id(a),
        is_id(b),
    ensures
        is_id(a + b),
{
    assert forall|i: int| 0 <= i < (a + b).len() implies id_char(#[trigger] (a + b)[i]) by {
        if i < a.len() {
            assert((a + b)[i] == a[i]);
        } else {
            assert((a + b)[i] == b[i - a.len()]);
        }
    }
}

proof fn lemma_digits(n: nat, base: nat)
    requires
        2 <= base <= 36,
    ensures
        is_id(digits(n, base)),
    decreases n,
{
    assert(id_char(digit(n % base)));
    if n >= base {
        assert(n / base < n) by (nonlinear_arith)
            requires
                n >= base,
                base >= 2,
        ;
        lemma_digits(n / base, base);
    }
    let r = digits(n, base);
    assert forall|i: int| 0 <= i < r.len() implies id_char(#[trigger] r[i]) by {
        if n >= base && i < digits(n / base, base).len() {
            assert(r[i] == digits(n / base, base)[i]);
        }
    }
}

proof fn lemma_hashed(s: Seq<char>)
    ensures
        is_id(hashed(s)),
{
    let (a, b) = finish(mix_all(units(s)));
    lemma_digits(a as nat, 36);
    lemma_digits(b as nat, 36);
    lemma_joined(digits(b as nat, 36), digits(a as nat, 36));
}

/// Anthropic gets at most sixty-four letters, digits, hyphens and underscores.
pub proof fn law_anthropic_id(id: Seq<char>)
    ensures
        is_id(anthropic_id(id)),
        anthropic_id(id).len() <= 64,
{
    lemma_sanitized(id);
    lemma_first(sanitized(id), 64);
}

/// A chat-completions provider gets at most forty letters, digits, hyphens and underscores for an
/// identifier of two parts.
pub proof fn law_completions_id_of_two_parts(id: Seq<char>, provider: Seq<char>)
    requires
        after(id, '|') is Some,
    ensures
        is_id(completions_id(id, provider)),
        completions_id(id, provider).len() <= 40,
{
    reveal_strlit("_");
    let call = sanitized(before(id, '|'));
    let item = sanitized(after(id, '|')->Some_0);
    lemma_sanitized(before(id, '|'));
    lemma_sanitized(after(id, '|')->Some_0);
    lemma_joined(call, "_"@);
    lemma_joined(call + "_"@, item);
    lemma_hashed(id);
    let hash = first_chars(hashed(id), 8);
    lemma_first(hashed(id), 8);
    lemma_first(call, (39 - hash.len()) as nat);
    let head = first_chars(call, (39 - hash.len()) as nat);
    lemma_joined(head, "_"@);
    lemma_joined(head + "_"@, hash);
}

proof fn lemma_units_prefix(s: Seq<char>, room: nat)
    ensures
        units_prefix(s, room).len() <= s.len(),
        units_prefix(s, room) == s.take(units_prefix(s, room).len() as int),
        units_prefix(s, room).len() <= room,
    decreases s.len(),
{
    if s.len() > 0 && char_units(s[0]).len() <= room {
        let rest = s.drop_first();
        let left = (room - char_units(s[0]).len()) as nat;
        lemma_units_prefix(rest, left);
        let r = units_prefix(s, room);
        assert(r =~= seq![s[0]] + units_prefix(rest, left));
        assert(r =~= s.take(r.len() as int));
    } else {
        assert(s.take(0) =~= Seq::empty());
    }
}

/// OpenAI itself gets no more than the first forty characters of an identifier of one part; any
/// other provider gets such an identifier as it is.
pub proof fn law_completions_id_of_one_part(id: Seq<char>, provider: Seq<char>)
    requires
        after(id, '|') is None,
    ensures
        provider == "openai"@ ==> completions_id(id, provider).len() <= 40 && completions_id(
            id,
            provider,
        ) == id.take(completions_id(id, provider).len() as int),
        provider != "openai"@ ==> completions_id(id, provider) == id,
{
    lemma_units_prefix(id, 40);
}

/// A part of a Responses identifier has at most sixty-four letters, digits, hyphens and underscores,
/// and does not end with an underscore.
pub proof fn law_responses_part(part: Seq<char>)
    ensures
        is_id(responses_part(part)),
        responses_part(part).len() <= 64,
        responses_part(part).len() > 0 ==> responses_part(part).last() != '_',
{
    lemma_sanitized(part);
    let cut = first_chars(sanitized(part), 64);
    lemma_first(sanitized(part), 64);
    lemma_trim_end(cut, '_');
    let r = responses_part(part);
    assert forall|i: int| 0 <= i < r.len() implies id_char(#[trigger] r[i]) by {
        assert(r[i] == cut[i]);
    }
}

/// The item of a Responses identifier has at most sixty-four letters, digits, hyphens and
/// underscores.
pub proof fn law_responses_item(item: Seq<char>, foreign: bool)
    ensures
        is_id(responses_item(item, foreign)),
        responses_item(item, foreign).len() <= 64,
{
    reveal_strlit("fc_");
    lemma_hashed(item);
    lemma_joined("fc_"@, hashed(item));
    lemma_first("fc_"@ + hashed(item), 64);
    law_responses_part(item);
    let normalized = if foreign {
        first_chars("fc_"@ + hashed(item), 64)
    } else {
        responses_part(item)
    };
    law_responses_part("fc_"@ + normalized);
}

proof fn lemma_alphanumerics(s: Seq<char>)
    ensures
        forall|i: int| 0 <= i < alphanumerics(s).len() ==> alphanumeric(#[trigger] alphanumerics(s)[i]),
    decreases s.len(),
{
    if s.len() > 0 {
        lemma_alphanumerics(s.drop_last());
        let before = alphanumerics(s.drop_last());
        let all = alphanumerics(s);
        assert forall|i: int| 0 <= i < all.len() implies alphanumeric(#[trigger] all[i]) by {
            if i < before.len() {
                assert(all[i] == before[i]);
            }
        }
    }
}

/// Mistral gets at most nine letters and digits, at whatever attempt.
pub proof fn law_mistral_candidate(id: Seq<char>, attempt: nat)
    ensures
        mistral_form(mistral_candidate(id, attempt)),
{
    let normalized = alphanumerics(id);
    lemma_alphanumerics(id);
    if !(attempt == 0 && normalized.len() == MISTRAL_TOOL_CALL_ID_LENGTH) {
        let base = if normalized.len() == 0 {
            id
        } else {
            normalized
        };
        let seed = if attempt == 0 {
            base
        } else {
            base + ":"@ + crate::text::decimal(attempt)
        };
        lemma_alphanumerics(hashed(seed));
        let r = mistral_candidate(id, attempt);
        assert forall|i: int| 0 <= i < r.len() implies alphanumeric(#[trigger] r[i]) by {
            assert(r[i] == alphanumerics(hashed(seed))[i]);
        }
    }
}

proof fn lemma_all_kept(s: Seq<char>)
    requires
        forall|i: int| 0 <= i < s.len() ==> alphanumeric(#[trigger] s[i]),
    ensures
        alphanumerics(s) == s,
    decreases s.len(),
{
    if s.len() > 0 {
        let rest = s.drop_last();
        assert forall|i: int| 0 <= i < rest.len() implies alphanumeric(#[trigger] rest[i]) by {
            assert(rest[i] == s[i]);
        }
        lemma_all_kept(rest);
        assert(alphanumeric(s[s.len() - 1]));
    }
    assert(alphanumerics(s) =~= s);
}

/// An identifier of nine letters and digits is kept, unless another one was given it before.
pub proof fn law_mistral_keeps_nine(ids: MistralIdsV, id: Seq<char>)
    requires
        id.len() == MISTRAL_TOOL_CALL_ID_LENGTH,
        forall|i: int| 0 <= i < id.len() ==> alphanumeric(#[trigger] id[i]),
        ids.assigned(id) is None,
        ids.owner(id) is None,
    ensures
        mistral_choice(ids, id) == Some(id),
{
    lemma_all_kept(id);
    assert(mistral_candidate(id, 0) == id);
    assert(ids.free(id, 0));
}

proof fn lemma_same_character(a: char, b: char)
    requires
        a as u32 == b as u32,
    ensures
        a == b,
{
}

proof fn lemma_id_units(s: Seq<char>)
    requires
        is_id(s),
    ensures
        units(s).len() == s.len(),
        sanitized(s) == s,
    decreases s.len(),
{
    if s.len() > 0 {
        let rest = s.drop_last();
        let c = s.last();
        assert forall|i: int| 0 <= i < rest.len() implies id_char(#[trigger] rest[i]) by {
            assert(rest[i] == s[i]);
        }
        lemma_id_units(rest);
        assert(id_char(s[s.len() - 1]));
        let u = (c as u32) as u16;
        assert(char_units(c) =~= seq![u]);
        assert(units(s) =~= units(rest).push(u));
        assert(id_unit(u));
        assert((u as char) as u32 == c as u32);
        lemma_same_character(u as char, c);
        assert(sanitized(s) =~= sanitized(rest).push(c));
    }
    assert(sanitized(s) =~= s);
}

/// An identifier that Anthropic accepts is not changed any more.
pub proof fn law_anthropic_id_is_settled(id: Seq<char>)
    ensures
        anthropic_id(anthropic_id(id)) == anthropic_id(id),
{
    law_anthropic_id(id);
    lemma_id_units(anthropic_id(id));
}

proof fn lemma_no_bar(s: Seq<char>)
    requires
        forall|i: int| 0 <= i < s.len() ==> #[trigger] s[i] != '|',
    ensures
        after(s, '|') is None,
{
    lemma_position(s, '|', s.len() as int);
}

proof fn lemma_short_prefix(s: Seq<char>, room: nat)
    requires
        is_id(s),
        s.len() <= room,
    ensures
        units_prefix(s, room) == s,
    decreases s.len(),
{
    if s.len() > 0 {
        let rest = s.drop_first();
        assert(id_char(s[0]));
        assert(char_units(s[0]).len() == 1);
        assert forall|i: int| 0 <= i < rest.len() implies id_char(#[trigger] rest[i]) by {
            assert(rest[i] == s[i + 1]);
        }
        lemma_short_prefix(rest, (room - 1) as nat);
        assert(seq![s[0]] + rest =~= s);
    } else {
        assert(units_prefix(s, room) =~= s);
    }
}

proof fn lemma_prefix_of_prefix(s: Seq<char>, room: nat)
    ensures
        units_prefix(units_prefix(s, room), room) == units_prefix(s, room),
    decreases s.len(),
{
    let r = units_prefix(s, room);
    if s.len() > 0 && char_units(s[0]).len() <= room {
        let left = (room - char_units(s[0]).len()) as nat;
        lemma_prefix_of_prefix(s.drop_first(), left);
        assert(r[0] == s[0]);
        assert(r.drop_first() =~= units_prefix(s.drop_first(), left));
    }
}

/// An identifier that a chat-completions provider accepts is not changed any more.
pub proof fn law_completions_id_is_settled(id: Seq<char>, provider: Seq<char>)
    ensures
        completions_id(completions_id(id, provider), provider) == completions_id(id, provider),
{
    let r = completions_id(id, provider);
    if after(id, '|') is Some {
        law_completions_id_of_two_parts(id, provider);
        assert forall|i: int| 0 <= i < r.len() implies #[trigger] r[i] != '|' by {
            assert(id_char(r[i]));
        }
        lemma_no_bar(r);
        lemma_short_prefix(r, 40);
    } else {
        lemma_position_props(id, '|');
        if provider == "openai"@ {
            lemma_units_prefix(id, 40);
            assert forall|i: int| 0 <= i < r.len() implies #[trigger] r[i] != '|' by {
                assert(r[i] == id[i]);
            }
            lemma_no_bar(r);
            lemma_prefix_of_prefix(id, 40);
        }
    }
}

} // verus!
