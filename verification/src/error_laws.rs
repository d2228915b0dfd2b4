//! What is said where a request fails.
use crate::event_laws::{lemma_strung, strung};
use crate::js::{
    all_digits, digits_value, js_number, js_parts, js_text, js_value, stringified, truthy,
};
use crate::json::{json_parse, json_text, member, JsonNumberV, JsonV};
use crate::openai_sse::{
    event_value, fed, lossy_text, next_step, pushed, texts, BodyEvent, SseJsonStreamV, SseStepV,
};
use crate::provider_error::{
    formatted_error, http_error, http_error_text, retry_error, stream_error_text, with_raw,
    OpenAiHttpErrorV, OpenAiSseErrorV, ProviderRetryErrorV, RunErrorV,
};
use crate::requests::{answer, refused, AnswerV, RefusalV, SendEvent};
use crate::text::{begins, decimal, digit, has_part};
use vstd::prelude::*;

verus! {

/// Which values count as something: all but null, false, zero and the empty text.
pub proof fn law_truth(v: JsonV)
    ensures
        truthy(v) == !{
            ||| v == JsonV::Null
            ||| v == JsonV::Bool(false)
            ||| v == JsonV::Number(JsonNumberV::Unsigned(0))
            ||| v == JsonV::Number(JsonNumberV::Negative(0))
            ||| v == JsonV::Number(JsonNumberV::Decimal("0.0"@))
            ||| v == JsonV::Number(JsonNumberV::Decimal("-0.0"@))
            ||| (v matches JsonV::Str(s) && s.len() == 0)
        },
{
}

/// How a value reads as text.
pub proof fn law_text_of_a_value(v: JsonV)
    ensures
        v == JsonV::Null ==> js_text(v) == "null"@,
        v == JsonV::Bool(true) ==> js_text(v) == "true"@,
        v == JsonV::Bool(false) ==> js_text(v) == "false"@,
        v matches JsonV::Str(s) ==> js_text(v) == s,
        v is Object ==> js_text(v) == "[object Object]"@,
        v is Number ==> js_text(v) == stringified(v),
        v matches JsonV::Array(items) ==> js_text(v) == strung(js_parts(items), ","@)
            && js_parts(items).len() == items.len() && forall|i: int|
            0 <= i < items.len() ==> #[trigger] js_parts(items)[i] == if items[i] is Null {
                Seq::<char>::empty()
            } else {
                js_text(items[i])
            },
{
    if let JsonV::Array(items) = v {
        lemma_strung(js_parts(items), ","@);
    }
}

proof fn lemma_digit(d: nat)
    requires
        d < 10,
    ensures
        '0' <= digit(d) && digit(d) <= '9',
        (digit(d) as u32) - 48 == d,
{
    let c: u32 = (48 + d) as u32;
    assert(digit(d) as u32 == 48 + d);
}

pub proof fn lemma_digits_value(n: nat)
    ensures
        all_digits(decimal(n)),
        digits_value(decimal(n)) == n,
        decimal(n).len() > 0,
    decreases n,
{
    let s = decimal(n);
    if n < 10 {
        lemma_digit(n);
        assert(s.drop_last().len() == 0);
        assert(digits_value(s.drop_last()) == 0);
        assert(s.last() == digit(n));
    } else {
        lemma_digits_value(n / 10);
        lemma_digit(n % 10);
        assert(s.drop_last() =~= decimal(n / 10));
        assert(s.last() == digit(n % 10));
    }
}

/// A number that is written with a fraction of nothing is the whole number that it stands for.
pub proof fn law_whole_decimals_are_whole(n: u64)
    requires
        decimal(n as nat).len() <= 15,
    ensures
        js_number(JsonNumberV::Decimal(decimal(n as nat) + ".0"@)) == JsonNumberV::Unsigned(n),
        js_number(JsonNumberV::Unsigned(n)) == JsonNumberV::Unsigned(n),
{
    reveal_strlit(".0");
    let d = decimal(n as nat);
    let text = d + ".0"@;
    lemma_digits_value(n as nat);
    assert(text.skip(text.len() - 2) =~= ".0"@);
    assert(text.take(text.len() - 2) =~= d);
}

/// What an error of a provider says: its message, as text; else the error as it is.
pub proof fn law_stream_error_is_told(error: JsonV)
    ensures
        member(error, "message"@) matches Some(JsonV::Str(words)) ==> (words.len() > 0
            ==> stream_error_text(error) == words),
        member(error, "message"@) is None ==> stream_error_text(error) == stringified(error),
        member(error, "message"@) matches Some(m) ==> (!truthy(m) ==> stream_error_text(error)
            == stringified(error)),
        member(error, "message"@) matches Some(m) ==> (truthy(m) && !(m is Str)
            ==> stream_error_text(error) == stringified(m)),
{
}

/// What a refusal says: its status, and behind it the message of its error, else the error, else its
/// text, else that there is none.
pub proof fn law_refusal_is_told(status: u64, error: Option<JsonV>, text: Option<Seq<char>>)
    ensures
        ({
            let said = http_error_text(status, error, text);
            let number = decimal(status as nat);
            &&& error matches Some(e) ==> (member(e, "message"@) matches Some(JsonV::Str(words))
                ==> (words.len() > 0 ==> said == number + " "@ + words))
            &&& error matches Some(e) ==> (member(e, "message"@) is None && truthy(e) ==> said
                == number + " "@ + stringified(e))
            &&& error is None && (text matches Some(words) && words.len() > 0) ==> said == number
                + " "@ + text->Some_0
            &&& error is None && (text is None || text->Some_0.len() == 0) ==> said == number
                + " status code (no body)"@
        }),
{
}

/// What is kept of a refusal: its status and its headers, the error that its body names, and what the
/// provider behind it said.
pub proof fn law_refusal_is_kept(status: u64, headers: Seq<(Seq<char>, Seq<char>)>, body: Seq<u8>)
    ensures
        ({
            let kept = http_error(status, headers, body);
            &&& kept.status == Some(status)
            &&& kept.headers == headers
            &&& !kept.aborted
            &&& json_parse(lossy_text(body)) matches Ok(v) ==> {
                &&& kept.error == member(v, "error"@)
                &&& member(v, "error"@) matches Some(error) ==> (member(
                    error,
                    "metadata"@,
                ) matches Some(metadata) ==> (member(metadata, "raw"@) matches Some(raw) ==> (
                truthy(raw) ==> kept.raw_metadata == Some(raw))))
                &&& member(v, "error"@) is None ==> kept.raw_metadata is None
                &&& truthy(v) ==> kept.message == http_error_text(
                    status,
                    member(v, "error"@),
                    None,
                )
            }
            &&& json_parse(lossy_text(body)) is Err ==> {
                &&& kept.error is None
                &&& kept.raw_metadata is None
                &&& kept.message == http_error_text(status, None, Some(lossy_text(body)))
            }
        }),
{
}

/// How a refusal is told to the caller: the error that it names, or else its message, behind a prefix
/// and its status; and, where that is asked for, what the provider behind it said.
pub proof fn law_refusal_is_formatted(
    error: OpenAiHttpErrorV,
    prefix: Seq<char>,
    named: JsonV,
    status: u64,
)
    requires
        error.error == Some(named),
        truthy(named),
        error.status == Some(status),
    ensures
        formatted_error(error, None, false) == decimal(status as nat) + ": "@ + stringified(named),
        formatted_error(error, Some(prefix), false) == prefix + " ("@ + decimal(status as nat)
            + "): "@ + stringified(named),
        formatted_error(OpenAiHttpErrorV { error: None, ..error }, None, false) == error.message,
        formatted_error(OpenAiHttpErrorV { error: None, ..error }, Some(prefix), false) == prefix
            + " ("@ + decimal(status as nat) + "): "@ + error.message,
        formatted_error(
            OpenAiHttpErrorV { error: None, status: None, ..error },
            Some(prefix),
            false,
        ) == prefix + ": "@ + error.message,
        formatted_error(OpenAiHttpErrorV { error: None, status: None, ..error }, None, false)
            == error.message,
        formatted_error(error, None, true) == with_raw(
            formatted_error(error, None, false),
            error.raw_metadata,
        ),
{
}

/// What the provider behind said is added on a line of its own, unless it is there already.
pub proof fn law_raw_words_are_added(message: Seq<char>, raw: JsonV)
    ensures
        with_raw(message, None) == message,
        has_part(message, js_text(raw)) ==> with_raw(message, Some(raw)) == message,
        !has_part(message, js_text(raw)) ==> with_raw(message, Some(raw)) == message + "\n"@
            + js_text(raw),
{
    reveal_strlit("\n");
    assert(message.push('\n') =~= message + "\n"@);
}

/// What is said where tries were made in vain.
pub proof fn law_retries_are_told(
    error: OpenAiHttpErrorV,
    message: Seq<char>,
    prefix: Option<Seq<char>>,
    raw: bool,
)
    ensures
        retry_error(ProviderRetryErrorV::Original(error), prefix, raw) == (RunErrorV {
            message: formatted_error(error, prefix, raw),
            aborted: error.aborted,
        }),
        retry_error(ProviderRetryErrorV::Abort, prefix, raw) == (RunErrorV {
            message: "Request aborted"@,
            aborted: true,
        }),
        retry_error(ProviderRetryErrorV::ServerDelay { message }, prefix, raw) == (RunErrorV {
            message,
            aborted: false,
        }),
{
}

/// Whether a transport failed in these words.
pub open spec fn is_transport_error(e: OpenAiHttpErrorV, message: Seq<char>, aborted: bool) -> bool {
    &&& e.message == message
    &&& e.aborted == aborted
    &&& e.status is None
    &&& e.error is None
    &&& e.raw_metadata is None
}

/// What a provider's answer comes to: a stream where it is one, a refusal where its status is no
/// success, and a failure where none came.
pub proof fn law_answers(status: u16, has_body: bool)
    ensures
        ({
            let got = answer(SendEvent::Answered { status, has_body });
            &&& 200 <= status < 300 && has_body ==> got == Ok::<AnswerV, OpenAiHttpErrorV>(
                AnswerV::Stream,
            )
            &&& 200 <= status < 300 && !has_body ==> got == Ok::<AnswerV, OpenAiHttpErrorV>(
                AnswerV::Empty(
                    OpenAiSseErrorV {
                        message: "Attempted to iterate over a response with no body"@,
                        raw_metadata: None,
                        aborted: false,
                    },
                ),
            )
            &&& status < 200 || status >= 300 ==> got == Ok::<AnswerV, OpenAiHttpErrorV>(
                AnswerV::Refusal,
            )
        }),
        answer(SendEvent::Broken) matches Err(e) && is_transport_error(
            e,
            "Connection error."@,
            false,
        ),
        answer(SendEvent::TimedOut) matches Err(e) && is_transport_error(
            e,
            "Request timed out."@,
            false,
        ),
        answer(SendEvent::Abort) matches Err(e) && is_transport_error(
            e,
            "Request was aborted."@,
            true,
        ),
{
}

/// The body of a refusal is read to its end, and then told; where it breaks off, that is told.
pub proof fn law_refusals_are_read(s: RefusalV, bytes: Vec<u8>)
    ensures
        refused(s, BodyEvent::Bytes(bytes)) == (
            RefusalV { body: s.body + bytes@, ..s },
            None::<OpenAiHttpErrorV>,
        ),
        refused(s, BodyEvent::End).1 == Some(http_error(s.status as u64, s.headers, s.body)),
        refused(s, BodyEvent::Broken).1 matches Some(e) && is_transport_error(
            e,
            "Connection error."@,
            false,
        ),
        refused(s, BodyEvent::Abort).1 matches Some(e) && is_transport_error(
            e,
            "Request was aborted."@,
            true,
        ),
{
}

/// What the data of an event comes to: the value that it is, unless that names an error; text that is
/// no value fails in words.
pub proof fn law_event_data_is_read(data: Seq<char>)
    ensures
        data.len() == 0 ==> (event_value(data) matches Err(e) && e.message
            == "Unexpected end of JSON input"@ && !e.aborted),
        data.len() > 0 ==> match json_parse(data) {
            Ok(v) => match member(v, "error"@) {
                Some(error) => if truthy(error) {
                    event_value(data) matches Err(e) && e.message == stream_error_text(error)
                        && !e.aborted
                } else {
                    event_value(data) == Ok::<JsonV, OpenAiSseErrorV>(v)
                },
                None => event_value(data) == Ok::<JsonV, OpenAiSseErrorV>(v),
            },
            Err(words) => event_value(data) matches Err(e) && e.message == words && !e.aborted,
        },
{
}

/// A stream of values ends with the word that says so, and each value is handed out in its turn.
pub proof fn law_values_are_handed_out(s: SseJsonStreamV)
    ensures
        s.ended ==> next_step(s) == (s, SseStepV::Finished),
        !s.ended && s.pending.len() == 0 ==> next_step(s) == (s, SseStepV::Wanted),
        !s.ended && s.pending.len() > 0 && begins(s.pending[0], "[DONE]"@) ==> next_step(s).1
            == SseStepV::Finished && next_step(s).0.ended,
        !s.ended && s.pending.len() > 0 && !begins(s.pending[0], "[DONE]"@) ==> {
            &&& next_step(s).0.pending == s.pending.drop_first()
            &&& event_value(s.pending[0]) matches Ok(v) ==> next_step(s).1 == SseStepV::Value(v)
                && !next_step(s).0.ended
            &&& event_value(s.pending[0]) matches Err(e) ==> next_step(s).1 == SseStepV::Failure(e)
                && next_step(s).0.ended
        },
{
}

/// What comes of a body: its bytes are read into values, a break or an abort is told and ends it, and
/// at its end what is left is read.
pub proof fn law_body_is_read(s: SseJsonStreamV, bytes: Vec<u8>)
    requires
        !s.ended,
    ensures
        fed(s, BodyEvent::Broken).1 == SseStepV::Failure(
            OpenAiSseErrorV {
                message: "Connection error."@,
                raw_metadata: None,
                aborted: false,
            },
        ) && fed(s, BodyEvent::Broken).0.ended,
        fed(s, BodyEvent::Abort).1 == SseStepV::Failure(
            OpenAiSseErrorV {
                message: "Request was aborted"@,
                raw_metadata: None,
                aborted: true,
            },
        ) && fed(s, BodyEvent::Abort).0.ended,
        ({
            let (decoder, events) = pushed(s.decoder, bytes@, false);
            fed(s, BodyEvent::Bytes(bytes)) == next_step(
                SseJsonStreamV { decoder, pending: s.pending + texts(events), ..s },
            )
        }),
        ({
            let (decoder, events) = pushed(s.decoder, Seq::empty(), true);
            &&& s.pending.len() + events.len() == 0 ==> fed(s, BodyEvent::End).1
                == SseStepV::Finished && fed(s, BodyEvent::End).0.ended
            &&& s.pending.len() + events.len() > 0 ==> fed(s, BodyEvent::End) == next_step(
                SseJsonStreamV { decoder, pending: s.pending + texts(events), ..s },
            )
        }),
        forall|data: Seq<Seq<u8>>|
            #![trigger texts(data)]
            texts(data).len() == data.len() && forall|i: int|
                0 <= i < data.len() ==> #[trigger] texts(data)[i] == lossy_text(data[i]),
{
}

/// How a value is written out: its numbers as they read, and all else as it is.
pub proof fn law_values_are_written_out(v: JsonV)
    ensures
        v matches JsonV::Number(n) ==> js_value(v) == JsonV::Number(js_number(n)),
        (v is Null || v is Bool || v is Str) ==> js_value(v) == v,
        v matches JsonV::Array(items) ==> (js_value(v) matches JsonV::Array(now) && now.len()
            == items.len() && forall|i: int|
            0 <= i < items.len() ==> #[trigger] now[i] == js_value(items[i])),
        v matches JsonV::Object(fields) ==> (js_value(v) matches JsonV::Object(now) && now.len()
            == fields.len() && forall|i: int|
            0 <= i < fields.len() ==> (#[trigger] now[i]).0 == fields[i].0 && now[i].1 == js_value(
                fields[i].1,
            )),
        stringified(v) == json_text(js_value(v)),
{
}

} // verus!
