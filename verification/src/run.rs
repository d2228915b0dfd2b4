//! The beginning and the end of a run.
use crate::completions_laws::event_block;
use crate::constrained_sampling::outcome;
use crate::json::{Json, JsonV};
use crate::provider_error::{OpenAiSseError, OpenAiSseErrorV, RunError, RunErrorV};
use crate::responses_stream::{has_call, has_tool_call};
use crate::types::{
    AssistantMessage, AssistantMessageEvent, AssistantMessageEventV, AssistantMessageV,
    ErrorStopReason, Model, StopReason, SuccessfulStopReason, Usage, UsageV, UsageValue,
    UsageValueV,
};
use vstd::prelude::*;

verus! {

/// Usage of nothing.
pub open spec fn no_usage() -> UsageV {
    UsageV {
        input: UsageValueV::Count(0),
        output: UsageValueV::Count(0),
        cache_read: UsageValueV::Count(0),
        cache_write: UsageValueV::Count(0),
        reasoning: None,
        total_tokens: UsageValueV::Count(0),
    }
}

/// A turn that has brought nothing.
pub open spec fn pending(
    api: Seq<char>,
    provider: Seq<char>,
    model: Seq<char>,
    timestamp: i64,
) -> AssistantMessageV {
    AssistantMessageV {
        content: Seq::empty(),
        api,
        provider,
        model,
        response_model: None,
        response_id: None,
        usage: no_usage(),
        stop_reason: StopReason::Pending,
        raw_stop_reason: None,
        error_message: None,
        reasoning_details: None,
        end_turn: None,
        timestamp,
    }
}

impl AssistantMessage {
    /// A turn that has brought nothing.
    pub fn pending(api: &str, provider: &str, model: &str, timestamp: i64) -> (r: Self)
        ensures
            r@ == pending(api@, provider@, model@, timestamp),
    {
        let r = AssistantMessage {
            content: Vec::new(),
            api: api.to_owned(),
            provider: provider.to_owned(),
            model: model.to_owned(),
            response_model: None,
            response_id: None,
            usage: Usage {
                input: UsageValue::Count(0),
                output: UsageValue::Count(0),
                cache_read: UsageValue::Count(0),
                cache_write: UsageValue::Count(0),
                reasoning: None,
                total_tokens: UsageValue::Count(0),
            },
            stop_reason: StopReason::Pending,
            raw_stop_reason: None,
            error_message: None,
            reasoning_details: None,
            end_turn: None,
            timestamp,
        };
        assert(r@.content =~= Seq::empty());
        r
    }
}

/// The turn that a request to a model begins with.
pub fn pending_message(model: &Model, now: i64) -> (r: AssistantMessage)
    ensures
        r@ == pending(model@.api, model@.provider, model@.id, now),
{
    AssistantMessage::pending(
        model.api.as_str(),
        model.provider.as_str(),
        model.id.as_str(),
        now,
    )
}

/// The turn that a failure makes of what has come so far.
pub open spec fn failed_turn(output: AssistantMessageV, error: RunErrorV, gave_up: bool) -> AssistantMessageEventV {
    let aborted = gave_up || error.aborted;
    AssistantMessageEventV::Error {
        reason: if aborted {
            ErrorStopReason::Aborted
        } else {
            ErrorStopReason::Error
        },
        error: AssistantMessageV {
            stop_reason: if aborted {
                StopReason::Aborted
            } else {
                StopReason::Error
            },
            error_message: Some(error.message),
            ..output
        },
    }
}

/// What the listener is told where a run fails. `gave_up` says whether the caller has given the
/// request up.
pub fn fail_run(output: AssistantMessage, error: RunError, gave_up: bool) -> (r:
    AssistantMessageEvent)
    ensures
        r@ == failed_turn(output@, error@, gave_up),
{
    let aborted = gave_up || error.aborted;
    let mut output = output;
    output.stop_reason = if aborted {
        StopReason::Aborted
    } else {
        StopReason::Error
    };
    output.error_message = Some(error.message);
    AssistantMessageEvent::Error {
        reason: if aborted {
            ErrorStopReason::Aborted
        } else {
            ErrorStopReason::Error
        },
        error: output,
    }
}

/// What the listener is told where a request cannot be made at all.
pub fn terminal_setup_error(model: &Model, message: &str, now: i64) -> (r: AssistantMessageEvent)
    ensures
        r@ == failed_turn(
            pending(model@.api, model@.provider, model@.id, now),
            (RunErrorV { message: message@, aborted: false }),
            false,
        ),
{
    fail_run(
        pending_message(model, now),
        RunError { message: message.to_owned(), aborted: false },
        false,
    )
}

/// The reason of a turn that succeeded.
pub open spec fn success(reason: StopReason) -> Option<SuccessfulStopReason> {
    match reason {
        StopReason::Stop => Some(SuccessfulStopReason::Stop),
        StopReason::Length => Some(SuccessfulStopReason::Length),
        StopReason::ToolUse => Some(SuccessfulStopReason::ToolUse),
        StopReason::Deferred => Some(SuccessfulStopReason::Deferred),
        StopReason::Pending | StopReason::Error | StopReason::Aborted => None,
    }
}

/// The reason of a turn that succeeded.
pub fn successful_stop_reason(reason: StopReason) -> (r: Option<SuccessfulStopReason>)
    ensures
        r == success(reason),
{
    match reason {
        StopReason::Stop => Some(SuccessfulStopReason::Stop),
        StopReason::Length => Some(SuccessfulStopReason::Length),
        StopReason::ToolUse => Some(SuccessfulStopReason::ToolUse),
        StopReason::Deferred => Some(SuccessfulStopReason::Deferred),
        StopReason::Pending | StopReason::Error | StopReason::Aborted => None,
    }
}

/// A failure that is no giving up.
pub open spec fn plain_error(message: Seq<char>) -> RunErrorV {
    RunErrorV { message, aborted: false }
}

/// The error of a request that the caller gave up.
pub open spec fn given_up() -> RunErrorV {
    RunErrorV { message: "Request was aborted"@, aborted: true }
}

fn make_error(message: &str, aborted: bool) -> (r: RunError)
    ensures
        r@ == (RunErrorV { message: message@, aborted }),
{
    RunError { message: message.to_owned(), aborted }
}

/// A text, or another where there is none.
pub open spec fn words_or(s: Option<Seq<char>>, other: Seq<char>) -> Seq<char> {
    match s {
        Some(s) => s,
        None => other,
    }
}

fn own_words(s: &Option<String>, other: &str) -> (r: String)
    ensures
        r@ == words_or(s.deep_view(), other@),
{
    match s {
        Some(s) => s.clone(),
        None => other.to_owned(),
    }
}

/// How a Responses run ends, where the stream has: with the reason of the turn, or as a failure.
pub open spec fn responses_end(output: AssistantMessageV, gave_up: bool) -> Result<
    SuccessfulStopReason,
    RunErrorV,
> {
    if gave_up {
        Err(given_up())
    } else if output.stop_reason == StopReason::Pending {
        Err(plain_error("OpenAI Responses stream ended without a stop reason"@))
    } else if output.stop_reason == StopReason::Aborted || output.stop_reason
        == StopReason::Error {
        Err(plain_error(words_or(output.error_message, "An unknown error occurred"@)))
    } else {
        Ok(success(output.stop_reason)->Some_0)
    }
}

/// How a Responses run ends, where the stream has. `gave_up` says whether the caller has given the
/// request up.
pub fn end_responses_run(output: &AssistantMessage, gave_up: bool) -> (r: Result<
    SuccessfulStopReason,
    RunError,
>)
    ensures
        outcome(r) == responses_end(output@, gave_up),
{
    if gave_up {
        return Err(make_error("Request was aborted", true));
    }
    if output.stop_reason == StopReason::Pending {
        return Err(make_error("OpenAI Responses stream ended without a stop reason", false));
    }
    match successful_stop_reason(output.stop_reason) {
        Some(reason) => Ok(reason),
        None => {
            let message = own_words(&output.error_message, "An unknown error occurred");
            Err(RunError { message, aborted: false })
        },
    }
}

/// The reason of a chat-completions turn of which the provider says none, where it never does.
pub open spec fn assumed_reason(
    output: AssistantMessageV,
    has_finish_reason: bool,
    supports_finish_reason: bool,
) -> StopReason {
    if has_finish_reason || supports_finish_reason {
        output.stop_reason
    } else if has_call(output.content) {
        StopReason::ToolUse
    } else {
        StopReason::Stop
    }
}

/// How a chat-completions run ends, where the stream has: what reason the turn has then, and
/// whether that is a success.
pub open spec fn completions_end(
    output: AssistantMessageV,
    has_finish_reason: bool,
    supports_finish_reason: bool,
    gave_up: bool,
) -> (StopReason, Result<SuccessfulStopReason, RunErrorV>) {
    let reason = assumed_reason(output, has_finish_reason, supports_finish_reason);
    if gave_up || output.stop_reason == StopReason::Aborted {
        (output.stop_reason, Err(given_up()))
    } else if reason == StopReason::Error {
        (
            reason,
            Err(
                plain_error(
                    words_or(output.error_message, "Provider returned an error stop reason"@),
                ),
            ),
        )
    } else if (supports_finish_reason && !has_finish_reason) || reason == StopReason::Pending {
        (reason, Err(plain_error("Stream ended without finish_reason"@)))
    } else {
        (
            reason,
            match success(reason) {
                Some(reason) => Ok(reason),
                None => Err(plain_error("Provider returned an invalid successful stop reason"@)),
            },
        )
    }
}

/// How a chat-completions run ends, where the stream has; the reason of the turn is set where the
/// provider never says one. `gave_up` says whether the caller has given the request up.
pub fn end_completions_run(
    output: &mut AssistantMessage,
    has_finish_reason: bool,
    supports_finish_reason: bool,
    gave_up: bool,
) -> (r: Result<SuccessfulStopReason, RunError>)
    ensures
        ({
            let (reason, end) = completions_end(
                old(output)@,
                has_finish_reason,
                supports_finish_reason,
                gave_up,
            );
            &&& outcome(r) == end
            &&& final(output)@ == (AssistantMessageV { stop_reason: reason, ..old(output)@ })
        }),
{
    if gave_up || output.stop_reason == StopReason::Aborted {
        return Err(make_error("Request was aborted", true));
    }
    if !has_finish_reason && !supports_finish_reason {
        output.stop_reason = if has_tool_call(&output.content) {
            StopReason::ToolUse
        } else {
            StopReason::Stop
        };
    }
    if output.stop_reason == StopReason::Error {
        let message = own_words(&output.error_message, "Provider returned an error stop reason");
        return Err(RunError { message, aborted: false });
    }
    if (supports_finish_reason && !has_finish_reason) || output.stop_reason == StopReason::Pending {
        return Err(make_error("Stream ended without finish_reason", false));
    }
    match successful_stop_reason(output.stop_reason) {
        Some(reason) => Ok(reason),
        None => Err(make_error("Provider returned an invalid successful stop reason", false)),
    }
}

/// How far a run has come.
#[derive(Clone, Copy, Debug, PartialEq, Eq, Structural)]
pub enum RunPhase {
    /// The provider has not answered.
    Asking,
    /// The provider answers.
    Streaming,
    /// The listener has been told how the run ended.
    Over,
}

/// What happens to a run.
#[derive(Debug)]
pub enum RunInput {
    /// The request failed, or something that the run depends on.
    Failed(RunError),
    /// The provider has begun to answer.
    Answered,
    /// A value of the stream.
    Value(Json),
    /// The stream failed.
    Broken(OpenAiSseError),
    /// The stream is at its end, or the caller waits for it no longer.
    Ended,
}

/// The model of [`RunInput`].
pub enum RunInputV {
    Failed(RunErrorV),
    Answered,
    Value(JsonV),
    Broken(OpenAiSseErrorV),
    Ended,
}

impl View for RunInput {
    type V = RunInputV;

    open spec fn view(&self) -> RunInputV {
        match self {
            RunInput::Failed(e) => RunInputV::Failed(e@),
            RunInput::Answered => RunInputV::Answered,
            RunInput::Value(v) => RunInputV::Value(v@),
            RunInput::Broken(e) => RunInputV::Broken(e@),
            RunInput::Ended => RunInputV::Ended,
        }
    }
}

/// Whether all events from the `n`th on are about blocks.
pub open spec fn about_blocks(events: Seq<AssistantMessageEventV>, n: int) -> bool {
    forall|i: int| n <= i < events.len() ==> event_block(#[trigger] events[i]) is Some
}

/// Whether an event says how a run ended.
pub open spec fn is_terminal(event: AssistantMessageEventV) -> bool {
    event is Done || event is Error
}

/// Whether the listener of a run has been told what belongs to its phase, and in order: nothing
/// before the provider answers; then the start, and what comes of the blocks; at last, once, how the
/// run ended. A run that ends before the provider answers has failed, and nothing else is told of
/// it.
pub open spec fn told_in_order(phase: RunPhase, events: Seq<AssistantMessageEventV>) -> bool {
    match phase {
        RunPhase::Asking => events.len() == 0,
        RunPhase::Streaming => {
            &&& events.len() > 0
            &&& events[0] is Start
            &&& about_blocks(events, 1)
        },
        RunPhase::Over => {
            &&& events.len() > 0
            &&& is_terminal(events.last())
            &&& events.len() == 1 ==> events[0] is Error
            &&& events.len() > 1 ==> events[0] is Start
            &&& about_blocks(events.drop_last(), 1)
        },
    }
}

/// One more step of a run whose listener has been told in order.
pub proof fn lemma_told_in_order(
    phase: RunPhase,
    events: Seq<AssistantMessageEventV>,
    next: RunPhase,
    more: Seq<AssistantMessageEventV>,
)
    requires
        told_in_order(phase, events),
        step_in_order(phase, next, more),
    ensures
        told_in_order(next, events + more),
{
    let all = events + more;
    if more.len() == 0 {
        assert(all =~= events);
    } else {
        if phase == RunPhase::Asking {
            assert(all =~= more);
            if next == RunPhase::Over {
                assert(all.drop_last() =~= Seq::empty());
            }
        } else {
            assert(all.last() == more.last());
            assert(all.drop_last() =~= events + more.drop_last());
            assert(all[0] == events[0]);
        }
    }
}

/// Whether a step from one phase to the next tells what belongs to it.
pub open spec fn step_in_order(
    phase: RunPhase,
    next: RunPhase,
    more: Seq<AssistantMessageEventV>,
) -> bool {
    match (phase, next) {
        (RunPhase::Asking, RunPhase::Asking) => more.len() == 0,
        (RunPhase::Asking, RunPhase::Streaming) => more.len() == 1 && more[0] is Start,
        (RunPhase::Asking, RunPhase::Over) => more.len() == 1 && more[0] is Error,
        (RunPhase::Streaming, RunPhase::Streaming) => about_blocks(more, 0),
        (RunPhase::Streaming, RunPhase::Over) => {
            &&& more.len() > 0
            &&& is_terminal(more.last())
            &&& about_blocks(more.drop_last(), 0)
        },
        (RunPhase::Over, RunPhase::Over) => more.len() == 0,
        _ => false,
    }
}

/// A run that the caller gave up never succeeds, and neither does one of a turn that has no reason,
/// or failed.
pub proof fn law_no_success_without_reason(
    output: AssistantMessageV,
    has_finish_reason: bool,
    supports_finish_reason: bool,
    gave_up: bool,
)
    ensures
        responses_end(output, gave_up) is Ok <==> !gave_up && success(output.stop_reason) is Some,
        completions_end(output, has_finish_reason, true, gave_up).1 is Ok ==> !gave_up
            && has_finish_reason && success(output.stop_reason) is Some,
        gave_up ==> completions_end(
            output,
            has_finish_reason,
            supports_finish_reason,
            gave_up,
        ).1 == Err::<SuccessfulStopReason, RunErrorV>(given_up()),
{
}

} // verus!
