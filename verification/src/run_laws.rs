//! How runs begin, go on and end.
use crate::chunk_laws::same_frame;
use crate::completions_chunks::raw_chunk;
use crate::completions_run;
use crate::completions_run::CompletionsRunV;
use crate::completions_stream::{
    block_finished, blocks_finished, chunk_step, CompletionsStreamV,
};
use crate::completions_types::OpenAICompletionsOptionsV;
use crate::constrained_sampling::StreamingJson;
use crate::headers::ClientHeaders;
use crate::json::JsonV;
use crate::openai_completions;
use crate::openai_completions::chunk_failure;
use crate::openai_responses;
use crate::openai_responses::{stream_failure, OpenAIResponsesOptionsV};
use crate::provider_error::{with_raw, OpenAiSseErrorV, RunErrorV};
use crate::responses_run;
use crate::responses_run::ResponsesRunV;
use crate::responses_stream::{stream_step, ServiceTierRule};
use crate::run::{
    completions_end, failed_turn, pending, responses_end, success, RunInputV, RunPhase,
};
use crate::transform_messages::ResponsesToolCallIds;
use crate::types::{
    AssistantMessageEventV, AssistantMessageV, ContextV, ErrorStopReason,
    ModelV, StopReason, SuccessfulStopReason, ToolV, UsageV, UsageValueV,
};
use vstd::prelude::*;

verus! {

/// A turn begins without blocks, without usage and without a reason to stop.
pub proof fn law_turn_begins_empty(
    api: Seq<char>,
    provider: Seq<char>,
    model: Seq<char>,
    now: i64,
)
    ensures
        ({
            let turn = pending(api, provider, model, now);
            &&& turn.content.len() == 0
            &&& turn.api == api
            &&& turn.provider == provider
            &&& turn.model == model
            &&& turn.timestamp == now
            &&& turn.stop_reason == StopReason::Pending
            &&& turn.response_id is None
            &&& turn.response_model is None
            &&& turn.raw_stop_reason is None
            &&& turn.error_message is None
            &&& turn.reasoning_details is None
            &&& turn.end_turn is None
            &&& turn.usage == UsageV {
                input: UsageValueV::Count(0),
                output: UsageValueV::Count(0),
                cache_read: UsageValueV::Count(0),
                cache_write: UsageValueV::Count(0),
                reasoning: None,
                total_tokens: UsageValueV::Count(0),
            }
        }),
{
}

/// A turn that fails keeps what it has and says why: it was aborted where the caller gave up or the
/// failure is that of an abort, and is in error otherwise.
pub proof fn law_failure_is_told(output: AssistantMessageV, error: RunErrorV, gave_up: bool)
    ensures
        failed_turn(output, error, gave_up) == if gave_up || error.aborted {
            AssistantMessageEventV::Error {
                reason: ErrorStopReason::Aborted,
                error: AssistantMessageV {
                    stop_reason: StopReason::Aborted,
                    error_message: Some(error.message),
                    ..output
                },
            }
        } else {
            AssistantMessageEventV::Error {
                reason: ErrorStopReason::Error,
                error: AssistantMessageV {
                    stop_reason: StopReason::Error,
                    error_message: Some(error.message),
                    ..output
                },
            }
        },
{
}

/// Four reasons to stop are no failures.
pub proof fn law_successes(reason: StopReason)
    ensures
        success(reason) == match reason {
            StopReason::Stop => Some(SuccessfulStopReason::Stop),
            StopReason::Length => Some(SuccessfulStopReason::Length),
            StopReason::ToolUse => Some(SuccessfulStopReason::ToolUse),
            StopReason::Deferred => Some(SuccessfulStopReason::Deferred),
            _ => None,
        },
{
}

/// Whether a failure is told in these words.
pub open spec fn fails_with<T>(
    r: Result<T, RunErrorV>,
    message: Seq<char>,
    aborted: bool,
) -> bool {
    r matches Err(e) && e.message == message && e.aborted == aborted
}

/// How a Responses run ends.
pub proof fn law_responses_run_ends(output: AssistantMessageV, gave_up: bool)
    ensures
        ({
            let end = responses_end(output, gave_up);
            let said = match output.error_message {
                Some(message) => message,
                None => "An unknown error occurred"@,
            };
            if gave_up {
                fails_with(end, "Request was aborted"@, true)
            } else {
                match output.stop_reason {
                    StopReason::Pending => fails_with(
                        end,
                        "OpenAI Responses stream ended without a stop reason"@,
                        false,
                    ),
                    StopReason::Error | StopReason::Aborted => fails_with(end, said, false),
                    StopReason::Stop => end == Ok::<SuccessfulStopReason, RunErrorV>(
                        SuccessfulStopReason::Stop,
                    ),
                    StopReason::Length => end == Ok::<SuccessfulStopReason, RunErrorV>(
                        SuccessfulStopReason::Length,
                    ),
                    StopReason::ToolUse => end == Ok::<SuccessfulStopReason, RunErrorV>(
                        SuccessfulStopReason::ToolUse,
                    ),
                    StopReason::Deferred => end == Ok::<SuccessfulStopReason, RunErrorV>(
                        SuccessfulStopReason::Deferred,
                    ),
                }
            }
        }),
{
}

/// Whether a turn holds a call.
pub open spec fn calls(output: AssistantMessageV) -> bool {
    exists|i: int| 0 <= i < output.content.len() && #[trigger] output.content[i] is ToolCall
}

/// How a chat-completions run ends. Where the provider gives no reasons, a turn with a call is one
/// that uses tools and any other has stopped; where it does, none means that the stream broke off.
pub proof fn law_chat_run_ends(
    output: AssistantMessageV,
    has_reason: bool,
    gives_reasons: bool,
    gave_up: bool,
)
    ensures
        ({
            let (reason, end) = completions_end(output, has_reason, gives_reasons, gave_up);
            let settled = if has_reason || gives_reasons {
                output.stop_reason
            } else if calls(output) {
                StopReason::ToolUse
            } else {
                StopReason::Stop
            };
            let said = match output.error_message {
                Some(message) => message,
                None => "Provider returned an error stop reason"@,
            };
            if gave_up || output.stop_reason == StopReason::Aborted {
                reason == output.stop_reason && fails_with(end, "Request was aborted"@, true)
            } else {
                &&& reason == settled
                &&& match settled {
                    StopReason::Error => fails_with(end, said, false),
                    StopReason::Pending => fails_with(
                        end,
                        "Stream ended without finish_reason"@,
                        false,
                    ),
                    StopReason::Aborted => true,
                    _ => if gives_reasons && !has_reason {
                        fails_with(end, "Stream ended without finish_reason"@, false)
                    } else {
                        end matches Ok(why) && (why == SuccessfulStopReason::Stop <==> settled
                            == StopReason::Stop) && (why == SuccessfulStopReason::Length
                            <==> settled == StopReason::Length) && (why
                            == SuccessfulStopReason::ToolUse <==> settled == StopReason::ToolUse)
                    },
                }
            }
        }),
{
    assert(calls(output) == crate::responses_stream::has_call(output.content));
}

/// An error within a stream is told with what the provider said besides; an abort is none.
pub proof fn law_stream_errors(error: OpenAiSseErrorV)
    ensures
        error.aborted ==> chunk_failure(error) is None && stream_failure(error) is None,
        !error.aborted ==> stream_failure(error) == Some(error.message),
        !error.aborted ==> chunk_failure(error) == Some(
            with_raw(error.message, error.raw_metadata),
        ),
        !error.aborted && error.raw_metadata is None ==> chunk_failure(error) == Some(
            error.message,
        ),
{
}

/// A chat-completions run begins by asking, for a turn of the model. Where the request cannot be
/// made, the run is over and the reason is told.
pub proof fn law_chat_run_begins(
    model: ModelV,
    context: ContextV,
    options: OpenAICompletionsOptionsV,
    client: &ClientHeaders,
    environment: Option<Seq<char>>,
    gave_up: bool,
    now: i64,
)
    ensures
        ({
            let (run, first) = completions_run::begun(
                model,
                context,
                options,
                client,
                environment,
                gave_up,
                now,
            );
            let turn = pending(model.api, model.provider, model.id, now);
            &&& run.stream.output == turn
            &&& run.stream.events.len() == 0
            &&& run.stream.text_index is None
            &&& run.stream.thinking_index is None
            &&& !run.stream.has_finish_reason
            &&& run.supports_finish_reason == crate::completions_compat::resolved(
                model,
            ).supports_finish_reason
            &&& match openai_completions::prepared(
                model,
                context,
                options,
                client,
                environment,
                now,
            ) {
                Ok(request) => {
                    &&& run.phase == RunPhase::Asking
                    &&& run.properties == request.properties
                    &&& first matches Ok(sent) && sent == request
                },
                Err(e) => {
                    &&& run.phase == RunPhase::Over
                    &&& first matches Err(event) && event == failed_turn(
                        turn,
                        (RunErrorV { message: e, aborted: false }),
                        gave_up,
                    )
                },
            }
        }),
{
}

/// What a chat-completions run tells of each chunk is what the chunk adds. Where a chunk fails, the
/// run is over, and the failure is told last.
pub proof fn law_chunk_is_passed_on<P: StreamingJson>(
    run: CompletionsRunV,
    model: ModelV,
    v: JsonV,
    measured: UsageV,
    gave_up: bool,
    parser: &P,
)
    requires
        run.phase == RunPhase::Streaming,
    ensures
        ({
            let (next, told) = completions_run::run_step(
                run,
                model,
                RunInputV::Value(v),
                measured,
                gave_up,
                parser,
            );
            let (stream, failure) = chunk_step(
                run.stream,
                model,
                raw_chunk(v),
                measured,
                run.properties,
                parser,
            );
            &&& next.stream.output == stream.output
            &&& next.stream.events.len() == 0
            &&& next.properties == run.properties
            &&& failure is None ==> next.phase == RunPhase::Streaming && told == stream.events
            &&& failure matches Some(e) ==> next.phase == RunPhase::Over && told
                == stream.events.push(
                failed_turn(
                    stream.output,
                    (RunErrorV { message: e, aborted: false }),
                    gave_up,
                ),
            )
        }),
{
}

proof fn lemma_finished_keeps_frame<P: StreamingJson>(
    s: CompletionsStreamV,
    n: nat,
    parser: &P,
)
    ensures
        same_frame(s.output, blocks_finished(s, n, parser).0.output),
        blocks_finished(s, n, parser).0.has_finish_reason == s.has_finish_reason,
    decreases n,
{
    reveal(block_finished);
    if n > 0 {
        lemma_finished_keeps_frame(s, (n - 1) as nat, parser);
    }
}

/// Where the stream of a chat-completions run ends well, its blocks are closed and the turn is handed
/// out with its reason to stop.
pub proof fn law_chat_turn_is_done<P: StreamingJson>(
    run: CompletionsRunV,
    model: ModelV,
    measured: UsageV,
    parser: &P,
)
    requires
        run.phase == RunPhase::Streaming,
        run.stream.has_finish_reason,
        run.stream.output.stop_reason == StopReason::Stop || run.stream.output.stop_reason
            == StopReason::Length || run.stream.output.stop_reason == StopReason::ToolUse,
        blocks_finished(run.stream, run.stream.output.content.len(), parser).1 is None,
    ensures
        ({
            let (next, told) = completions_run::run_step(
                run,
                model,
                RunInputV::Ended,
                measured,
                false,
                parser,
            );
            let closed = blocks_finished(
                run.stream,
                run.stream.output.content.len(),
                parser,
            ).0;
            &&& next.phase == RunPhase::Over
            &&& told.len() == closed.events.len() + 1
            &&& told.drop_last() == closed.events
            &&& told.last() matches AssistantMessageEventV::Done { reason, message } && message
                == closed.output && (reason == SuccessfulStopReason::Stop
                <==> message.stop_reason == StopReason::Stop) && (reason
                == SuccessfulStopReason::Length <==> message.stop_reason == StopReason::Length)
        }),
{
    lemma_finished_keeps_frame(run.stream, run.stream.output.content.len(), parser);
    let closed = blocks_finished(run.stream, run.stream.output.content.len(), parser).0;
    let (next, told) = completions_run::run_step(
        run,
        model,
        RunInputV::Ended,
        measured,
        false,
        parser,
    );
    assert(told.drop_last() =~= closed.events);
    assert((AssistantMessageV {
        stop_reason: closed.output.stop_reason,
        ..closed.output
    }) == closed.output);
}

/// A Responses run begins by asking, for a turn of the model. Where the request cannot be made, the
/// run is over and the reason is told.
pub proof fn law_responses_run_begins(
    model: ModelV,
    context: ContextV,
    options: OpenAIResponsesOptionsV,
    client: &ClientHeaders,
    environment: Option<Seq<char>>,
    immediate: Seq<ToolV>,
    deferred: Seq<(Seq<char>, ToolV)>,
    ids: &ResponsesToolCallIds,
    gave_up: bool,
    now: i64,
)
    ensures
        ({
            let (run, first) = responses_run::begun(
                model,
                context,
                options,
                client,
                environment,
                immediate,
                deferred,
                ids,
                gave_up,
                now,
            );
            let turn = pending(model.api, model.provider, model.id, now);
            &&& run.stream.output == turn
            &&& run.stream.events.len() == 0
            &&& run.stream.slots.len() == 0
            &&& !run.stream.saw_terminal
            &&& run.options.service_tier == options.service_tier
            &&& run.options.service_tier_rule == ServiceTierRule::Echoed
            &&& !run.options.capture_end_turn
            &&& match openai_responses::prepared(
                model,
                context,
                options,
                client,
                environment,
                immediate,
                deferred,
                ids,
                now,
            ) {
                Ok(request) => {
                    &&& run.phase == RunPhase::Asking
                    &&& run.options.grammar_tool_input_properties == Some(request.properties)
                    &&& first matches Ok(sent) && sent == request
                },
                Err(e) => {
                    &&& run.phase == RunPhase::Over
                    &&& first matches Err(event) && event == failed_turn(
                        turn,
                        (RunErrorV { message: e, aborted: false }),
                        gave_up,
                    )
                },
            }
        }),
{
}

/// The listener is told of the start where the provider answers, and of nothing before.
pub proof fn law_answer_is_announced<P: StreamingJson>(
    chat: CompletionsRunV,
    model: ModelV,
    measured: UsageV,
    responses: ResponsesRunV,
    gave_up: bool,
    parser: &P,
)
    requires
        chat.phase == RunPhase::Asking,
        responses.phase == RunPhase::Asking,
    ensures
        completions_run::run_step(
            chat,
            model,
            RunInputV::Answered,
            measured,
            gave_up,
            parser,
        ) == (
            CompletionsRunV { phase: RunPhase::Streaming, ..chat },
            seq![AssistantMessageEventV::Start],
        ),
        responses_run::run_step(responses, RunInputV::Answered, gave_up, parser) == (
            ResponsesRunV { phase: RunPhase::Streaming, ..responses },
            seq![AssistantMessageEventV::Start],
        ),
{
}

/// What a Responses run tells of each event is what the event adds. Where an event fails, the run is
/// over, and the failure is told last.
pub proof fn law_event_is_passed_on<P: StreamingJson>(
    run: ResponsesRunV,
    v: JsonV,
    gave_up: bool,
    parser: &P,
)
    requires
        run.phase == RunPhase::Streaming,
    ensures
        ({
            let (next, told) = responses_run::run_step(run, RunInputV::Value(v), gave_up, parser);
            let step = stream_step(run.stream, v, run.options, parser);
            &&& next.stream.output == step.stream.output
            &&& next.stream.events.len() == 0
            &&& next.options == run.options
            &&& step.error is None ==> next.phase == RunPhase::Streaming && told
                == step.stream.events
            &&& step.error matches Some(e) ==> next.phase == RunPhase::Over && told
                == step.stream.events.push(
                failed_turn(
                    step.stream.output,
                    (RunErrorV { message: e, aborted: false }),
                    gave_up,
                ),
            )
        }),
{
}

/// Where the stream of a Responses run ends, the turn is handed out with its reason to stop where a
/// response was finished well, and as a failure otherwise.
pub proof fn law_responses_turn_is_done<P: StreamingJson>(
    run: ResponsesRunV,
    gave_up: bool,
    parser: &P,
)
    requires
        run.phase == RunPhase::Streaming,
    ensures
        ({
            let (next, told) = responses_run::run_step(run, RunInputV::Ended, gave_up, parser);
            let output = run.stream.output;
            &&& next.phase == RunPhase::Over
            &&& told.len() == run.stream.events.len() + 1
            &&& !run.stream.saw_terminal ==> told.last() == failed_turn(
                output,
                (RunErrorV {
                    message: "OpenAI Responses stream ended before a terminal response event"@,
                    aborted: false,
                }),
                gave_up,
            )
            &&& run.stream.saw_terminal ==> match responses_end(output, gave_up) {
                Ok(reason) => told.last() == (AssistantMessageEventV::Done {
                    reason,
                    message: output,
                }),
                Err(e) => told.last() == failed_turn(output, e, gave_up),
            }
        }),
{
}

} // verus!
