//! A run against the Responses API, from what happens to it to what its listener is told.
use crate::assoc::{copy_list, lookup, removed};
use crate::constrained_sampling::StreamingJson;
use crate::headers::{ClientHeaders, PreparedRequest, PreparedRequestV};
use crate::json::JsonV;
use crate::openai_responses::{
    prepare_request, prepared, response_stream_error, stream_failure, OpenAIResponsesOptions,
    OpenAIResponsesOptionsV,
};
use crate::openai_responses_shared::OpenAIResponsesError;
use crate::provider_error::{RunError, RunErrorV};
use crate::responses_events::{
    decoded_event, decoded_item, DecodedResponseEventV, OutputItemV,
};
use crate::responses_stream::{
    arguments_done_step, arguments_step, closed as item_closed, copy_tier, finalized,
    input_delta_step, input_done_step, item_done_step, opened, phase_applied, stream_step,
    text_step, thinking_step, OpenAIResponsesStreamOptions, OpenAIResponsesStreamOptionsV, OutputSlotV,
    ResponsesStream, ResponsesStreamV, ServiceTierRule, NO_TERMINAL_EVENT,
};
use crate::run::{
    about_blocks, end_responses_run, fail_run, failed_turn, is_terminal, lemma_told_in_order,
    pending, pending_message, plain_error, responses_end, step_in_order, told_in_order, RunInput,
    RunInputV, RunPhase,
};
use crate::transform_messages::ResponsesToolCallIds;
use crate::types::{
    AssistantMessageEvent, AssistantMessageEventV, AssistantMessageV, Context, ContextV,
    ErrorStopReason, Model, ModelV, Tool, ToolV,
};
use vstd::prelude::*;

verus! {

/// A run.
#[derive(Debug)]
pub struct ResponsesRun {
    pub phase: RunPhase,
    pub stream: ResponsesStream,
    pub options: OpenAIResponsesStreamOptions,
}

/// The model of [`ResponsesRun`].
pub struct ResponsesRunV {
    pub phase: RunPhase,
    pub stream: ResponsesStreamV,
    pub options: OpenAIResponsesStreamOptionsV,
}

impl View for ResponsesRun {
    type V = ResponsesRunV;

    open spec fn view(&self) -> ResponsesRunV {
        ResponsesRunV { phase: self.phase, stream: self.stream@, options: self.options@ }
    }
}

/// The stream of a turn that has brought nothing.
pub open spec fn fresh_stream(output: AssistantMessageV) -> ResponsesStreamV {
    ResponsesStreamV {
        output,
        slots: Seq::empty(),
        reasoning_blocks: Seq::empty(),
        saw_terminal: false,
        service_tier: None,
        events: Seq::empty(),
    }
}

/// The beginning of a run: the request that it makes, or what the listener is told where it makes
/// none.
pub open spec fn begun(
    model: ModelV,
    context: ContextV,
    options: OpenAIResponsesOptionsV,
    client: &ClientHeaders,
    environment: Option<Seq<char>>,
    immediate: Seq<ToolV>,
    deferred: Seq<(Seq<char>, ToolV)>,
    ids: &ResponsesToolCallIds,
    gave_up: bool,
    now: i64,
) -> (ResponsesRunV, Result<PreparedRequestV, AssistantMessageEventV>) {
    let output = pending(model.api, model.provider, model.id, now);
    let stream_options = OpenAIResponsesStreamOptionsV {
        service_tier: options.service_tier,
        service_tier_rule: ServiceTierRule::Echoed,
        grammar_tool_input_properties: None,
        capture_end_turn: false,
    };
    let run = ResponsesRunV {
        phase: RunPhase::Asking,
        stream: fresh_stream(output),
        options: stream_options,
    };
    match prepared(
        model,
        context,
        options,
        client,
        environment,
        immediate,
        deferred,
        ids,
        now,
    ) {
        Ok(request) => (
            ResponsesRunV {
                options: OpenAIResponsesStreamOptionsV {
                    grammar_tool_input_properties: Some(request.properties),
                    ..stream_options
                },
                ..run
            },
            Ok(request),
        ),
        Err(e) => (
            ResponsesRunV { phase: RunPhase::Over, ..run },
            Err(failed_turn(output, plain_error(e), gave_up)),
        ),
    }
}

/// A run after a step of its stream, with what has been told of that.
pub open spec fn handed_on(run: ResponsesRunV, stream: ResponsesStreamV) -> (
    ResponsesRunV,
    Seq<AssistantMessageEventV>,
) {
    (
        ResponsesRunV { stream: ResponsesStreamV { events: Seq::empty(), ..stream }, ..run },
        stream.events,
    )
}

/// A run that is over after a step of its stream.
pub open spec fn closed(
    run: ResponsesRunV,
    stream: ResponsesStreamV,
    event: AssistantMessageEventV,
) -> (ResponsesRunV, Seq<AssistantMessageEventV>) {
    let (next, told) = handed_on(run, stream);
    (ResponsesRunV { phase: RunPhase::Over, ..next }, told.push(event))
}

/// The end of the stream: the turn succeeds or fails.
pub open spec fn stream_ended(run: ResponsesRunV, gave_up: bool) -> (
    ResponsesRunV,
    Seq<AssistantMessageEventV>,
) {
    let output = run.stream.output;
    if !run.stream.saw_terminal {
        closed(
            run,
            run.stream,
            failed_turn(output, plain_error(NO_TERMINAL_EVENT@), gave_up),
        )
    } else {
        match responses_end(output, gave_up) {
            Ok(reason) => closed(
                run,
                run.stream,
                AssistantMessageEventV::Done { reason, message: output },
            ),
            Err(e) => closed(run, run.stream, failed_turn(output, e, gave_up)),
        }
    }
}

/// What a run makes of what happens to it, and what its listener is told. A run that is over takes
/// nothing in, and one that waits for the answer takes only the answer and failures.
pub open spec fn run_step<P: StreamingJson>(
    run: ResponsesRunV,
    input: RunInputV,
    gave_up: bool,
    parser: &P,
) -> (ResponsesRunV, Seq<AssistantMessageEventV>) {
    match (run.phase, input) {
        (RunPhase::Over, _) => (run, Seq::empty()),
        (_, RunInputV::Failed(e)) => closed(
            run,
            run.stream,
            failed_turn(run.stream.output, e, gave_up),
        ),
        (RunPhase::Asking, RunInputV::Answered) => (
            ResponsesRunV { phase: RunPhase::Streaming, ..run },
            seq![AssistantMessageEventV::Start],
        ),
        (RunPhase::Asking, _) => (run, Seq::empty()),
        (RunPhase::Streaming, RunInputV::Answered) => (run, Seq::empty()),
        (RunPhase::Streaming, RunInputV::Value(v)) => {
            let step = stream_step(run.stream, v, run.options, parser);
            match step.error {
                Some(e) => closed(
                    run,
                    step.stream,
                    failed_turn(step.stream.output, plain_error(e), gave_up),
                ),
                None => handed_on(run, step.stream),
            }
        },
        (RunPhase::Streaming, RunInputV::Broken(e)) => match stream_failure(e) {
            Some(e) => closed(
                run,
                run.stream,
                failed_turn(run.stream.output, plain_error(e), gave_up),
            ),
            None => stream_ended(run, gave_up),
        },
        (RunPhase::Streaming, RunInputV::Ended) => stream_ended(run, gave_up),
    }
}

impl ResponsesRun {
    /// Begins a run. `environment` is what the variable `PI_CACHE_RETENTION` holds; the tools are
    /// those that are listed at once and those that are added in the course of the conversation;
    /// `gave_up` says whether the caller has given the request up.
    pub fn begin(
        model: &Model,
        context: &Context,
        options: &OpenAIResponsesOptions,
        client: &ClientHeaders,
        environment: Option<&str>,
        immediate: &Vec<Tool>,
        deferred: &Vec<(String, Tool)>,
        ids: &ResponsesToolCallIds,
        gave_up: bool,
        now: i64,
    ) -> (r: (Self, Result<PreparedRequest, AssistantMessageEvent>))
        ensures
            (
                r.0@,
                match r.1 {
                    Ok(request) => Ok(request@),
                    Err(event) => Err(event@),
                },
            ) == begun(
                model@,
                context@,
                options@,
                client,
                match environment {
                    Some(value) => Some(value@),
                    None => None,
                },
                immediate.deep_view(),
                deferred.deep_view(),
                ids,
                gave_up,
                now,
            ),
    {
        let output = pending_message(model, now);
        let service_tier = copy_tier(&options.service_tier);
        match prepare_request(
            model,
            context,
            options,
            client,
            environment,
            immediate,
            deferred,
            ids,
            now,
        ) {
            Ok(request) => {
                let run = ResponsesRun {
                    phase: RunPhase::Asking,
                    stream: ResponsesStream::new(output),
                    options: OpenAIResponsesStreamOptions {
                        service_tier,
                        service_tier_rule: ServiceTierRule::Echoed,
                        grammar_tool_input_properties: Some(copy_list(&request.properties)),
                        capture_end_turn: false,
                    },
                };
                (run, Ok(request))
            },
            Err(e) => {
                let event = fail_run(
                    output.clone(),
                    RunError { message: e, aborted: false },
                    gave_up,
                );
                let run = ResponsesRun {
                    phase: RunPhase::Over,
                    stream: ResponsesStream::new(output),
                    options: OpenAIResponsesStreamOptions {
                        service_tier,
                        service_tier_rule: ServiceTierRule::Echoed,
                        grammar_tool_input_properties: None,
                        capture_end_turn: false,
                    },
                };
                (run, Err(event))
            },
        }
    }

    fn hand_on(&mut self) -> (r: Vec<AssistantMessageEvent>)
        ensures
            (final(self)@, r.deep_view()) == handed_on(old(self)@, old(self)@.stream),
    {
        let mut r: Vec<AssistantMessageEvent> = Vec::new();
        r.append(&mut self.stream.events);
        assert(r.deep_view() =~= old(self)@.stream.events);
        assert(self.stream.events.deep_view() =~= Seq::empty());
        r
    }

    fn close(&mut self, event: AssistantMessageEvent) -> (r: Vec<AssistantMessageEvent>)
        ensures
            (final(self)@, r.deep_view()) == closed(old(self)@, old(self)@.stream, event@),
    {
        let mut r = self.hand_on();
        let ghost told = r.deep_view();
        self.phase = RunPhase::Over;
        r.push(event);
        assert(r.deep_view() =~= told.push(event@));
        r
    }

    fn fail(&mut self, error: RunError, gave_up: bool) -> (r: Vec<AssistantMessageEvent>)
        ensures
            (final(self)@, r.deep_view()) == closed(
                old(self)@,
                old(self)@.stream,
                failed_turn(old(self)@.stream.output, error@, gave_up),
            ),
    {
        let event = fail_run(self.stream.output.clone(), error, gave_up);
        self.close(event)
    }

    fn fail_plainly(&mut self, error: OpenAIResponsesError, gave_up: bool) -> (r: Vec<
        AssistantMessageEvent,
    >)
        ensures
            (final(self)@, r.deep_view()) == closed(
                old(self)@,
                old(self)@.stream,
                failed_turn(old(self)@.stream.output, plain_error(error@), gave_up),
            ),
    {
        self.fail(RunError { message: error.message(), aborted: false }, gave_up)
    }

    fn end(&mut self, gave_up: bool) -> (r: Vec<AssistantMessageEvent>)
        ensures
            (final(self)@, r.deep_view()) == stream_ended(old(self)@, gave_up),
    {
        match self.stream.finish() {
            Err(e) => self.fail_plainly(e, gave_up),
            Ok(_) => match end_responses_run(&self.stream.output, gave_up) {
                Ok(reason) => {
                    let message = self.stream.output.clone();
                    self.close(AssistantMessageEvent::Done { reason, message })
                },
                Err(e) => self.fail(e, gave_up),
            },
        }
    }

    /// Takes in what happens to the run, and returns what the listener is told. `gave_up` says
    /// whether the caller has given the request up.
    pub fn step<P: StreamingJson>(&mut self, input: RunInput, gave_up: bool, parser: &P) -> (r: Vec<
        AssistantMessageEvent,
    >)
        ensures
            (final(self)@, r.deep_view()) == run_step(old(self)@, input@, gave_up, parser),
    {
        let nothing: Vec<AssistantMessageEvent> = Vec::new();
        assert(nothing.deep_view() =~= Seq::empty());
        match self.phase {
            RunPhase::Over => nothing,
            RunPhase::Asking => match input {
                RunInput::Failed(e) => self.fail(e, gave_up),
                RunInput::Answered => {
                    self.phase = RunPhase::Streaming;
                    let r = vec![AssistantMessageEvent::Start];
                    assert(r.deep_view() =~= seq![AssistantMessageEventV::Start]);
                    r
                },
                _ => nothing,
            },
            RunPhase::Streaming => match input {
                RunInput::Failed(e) => self.fail(e, gave_up),
                RunInput::Answered => nothing,
                RunInput::Value(v) => match self.stream.process_event(&v, &self.options, parser) {
                    Ok(_) => self.hand_on(),
                    Err(e) => self.fail_plainly(e, gave_up),
                },
                RunInput::Broken(e) => match response_stream_error(&e) {
                    Some(e) => self.fail_plainly(e, gave_up),
                    None => self.end(gave_up),
                },
                RunInput::Ended => self.end(gave_up),
            },
        }
    }
}

proof fn lemma_item_tells_of_blocks<P: StreamingJson>(
    s: ResponsesStreamV,
    index: u64,
    item: OutputItemV,
    slot: OutputSlotV,
    properties: Option<Seq<(Seq<char>, Seq<char>)>>,
    parser: &P,
)
    requires
        about_blocks(s.events, 0),
    ensures
        about_blocks(opened(s, index, item, properties).events, 0),
        about_blocks(item_closed(s, index, item, slot, parser).stream.events, 0),
{
    reveal(opened);
}

proof fn lemma_deltas_tell_of_blocks<P: StreamingJson>(
    s: ResponsesStreamV,
    index: u64,
    delta: Seq<char>,
    parser: &P,
)
    requires
        about_blocks(s.events, 0),
    ensures
        about_blocks(thinking_step(s, index, delta).stream.events, 0),
        about_blocks(text_step(s, index, delta).stream.events, 0),
        about_blocks(arguments_step(s, index, delta, parser).stream.events, 0),
        about_blocks(arguments_done_step(s, index, delta, parser).stream.events, 0),
        about_blocks(input_delta_step(s, index, delta).stream.events, 0),
        about_blocks(input_done_step(s, index, delta).stream.events, 0),
{
    reveal(thinking_step);
    reveal(text_step);
    reveal(arguments_step);
    reveal(arguments_done_step);
    reveal(input_delta_step);
    reveal(input_done_step);
}

proof fn lemma_event_tells_of_blocks<P: StreamingJson>(
    s: ResponsesStreamV,
    event: JsonV,
    options: OpenAIResponsesStreamOptionsV,
    parser: &P,
)
    requires
        about_blocks(s.events, 0),
    ensures
        about_blocks(stream_step(s, event, options, parser).stream.events, 0),
{
    let properties = options.grammar_tool_input_properties;
    if decoded_event(event) is Ok {
        match decoded_event(event)->Ok_0 {
            DecodedResponseEventV::OutputItemAdded { output_index, item } => {
                if decoded_item(item) is Ok {
                    lemma_item_tells_of_blocks(
                        s,
                        output_index,
                        decoded_item(item)->Ok_0,
                        arbitrary(),
                        properties,
                        parser,
                    );
                }
            },
            DecodedResponseEventV::ReasoningDelta { output_index, delta } =>
                lemma_deltas_tell_of_blocks(s, output_index, delta, parser),
            DecodedResponseEventV::ReasoningSummaryPartDone { output_index } =>
                lemma_deltas_tell_of_blocks(s, output_index, "\n\n"@, parser),
            DecodedResponseEventV::TextDelta { output_index, delta } =>
                lemma_deltas_tell_of_blocks(s, output_index, delta, parser),
            DecodedResponseEventV::FunctionArgumentsDelta { output_index, delta } =>
                lemma_deltas_tell_of_blocks(s, output_index, delta, parser),
            DecodedResponseEventV::FunctionArgumentsDone { output_index, arguments } =>
                lemma_deltas_tell_of_blocks(s, output_index, arguments, parser),
            DecodedResponseEventV::CustomInputDelta { output_index, delta } =>
                lemma_deltas_tell_of_blocks(s, output_index, delta, parser),
            DecodedResponseEventV::CustomInputDone { output_index, input } =>
                lemma_deltas_tell_of_blocks(s, output_index, input, parser),
            DecodedResponseEventV::OutputItemDone { output_index, item: raw } => {
                reveal(item_done_step);
                if decoded_item(raw) is Ok {
                    let item = decoded_item(raw)->Ok_0;
                    let marked = ResponsesStreamV {
                        output: phase_applied(item, s.output),
                        ..s
                    };
                    lemma_item_tells_of_blocks(
                        marked,
                        output_index,
                        item,
                        arbitrary(),
                        properties,
                        parser,
                    );
                    let open = if lookup(s.slots, output_index) is None {
                        opened(marked, output_index, item, properties)
                    } else {
                        marked
                    };
                    if let Some(slot) = lookup(open.slots, output_index) {
                        lemma_item_tells_of_blocks(
                            ResponsesStreamV { slots: removed(open.slots, output_index), ..open },
                            output_index,
                            item,
                            slot,
                            properties,
                            parser,
                        );
                    }
                }
            },
            DecodedResponseEventV::Finished { .. } => {
                reveal(finalized);
            },
            _ => {},
        }
    }
}

/// Whether a run has handed on all that it has to tell.
pub open spec fn well_formed(run: ResponsesRunV) -> bool {
    run.stream.events.len() == 0
}

/// What happens to a run, and whether the caller has given the request up then.
pub struct Happening {
    pub input: RunInputV,
    pub gave_up: bool,
}

/// A run after all that happened to it, and all that its listener was told.
pub open spec fn run_steps<P: StreamingJson>(
    run: ResponsesRunV,
    happened: Seq<Happening>,
    parser: &P,
) -> (ResponsesRunV, Seq<AssistantMessageEventV>)
    decreases happened.len(),
{
    if happened.len() == 0 {
        (run, Seq::empty())
    } else {
        let (before, told) = run_steps(run, happened.drop_last(), parser);
        let (after, more) = run_step(
            before,
            happened.last().input,
            happened.last().gave_up,
            parser,
        );
        (after, told + more)
    }
}

proof fn lemma_step_in_order<P: StreamingJson>(
    run: ResponsesRunV,
    input: RunInputV,
    gave_up: bool,
    parser: &P,
)
    requires
        well_formed(run),
    ensures
        well_formed(run_step(run, input, gave_up, parser).0),
        step_in_order(
            run.phase,
            run_step(run, input, gave_up, parser).0.phase,
            run_step(run, input, gave_up, parser).1,
        ),
{
    let (next, more) = run_step(run, input, gave_up, parser);
    if let RunInputV::Value(v) = input {
        lemma_event_tells_of_blocks(run.stream, v, run.options, parser);
    }
    if next.phase == RunPhase::Over && run.phase != RunPhase::Over {
        let told = more.drop_last();
        assert(more == told.push(more.last()));
    }
}

/// Whatever happens to a run, its listener is told of it in order: nothing before the provider
/// answers; then the start, and what comes of the blocks; at last, once, how the run ended, and
/// nothing after that.
pub proof fn law_run_is_told_in_order<P: StreamingJson>(
    run: ResponsesRunV,
    happened: Seq<Happening>,
    parser: &P,
)
    requires
        well_formed(run),
        run.phase == RunPhase::Asking,
    ensures
        told_in_order(
            run_steps(run, happened, parser).0.phase,
            run_steps(run, happened, parser).1,
        ),
        well_formed(run_steps(run, happened, parser).0),
    decreases happened.len(),
{
    if happened.len() > 0 {
        law_run_is_told_in_order(run, happened.drop_last(), parser);
        let (before, told) = run_steps(run, happened.drop_last(), parser);
        let last = happened.last();
        lemma_step_in_order(before, last.input, last.gave_up, parser);
        let (after, more) = run_step(before, last.input, last.gave_up, parser);
        lemma_told_in_order(before.phase, told, after.phase, more);
    }
}

/// A failure ends a run that is not over, and the end of the stream one that the provider answers;
/// a caller who has given the request up is told so.
pub proof fn law_run_ends<P: StreamingJson>(
    run: ResponsesRunV,
    error: RunErrorV,
    gave_up: bool,
    parser: &P,
)
    requires
        run.phase != RunPhase::Over,
    ensures
        ({
            let (after, told) = run_step(run, RunInputV::Failed(error), gave_up, parser);
            &&& after.phase == RunPhase::Over
            &&& told.last() == failed_turn(run.stream.output, error, gave_up)
        }),
        run.phase == RunPhase::Streaming ==> ({
            let (after, told) = run_step(run, RunInputV::Ended, gave_up, parser);
            &&& after.phase == RunPhase::Over
            &&& is_terminal(told.last())
            &&& gave_up ==> (told.last() matches AssistantMessageEventV::Error { reason, error }
                && reason == ErrorStopReason::Aborted)
        }),
{
}

} // verus!
