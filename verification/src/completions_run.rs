//! A run against the chat-completions API, from what happens to it to what its listener is told.
use crate::assoc::copy_list;
use crate::completions_chunks::{decode_chunk, raw_chunk, RawChunkV, RawToolCallDeltaV};
use crate::completions_compat::{get_compat, resolved};
use crate::completions_stream::{
    block_finished, blocks_finished, call_step, chunk_step, detail_steps, ended, headed, text_step,
    thinking_step, tool_step, tool_steps, with_output, CompletionsStream, CompletionsStreamV,
};
use crate::completions_types::{OpenAICompletionsOptions, OpenAICompletionsOptionsV};
use crate::constrained_sampling::StreamingJson;
use crate::headers::{ClientHeaders, PreparedRequest, PreparedRequestV};
use crate::json::JsonV;
use crate::openai_completions::{chunk_failure, next_chunk_error, prepare_request, prepared};
use crate::provider_error::{RunError, RunErrorV};
use crate::responses_stream::InputProperties;
use crate::run::{
    about_blocks, completions_end, end_completions_run, fail_run, failed_turn, is_terminal,
    lemma_told_in_order, pending, pending_message, plain_error, step_in_order, told_in_order,
    RunInput, RunInputV, RunPhase,
};
use crate::types::{
    AssistantMessageEvent, AssistantMessageEventV, AssistantMessageV, Context, ContextV,
    ErrorStopReason, Model, ModelV, Usage, UsageV,
};
use vstd::prelude::*;

verus! {

/// A run.
#[derive(Debug)]
pub struct CompletionsRun {
    pub phase: RunPhase,
    pub stream: CompletionsStream,
    /// Whether the provider says why a turn ends.
    pub supports_finish_reason: bool,
    pub properties: InputProperties,
}

/// The model of [`CompletionsRun`].
pub struct CompletionsRunV {
    pub phase: RunPhase,
    pub stream: CompletionsStreamV,
    pub supports_finish_reason: bool,
    pub properties: Seq<(Seq<char>, Seq<char>)>,
}

impl View for CompletionsRun {
    type V = CompletionsRunV;

    open spec fn view(&self) -> CompletionsRunV {
        CompletionsRunV {
            phase: self.phase,
            stream: self.stream@,
            supports_finish_reason: self.supports_finish_reason,
            properties: self.properties.deep_view(),
        }
    }
}

/// The stream of a turn that has brought nothing.
pub open spec fn fresh_stream(output: AssistantMessageV) -> CompletionsStreamV {
    CompletionsStreamV {
        output,
        text_index: None,
        thinking_index: None,
        has_finish_reason: false,
        tool_by_stream_index: Seq::empty(),
        tool_by_id: Seq::empty(),
        tool_scratch: Seq::empty(),
        pending_details: Seq::empty(),
        events: Seq::empty(),
    }
}

/// The beginning of a run: the request that it makes, or what the listener is told where it makes
/// none.
pub open spec fn begun(
    model: ModelV,
    context: ContextV,
    options: OpenAICompletionsOptionsV,
    client: &ClientHeaders,
    environment: Option<Seq<char>>,
    gave_up: bool,
    now: i64,
) -> (CompletionsRunV, Result<PreparedRequestV, AssistantMessageEventV>) {
    let output = pending(model.api, model.provider, model.id, now);
    let run = CompletionsRunV {
        phase: RunPhase::Asking,
        stream: fresh_stream(output),
        supports_finish_reason: resolved(model).supports_finish_reason,
        properties: Seq::empty(),
    };
    match prepared(model, context, options, client, environment, now) {
        Ok(request) => (CompletionsRunV { properties: request.properties, ..run }, Ok(request)),
        Err(e) => (
            CompletionsRunV { phase: RunPhase::Over, ..run },
            Err(failed_turn(output, plain_error(e), gave_up)),
        ),
    }
}

/// A run after a step of its stream, with what has been told of that.
pub open spec fn handed_on(run: CompletionsRunV, stream: CompletionsStreamV) -> (
    CompletionsRunV,
    Seq<AssistantMessageEventV>,
) {
    (
        CompletionsRunV {
            stream: CompletionsStreamV { events: Seq::empty(), ..stream },
            ..run
        },
        stream.events,
    )
}

/// A run that is over after a step of its stream.
pub open spec fn closed(
    run: CompletionsRunV,
    stream: CompletionsStreamV,
    event: AssistantMessageEventV,
) -> (CompletionsRunV, Seq<AssistantMessageEventV>) {
    let (next, told) = handed_on(run, stream);
    (CompletionsRunV { phase: RunPhase::Over, ..next }, told.push(event))
}

/// The end of the stream: the blocks end, and the turn succeeds or fails.
pub open spec fn stream_ended<P: StreamingJson>(
    run: CompletionsRunV,
    gave_up: bool,
    parser: &P,
) -> (CompletionsRunV, Seq<AssistantMessageEventV>) {
    let (stream, failure) = blocks_finished(run.stream, run.stream.output.content.len(), parser);
    match failure {
        Some(e) => closed(run, stream, failed_turn(stream.output, plain_error(e), gave_up)),
        None => {
            let (stop_reason, end) = completions_end(
                stream.output,
                stream.has_finish_reason,
                run.supports_finish_reason,
                gave_up,
            );
            let output = AssistantMessageV { stop_reason, ..stream.output };
            let ended = CompletionsStreamV { output, ..stream };
            match end {
                Ok(reason) => closed(
                    run,
                    ended,
                    AssistantMessageEventV::Done { reason, message: output },
                ),
                Err(e) => closed(run, ended, failed_turn(output, e, gave_up)),
            }
        },
    }
}

/// What a run makes of what happens to it, and what its listener is told. A run that is over takes
/// nothing in, and one that waits for the answer takes only the answer and failures.
pub open spec fn run_step<P: StreamingJson>(
    run: CompletionsRunV,
    model: ModelV,
    input: RunInputV,
    measured: UsageV,
    gave_up: bool,
    parser: &P,
) -> (CompletionsRunV, Seq<AssistantMessageEventV>) {
    match (run.phase, input) {
        (RunPhase::Over, _) => (run, Seq::empty()),
        (_, RunInputV::Failed(e)) => closed(
            run,
            run.stream,
            failed_turn(run.stream.output, e, gave_up),
        ),
        (RunPhase::Asking, RunInputV::Answered) => (
            CompletionsRunV { phase: RunPhase::Streaming, ..run },
            seq![AssistantMessageEventV::Start],
        ),
        (RunPhase::Asking, _) => (run, Seq::empty()),
        (RunPhase::Streaming, RunInputV::Answered) => (run, Seq::empty()),
        (RunPhase::Streaming, RunInputV::Value(v)) => {
            let (stream, failure) = chunk_step(
                run.stream,
                model,
                raw_chunk(v),
                measured,
                run.properties,
                parser,
            );
            match failure {
                Some(e) => closed(run, stream, failed_turn(stream.output, plain_error(e), gave_up)),
                None => handed_on(run, stream),
            }
        },
        (RunPhase::Streaming, RunInputV::Broken(e)) => match chunk_failure(e) {
            Some(e) => closed(
                run,
                run.stream,
                failed_turn(run.stream.output, plain_error(e), gave_up),
            ),
            None => stream_ended(run, gave_up, parser),
        },
        (RunPhase::Streaming, RunInputV::Ended) => stream_ended(run, gave_up, parser),
    }
}

impl CompletionsRun {
    /// Begins a run. `environment` is what the variable `PI_CACHE_RETENTION` holds, and `gave_up`
    /// says whether the caller has given the request up.
    pub fn begin(
        model: &Model,
        context: &Context,
        options: &OpenAICompletionsOptions,
        client: &ClientHeaders,
        environment: Option<&str>,
        gave_up: bool,
        now: i64,
    ) -> (r: (Self, Result<PreparedRequest, AssistantMessageEvent>))
        ensures
            (
                r.0@,
                match r.1 {
                    Ok(request) => Ok(request@),
                    Err(event) => Err(event@),
                },
            ) == begun(
                model@,
                context@,
                options@,
                client,
                match environment {
                    Some(value) => Some(value@),
                    None => None,
                },
                gave_up,
                now,
            ),
    {
        let output = pending_message(model, now);
        let supports_finish_reason = get_compat(model).supports_finish_reason;
        match prepare_request(model, context, options, client, environment, now) {
            Ok(request) => {
                let properties = copy_list(&request.properties);
                let run = CompletionsRun {
                    phase: RunPhase::Asking,
                    stream: CompletionsStream::new(output),
                    supports_finish_reason,
                    properties,
                };
                (run, Ok(request))
            },
            Err(e) => {
                let event = fail_run(
                    output.clone(),
                    RunError { message: e, aborted: false },
                    gave_up,
                );
                let run = CompletionsRun {
                    phase: RunPhase::Over,
                    stream: CompletionsStream::new(output),
                    supports_finish_reason,
                    properties: Vec::new(),
                };
                assert(run.properties.deep_view() =~= Seq::empty());
                (run, Err(event))
            },
        }
    }

    fn hand_on(&mut self) -> (r: Vec<AssistantMessageEvent>)
        ensures
            (final(self)@, r.deep_view()) == handed_on(old(self)@, old(self)@.stream),
    {
        let mut r: Vec<AssistantMessageEvent> = Vec::new();
        r.append(&mut self.stream.events);
        assert(r.deep_view() =~= old(self)@.stream.events);
        assert(self.stream.events.deep_view() =~= Seq::empty());
        r
    }

    fn close(&mut self, event: AssistantMessageEvent) -> (r: Vec<AssistantMessageEvent>)
        ensures
            (final(self)@, r.deep_view()) == closed(old(self)@, old(self)@.stream, event@),
    {
        let mut r = self.hand_on();
        let ghost told = r.deep_view();
        self.phase = RunPhase::Over;
        r.push(event);
        assert(r.deep_view() =~= told.push(event@));
        r
    }

    fn fail(&mut self, error: RunError, gave_up: bool) -> (r: Vec<AssistantMessageEvent>)
        ensures
            (final(self)@, r.deep_view()) == closed(
                old(self)@,
                old(self)@.stream,
                failed_turn(old(self)@.stream.output, error@, gave_up),
            ),
    {
        let event = fail_run(self.stream.output.clone(), error, gave_up);
        self.close(event)
    }

    fn end<P: StreamingJson>(&mut self, gave_up: bool, parser: &P) -> (r: Vec<
        AssistantMessageEvent,
    >)
        ensures
            (final(self)@, r.deep_view()) == stream_ended(old(self)@, gave_up, parser),
    {
        match self.stream.finish_blocks(parser) {
            Err(e) => self.fail(RunError { message: e, aborted: false }, gave_up),
            Ok(_) => {
                let has_finish_reason = self.stream.has_finish_reason;
                match end_completions_run(
                    &mut self.stream.output,
                    has_finish_reason,
                    self.supports_finish_reason,
                    gave_up,
                ) {
                    Ok(reason) => {
                        let message = self.stream.output.clone();
                        self.close(AssistantMessageEvent::Done { reason, message })
                    },
                    Err(e) => self.fail(e, gave_up),
                }
            },
        }
    }

    /// Takes in what happens to the run, and returns what the listener is told. `measured` is the
    /// usage of a chunk if that cannot be counted exactly, and `gave_up` says whether the caller has
    /// given the request up.
    pub fn step<P: StreamingJson>(
        &mut self,
        model: &Model,
        input: RunInput,
        measured: &Usage,
        gave_up: bool,
        parser: &P,
    ) -> (r: Vec<AssistantMessageEvent>)
        ensures
            (final(self)@, r.deep_view()) == run_step(
                old(self)@,
                model@,
                input@,
                measured@,
                gave_up,
                parser,
            ),
    {
        let nothing: Vec<AssistantMessageEvent> = Vec::new();
        assert(nothing.deep_view() =~= Seq::empty());
        match self.phase {
            RunPhase::Over => nothing,
            RunPhase::Asking => match input {
                RunInput::Failed(e) => self.fail(e, gave_up),
                RunInput::Answered => {
                    self.phase = RunPhase::Streaming;
                    let r = vec![AssistantMessageEvent::Start];
                    assert(r.deep_view() =~= seq![AssistantMessageEventV::Start]);
                    r
                },
                _ => nothing,
            },
            RunPhase::Streaming => match input {
                RunInput::Failed(e) => self.fail(e, gave_up),
                RunInput::Answered => nothing,
                RunInput::Value(v) => {
                    let chunk = decode_chunk(&v);
                    match self.stream.process_chunk(
                        model,
                        &chunk,
                        measured,
                        &self.properties,
                        parser,
                    ) {
                        Ok(_) => self.hand_on(),
                        Err(e) => self.fail(RunError { message: e, aborted: false }, gave_up),
                    }
                },
                RunInput::Broken(e) => match next_chunk_error(&e) {
                    Some(e) => self.fail(RunError { message: e, aborted: false }, gave_up),
                    None => self.end(gave_up, parser),
                },
                RunInput::Ended => self.end(gave_up, parser),
            },
        }
    }
}

proof fn lemma_calls_tell_of_blocks<P: StreamingJson>(
    s: CompletionsStreamV,
    deltas: Seq<RawToolCallDeltaV>,
    properties: Seq<(Seq<char>, Seq<char>)>,
    parser: &P,
)
    requires
        about_blocks(s.events, 0),
    ensures
        about_blocks(tool_steps(s, deltas, properties, parser).0.events, 0),
    decreases deltas.len(),
{
    if deltas.len() > 0 {
        reveal(call_step);
        let (next, failure) = tool_step(s, deltas[0], properties, parser);
        assert(about_blocks(next.events, 0));
        if failure is None {
            lemma_calls_tell_of_blocks(next, deltas.drop_first(), properties, parser);
        }
    }
}

proof fn lemma_details_tell_nothing(s: CompletionsStreamV, details: Seq<JsonV>)
    ensures
        detail_steps(s, details).events == s.events,
    decreases details.len(),
{
    if details.len() > 0 {
        lemma_details_tell_nothing(s, details.drop_last());
    }
}

proof fn lemma_chunk_tells_of_blocks<P: StreamingJson>(
    s: CompletionsStreamV,
    model: ModelV,
    chunk: RawChunkV,
    measured: UsageV,
    properties: Seq<(Seq<char>, Seq<char>)>,
    parser: &P,
)
    requires
        about_blocks(s.events, 0),
    ensures
        about_blocks(chunk_step(s, model, chunk, measured, properties, parser).0.events, 0),
{
    if chunk.choices.len() > 0 {
        if let Some(delta) = chunk.choices[0].delta {
            let head = with_output(s, headed(s.output, model, chunk, measured));
            let end = ended(head, chunk.choices[0].finish_reason);
            assert(end.events == s.events);
            let spoken = text_step(end, delta.content).0;
            assert(about_blocks(spoken.events, 0));
            let thought = thinking_step(spoken, delta, model).0;
            assert(about_blocks(thought.events, 0));
            lemma_calls_tell_of_blocks(thought, delta.tool_calls, properties, parser);
            let called = tool_steps(thought, delta.tool_calls, properties, parser).0;
            lemma_details_tell_nothing(called, delta.reasoning_details);
        }
    }
}

proof fn lemma_ends_tell_of_blocks<P: StreamingJson>(s: CompletionsStreamV, n: nat, parser: &P)
    requires
        about_blocks(s.events, 0),
    ensures
        about_blocks(blocks_finished(s, n, parser).0.events, 0),
    decreases n,
{
    if n > 0 {
        lemma_ends_tell_of_blocks(s, (n - 1) as nat, parser);
        reveal(block_finished);
    }
}

/// Whether a run has handed on all that it has to tell.
pub open spec fn well_formed(run: CompletionsRunV) -> bool {
    run.stream.events.len() == 0
}

/// What happens to a run: what it is, the usage of a chunk that cannot be counted exactly, and
/// whether the caller has given the request up.
pub struct Happening {
    pub input: RunInputV,
    pub measured: UsageV,
    pub gave_up: bool,
}

/// A run after all that happened to it, and all that its listener was told.
pub open spec fn run_steps<P: StreamingJson>(
    run: CompletionsRunV,
    model: ModelV,
    happened: Seq<Happening>,
    parser: &P,
) -> (CompletionsRunV, Seq<AssistantMessageEventV>)
    decreases happened.len(),
{
    if happened.len() == 0 {
        (run, Seq::empty())
    } else {
        let (before, told) = run_steps(run, model, happened.drop_last(), parser);
        let last = happened.last();
        let (after, more) = run_step(
            before,
            model,
            last.input,
            last.measured,
            last.gave_up,
            parser,
        );
        (after, told + more)
    }
}

proof fn lemma_step_in_order<P: StreamingJson>(
    run: CompletionsRunV,
    model: ModelV,
    input: RunInputV,
    measured: UsageV,
    gave_up: bool,
    parser: &P,
)
    requires
        well_formed(run),
    ensures
        well_formed(run_step(run, model, input, measured, gave_up, parser).0),
        step_in_order(
            run.phase,
            run_step(run, model, input, measured, gave_up, parser).0.phase,
            run_step(run, model, input, measured, gave_up, parser).1,
        ),
{
    let (next, more) = run_step(run, model, input, measured, gave_up, parser);
    if let RunInputV::Value(v) = input {
        lemma_chunk_tells_of_blocks(
            run.stream,
            model,
            raw_chunk(v),
            measured,
            run.properties,
            parser,
        );
    }
    lemma_ends_tell_of_blocks(run.stream, run.stream.output.content.len(), parser);
    if next.phase == RunPhase::Over && run.phase != RunPhase::Over {
        let told = more.drop_last();
        assert(more == told.push(more.last()));
    }
}

/// Whatever happens to a run, its listener is told of it in order: nothing before the provider
/// answers; then the start, and what comes of the blocks; at last, once, how the run ended, and
/// nothing after that.
pub proof fn law_run_is_told_in_order<P: StreamingJson>(
    run: CompletionsRunV,
    model: ModelV,
    happened: Seq<Happening>,
    parser: &P,
)
    requires
        well_formed(run),
        run.phase == RunPhase::Asking,
    ensures
        told_in_order(
            run_steps(run, model, happened, parser).0.phase,
            run_steps(run, model, happened, parser).1,
        ),
        well_formed(run_steps(run, model, happened, parser).0),
    decreases happened.len(),
{
    if happened.len() > 0 {
        law_run_is_told_in_order(run, model, happened.drop_last(), parser);
        let (before, told) = run_steps(run, model, happened.drop_last(), parser);
        let last = happened.last();
        lemma_step_in_order(before, model, last.input, last.measured, last.gave_up, parser);
        let (after, more) = run_step(
            before,
            model,
            last.input,
            last.measured,
            last.gave_up,
            parser,
        );
        lemma_told_in_order(before.phase, told, after.phase, more);
    }
}

/// A failure ends a run that is not over, and the end of the stream one that the provider answers;
/// a caller who has given the request up is told so.
pub proof fn law_run_ends<P: StreamingJson>(
    run: CompletionsRunV,
    model: ModelV,
    error: RunErrorV,
    measured: UsageV,
    gave_up: bool,
    parser: &P,
)
    requires
        run.phase != RunPhase::Over,
    ensures
        ({
            let (after, told) = run_step(
                run,
                model,
                RunInputV::Failed(error),
                measured,
                gave_up,
                parser,
            );
            &&& after.phase == RunPhase::Over
            &&& told.last() == failed_turn(run.stream.output, error, gave_up)
        }),
        run.phase == RunPhase::Streaming ==> ({
            let (after, told) = run_step(run, model, RunInputV::Ended, measured, gave_up, parser);
            &&& after.phase == RunPhase::Over
            &&& is_terminal(told.last())
            &&& gave_up ==> (told.last() matches AssistantMessageEventV::Error { reason, error }
                && reason == ErrorStopReason::Aborted)
        }),
{
}

} // verus!
