//! Whole runs, from what happens to them to what their listeners are told.
use openai_api::codex_stream::{
    connect_failure, connect_limit, idle_limit, ConnectEvent, FrameEvent, FrameStream,
    SocketEvent, SocketStep, SocketStream,
};
use openai_api::codex_transport::CodexErrorKind;
use openai_api::completions_run::CompletionsRun;
use openai_api::constrained_sampling::CompleteJson;
use openai_api::headers::ClientHeaders;
use openai_api::json::{Json, JsonNumber};
use openai_api::openai_completions::OpenAICompletionsOptions;
use openai_api::openai_responses::{open_ai_tool_call_ids, OpenAIResponsesOptions};
use openai_api::openai_sse::BodyEvent;
use openai_api::provider_error::{OpenAiSseError, RunError};
use openai_api::requests::{acquire, request_timeout, Answer, Refusal, SendEvent};
use openai_api::responses_run::ResponsesRun;
use openai_api::run::{pending_message, RunInput, RunPhase};
use openai_api::types::{
    AssistantMessageEvent, Context, ErrorStopReason, Message, Model, ModelInput, StopReason,
    SuccessfulStopReason, UserContent, UserMessage,
};

fn json(text: &str) -> Json {
    from_value(&serde_json::from_str(text).unwrap())
}

fn from_value(v: &serde_json::Value) -> Json {
    match v {
        serde_json::Value::Null => Json::Null,
        serde_json::Value::Bool(b) => Json::Bool(*b),
        serde_json::Value::Number(n) => {
            if let Some(n) = n.as_u64() {
                Json::Number(JsonNumber::Unsigned(n))
            } else if let Some(n) = n.as_i64() {
                Json::Number(JsonNumber::Negative(n))
            } else {
                Json::Number(JsonNumber::Decimal(n.to_string()))
            }
        }
        serde_json::Value::String(s) => Json::Str(s.clone()),
        serde_json::Value::Array(items) => Json::Array(items.iter().map(from_value).collect()),
        serde_json::Value::Object(fields) => Json::Object(
            fields
                .iter()
                .map(|(key, v)| (key.clone(), from_value(v)))
                .collect(),
        ),
    }
}

fn to_value(v: &Json) -> serde_json::Value {
    match v {
        Json::Null => serde_json::Value::Null,
        Json::Bool(b) => serde_json::Value::Bool(*b),
        Json::Number(JsonNumber::Unsigned(n)) => serde_json::Value::from(*n),
        Json::Number(JsonNumber::Negative(n)) => serde_json::Value::from(*n),
        Json::Number(JsonNumber::Decimal(t)) => serde_json::from_str(t).unwrap(),
        Json::Str(s) => serde_json::Value::String(s.clone()),
        Json::Array(items) => serde_json::Value::Array(items.iter().map(to_value).collect()),
        Json::Object(fields) => serde_json::Value::Object(
            fields
                .iter()
                .map(|(key, v)| (key.clone(), to_value(v)))
                .collect(),
        ),
    }
}

fn value(text: &str) -> serde_json::Value {
    serde_json::from_str(text).unwrap()
}

fn model(api: &str) -> Model {
    Model {
        id: "test-model".to_owned(),
        name: "Test Model".to_owned(),
        api: api.to_owned(),
        provider: "openai".to_owned(),
        base_url: "https://example.invalid/v1".to_owned(),
        reasoning: false,
        thinking_level_map: None,
        input: vec![ModelInput::Text],
        context_window: 128_000,
        max_tokens: 4_096,
        sampling_params: None,
        headers: None,
        compat: None,
    }
}

fn context() -> Context {
    Context {
        system_prompt: None,
        messages: vec![Message::User(UserMessage {
            content: UserContent::Text("hello".to_owned()),
            timestamp: 1,
        })],
        tools: None,
    }
}

fn client() -> ClientHeaders {
    ClientHeaders {
        user_agent: "agent".to_owned(),
        platform: vec![],
        copilot: vec![],
    }
}

fn completions_run(test_model: &Model) -> CompletionsRun {
    let mut options = OpenAICompletionsOptions::default();
    options.stream.request.api_key = Some("test-key".to_owned());
    let (run, request) = CompletionsRun::begin(
        test_model,
        &context(),
        &options,
        &client(),
        None,
        false,
        1,
    );
    assert_eq!(
        request.unwrap().url,
        "https://example.invalid/v1/chat/completions"
    );
    run
}

fn responses_run(test_model: &Model) -> ResponsesRun {
    let mut options = OpenAIResponsesOptions::default();
    options.stream.request.api_key = Some("test-key".to_owned());
    let (run, request) = ResponsesRun::begin(
        test_model,
        &context(),
        &options,
        &client(),
        None,
        &vec![],
        &vec![],
        &open_ai_tool_call_ids(),
        false,
        1,
    );
    assert_eq!(request.unwrap().url, "https://example.invalid/v1/responses");
    run
}

fn kind(event: &AssistantMessageEvent) -> &'static str {
    match event {
        AssistantMessageEvent::Start => "start",
        AssistantMessageEvent::TextStart { .. } => "text_start",
        AssistantMessageEvent::TextDelta { .. } => "text_delta",
        AssistantMessageEvent::TextEnd { .. } => "text_end",
        AssistantMessageEvent::Done { .. } => "done",
        AssistantMessageEvent::Error { .. } => "error",
        _ => "other",
    }
}

fn kinds(events: &[AssistantMessageEvent]) -> Vec<&'static str> {
    events.iter().map(kind).collect()
}

#[test]
fn completions_runs_are_told_from_start_to_done() {
    let test_model = model("openai-completions");
    let mut run = completions_run(&test_model);
    let measured = pending_message(&test_model, 1).usage;
    let inputs = vec![
        RunInput::Value(json(r#"{"choices":[]}"#)),
        RunInput::Answered,
        RunInput::Value(json(
            r#"{"id":"c","choices":[{"delta":{"content":"a"},"finish_reason":null}]}"#,
        )),
        RunInput::Answered,
        RunInput::Value(json(
            r#"{"id":"c","choices":[{"delta":{"content":"b"},"finish_reason":"stop"}]}"#,
        )),
        RunInput::Ended,
        RunInput::Ended,
        RunInput::Failed(RunError {
            message: "late".to_owned(),
            aborted: false,
        }),
    ];
    let mut events = vec![];
    for input in inputs {
        events.extend(run.step(&test_model, input, &measured, false, &CompleteJson));
    }
    assert_eq!(
        kinds(&events),
        ["start", "text_start", "text_delta", "text_delta", "text_end", "done"]
    );
    let Some(AssistantMessageEvent::Done { reason, message }) = events.last() else {
        panic!("done");
    };
    assert_eq!(*reason, SuccessfulStopReason::Stop);
    assert_eq!(message.response_id.as_deref(), Some("c"));
    assert_eq!(run.phase, RunPhase::Over);
}

#[test]
fn completions_runs_that_fail_are_told_so_once() {
    let test_model = model("openai-completions");
    let measured = pending_message(&test_model, 1).usage;
    let error = RunError {
        message: "no answer".to_owned(),
        aborted: false,
    };
    let mut run = completions_run(&test_model);
    let events = run.step(
        &test_model,
        RunInput::Failed(error),
        &measured,
        false,
        &CompleteJson,
    );
    assert_eq!(kinds(&events), ["error"]);

    let mut run = completions_run(&test_model);
    run.step(&test_model, RunInput::Answered, &measured, false, &CompleteJson);
    let broken = OpenAiSseError::api(&json(r#"{"message":"bad","metadata":{"raw":"why"}}"#));
    let events = run.step(
        &test_model,
        RunInput::Broken(broken),
        &measured,
        false,
        &CompleteJson,
    );
    let [AssistantMessageEvent::Error { reason, error }] = &events[..] else {
        panic!("error");
    };
    assert_eq!(*reason, ErrorStopReason::Error);
    assert_eq!(error.error_message.as_deref(), Some("bad\nwhy"));

    let mut run = completions_run(&test_model);
    run.step(&test_model, RunInput::Answered, &measured, false, &CompleteJson);
    let events = run.step(
        &test_model,
        RunInput::Broken(OpenAiSseError::aborted()),
        &measured,
        true,
        &CompleteJson,
    );
    let [AssistantMessageEvent::Error { reason, error }] = &events[..] else {
        panic!("error");
    };
    assert_eq!(*reason, ErrorStopReason::Aborted);
    assert_eq!(error.stop_reason, StopReason::Aborted);
    assert_eq!(error.error_message.as_deref(), Some("Request was aborted"));

    let (run, refused) = CompletionsRun::begin(
        &test_model,
        &context(),
        &OpenAICompletionsOptions::default(),
        &client(),
        None,
        false,
        1,
    );
    let Err(AssistantMessageEvent::Error { error, .. }) = refused else {
        panic!("refused");
    };
    assert_eq!(
        error.error_message.as_deref(),
        Some("No API key for provider: openai")
    );
    assert_eq!(run.phase, RunPhase::Over);
}

#[test]
fn responses_runs_are_told_from_start_to_done() {
    let test_model = model("openai-responses");
    let mut run = responses_run(&test_model);
    let inputs = vec![
        RunInput::Answered,
        RunInput::Value(json(
            r#"{"type":"response.output_item.added","output_index":0,
                "item":{"type":"message","id":"m","role":"assistant","content":[]}}"#,
        )),
        RunInput::Value(json(
            r#"{"type":"response.output_text.delta","output_index":0,"delta":"hi"}"#,
        )),
        RunInput::Value(json(
            r#"{"type":"response.completed","response":{"id":"r","status":"completed"}}"#,
        )),
        RunInput::Ended,
    ];
    let mut events = vec![];
    for input in inputs {
        events.extend(run.step(input, false, &CompleteJson));
    }
    assert_eq!(
        kinds(&events),
        ["start", "text_start", "text_delta", "done"]
    );
    assert!(run.step(RunInput::Ended, false, &CompleteJson).is_empty());
}

#[test]
fn responses_runs_fail_without_a_terminal_event() {
    let test_model = model("openai-responses");
    for (input, gave_up, words, expected) in [
        (
            RunInput::Ended,
            false,
            "OpenAI Responses stream ended before a terminal response event",
            ErrorStopReason::Error,
        ),
        (
            RunInput::Broken(OpenAiSseError::aborted()),
            true,
            "OpenAI Responses stream ended before a terminal response event",
            ErrorStopReason::Aborted,
        ),
        (
            RunInput::Broken(OpenAiSseError::api(&json(
                r#"{"message":"bad","metadata":{"raw":"why"}}"#,
            ))),
            false,
            "bad",
            ErrorStopReason::Error,
        ),
        (
            RunInput::Failed(RunError {
                message: "hook".to_owned(),
                aborted: false,
            }),
            false,
            "hook",
            ErrorStopReason::Error,
        ),
    ] {
        let mut run = responses_run(&test_model);
        run.step(RunInput::Answered, false, &CompleteJson);
        let events = run.step(input, gave_up, &CompleteJson);
        let [AssistantMessageEvent::Error { reason, error }] = &events[..] else {
            panic!("error");
        };
        assert_eq!(*reason, expected);
        assert_eq!(error.error_message.as_deref(), Some(words));
    }
    let mut run = responses_run(&test_model);
    run.step(RunInput::Answered, false, &CompleteJson);
    run.step(
        RunInput::Value(json(
            r#"{"type":"response.completed","response":{"id":"r","status":"completed"}}"#,
        )),
        false,
        &CompleteJson,
    );
    let events = run.step(RunInput::Ended, true, &CompleteJson);
    let [AssistantMessageEvent::Error { error, .. }] = &events[..] else {
        panic!("error");
    };
    assert_eq!(error.error_message.as_deref(), Some("Request was aborted"));
}

#[test]
fn answers_are_taken_by_their_status() {
    for status in [200, 204, 299] {
        assert!(matches!(
            acquire(SendEvent::Answered {
                status,
                has_body: true
            }),
            Ok(Answer::Stream)
        ));
    }
    for status in [199, 300, 404, 500] {
        assert!(matches!(
            acquire(SendEvent::Answered {
                status,
                has_body: false
            }),
            Ok(Answer::Refusal)
        ));
    }
    let Ok(Answer::Empty(error)) = acquire(SendEvent::Answered {
        status: 200,
        has_body: false,
    }) else {
        panic!("empty");
    };
    assert_eq!(
        error.message,
        "Attempted to iterate over a response with no body"
    );
    for (event, words, aborted) in [
        (SendEvent::Broken, "Connection error.", false),
        (SendEvent::TimedOut, "Request timed out.", false),
        (SendEvent::Abort, "Request was aborted.", true),
    ] {
        let error = acquire(event).unwrap_err();
        assert_eq!(error.message, words);
        assert_eq!(error.aborted(), aborted);
    }
    assert_eq!(request_timeout(None), 600_000);
    assert_eq!(request_timeout(Some(0)), 0);
}

#[test]
fn refusals_are_read_whole() {
    let mut refusal = Refusal::new(429, vec![("retry-after".to_owned(), "1".to_owned())]);
    assert!(refusal
        .take(BodyEvent::Bytes(br#"{"error":{"mess"#.to_vec()))
        .is_none());
    assert!(refusal
        .take(BodyEvent::Bytes(br#"age":"slow down"}}"#.to_vec()))
        .is_none());
    let error = refusal.take(BodyEvent::End).unwrap();
    assert_eq!(error.status, Some(429));
    assert_eq!(error.message, "429 slow down");
    assert_eq!(
        error.headers,
        [("retry-after".to_owned(), "1".to_owned())]
    );
    let mut refusal = Refusal::new(500, vec![]);
    assert_eq!(
        refusal.take(BodyEvent::Broken).unwrap().message,
        "Connection error."
    );
    assert!(refusal.take(BodyEvent::Abort).unwrap().aborted());
    assert_eq!(
        refusal.take(BodyEvent::End).unwrap().message,
        "500 status code (no body)"
    );
}

#[test]
fn codex_bodies_are_read_frame_by_frame() {
    let mut stream = FrameStream::new();
    assert!(matches!(stream.next(), SocketStep::Wanted));
    assert!(matches!(
        stream.feed(FrameEvent::Bytes(b"data: {}\n\ndata: {\"type\":".to_vec())),
        SocketStep::Wanted
    ));
    let step = stream.feed(FrameEvent::Bytes(
        b"\"response.created\"}\n\ndata: {\"type\":\"response.done\"}\n\ndata: x\n\n".to_vec(),
    ));
    let SocketStep::Value(event) = step else {
        panic!("event");
    };
    assert_eq!(to_value(&event), value(r#"{"type":"response.created"}"#));
    let SocketStep::Value(event) = stream.next() else {
        panic!("event");
    };
    assert_eq!(to_value(&event), value(r#"{"type":"response.completed"}"#));
    assert!(matches!(stream.next(), SocketStep::Finished));
    assert!(matches!(
        stream.feed(FrameEvent::Abort),
        SocketStep::Finished
    ));
}

#[test]
fn codex_bodies_end_at_the_first_failure() {
    let mut stream = FrameStream::new();
    let SocketStep::Failure(error) = stream.feed(FrameEvent::Bytes(b"data: x\n\n".to_vec()))
    else {
        panic!("failure");
    };
    assert_eq!(error.kind, CodexErrorKind::Protocol);
    assert!(matches!(stream.next(), SocketStep::Finished));

    let mut stream = FrameStream::new();
    let SocketStep::Failure(error) = stream.feed(FrameEvent::Broken("lost".to_owned())) else {
        panic!("failure");
    };
    assert_eq!(error.message, "lost");
    assert_eq!(error.kind, CodexErrorKind::Transport);

    let mut stream = FrameStream::new();
    let SocketStep::Failure(error) = stream.feed(FrameEvent::Abort) else {
        panic!("failure");
    };
    assert_eq!(error.message, "Request was aborted");
    assert_eq!(error.kind, CodexErrorKind::Aborted);

    let mut stream = FrameStream::new();
    assert!(matches!(
        stream.feed(FrameEvent::Bytes(b"data: {\"type\":\"x\"}\n".to_vec())),
        SocketStep::Wanted
    ));
    assert!(matches!(
        stream.feed(FrameEvent::End),
        SocketStep::Finished
    ));
}

#[test]
fn connections_fail_in_their_own_words() {
    for (event, words, expected) in [
        (
            SocketEvent::Failed("lost".to_owned()),
            "lost",
            CodexErrorKind::Transport,
        ),
        (
            SocketEvent::Idle(250),
            "WebSocket idle timeout after 250ms",
            CodexErrorKind::Transport,
        ),
        (
            SocketEvent::Closed,
            "WebSocket closed",
            CodexErrorKind::Transport,
        ),
        (
            SocketEvent::Abort,
            "Request was aborted",
            CodexErrorKind::Aborted,
        ),
    ] {
        let mut stream = SocketStream::new();
        let SocketStep::Failure(error) = stream.take(event) else {
            panic!("failure");
        };
        assert_eq!(error.message, words);
        assert_eq!(error.kind, expected);
        assert!(!stream.alive);
    }
    assert!(connect_failure(ConnectEvent::Done).is_none());
    assert_eq!(
        connect_failure(ConnectEvent::TimedOut(15_000))
            .unwrap()
            .message,
        "WebSocket connect timeout after 15000ms"
    );
    assert_eq!(
        connect_failure(ConnectEvent::Failed("refused".to_owned()))
            .unwrap()
            .message,
        "refused"
    );
    assert_eq!(
        connect_failure(ConnectEvent::Abort).unwrap().kind,
        CodexErrorKind::Aborted
    );
    assert_eq!(connect_limit(None), Some(15_000));
    assert_eq!(connect_limit(Some(0)), None);
    assert_eq!(connect_limit(Some(7)), Some(7));
    assert_eq!(idle_limit(None), None);
    assert_eq!(idle_limit(Some(0)), None);
    assert_eq!(idle_limit(Some(7)), Some(7));
}
