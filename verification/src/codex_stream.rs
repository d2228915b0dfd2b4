//! Codex events: frames of a body and messages of a connection.
use crate::codex_transport::{
    close_message, close_text, is_terminal, normalize_event, normalized_event, CodexErrorKindV,
    CodexRunError, CodexRunErrorV, DEFAULT_WEBSOCKET_CONNECT_TIMEOUT_MS,
};
use crate::constrained_sampling::outcome;
use crate::json::{json_parse, member, parse_json, text_of, Json, JsonV};
use crate::openai_sse::{all_read_as_encoded, from_utf8_lossy, lossy_text, read_as_encoded};
use crate::text::{
    after, before, begins, concat, decimal, from_range, join, joined, position, same, split_once,
    starts_with, to_chars, to_decimal, trim, trimmed,
};
use vstd::prelude::*;

verus! {

/// A decoder of the frames of a body, which takes its bytes in pieces.
#[derive(Debug)]
pub struct SseDecoder {
    /// The beginning of a frame.
    buffer: Vec<u8>,
}

impl View for SseDecoder {
    type V = Seq<u8>;

    closed spec fn view(&self) -> Seq<u8> {
        self.buffer@
    }
}

impl Default for SseDecoder {
    fn default() -> (r: Self)
        ensures
            r@ == Seq::<u8>::empty(),
    {
        SseDecoder { buffer: Vec::new() }
    }
}

/// The position of the first empty line, or the length where there is none.
pub open spec fn frame_length(bytes: Seq<u8>) -> nat
    decreases bytes.len(),
{
    if bytes.len() < 2 {
        bytes.len()
    } else if bytes[0] == 10 && bytes[1] == 10 {
        0
    } else {
        1 + frame_length(bytes.drop_first())
    }
}

/// The data of a frame, by line.
pub open spec fn data_lines(text: Seq<char>) -> Seq<Seq<char>>
    decreases text.len(),
{
    let line = before(text, '\n');
    let here = if begins(line, "data:"@) {
        seq![trimmed(line.skip(5))]
    } else {
        Seq::empty()
    };
    if position(text, '\n') < text.len() {
        here + data_lines(text.skip(position(text, '\n') as int + 1))
    } else {
        here
    }
}

/// What a frame brings, where it brings anything.
pub open spec fn frame_data(frame: Seq<u8>) -> Option<Seq<char>> {
    let data = trimmed(joined(data_lines(lossy_text(frame)), "\n"@));
    if data.len() == 0 || data == "[DONE]"@ {
        None
    } else {
        Some(data)
    }
}

/// The frames that are complete.
pub open spec fn whole_frames(bytes: Seq<u8>) -> Seq<Seq<u8>>
    decreases bytes.len(),
{
    let n = frame_length(bytes) as int;
    if n + 2 > bytes.len() {
        Seq::empty()
    } else {
        seq![bytes.take(n)] + whole_frames(bytes.skip(n + 2))
    }
}

/// What is left when all frames are read, and what they bring.
pub open spec fn read_frames(bytes: Seq<u8>) -> (Seq<u8>, Seq<Seq<char>>)
    decreases bytes.len(),
{
    let n = frame_length(bytes) as int;
    if n + 2 > bytes.len() {
        (bytes, Seq::empty())
    } else {
        let (rest, more) = read_frames(bytes.skip(n + 2));
        (
            rest,
            match frame_data(bytes.take(n)) {
                Some(data) => seq![data] + more,
                None => more,
            },
        )
    }
}

proof fn lemma_frame_length(bytes: Seq<u8>, n: int)
    requires
        0 <= n,
        n + 2 <= bytes.len(),
        forall|k: int| 0 <= k < n ==> !(#[trigger] bytes[k] == 10 && bytes[k + 1] == 10),
        bytes[n] == 10 && bytes[n + 1] == 10,
    ensures
        frame_length(bytes) == n,
    decreases n,
{
    if n > 0 {
        assert(!(bytes[0] == 10 && bytes[1] == 10));
        let rest = bytes.drop_first();
        assert forall|k: int| 0 <= k < n - 1 implies !(#[trigger] rest[k] == 10 && rest[k + 1]
            == 10) by {
            assert(rest[k] == bytes[k + 1]);
        }
        lemma_frame_length(rest, n - 1);
    }
}

proof fn lemma_no_frame(bytes: Seq<u8>)
    requires
        forall|k: int| 0 <= k < bytes.len() - 1 ==> !(#[trigger] bytes[k] == 10 && bytes[k + 1] == 10),
    ensures
        frame_length(bytes) + 2 > bytes.len(),
    decreases bytes.len(),
{
    if bytes.len() >= 2 {
        assert(!(bytes[0] == 10 && bytes[1] == 10));
        let rest = bytes.drop_first();
        assert forall|k: int| 0 <= k < rest.len() - 1 implies !(#[trigger] rest[k] == 10 && rest[k
            + 1] == 10) by {
            assert(rest[k] == bytes[k + 1]);
        }
        lemma_no_frame(rest);
    }
}

proof fn lemma_frame_props(bytes: Seq<u8>)
    ensures
        ({
            let n = frame_length(bytes) as int;
            n + 2 <= bytes.len() ==> {
                &&& bytes[n] == 10 && bytes[n + 1] == 10
                &&& forall|k: int| 0 <= k < n ==> !(#[trigger] bytes[k] == 10 && bytes[k + 1] == 10)
            }
        }),
    decreases bytes.len(),
{
    if bytes.len() >= 2 && !(bytes[0] == 10 && bytes[1] == 10) {
        let rest = bytes.drop_first();
        lemma_frame_props(rest);
        let n = frame_length(bytes) as int;
        if n + 2 <= bytes.len() {
            assert forall|k: int| 0 <= k < n implies !(#[trigger] bytes[k] == 10 && bytes[k + 1]
                == 10) by {
                if k > 0 {
                    assert(rest[k - 1] == bytes[k]);
                    assert(rest[k] == bytes[k + 1]);
                }
            }
        }
    }
}

fn collect_data_lines(text: &str) -> (r: Vec<String>)
    ensures
        r.deep_view() == data_lines(text@),
{
    let mut lines: Vec<String> = Vec::new();
    let mut rest: String = text.to_owned();
    let mut more = true;
    assert(lines.deep_view() =~= Seq::empty());
    assert(Seq::empty() + data_lines(text@) =~= data_lines(text@));
    while more
        invariant
            more ==> data_lines(text@) == lines.deep_view() + data_lines(rest@),
            !more ==> data_lines(text@) == lines.deep_view(),
        decreases
            rest@.len(),
            if more {
                1int
            } else {
                0
            },
    {
        let ghost done = lines.deep_view();
        let ghost here = rest@;
        let (line, next) = split_once(rest.as_str(), '\n');
        let ghost mut found: Seq<Seq<char>> = Seq::empty();
        if starts_with(line.as_str(), "data:") {
            proof {
                reveal_strlit("data:");
            }
            let v = to_chars(line.as_str());
            let value = from_range(&v, 5, v.len());
            assert(value@ =~= line@.skip(5));
            lines.push(trim(value.as_str()));
            proof {
                found = seq![trimmed(line@.skip(5))];
            }
        }
        assert(lines.deep_view() =~= done + found);
        match next {
            Some(next) => {
                proof {
                    let tail = data_lines(next@);
                    assert(done + (found + tail) =~= (done + found) + tail);
                }
                rest = next;
            },
            None => {
                more = false;
            },
        }
    }
    lines
}

fn read_frame(frame: &Vec<u8>) -> (r: Option<String>)
    ensures
        r.deep_view() == frame_data(frame@),
        read_as_encoded(frame@),
{
    let text = from_utf8_lossy(frame);
    let lines = collect_data_lines(text.as_str());
    let all = join(&lines, "\n");
    let data = trim(all.as_str());
    if data.as_str().is_empty() || same(data.as_str(), "[DONE]") {
        None
    } else {
        Some(data)
    }
}

impl SseDecoder {
    /// Takes more bytes and returns what the frames that they complete bring. A frame that is UTF-8
    /// is read as what it encodes.
    pub fn push(&mut self, bytes: &[u8]) -> (r: Vec<String>)
        ensures
            (final(self)@, r.deep_view()) == read_frames(old(self)@ + bytes@),
            all_read_as_encoded(whole_frames(old(self)@ + bytes@)),
    {
        let ghost before = self.buffer@;
        self.buffer.extend_from_slice(bytes);
        let ghost all = before + bytes@;
        assert(self.buffer@ =~= all);
        let mut frames: Vec<String> = Vec::new();
        assert(frames.deep_view() =~= Seq::empty());
        assert(Seq::empty() + read_frames(all).1 =~= read_frames(all).1);
        let ghost mut seen: Seq<Seq<u8>> = Seq::empty();
        assert(seen + whole_frames(all) =~= whole_frames(all));
        let mut next = self.take_frame();
        assert(seen + Seq::<Seq<u8>>::empty() =~= seen);
        while next.is_some()
            invariant
                all_read_as_encoded(seen),
                whole_frames(all) == seen + match next {
                    Some(frame) => seq![frame@] + whole_frames(self@),
                    None => Seq::empty(),
                },
                match next {
                    Some(frame) => {
                        let (rest, more) = read_frames(self@);
                        &&& read_frames(all).0 == rest
                        &&& read_frames(all).1 == frames.deep_view() + match frame_data(frame@) {
                            Some(data) => seq![data] + more,
                            None => more,
                        }
                    },
                    None => read_frames(all) == (self@, frames.deep_view()),
                },
            decreases
                self@.len(),
                if next is Some {
                    1int
                } else {
                    0
                },
        {
            if let Some(frame) = next {
                let ghost done = frames.deep_view();
                let ghost more = read_frames(self@).1;
                if let Some(data) = read_frame(&frame) {
                    frames.push(data);
                    assert(frames.deep_view() + more =~= done + (seq![data@] + more));
                }
                assert(frames.deep_view() + Seq::<Seq<char>>::empty() =~= frames.deep_view());
                proof {
                    let rest = whole_frames(self@);
                    assert(seen + (seq![frame@] + rest) =~= seen.push(frame@) + rest);
                    seen = seen.push(frame@);
                    assert(seen + Seq::<Seq<u8>>::empty() =~= seen);
                }
                next = self.take_frame();
            }
        }
        assert(seen + Seq::<Seq<u8>>::empty() =~= seen);
        frames
    }

    fn take_frame(&mut self) -> (r: Option<Vec<u8>>)
        ensures
            ({
                let n = frame_length(old(self)@) as int;
                match r {
                    None => n + 2 > old(self)@.len() && final(self)@ == old(self)@,
                    Some(frame) => n + 2 <= old(self)@.len() && frame@ == old(self)@.take(n)
                        && final(self)@ == old(self)@.skip(n + 2),
                }
            }),
    {
        let ghost bytes = self.buffer@;
        let mut n: usize = 0;
        let len = self.buffer.len();
        while n < len && len - n >= 2 && !(self.buffer[n] == 10 && self.buffer[n + 1] == 10)
            invariant
                bytes == self.buffer@,
                self@ == old(self)@,
                len == bytes.len(),
                n <= len,
                forall|k: int| 0 <= k < n ==> k + 1 < len && !(#[trigger] bytes[k] == 10 && bytes[k
                    + 1] == 10),
            decreases len - n,
        {
            n += 1;
        }
        if len - n < 2 {
            proof {
                lemma_no_frame(bytes);
            }
            return None;
        }
        proof {
            lemma_frame_length(bytes, n as int);
        }
        let rest = self.buffer.split_off(n + 2);
        let mut frame = self.buffer.split_off(0);
        let _ = frame.split_off(n);
        self.buffer = rest;
        assert(frame@ =~= bytes.take(n as int));
        assert(self.buffer@ =~= bytes.skip(n + 2));
        Some(frame)
    }
}

/// Two pieces of a body give what they give as one.
pub proof fn law_pieces_read_as_one(a: Seq<u8>, b: Seq<u8>)
    ensures
        ({
            let first = read_frames(a);
            let second = read_frames(first.0 + b);
            read_frames(a + b) == (second.0, first.1 + second.1)
        }),
    decreases a.len(),
{
    let n = frame_length(a) as int;
    let second = read_frames(read_frames(a).0 + b);
    if n + 2 > a.len() {
        assert(Seq::<Seq<char>>::empty() + second.1 =~= second.1);
    } else {
        lemma_frame_props(a);
        assert forall|k: int| 0 <= k < n implies !(#[trigger] (a + b)[k] == 10 && (a + b)[k + 1]
            == 10) by {
            assert((a + b)[k] == a[k] && (a + b)[k + 1] == a[k + 1]);
        }
        lemma_frame_length(a + b, n);
        assert((a + b).take(n) =~= a.take(n));
        assert((a + b).skip(n + 2) =~= a.skip(n + 2) + b);
        law_pieces_read_as_one(a.skip(n + 2), b);
        let more = read_frames(a.skip(n + 2)).1;
        if frame_data(a.take(n)) is Some {
            let data = frame_data(a.take(n))->Some_0;
            assert(seq![data] + (more + second.1) =~= (seq![data] + more) + second.1);
        }
    }
}

/// The value that a frame of a body brings.
pub open spec fn frame_value(data: Seq<char>) -> Result<JsonV, CodexRunErrorV> {
    match json_parse(data) {
        Ok(v) => Ok(v),
        Err(e) => Err(
            CodexRunErrorV {
                message: "Invalid Codex SSE JSON: "@ + e,
                kind: CodexErrorKindV::Protocol,
            },
        ),
    }
}

/// The value that a frame of a body brings.
pub fn decode_frame(data: &str) -> (r: Result<Json, CodexRunError>)
    ensures
        outcome(r) == frame_value(data@),
{
    match parse_json(data) {
        Ok(v) => Ok(v),
        Err(e) => Err(CodexRunError::protocol(concat("Invalid Codex SSE JSON: ", e.as_str()))),
    }
}

/// What comes over a connection.
#[derive(Debug)]
pub enum SocketEvent {
    Text(String),
    Binary(Vec<u8>),
    /// A message that says nothing: a ping, a pong or a part of a message.
    Silence,
    /// The other side closes the connection, with a code and a reason where it gives them.
    Close(Option<(u16, String)>),
    /// The connection is at its end.
    End,
    /// The connection failed, in words.
    Failed(String),
    /// Nothing has come for so many milliseconds, which is too long.
    Idle(u64),
    /// The connection was closed on this side.
    Closed,
    /// The caller gave up.
    Abort,
}

/// A failure of a connection.
pub open spec fn transport_error(message: Seq<char>) -> CodexRunErrorV {
    CodexRunErrorV { message, kind: CodexErrorKindV::Transport }
}

/// The error of a request that the caller gave up.
pub open spec fn given_up() -> CodexRunErrorV {
    CodexRunErrorV { message: "Request was aborted"@, kind: CodexErrorKindV::Aborted }
}

/// What is said of a connection on which something took too long.
pub open spec fn timeout_text(what: Seq<char>, milliseconds: u64) -> Seq<char> {
    what + decimal(milliseconds as nat) + "ms"@
}

fn make_timeout_text(what: &str, milliseconds: u64) -> (r: String)
    ensures
        r@ == timeout_text(what@, milliseconds),
{
    let number = to_decimal(milliseconds);
    let start = concat(what, number.as_str());
    concat(start.as_str(), "ms")
}

/// What becomes of an attempt to connect, or to send a message.
#[derive(Debug)]
pub enum ConnectEvent {
    Done,
    /// It failed, in words.
    Failed(String),
    /// It has taken so many milliseconds, which is too long.
    TimedOut(u64),
    /// The caller gave up.
    Abort,
}

/// The error of an attempt to connect, or to send a message.
pub open spec fn connect_error(event: ConnectEvent) -> Option<CodexRunErrorV> {
    match event {
        ConnectEvent::Done => None,
        ConnectEvent::Failed(words) => Some(transport_error(words@)),
        ConnectEvent::TimedOut(n) => Some(
            transport_error(timeout_text("WebSocket connect timeout after "@, n)),
        ),
        ConnectEvent::Abort => Some(given_up()),
    }
}

/// The error of an attempt to connect, or to send a message.
pub fn connect_failure(event: ConnectEvent) -> (r: Option<CodexRunError>)
    ensures
        r.deep_view() == connect_error(event),
{
    match event {
        ConnectEvent::Done => None,
        ConnectEvent::Failed(words) => Some(CodexRunError::transport(words)),
        ConnectEvent::TimedOut(n) => Some(
            CodexRunError::transport(make_timeout_text("WebSocket connect timeout after ", n)),
        ),
        ConnectEvent::Abort => Some(CodexRunError::aborted("Request was aborted".to_owned())),
    }
}

/// A time that is waited, where zero means that there is no limit.
pub open spec fn limit(milliseconds: Option<u64>) -> Option<u64> {
    match milliseconds {
        Some(n) => if n > 0 {
            Some(n)
        } else {
            None
        },
        None => None,
    }
}

/// How long a connection is waited for, at most.
pub fn connect_limit(milliseconds: Option<u64>) -> (r: Option<u64>)
    ensures
        r == limit(
            match milliseconds {
                Some(_) => milliseconds,
                None => Some(DEFAULT_WEBSOCKET_CONNECT_TIMEOUT_MS),
            },
        ),
{
    match milliseconds {
        Some(n) => if n > 0 {
            Some(n)
        } else {
            None
        },
        None => Some(DEFAULT_WEBSOCKET_CONNECT_TIMEOUT_MS),
    }
}

/// How long a message is waited for, at most.
pub fn idle_limit(milliseconds: Option<u64>) -> (r: Option<u64>)
    ensures
        r == limit(milliseconds),
{
    match milliseconds {
        Some(n) => if n > 0 {
            Some(n)
        } else {
            None
        },
        None => None,
    }
}

/// What a connection gives next.
#[derive(Debug)]
pub enum SocketStep {
    Value(Json),
    Failure(CodexRunError),
    /// The stream is at its end.
    Finished,
    /// Another message is wanted.
    Wanted,
}

/// The model of [`SocketStep`].
pub enum SocketStepV {
    Value(JsonV),
    Failure(CodexRunErrorV),
    Finished,
    Wanted,
}

impl View for SocketStep {
    type V = SocketStepV;

    open spec fn view(&self) -> SocketStepV {
        match self {
            SocketStep::Value(v) => SocketStepV::Value(v@),
            SocketStep::Failure(e) => SocketStepV::Failure(e@),
            SocketStep::Finished => SocketStepV::Finished,
            SocketStep::Wanted => SocketStepV::Wanted,
        }
    }
}

/// The messages of a response that comes over a connection.
#[derive(Clone, Copy, Debug, PartialEq, Eq, Structural)]
pub struct SocketStream {
    /// Whether nothing more is read.
    pub done: bool,
    /// Whether the response is complete.
    pub saw_completion: bool,
    /// Whether the connection can be used again.
    pub alive: bool,
}

/// A message of a response.
pub open spec fn text_step(s: SocketStream, text: Seq<char>) -> (SocketStream, SocketStepV) {
    match json_parse(text) {
        Ok(v) => {
            let kind = text_of(member(v, "type"@));
            let complete = kind is Some && is_terminal(kind->Some_0);
            (
                SocketStream { saw_completion: s.saw_completion || complete, ..s },
                SocketStepV::Value(v),
            )
        },
        Err(e) => (
            SocketStream { done: true, ..s },
            SocketStepV::Failure(
                CodexRunErrorV {
                    message: "Invalid Codex WebSocket JSON: "@ + e,
                    kind: CodexErrorKindV::Protocol,
                },
            ),
        ),
    }
}

/// What comes over a connection makes of the stream. A connection that ends is no failure once the
/// response is complete.
pub open spec fn socket_step(s: SocketStream, event: SocketEvent) -> (SocketStream, SocketStepV) {
    let dead = SocketStream { done: true, alive: false, ..s };
    if s.done {
        (s, SocketStepV::Finished)
    } else {
        match event {
            SocketEvent::Text(text) => text_step(s, text@),
            SocketEvent::Binary(bytes) => text_step(s, lossy_text(bytes@)),
            SocketEvent::Silence => (s, SocketStepV::Wanted),
            SocketEvent::Close(frame) => (
                dead,
                if s.saw_completion {
                    SocketStepV::Finished
                } else {
                    SocketStepV::Failure(
                        CodexRunErrorV {
                            message: close_text(
                                match frame {
                                    Some((code, reason)) => Some((code, reason@)),
                                    None => None,
                                },
                            ),
                            kind: CodexErrorKindV::WebSocketClose {
                                code: match frame {
                                    Some((code, _)) => Some(code),
                                    None => None,
                                },
                            },
                        },
                    )
                },
            ),
            SocketEvent::End => (
                dead,
                if s.saw_completion {
                    SocketStepV::Finished
                } else {
                    SocketStepV::Failure(
                        transport_error("WebSocket stream closed before response.completed"@),
                    )
                },
            ),
            SocketEvent::Failed(words) => (dead, SocketStepV::Failure(transport_error(words@))),
            SocketEvent::Idle(n) => (
                dead,
                SocketStepV::Failure(
                    transport_error(timeout_text("WebSocket idle timeout after "@, n)),
                ),
            ),
            SocketEvent::Closed => (
                dead,
                SocketStepV::Failure(transport_error("WebSocket closed"@)),
            ),
            SocketEvent::Abort => (dead, SocketStepV::Failure(given_up())),
        }
    }
}

impl SocketStream {
    /// A response of which nothing has come.
    pub fn new() -> (r: Self)
        ensures
            r == (SocketStream { done: false, saw_completion: false, alive: true }),
    {
        SocketStream { done: false, saw_completion: false, alive: true }
    }

    fn take_text(&mut self, text: &str) -> (r: SocketStep)
        ensures
            (*final(self), r@) == text_step(*old(self), text@),
    {
        match parse_json(text) {
            Ok(v) => {
                if let Some(kind) = v.text("type") {
                    if same(kind.as_str(), "response.completed") || same(
                        kind.as_str(),
                        "response.done",
                    ) || same(kind.as_str(), "response.incomplete") {
                        self.saw_completion = true;
                    }
                }
                SocketStep::Value(v)
            },
            Err(e) => {
                self.done = true;
                SocketStep::Failure(
                    CodexRunError::protocol(concat("Invalid Codex WebSocket JSON: ", e.as_str())),
                )
            },
        }
    }

    fn die(&mut self, error: CodexRunError) -> (r: SocketStep)
        ensures
            *final(self) == (SocketStream { done: true, alive: false, ..*old(self) }),
            r@ == SocketStepV::Failure(error@),
    {
        self.alive = false;
        self.done = true;
        SocketStep::Failure(error)
    }

    /// Takes what comes over the connection, and returns what the stream gives next.
    pub fn take(&mut self, event: SocketEvent) -> (r: SocketStep)
        ensures
            (*final(self), r@) == socket_step(*old(self), event),
            !old(self).done ==> (event matches SocketEvent::Binary(bytes) ==> read_as_encoded(
                bytes@,
            )),
    {
        if self.done {
            return SocketStep::Finished;
        }
        match event {
            SocketEvent::Text(text) => self.take_text(text.as_str()),
            SocketEvent::Binary(bytes) => {
                let text = from_utf8_lossy(&bytes);
                self.take_text(text.as_str())
            },
            SocketEvent::Silence => SocketStep::Wanted,
            SocketEvent::Close(frame) => {
                self.alive = false;
                self.done = true;
                if self.saw_completion {
                    return SocketStep::Finished;
                }
                match frame {
                    Some((code, reason)) => {
                        let message = close_message(Some((code, reason.as_str())));
                        SocketStep::Failure(CodexRunError::websocket_close(message, Some(code)))
                    },
                    None => {
                        let message = close_message(None);
                        SocketStep::Failure(CodexRunError::websocket_close(message, None))
                    },
                }
            },
            SocketEvent::End => {
                self.alive = false;
                self.done = true;
                if self.saw_completion {
                    return SocketStep::Finished;
                }
                SocketStep::Failure(
                    CodexRunError::transport(
                        "WebSocket stream closed before response.completed".to_owned(),
                    ),
                )
            },
            SocketEvent::Failed(words) => self.die(CodexRunError::transport(words)),
            SocketEvent::Idle(n) => {
                let words = make_timeout_text("WebSocket idle timeout after ", n);
                self.die(CodexRunError::transport(words))
            },
            SocketEvent::Closed => self.die(
                CodexRunError::transport("WebSocket closed".to_owned()),
            ),
            SocketEvent::Abort => self.die(
                CodexRunError::aborted("Request was aborted".to_owned()),
            ),
        }
    }
}

/// A stream that has failed or ended gives nothing more.
pub proof fn law_ended_stream_stays_ended(s: SocketStream, first: SocketEvent, next: SocketEvent)
    requires
        socket_step(s, first).1 is Failure || socket_step(s, first).1 is Finished,
    ensures
        socket_step(socket_step(s, first).0, next) == (
            socket_step(s, first).0,
            SocketStepV::Finished,
        ),
{
}

/// Events as the Responses API has them.
#[derive(Clone, Copy, Debug, PartialEq, Eq, Structural)]
pub struct EventStream {
    /// Whether the response has ended or failed.
    pub done: bool,
    /// Whether anything has come.
    pub started: bool,
    /// Whether the listener has been told of the start, by this response or an earlier one.
    pub announced: bool,
}

/// What an event makes of the stream: it ends with the first failure and with the event that ends
/// the response.
pub open spec fn event_step(s: EventStream, item: Result<JsonV, CodexRunErrorV>) -> (
    EventStream,
    SocketStepV,
) {
    if s.done {
        (s, SocketStepV::Finished)
    } else {
        let event = match item {
            Ok(v) => normalized_event(v),
            Err(e) => Err(e),
        };
        match event {
            Ok(Some((v, terminal))) => (
                EventStream { done: terminal, started: true, announced: true },
                SocketStepV::Value(v),
            ),
            Ok(None) => (s, SocketStepV::Wanted),
            Err(e) => (EventStream { done: true, ..s }, SocketStepV::Failure(e)),
        }
    }
}

impl EventStream {
    /// A response of which nothing has come.
    pub fn new(announced: bool) -> (r: Self)
        ensures
            r == (EventStream { done: false, started: false, announced }),
    {
        EventStream { done: false, started: false, announced }
    }

    /// Takes an event, and returns what the stream gives next. The listener is to be told of the
    /// start where the stream is announced after this and was not before.
    pub fn take(&mut self, item: Result<Json, CodexRunError>) -> (r: SocketStep)
        ensures
            (*final(self), r@) == event_step(*old(self), outcome(item)),
    {
        if self.done {
            return SocketStep::Finished;
        }
        match item {
            Ok(v) => match normalize_event(&v) {
                Ok(Some((v, terminal))) => {
                    self.started = true;
                    self.announced = true;
                    self.done = terminal;
                    SocketStep::Value(v)
                },
                Ok(None) => SocketStep::Wanted,
                Err(e) => {
                    self.done = true;
                    SocketStep::Failure(e)
                },
            },
            Err(e) => {
                self.done = true;
                SocketStep::Failure(e)
            },
        }
    }
}

/// The start is announced with the first event that says something, and what has been announced
/// stays so.
pub proof fn law_start_is_announced(s: EventStream, item: Result<JsonV, CodexRunErrorV>)
    ensures
        s.announced ==> event_step(s, item).0.announced,
        event_step(s, item).0.announced && !s.announced <==> event_step(s, item).1 is Value
            && !s.announced,
{
}

/// What comes of the body of a Codex response.
#[derive(Debug)]
pub enum FrameEvent {
    Bytes(Vec<u8>),
    /// The connection broke, in words.
    Broken(String),
    /// The body is at its end.
    End,
    /// The caller gave up.
    Abort,
}

/// The events of a Codex response out of its body.
#[derive(Debug)]
pub struct FrameStream {
    decoder: SseDecoder,
    /// The frames that have not been read.
    pending: Vec<String>,
    events: EventStream,
}

/// The model of [`FrameStream`].
pub struct FrameStreamV {
    pub buffer: Seq<u8>,
    pub pending: Seq<Seq<char>>,
    pub events: EventStream,
}

impl View for FrameStream {
    type V = FrameStreamV;

    closed spec fn view(&self) -> FrameStreamV {
        FrameStreamV {
            buffer: self.decoder@,
            pending: self.pending.deep_view(),
            events: self.events,
        }
    }
}

/// What the stream gives of the frames that it has: what comes of the first that says something.
pub open spec fn frame_step(s: FrameStreamV) -> (FrameStreamV, SocketStepV)
    decreases s.pending.len(),
{
    if s.events.done {
        (s, SocketStepV::Finished)
    } else if s.pending.len() == 0 {
        (s, SocketStepV::Wanted)
    } else {
        let (events, step) = event_step(s.events, frame_value(s.pending[0]));
        let next = FrameStreamV { pending: s.pending.drop_first(), events, ..s };
        if step is Wanted {
            frame_step(next)
        } else {
            (next, step)
        }
    }
}

/// What the stream does with what comes of the body, where it has given out all that it had.
pub open spec fn frames_fed(s: FrameStreamV, event: FrameEvent) -> (FrameStreamV, SocketStepV) {
    let end = FrameStreamV { events: EventStream { done: true, ..s.events }, ..s };
    if s.events.done {
        (s, SocketStepV::Finished)
    } else {
        match event {
            FrameEvent::Bytes(bytes) => {
                let (buffer, frames) = read_frames(s.buffer + bytes@);
                frame_step(FrameStreamV { buffer, pending: s.pending + frames, ..s })
            },
            FrameEvent::Broken(words) => (end, SocketStepV::Failure(transport_error(words@))),
            FrameEvent::Abort => (end, SocketStepV::Failure(given_up())),
            FrameEvent::End => (end, SocketStepV::Finished),
        }
    }
}

impl FrameStream {
    /// A response of which nothing has come.
    pub fn new() -> (r: Self)
        ensures
            r@ == (FrameStreamV {
                buffer: Seq::empty(),
                pending: Seq::empty(),
                events: EventStream { done: false, started: false, announced: true },
            }),
    {
        let r = FrameStream {
            decoder: SseDecoder::default(),
            pending: Vec::new(),
            events: EventStream::new(true),
        };
        assert(r.pending.deep_view() =~= Seq::empty());
        r
    }

    /// What the stream gives next of the frames that it has.
    pub fn next(&mut self) -> (r: SocketStep)
        ensures
            (final(self)@, r@) == frame_step(old(self)@),
    {
        while !self.events.done && self.pending.len() > 0
            invariant
                frame_step(self@) == frame_step(old(self)@),
            decreases self.pending@.len(),
        {
            let ghost all = self.pending.deep_view();
            let data = self.pending.remove(0);
            assert(self.pending.deep_view() =~= all.drop_first());
            let item = decode_frame(data.as_str());
            match self.events.take(item) {
                SocketStep::Wanted => {},
                step => {
                    return step;
                },
            }
        }
        if self.events.done {
            SocketStep::Finished
        } else {
            SocketStep::Wanted
        }
    }

    fn fail(&mut self, error: CodexRunError) -> (r: SocketStep)
        ensures
            final(self)@ == (FrameStreamV {
                events: EventStream { done: true, ..old(self)@.events },
                ..old(self)@
            }),
            r@ == SocketStepV::Failure(error@),
    {
        self.events.done = true;
        SocketStep::Failure(error)
    }

    /// Takes what comes of the body, and returns what the stream gives next.
    pub fn feed(&mut self, event: FrameEvent) -> (r: SocketStep)
        ensures
            (final(self)@, r@) == frames_fed(old(self)@, event),
            !old(self)@.events.done ==> (event matches FrameEvent::Bytes(bytes)
                ==> all_read_as_encoded(whole_frames(old(self)@.buffer + bytes@))),
    {
        if self.events.done {
            return SocketStep::Finished;
        }
        match event {
            FrameEvent::Bytes(bytes) => {
                let ghost all = self.pending.deep_view();
                let mut frames = self.decoder.push(bytes.as_slice());
                let ghost more = frames.deep_view();
                self.pending.append(&mut frames);
                assert(self.pending.deep_view() =~= all + more);
                self.next()
            },
            FrameEvent::Broken(words) => self.fail(CodexRunError::transport(words)),
            FrameEvent::Abort => self.fail(
                CodexRunError::aborted("Request was aborted".to_owned()),
            ),
            FrameEvent::End => {
                self.events.done = true;
                SocketStep::Finished
            },
        }
    }
}

/// A body that has ended or failed gives nothing more.
pub proof fn law_ended_body_stays_ended(s: FrameStreamV, event: FrameEvent, next: FrameEvent)
    requires
        frames_fed(s, event).1 is Failure || frames_fed(s, event).1 is Finished,
    ensures
        frames_fed(frames_fed(s, event).0, next) == (
            frames_fed(s, event).0,
            SocketStepV::Finished,
        ),
{
    if let FrameEvent::Bytes(bytes) = event {
        let (buffer, frames) = read_frames(s.buffer + bytes@);
        lemma_frames_end(FrameStreamV { buffer, pending: s.pending + frames, ..s });
    }
}

proof fn lemma_frames_end(s: FrameStreamV)
    requires
        frame_step(s).1 is Failure || frame_step(s).1 is Finished,
    ensures
        frame_step(s).0.events.done,
    decreases s.pending.len(),
{
    if !s.events.done && s.pending.len() > 0 {
        let (events, step) = event_step(s.events, frame_value(s.pending[0]));
        if step is Wanted {
            lemma_frames_end(FrameStreamV { pending: s.pending.drop_first(), events, ..s });
        }
    }
}

} // verus!
