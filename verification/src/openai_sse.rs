//! Server-sent events: from the bytes of a body to JSON values.
use crate::js::{js_truthy, truthy};
use crate::json::{json_parse, member, parse_json, Json, JsonV};
use crate::provider_error::{
    aborted_error, api_error, plain_sse_error, OpenAiSseError, OpenAiSseErrorV,
};
use crate::text::{begins, starts_with};
use vstd::prelude::*;
use vstd::utf8::{decode_utf8, valid_utf8};

verus! {

/// The text of bytes that may not be UTF-8.
pub uninterp spec fn lossy_text(bytes: Seq<u8>) -> Seq<char>;

/// Calls `String::from_utf8_lossy`. The text depends on the bytes alone and is named
/// [`lossy_text`]; of bytes that are UTF-8 it is what they encode.
#[verifier::external_body]
pub(crate) fn from_utf8_lossy(bytes: &Vec<u8>) -> (r: String)
    ensures
        r@ == lossy_text(bytes@),
        valid_utf8(bytes@) ==> r@ == decode_utf8(bytes@),
{
    String::from_utf8_lossy(bytes).into_owned()
}

/// Whether bytes are read as what they encode, where they are UTF-8.
pub open spec fn read_as_encoded(bytes: Seq<u8>) -> bool {
    valid_utf8(bytes) ==> lossy_text(bytes) == decode_utf8(bytes)
}

/// Whether every piece of data is read as what it encodes, where it is UTF-8.
pub open spec fn all_read_as_encoded(data: Seq<Seq<u8>>) -> bool {
    forall|i: int| 0 <= i < data.len() ==> read_as_encoded(#[trigger] data[i])
}

/// The texts of pieces of data.
pub open spec fn texts(data: Seq<Seq<u8>>) -> Seq<Seq<char>> {
    data.map_values(|bytes: Seq<u8>| lossy_text(bytes))
}

/// A decoder of server-sent events, which takes the bytes of a body in pieces.
#[derive(Debug)]
pub struct SseDecoder {
    /// The beginning of a line.
    buffer: Vec<u8>,
    /// The name of the event whose lines are being read.
    event: Option<Vec<u8>>,
    /// The data of that event so far, by line.
    data_lines: Vec<Vec<u8>>,
}

/// The model of [`SseDecoder`].
pub struct SseDecoderV {
    pub buffer: Seq<u8>,
    pub event: Option<Seq<u8>>,
    pub data_lines: Seq<Seq<u8>>,
}

impl View for SseDecoder {
    type V = SseDecoderV;

    closed spec fn view(&self) -> SseDecoderV {
        SseDecoderV {
            buffer: self.buffer@,
            event: self.event.deep_view(),
            data_lines: self.data_lines.deep_view(),
        }
    }
}

impl DeepView for SseDecoder {
    type V = SseDecoderV;

    open spec fn deep_view(&self) -> SseDecoderV {
        self@
    }
}

/// A decoder that has read nothing.
pub open spec fn fresh_decoder() -> SseDecoderV {
    SseDecoderV { buffer: Seq::empty(), event: None, data_lines: Seq::empty() }
}

impl Default for SseDecoder {
    fn default() -> (r: Self)
        ensures
            r@ == fresh_decoder(),
    {
        let r = SseDecoder { buffer: Vec::new(), event: None, data_lines: Vec::new() };
        assert(r.data_lines.deep_view() =~= Seq::empty());
        r
    }
}

/// Whether a byte ends a line.
pub open spec fn line_end(b: u8) -> bool {
    b == 13 || b == 10
}

/// The length of the first line.
pub open spec fn line_length(bytes: Seq<u8>) -> nat
    decreases bytes.len(),
{
    if bytes.len() == 0 || line_end(bytes[0]) {
        0
    } else {
        1 + line_length(bytes.drop_first())
    }
}

/// The first line and what follows its end. A line without an end is one only at the end of the
/// input; so is one that ends with a carriage return, which a line feed may yet follow.
pub open spec fn first_line(bytes: Seq<u8>, eof: bool) -> Option<(Seq<u8>, Seq<u8>)> {
    let n = line_length(bytes) as int;
    if n >= bytes.len() {
        if eof && bytes.len() > 0 {
            Some((bytes, Seq::empty()))
        } else {
            None
        }
    } else if bytes[n] == 13 && n + 1 == bytes.len() && !eof {
        None
    } else if bytes[n] == 13 && n + 1 < bytes.len() && bytes[n + 1] == 10 {
        Some((bytes.take(n), bytes.skip(n + 2)))
    } else {
        Some((bytes.take(n), bytes.skip(n + 1)))
    }
}

/// The position of the first colon, or the length.
pub open spec fn colon(line: Seq<u8>) -> nat
    decreases line.len(),
{
    if line.len() == 0 || line[0] == 58 {
        0
    } else {
        1 + colon(line.drop_first())
    }
}

/// The name of a field: what stands before the colon.
pub open spec fn field_name(line: Seq<u8>) -> Seq<u8> {
    line.take(colon(line) as int)
}

/// The value of a field: what stands behind the colon, without a space at its beginning.
pub open spec fn field_value(line: Seq<u8>) -> Seq<u8> {
    let n = colon(line) as int;
    if n >= line.len() {
        Seq::empty()
    } else if n + 1 < line.len() && line[n + 1] == 32 {
        line.skip(n + 2)
    } else {
        line.skip(n + 1)
    }
}

/// Lines of data as one, with line feeds between them.
pub open spec fn joined_lines(lines: Seq<Seq<u8>>) -> Seq<u8>
    decreases lines.len(),
{
    if lines.len() == 0 {
        Seq::empty()
    } else if lines.len() == 1 {
        lines[0]
    } else {
        joined_lines(lines.drop_last()).push(10) + lines.last()
    }
}

/// The bytes of `data`.
pub open spec fn data_name() -> Seq<u8> {
    seq![100u8, 97u8, 116u8, 97u8]
}

/// The bytes of `event`.
pub open spec fn event_name() -> Seq<u8> {
    seq![101u8, 118u8, 101u8, 110u8, 116u8]
}

/// What one line does: the data of the events that it completes, and the state that it leaves. An empty line
/// completes an event that has data or a name; a comment does nothing.
pub open spec fn read_line(state: SseDecoderV, line: Seq<u8>) -> (SseDecoderV, Seq<Seq<u8>>) {
    if line.len() == 0 {
        let named = state.event is Some && state.event->Some_0.len() > 0;
        if state.data_lines.len() == 0 && !named {
            (SseDecoderV { event: None, ..state }, Seq::empty())
        } else {
            (
                SseDecoderV { event: None, data_lines: Seq::empty(), ..state },
                seq![joined_lines(state.data_lines)],
            )
        }
    } else if line[0] == 58 {
        (state, Seq::empty())
    } else if field_name(line) == data_name() {
        (
            SseDecoderV { data_lines: state.data_lines.push(field_value(line)), ..state },
            Seq::empty(),
        )
    } else if field_name(line) == event_name() {
        (SseDecoderV { event: Some(field_value(line)), ..state }, Seq::empty())
    } else {
        (state, Seq::empty())
    }
}

/// Reads all the lines of the buffer: what state is left, and the data of the events that are
/// complete.
pub open spec fn read_lines(state: SseDecoderV, eof: bool) -> (SseDecoderV, Seq<Seq<u8>>)
    decreases state.buffer.len(),
    via read_lines_decreases
{
    match first_line(state.buffer, eof) {
        None => (state, Seq::empty()),
        Some((line, rest)) => {
            let (next, events) = read_line(SseDecoderV { buffer: rest, ..state }, line);
            let (end, more) = read_lines(next, eof);
            (end, events + more)
        },
    }
}

#[via_fn]
proof fn read_lines_decreases(state: SseDecoderV, eof: bool) {
}

/// What [`SseDecoder::push`] does: the state that it leaves, and the data of the events.
pub open spec fn pushed(state: SseDecoderV, bytes: Seq<u8>, eof: bool) -> (
    SseDecoderV,
    Seq<Seq<u8>>,
) {
    read_lines(SseDecoderV { buffer: state.buffer + bytes, ..state }, eof)
}

proof fn lemma_line_length(bytes: Seq<u8>, n: int)
    requires
        0 <= n <= bytes.len(),
        forall|k: int| 0 <= k < n ==> !line_end(#[trigger] bytes[k]),
        n < bytes.len() ==> line_end(bytes[n]),
    ensures
        line_length(bytes) == n,
    decreases bytes.len(),
{
    if bytes.len() > 0 && !line_end(bytes[0]) {
        lemma_line_length(bytes.drop_first(), n - 1);
    }
}

proof fn lemma_line_length_props(bytes: Seq<u8>)
    ensures
        line_length(bytes) <= bytes.len(),
        forall|k: int| 0 <= k < line_length(bytes) ==> !line_end(#[trigger] bytes[k]),
        line_length(bytes) < bytes.len() ==> line_end(bytes[line_length(bytes) as int]),
    decreases bytes.len(),
{
    if bytes.len() > 0 && !line_end(bytes[0]) {
        lemma_line_length_props(bytes.drop_first());
        assert forall|k: int| 0 <= k < line_length(bytes) implies !line_end(
            #[trigger] bytes[k],
        ) by {
            if k > 0 {
                assert(bytes[k] == bytes.drop_first()[k - 1]);
            }
        }
    }
}

proof fn lemma_colon(line: Seq<u8>, n: int)
    requires
        0 <= n <= line.len(),
        forall|k: int| 0 <= k < n ==> #[trigger] line[k] != 58,
        n < line.len() ==> line[n] == 58,
    ensures
        colon(line) == n,
    decreases line.len(),
{
    if line.len() > 0 && line[0] != 58 {
        lemma_colon(line.drop_first(), n - 1);
    }
}

fn same_bytes(a: &Vec<u8>, b: &Vec<u8>) -> (r: bool)
    ensures
        r == (a@ == b@),
{
    if a.len() != b.len() {
        return false;
    }
    let mut i: usize = 0;
    while i < a.len()
        invariant
            a@.len() == b@.len(),
            i <= a@.len(),
            forall|k: int| 0 <= k < i ==> a@[k] == b@[k],
        decreases a@.len() - i,
    {
        if a[i] != b[i] {
            return false;
        }
        i += 1;
    }
    assert(a@ =~= b@);
    true
}

impl SseDecoder {
    /// Takes more bytes, the last where `eof`, and returns the data of the events that they
    /// complete. Data that is UTF-8 comes out as what it encodes.
    pub fn push(&mut self, bytes: &[u8], eof: bool) -> (r: Vec<String>)
        ensures
            final(self)@ == pushed(old(self)@, bytes@, eof).0,
            r.deep_view() == texts(pushed(old(self)@, bytes@, eof).1),
            all_read_as_encoded(pushed(old(self)@, bytes@, eof).1),
    {
        let ghost start = pushed(self@, bytes@, eof);
        let ghost before = self.buffer@;
        self.buffer.extend_from_slice(bytes);
        assert(self.buffer@ =~= before + bytes@);
        let mut events: Vec<String> = Vec::new();
        let ghost mut data: Seq<Seq<u8>> = Seq::empty();
        assert(events.deep_view() =~= texts(data));
        assert(forall|rest: Seq<Seq<u8>>| Seq::<Seq<u8>>::empty() + rest =~= rest);
        let mut next = self.take_line(eof);
        while next.is_some()
            invariant
                events.deep_view() == texts(data),
                all_read_as_encoded(data),
                match next {
                    Some(line) => {
                        let (state, more) = read_line(self@, line@);
                        let (end, rest) = read_lines(state, eof);
                        start.0 == end && start.1 == data + (more + rest)
                    },
                    None => start == (self@, data),
                },
            decreases
                self@.buffer.len(),
                if next is Some {
                    1int
                } else {
                    0
                },
        {
            if let Some(line) = next {
                let ghost state = self@;
                self.read(line, &mut events);
                proof {
                    let more = read_line(state, line@).1;
                    let rest = read_lines(self@, eof).1;
                    assert(data + (more + rest) =~= (data + more) + rest);
                    assert(texts(data) + texts(more) =~= texts(data + more));
                    data = data + more;
                    assert(data + Seq::<Seq<u8>>::empty() =~= data);
                }
                next = self.take_line(eof);
            }
        }
        events
    }

    fn take_line(&mut self, eof: bool) -> (r: Option<Vec<u8>>)
        ensures
            match r {
                None => first_line(old(self)@.buffer, eof) is None && final(self)@ == old(self)@,
                Some(line) => first_line(old(self)@.buffer, eof) == Some(
                    (line@, final(self)@.buffer),
                ) && final(self)@ == (SseDecoderV {
                    buffer: final(self)@.buffer,
                    ..old(self)@
                }) && final(self)@.buffer.len() < old(self)@.buffer.len(),
            },
    {
        let ghost bytes = self.buffer@;
        let mut n: usize = 0;
        while n < self.buffer.len() && self.buffer[n] != 13 && self.buffer[n] != 10
            invariant
                bytes == self.buffer@,
                self@ == old(self)@,
                n <= bytes.len(),
                forall|k: int| 0 <= k < n ==> !line_end(#[trigger] bytes[k]),
            decreases bytes.len() - n,
        {
            n += 1;
        }
        proof {
            lemma_line_length(bytes, n as int);
        }
        if n == self.buffer.len() {
            if eof && n > 0 {
                let line = self.buffer.split_off(0);
                assert(line@ =~= bytes);
                assert(self.buffer@ =~= Seq::empty());
                return Some(line);
            }
            return None;
        }
        if self.buffer[n] == 13 && n + 1 == self.buffer.len() && !eof {
            return None;
        }
        let width: usize = if self.buffer[n] == 13 && n + 1 < self.buffer.len() && self.buffer[n + 1]
            == 10 {
            2
        } else {
            1
        };
        let rest = self.buffer.split_off(n + width);
        let mut line = self.buffer.split_off(0);
        let _ = line.split_off(n);
        self.buffer = rest;
        assert(line@ =~= bytes.take(n as int));
        assert(self.buffer@ =~= bytes.skip(n + width));
        Some(line)
    }

    fn read(&mut self, line: Vec<u8>, events: &mut Vec<String>)
        ensures
            final(self)@ == read_line(old(self)@, line@).0,
            final(events).deep_view() == old(events).deep_view() + texts(
                read_line(old(self)@, line@).1,
            ),
            all_read_as_encoded(read_line(old(self)@, line@).1),
            final(self)@.buffer == old(self)@.buffer,
    {
        let ghost done = events.deep_view();
        assert(texts(Seq::empty()) =~= Seq::empty());
        assert(done + Seq::<Seq<char>>::empty() =~= done);
        if line.len() == 0 {
            self.dispatch(events);
            return;
        }
        if line[0] == 58 {
            return;
        }
        let ghost bytes = line@;
        let mut n: usize = 0;
        while n < line.len() && line[n] != 58
            invariant
                bytes == line@,
                n <= bytes.len(),
                forall|k: int| 0 <= k < n ==> #[trigger] bytes[k] != 58,
            decreases bytes.len() - n,
        {
            n += 1;
        }
        proof {
            lemma_colon(bytes, n as int);
        }
        let mut field = line;
        let rest = field.split_off(n);
        assert(field@ =~= field_name(bytes));
        let from: usize = if rest.len() == 0 {
            0
        } else if rest.len() > 1 && rest[1] == 32 {
            2
        } else {
            1
        };
        let mut rest = rest;
        let value = rest.split_off(from);
        assert(value@ =~= field_value(bytes));
        assert(value.deep_view() =~= value@);
        let data: Vec<u8> = vec![100, 97, 116, 97];
        let event: Vec<u8> = vec![101, 118, 101, 110, 116];
        assert(data@ =~= data_name());
        assert(event@ =~= event_name());
        if same_bytes(&field, &data) {
            let ghost before = self.data_lines.deep_view();
            self.data_lines.push(value);
            assert(self.data_lines.deep_view() =~= before.push(value@));
        } else if same_bytes(&field, &event) {
            self.event = Some(value);
        }
    }

    fn dispatch(&mut self, events: &mut Vec<String>)
        ensures
            final(self)@ == read_line(old(self)@, Seq::empty()).0,
            final(events).deep_view() == old(events).deep_view() + texts(
                read_line(old(self)@, Seq::empty()).1,
            ),
            all_read_as_encoded(read_line(old(self)@, Seq::empty()).1),
            final(self)@.buffer == old(self)@.buffer,
    {
        let ghost done = events.deep_view();
        assert(texts(Seq::empty()) =~= Seq::empty());
        assert(done + Seq::<Seq<char>>::empty() =~= done);
        let named = match &self.event {
            Some(event) => event.len() > 0,
            None => false,
        };
        self.event = None;
        if self.data_lines.len() == 0 && !named {
            return;
        }
        let data = join_lines(&self.data_lines);
        let text = from_utf8_lossy(&data);
        self.data_lines = Vec::new();
        assert(self.data_lines.deep_view() =~= Seq::empty());
        events.push(text);
        assert(texts(seq![data@]) =~= seq![text@]);
        assert(events.deep_view() =~= done + seq![text@]);
    }
}

fn join_lines(lines: &Vec<Vec<u8>>) -> (r: Vec<u8>)
    ensures
        r@ == joined_lines(lines.deep_view()),
{
    let ghost all = lines.deep_view();
    let mut r: Vec<u8> = Vec::new();
    let mut i: usize = 0;
    assert(all.take(0) =~= Seq::empty());
    while i < lines.len()
        invariant
            all == lines.deep_view(),
            i <= lines@.len(),
            r@ == joined_lines(all.take(i as int)),
        decreases lines@.len() - i,
    {
        let ghost before = r@;
        assert(all.take(i + 1).drop_last() =~= all.take(i as int));
        assert(all.take(i + 1).last() == lines@[i as int]@);
        if i > 0 {
            r.push(10);
        }
        r.extend_from_slice(lines[i].as_slice());
        if i > 0 {
            assert(r@ =~= before.push(10) + lines@[i as int]@);
        } else {
            assert(r@ =~= lines@[i as int]@);
            assert(all.take(1)[0] == lines@[0]@);
        }
        i += 1;
    }
    assert(all.take(i as int) =~= all);
    r
}

/// Two pieces of a body give what they give as one: the same events in the same order, and the same
/// state.
pub proof fn law_pieces_read_as_one(state: SseDecoderV, a: Seq<u8>, b: Seq<u8>, eof: bool)
    ensures
        ({
            let first = pushed(state, a, false);
            let second = pushed(first.0, b, eof);
            pushed(state, a + b, eof) == (second.0, first.1 + second.1)
        }),
{
    let start = SseDecoderV { buffer: state.buffer + a, ..state };
    lemma_more_bytes(start, b, eof);
    assert(state.buffer + (a + b) =~= (state.buffer + a) + b);
}

proof fn lemma_more_bytes(state: SseDecoderV, b: Seq<u8>, eof: bool)
    ensures
        ({
            let first = read_lines(state, false);
            let second = pushed(first.0, b, eof);
            pushed(state, b, eof) == (second.0, first.1 + second.1)
        }),
    decreases state.buffer.len(),
{
    let bytes = state.buffer;
    match first_line(bytes, false) {
        None => {
            let second = pushed(state, b, eof);
            assert(Seq::<Seq<u8>>::empty() + second.1 =~= second.1);
        },
        Some((line, rest)) => {
            lemma_line_length_props(bytes);
            let n = line_length(bytes) as int;
            lemma_line_length(bytes + b, n);
            assert((bytes + b).take(n) =~= bytes.take(n));
            assert((bytes + b).skip(n + 1) =~= bytes.skip(n + 1) + b);
            if n + 2 <= bytes.len() {
                assert((bytes + b).skip(n + 2) =~= bytes.skip(n + 2) + b);
            }
            assert(first_line(bytes + b, eof) == Some((line, rest + b)));
            let (next, events) = read_line(SseDecoderV { buffer: rest, ..state }, line);
            let (joint, same) = read_line(SseDecoderV { buffer: rest + b, ..state }, line);
            assert(same == events);
            assert(joint == SseDecoderV { buffer: next.buffer + b, ..next });
            lemma_more_bytes(next, b, eof);
            let first = read_lines(next, false);
            let second = pushed(first.0, b, eof);
            assert(events + (first.1 + second.1) =~= (events + first.1) + second.1);
        },
    }
}

/// What comes of the body of a response.
#[derive(Debug)]
pub enum BodyEvent {
    Bytes(Vec<u8>),
    /// The connection broke.
    Broken,
    /// The body is at its end.
    End,
    /// The caller gave up.
    Abort,
}

/// What a stream gives next.
#[derive(Debug)]
pub enum SseStep {
    Value(Json),
    Failure(OpenAiSseError),
    /// The stream is at its end.
    Finished,
    /// More of the body is wanted.
    Wanted,
}

/// The model of [`SseStep`].
pub enum SseStepV {
    Value(JsonV),
    Failure(OpenAiSseErrorV),
    Finished,
    Wanted,
}

impl View for SseStep {
    type V = SseStepV;

    open spec fn view(&self) -> SseStepV {
        match self {
            SseStep::Value(v) => SseStepV::Value(v@),
            SseStep::Failure(e) => SseStepV::Failure(e@),
            SseStep::Finished => SseStepV::Finished,
            SseStep::Wanted => SseStepV::Wanted,
        }
    }
}

/// A stream of JSON values out of the body of a response.
#[derive(Debug)]
pub struct SseJsonStream {
    decoder: SseDecoder,
    /// The events that have not been given out.
    pending: Vec<String>,
    ended: bool,
}

/// The model of [`SseJsonStream`].
pub struct SseJsonStreamV {
    pub decoder: SseDecoderV,
    pub pending: Seq<Seq<char>>,
    pub ended: bool,
}

impl View for SseJsonStream {
    type V = SseJsonStreamV;

    closed spec fn view(&self) -> SseJsonStreamV {
        SseJsonStreamV {
            decoder: self.decoder@,
            pending: self.pending.deep_view(),
            ended: self.ended,
        }
    }
}

/// The value of an event, or the error that it is.
pub open spec fn event_value(data: Seq<char>) -> Result<JsonV, OpenAiSseErrorV> {
    if data.len() == 0 {
        Err(plain_sse_error("Unexpected end of JSON input"@))
    } else {
        match json_parse(data) {
            Err(e) => Err(plain_sse_error(e)),
            Ok(v) => match member(v, "error"@) {
                Some(error) => if truthy(error) {
                    Err(api_error(error))
                } else {
                    Ok(v)
                },
                None => Ok(v),
            },
        }
    }
}

/// What the stream gives of the events that it has. It ends at the first failure, and at an event
/// that begins with `[DONE]`.
pub open spec fn next_step(state: SseJsonStreamV) -> (SseJsonStreamV, SseStepV) {
    if state.ended {
        (state, SseStepV::Finished)
    } else if state.pending.len() == 0 {
        (state, SseStepV::Wanted)
    } else {
        let rest = SseJsonStreamV { pending: state.pending.drop_first(), ..state };
        let end = SseJsonStreamV { ended: true, ..rest };
        if begins(state.pending[0], "[DONE]"@) {
            (end, SseStepV::Finished)
        } else {
            match event_value(state.pending[0]) {
                Ok(v) => (rest, SseStepV::Value(v)),
                Err(e) => (end, SseStepV::Failure(e)),
            }
        }
    }
}

/// What the stream does with what comes of the body, where it has given out all of its events.
pub open spec fn fed(state: SseJsonStreamV, event: BodyEvent) -> (SseJsonStreamV, SseStepV) {
    let end = SseJsonStreamV { ended: true, ..state };
    if state.ended {
        (state, SseStepV::Finished)
    } else {
        match event {
            BodyEvent::Bytes(bytes) => {
                let (decoder, events) = pushed(state.decoder, bytes@, false);
                next_step(
                    SseJsonStreamV { decoder, pending: state.pending + texts(events), ..state },
                )
            },
            BodyEvent::Broken => (end, SseStepV::Failure(plain_sse_error("Connection error."@))),
            BodyEvent::Abort => (end, SseStepV::Failure(aborted_error())),
            BodyEvent::End => {
                let (decoder, events) = pushed(state.decoder, Seq::empty(), true);
                let pending = state.pending + texts(events);
                if pending.len() == 0 {
                    (SseJsonStreamV { decoder, pending, ended: true }, SseStepV::Finished)
                } else {
                    next_step(SseJsonStreamV { decoder, pending, ..state })
                }
            },
        }
    }
}

/// The data of the events that what comes of the body completes.
pub open spec fn completed_data(state: SseJsonStreamV, event: BodyEvent) -> Seq<Seq<u8>> {
    match event {
        BodyEvent::Bytes(bytes) => pushed(state.decoder, bytes@, false).1,
        BodyEvent::End => pushed(state.decoder, Seq::empty(), true).1,
        _ => Seq::empty(),
    }
}

fn decode_event(data: &str) -> (r: Result<Json, OpenAiSseError>)
    ensures
        crate::constrained_sampling::outcome(r) == event_value(data@),
{
    if data.is_empty() {
        return Err(OpenAiSseError::new("Unexpected end of JSON input".to_owned()));
    }
    match parse_json(data) {
        Err(e) => Err(OpenAiSseError::new(e)),
        Ok(v) => {
            if let Some(error) = v.get("error") {
                if js_truthy(error) {
                    return Err(OpenAiSseError::api(error));
                }
            }
            Ok(v)
        },
    }
}

impl SseJsonStream {
    /// A stream of which nothing has been read.
    pub fn new() -> (r: Self)
        ensures
            r@ == (SseJsonStreamV {
                decoder: fresh_decoder(),
                pending: Seq::empty(),
                ended: false,
            }),
    {
        let r = SseJsonStream { decoder: SseDecoder::default(), pending: Vec::new(), ended: false };
        assert(r.pending.deep_view() =~= Seq::empty());
        r
    }

    /// What the stream gives next of the events that it has.
    pub fn next(&mut self) -> (r: SseStep)
        ensures
            (final(self)@, r@) == next_step(old(self)@),
    {
        if self.ended {
            return SseStep::Finished;
        }
        if self.pending.len() == 0 {
            return SseStep::Wanted;
        }
        let ghost all = self.pending.deep_view();
        let data = self.pending.remove(0);
        assert(self.pending.deep_view() =~= all.drop_first());
        if starts_with(data.as_str(), "[DONE]") {
            self.ended = true;
            return SseStep::Finished;
        }
        match decode_event(data.as_str()) {
            Ok(v) => SseStep::Value(v),
            Err(e) => {
                self.ended = true;
                SseStep::Failure(e)
            },
        }
    }

    /// Takes what comes of the body, and returns what the stream gives next. Data that is UTF-8 is
    /// read as what it encodes.
    pub fn feed(&mut self, event: BodyEvent) -> (r: SseStep)
        ensures
            (final(self)@, r@) == fed(old(self)@, event),
            !old(self)@.ended ==> all_read_as_encoded(completed_data(old(self)@, event)),
    {
        if self.ended {
            return SseStep::Finished;
        }
        match event {
            BodyEvent::Bytes(bytes) => {
                let ghost all = self.pending.deep_view();
                let mut events = self.decoder.push(bytes.as_slice(), false);
                let ghost more = events.deep_view();
                self.pending.append(&mut events);
                assert(self.pending.deep_view() =~= all + more);
                self.next()
            },
            BodyEvent::Broken => {
                self.ended = true;
                SseStep::Failure(OpenAiSseError::new("Connection error.".to_owned()))
            },
            BodyEvent::Abort => {
                self.ended = true;
                SseStep::Failure(OpenAiSseError::aborted())
            },
            BodyEvent::End => {
                let ghost all = self.pending.deep_view();
                let none: Vec<u8> = Vec::new();
                let mut events = self.decoder.push(none.as_slice(), true);
                let ghost more = events.deep_view();
                assert(none@ =~= Seq::empty());
                self.pending.append(&mut events);
                assert(self.pending.deep_view() =~= all + more);
                if self.pending.len() == 0 {
                    self.ended = true;
                    return SseStep::Finished;
                }
                self.next()
            },
        }
    }
}

/// A stream that has failed or ended gives nothing more, whatever comes of the body.
pub proof fn law_ended_stream_stays_ended(state: SseJsonStreamV, event: BodyEvent)
    requires
        next_step(state).1 is Failure || next_step(state).1 is Finished,
    ensures
        ({
            let end = next_step(state).0;
            &&& next_step(end) == (end, SseStepV::Finished)
            &&& fed(end, event) == (end, SseStepV::Finished)
        }),
{
}

/// One event of one line of data is read as that data, in one piece or, as
/// [`law_pieces_read_as_one`] has it, in any.
pub proof fn law_event_is_read(data: Seq<u8>)
    requires
        forall|i: int| 0 <= i < data.len() ==> !line_end(#[trigger] data[i]),
    ensures
        pushed(fresh_decoder(), data_name() + seq![58u8, 32u8] + data + seq![10u8, 10u8], false) == (
            fresh_decoder(),
            seq![data],
        ),
{
    let line = data_name() + seq![58u8, 32u8] + data;
    let bytes = line + seq![10u8, 10u8];
    let start = SseDecoderV { buffer: bytes, ..fresh_decoder() };
    assert(fresh_decoder().buffer + bytes =~= bytes);
    let n = line.len() as int;
    assert forall|k: int| 0 <= k < n implies !line_end(#[trigger] bytes[k]) by {
        if k >= 6 {
            assert(bytes[k] == data[k - 6]);
        }
    }
    lemma_line_length(bytes, n);
    assert(bytes.take(n) =~= line);
    assert(bytes.skip(n + 1) =~= seq![10u8]);
    assert(first_line(bytes, false) == Some((line, seq![10u8])));
    lemma_colon(line, 4);
    assert(field_name(line) =~= data_name());
    assert(field_value(line) =~= data);
    let (after, none) = read_line(SseDecoderV { buffer: seq![10u8], ..start }, line);
    assert(after.data_lines =~= seq![data]);
    assert(none =~= Seq::empty());
    lemma_line_length(seq![10u8], 0);
    assert(seq![10u8].take(0) =~= Seq::empty());
    assert(seq![10u8].skip(1) =~= Seq::empty());
    let (last, events) = read_line(SseDecoderV { buffer: Seq::empty(), ..after }, Seq::empty());
    assert(joined_lines(seq![data]) == data);
    assert(last == fresh_decoder());
    assert(read_lines(last, false) == (last, Seq::<Seq<u8>>::empty()));
    assert(read_lines(after, false).1 =~= seq![data]);
    assert(read_lines(start, false).1 =~= seq![data]);
}

} // verus!
