//! Requests that have been sent: what the answer is, and why there is none.
use crate::assoc::copy_list;
use crate::openai_sse::{read_as_encoded, BodyEvent};
use crate::provider_error::{
    http_error, plain_sse_error, OpenAiHttpError, OpenAiHttpErrorV, OpenAiSseError,
    OpenAiSseErrorV,
};
use vstd::prelude::*;

verus! {

/// How many milliseconds an answer is waited for where the caller does not say.
pub const DEFAULT_REQUEST_TIMEOUT_MS: u64 = 600000;

/// How many milliseconds an answer is waited for.
pub fn request_timeout(timeout_ms: Option<u64>) -> (r: u64)
    ensures
        r == match timeout_ms {
            Some(n) => n,
            None => DEFAULT_REQUEST_TIMEOUT_MS,
        },
{
    match timeout_ms {
        Some(n) => n,
        None => DEFAULT_REQUEST_TIMEOUT_MS,
    }
}

/// What becomes of a request.
#[derive(Clone, Copy, Debug, PartialEq, Eq, Structural)]
pub enum SendEvent {
    /// There is an answer, with a body or without one.
    Answered { status: u16, has_body: bool },
    /// The connection failed.
    Broken,
    /// The answer takes too long.
    TimedOut,
    /// The caller gave up.
    Abort,
}

/// What is to be done with an answer.
#[derive(Debug)]
pub enum Answer {
    /// Its body is read as a stream of events.
    Stream,
    /// It has no body: the stream fails at once.
    Empty(OpenAiSseError),
    /// It is an error, which its body tells.
    Refusal,
}

/// The model of [`Answer`].
pub enum AnswerV {
    Stream,
    Empty(OpenAiSseErrorV),
    Refusal,
}

impl View for Answer {
    type V = AnswerV;

    open spec fn view(&self) -> AnswerV {
        match self {
            Answer::Stream => AnswerV::Stream,
            Answer::Empty(e) => AnswerV::Empty(e@),
            Answer::Refusal => AnswerV::Refusal,
        }
    }
}

/// A request that got no response.
pub open spec fn transport_error(message: Seq<char>, aborted: bool) -> OpenAiHttpErrorV {
    OpenAiHttpErrorV {
        message,
        status: None,
        headers: Seq::empty(),
        error: None,
        raw_metadata: None,
        aborted,
    }
}

/// The answer to a request, or why there is none.
pub open spec fn answer(event: SendEvent) -> Result<AnswerV, OpenAiHttpErrorV> {
    match event {
        SendEvent::Answered { status, has_body } => if status < 200 || status >= 300 {
            Ok(AnswerV::Refusal)
        } else if has_body {
            Ok(AnswerV::Stream)
        } else {
            Ok(
                AnswerV::Empty(
                    plain_sse_error("Attempted to iterate over a response with no body"@),
                ),
            )
        },
        SendEvent::Broken => Err(transport_error("Connection error."@, false)),
        SendEvent::TimedOut => Err(transport_error("Request timed out."@, false)),
        SendEvent::Abort => Err(transport_error("Request was aborted."@, true)),
    }
}

/// The answer to a request, or why there is none.
pub fn acquire(event: SendEvent) -> (r: Result<Answer, OpenAiHttpError>)
    ensures
        match r {
            Ok(a) => Ok(a@),
            Err(e) => Err(e@),
        } == answer(event),
{
    match event {
        SendEvent::Answered { status, has_body } => if status < 200 || status >= 300 {
            Ok(Answer::Refusal)
        } else if has_body {
            Ok(Answer::Stream)
        } else {
            Ok(
                Answer::Empty(
                    OpenAiSseError::new(
                        "Attempted to iterate over a response with no body".to_owned(),
                    ),
                ),
            )
        },
        SendEvent::Broken => Err(OpenAiHttpError::transport("Connection error.", false)),
        SendEvent::TimedOut => Err(OpenAiHttpError::transport("Request timed out.", false)),
        SendEvent::Abort => Err(OpenAiHttpError::transport("Request was aborted.", true)),
    }
}

/// The body of an answer that is an error.
#[derive(Debug)]
pub struct Refusal {
    pub status: u16,
    pub headers: Vec<(String, String)>,
    /// What has come of the body.
    pub body: Vec<u8>,
}

/// The model of [`Refusal`].
pub struct RefusalV {
    pub status: u16,
    pub headers: Seq<(Seq<char>, Seq<char>)>,
    pub body: Seq<u8>,
}

impl View for Refusal {
    type V = RefusalV;

    open spec fn view(&self) -> RefusalV {
        RefusalV {
            status: self.status,
            headers: self.headers.deep_view(),
            body: self.body@,
        }
    }
}

/// What comes of the body makes of an answer that is an error: the error, once it is known.
pub open spec fn refused(s: RefusalV, event: BodyEvent) -> (RefusalV, Option<OpenAiHttpErrorV>) {
    match event {
        BodyEvent::Bytes(bytes) => (RefusalV { body: s.body + bytes@, ..s }, None),
        BodyEvent::Broken => (s, Some(transport_error("Connection error."@, false))),
        BodyEvent::Abort => (s, Some(transport_error("Request was aborted."@, true))),
        BodyEvent::End => (s, Some(http_error(s.status as u64, s.headers, s.body))),
    }
}

impl Refusal {
    /// An answer that is an error, of whose body nothing has come.
    pub fn new(status: u16, headers: Vec<(String, String)>) -> (r: Self)
        ensures
            r@ == (RefusalV { status, headers: headers.deep_view(), body: Seq::empty() }),
    {
        Refusal { status, headers, body: Vec::new() }
    }

    /// Takes what comes of the body, and returns the error once it is known.
    pub fn take(&mut self, event: BodyEvent) -> (r: Option<OpenAiHttpError>)
        ensures
            (final(self)@, r.deep_view()) == refused(old(self)@, event),
            event is End ==> read_as_encoded(old(self)@.body),
    {
        match event {
            BodyEvent::Bytes(bytes) => {
                self.body.extend_from_slice(bytes.as_slice());
                assert(self.body@ =~= old(self)@.body + bytes@);
                None
            },
            BodyEvent::Broken => Some(OpenAiHttpError::transport("Connection error.", false)),
            BodyEvent::Abort => Some(OpenAiHttpError::transport("Request was aborted.", true)),
            BodyEvent::End => {
                let headers = copy_list(&self.headers);
                Some(OpenAiHttpError::http(self.status, headers, &self.body))
            },
        }
    }
}

/// The body of an answer that is an error is read whole, in whatever pieces it comes.
pub proof fn law_refusal_is_read_whole(s: RefusalV, a: Vec<u8>, b: Vec<u8>, both: Vec<u8>)
    requires
        both@ == a@ + b@,
    ensures
        refused(refused(s, BodyEvent::Bytes(a)).0, BodyEvent::Bytes(b)) == refused(
            s,
            BodyEvent::Bytes(both),
        ),
{
    assert((s.body + a@) + b@ =~= s.body + (a@ + b@));
}

} // verus!
