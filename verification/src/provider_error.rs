//! Errors of requests and of streams, and their words.
use crate::assoc::copy_list;
use crate::js::{
    js_string, js_text, js_truthy, safe_json_stringify, stringified, truthy,
};
use crate::json::{json_parse, member, parse_json, Json, JsonV};
use crate::openai_sse::{from_utf8_lossy, lossy_text, read_as_encoded};
use crate::text::{concat, contains, decimal, has_part, to_decimal};
use vstd::prelude::*;

verus! {

/// A request that failed.
#[derive(Debug, PartialEq)]
pub struct OpenAiHttpError {
    /// What the provider's client says of it.
    pub message: String,
    pub status: Option<u64>,
    pub headers: Vec<(String, String)>,
    /// The error that the body holds.
    pub error: Option<Json>,
    /// What the provider behind a gateway said.
    pub raw_metadata: Option<Json>,
    pub aborted: bool,
}

/// The model of [`OpenAiHttpError`].
pub struct OpenAiHttpErrorV {
    pub message: Seq<char>,
    pub status: Option<u64>,
    pub headers: Seq<(Seq<char>, Seq<char>)>,
    pub error: Option<JsonV>,
    pub raw_metadata: Option<JsonV>,
    pub aborted: bool,
}

impl View for OpenAiHttpError {
    type V = OpenAiHttpErrorV;

    open spec fn view(&self) -> OpenAiHttpErrorV {
        OpenAiHttpErrorV {
            message: self.message.deep_view(),
            status: self.status.deep_view(),
            headers: self.headers.deep_view(),
            error: self.error.deep_view(),
            raw_metadata: self.raw_metadata.deep_view(),
            aborted: self.aborted.deep_view(),
        }
    }
}

impl DeepView for OpenAiHttpError {
    type V = OpenAiHttpErrorV;

    open spec fn deep_view(&self) -> OpenAiHttpErrorV {
        self@
    }
}

impl Clone for OpenAiHttpError {
    fn clone(&self) -> (r: Self)
        ensures
            r@ == self@,
    {
        let r = OpenAiHttpError {
            message: self.message.clone(),
            status: self.status,
            headers: copy_list(&self.headers),
            error: self.error.clone(),
            raw_metadata: self.raw_metadata.clone(),
            aborted: self.aborted,
        };
        proof {
            assert(r.headers.deep_view() =~= self.headers.deep_view());
        }
        r
    }
}

/// A stream that failed.
#[derive(Debug, PartialEq)]
pub struct OpenAiSseError {
    pub message: String,
    /// What the provider behind a gateway said.
    pub raw_metadata: Option<Json>,
    pub aborted: bool,
}

/// The model of [`OpenAiSseError`].
pub struct OpenAiSseErrorV {
    pub message: Seq<char>,
    pub raw_metadata: Option<JsonV>,
    pub aborted: bool,
}

impl View for OpenAiSseError {
    type V = OpenAiSseErrorV;

    open spec fn view(&self) -> OpenAiSseErrorV {
        OpenAiSseErrorV {
            message: self.message.deep_view(),
            raw_metadata: self.raw_metadata.deep_view(),
            aborted: self.aborted.deep_view(),
        }
    }
}

impl DeepView for OpenAiSseError {
    type V = OpenAiSseErrorV;

    open spec fn deep_view(&self) -> OpenAiSseErrorV {
        self@
    }
}

impl Clone for OpenAiSseError {
    fn clone(&self) -> (r: Self)
        ensures
            r@ == self@,
    {
        OpenAiSseError {
            message: self.message.clone(),
            raw_metadata: self.raw_metadata.clone(),
            aborted: self.aborted,
        }
    }
}

/// Why a run failed.
#[derive(Debug, PartialEq)]
pub struct RunError {
    pub message: String,
    pub aborted: bool,
}

/// The model of [`RunError`].
pub struct RunErrorV {
    pub message: Seq<char>,
    pub aborted: bool,
}

impl View for RunError {
    type V = RunErrorV;

    open spec fn view(&self) -> RunErrorV {
        RunErrorV {
            message: self.message.deep_view(),
            aborted: self.aborted.deep_view(),
        }
    }
}

impl DeepView for RunError {
    type V = RunErrorV;

    open spec fn deep_view(&self) -> RunErrorV {
        self@
    }
}

impl Clone for RunError {
    fn clone(&self) -> (r: Self)
        ensures
            r@ == self@,
    {
        RunError {
            message: self.message.clone(),
            aborted: self.aborted,
        }
    }
}

/// Why no attempt at a request succeeded.
#[derive(Debug, PartialEq)]
pub enum ProviderRetryError {
    /// The last attempt failed.
    Original(OpenAiHttpError),
    Abort,
    /// The server asks for a longer delay than is allowed.
    ServerDelay { message: String },
}

/// The model of [`ProviderRetryError`].
pub enum ProviderRetryErrorV {
    Original(OpenAiHttpErrorV),
    Abort,
    ServerDelay { message: Seq<char> },
}

impl View for ProviderRetryError {
    type V = ProviderRetryErrorV;

    open spec fn view(&self) -> ProviderRetryErrorV {
        match self {
            ProviderRetryError::Original(x0) => ProviderRetryErrorV::Original(x0.deep_view()),
            ProviderRetryError::Abort => ProviderRetryErrorV::Abort,
            ProviderRetryError::ServerDelay { message } => ProviderRetryErrorV::ServerDelay { message: message.deep_view() },
        }
    }
}

impl DeepView for ProviderRetryError {
    type V = ProviderRetryErrorV;

    open spec fn deep_view(&self) -> ProviderRetryErrorV {
        self@
    }
}

impl Clone for ProviderRetryError {
    fn clone(&self) -> (r: Self)
        ensures
            r@ == self@,
    {
        match self {
            ProviderRetryError::Original(x0) => ProviderRetryError::Original(x0.clone()),
            ProviderRetryError::Abort => ProviderRetryError::Abort,
            ProviderRetryError::ServerDelay { message } => ProviderRetryError::ServerDelay { message: message.clone() },
        }
    }
}

/// What a message says, where it is one: its text, or its JSON text.
pub open spec fn said(message: Option<JsonV>) -> Option<Seq<char>> {
    match message {
        Some(m) => if truthy(m) {
            Some(
                match m {
                    JsonV::Str(s) => s,
                    m => stringified(m),
                },
            )
        } else {
            None
        },
        None => None,
    }
}

fn message_said(message: Option<&Json>) -> (r: Option<String>)
    ensures
        r.deep_view() == said(message.deep_view()),
{
    match message {
        Some(m) => if js_truthy(m) {
            match m {
                Json::Str(s) => Some(s.clone()),
                m => Some(safe_json_stringify(m)),
            }
        } else {
            None
        },
        None => None,
    }
}

/// What an error that a stream sends says.
pub open spec fn stream_error_text(error: JsonV) -> Seq<char> {
    match said(member(error, "message"@)) {
        Some(text) => text,
        None => stringified(error),
    }
}

/// What an error that a stream sends says.
pub fn sdk_stream_error_message(error: &Json) -> (r: String)
    ensures
        r@ == stream_error_text(error@),
{
    match message_said(error.get("message")) {
        Some(text) => text,
        None => safe_json_stringify(error),
    }
}

/// What a response that is an error says: its status, and the error's message, the error or the
/// text of the body.
pub open spec fn http_error_text(
    status: u64,
    error: Option<JsonV>,
    text: Option<Seq<char>>,
) -> Seq<char> {
    let detail = match error {
        Some(error) => match said(member(error, "message"@)) {
            Some(said) => Some(said),
            None => if truthy(error) {
                Some(stringified(error))
            } else {
                None
            },
        },
        None => None,
    };
    match detail {
        Some(detail) => decimal(status as nat) + " "@ + detail,
        None => match text {
            Some(text) => if text.len() > 0 {
                decimal(status as nat) + " "@ + text
            } else {
                decimal(status as nat) + " status code (no body)"@
            },
            None => decimal(status as nat) + " status code (no body)"@,
        },
    }
}

/// What a response that is an error says.
pub fn sdk_error_message(status: u64, error: Option<&Json>, text: Option<&str>) -> (r: String)
    ensures
        r@ == http_error_text(
            status,
            error.deep_view(),
            match text {
                Some(text) => Some(text@),
                None => None,
            },
        ),
{
    let number = to_decimal(status);
    let detail = match error {
        Some(error) => match message_said(error.get("message")) {
            Some(said) => Some(said),
            None => if js_truthy(error) {
                Some(safe_json_stringify(error))
            } else {
                None
            },
        },
        None => None,
    };
    if let Some(detail) = detail {
        let start = concat(number.as_str(), " ");
        return concat(start.as_str(), detail.as_str());
    }
    if let Some(text) = text {
        if !text.is_empty() {
            let start = concat(number.as_str(), " ");
            return concat(start.as_str(), text);
        }
    }
    concat(number.as_str(), " status code (no body)")
}

/// What a provider behind a gateway said.
pub open spec fn raw_metadata(error: Option<JsonV>) -> Option<JsonV> {
    match error {
        Some(error) => match member(error, "metadata"@) {
            Some(metadata) => match member(metadata, "raw"@) {
                Some(raw) => if truthy(raw) {
                    Some(raw)
                } else {
                    None
                },
                None => None,
            },
            None => None,
        },
        None => None,
    }
}

fn find_raw_metadata(error: Option<&Json>) -> (r: Option<Json>)
    ensures
        r.deep_view() == raw_metadata(error.deep_view()),
{
    match error {
        Some(error) => match error.get("metadata") {
            Some(metadata) => match metadata.get("raw") {
                Some(raw) => if js_truthy(raw) {
                    Some(raw.clone())
                } else {
                    None
                },
                None => None,
            },
            None => None,
        },
        None => None,
    }
}

/// The error that a response is, by its status and the bytes of its body.
pub open spec fn http_error(
    status: u64,
    headers: Seq<(Seq<char>, Seq<char>)>,
    body: Seq<u8>,
) -> OpenAiHttpErrorV {
    let text = lossy_text(body);
    let error = match json_parse(text) {
        Ok(v) => member(v, "error"@),
        Err(_) => None,
    };
    let shown = match json_parse(text) {
        Ok(v) => if truthy(v) {
            None
        } else {
            Some(text)
        },
        Err(_) => Some(text),
    };
    OpenAiHttpErrorV {
        message: http_error_text(status, error, shown),
        status: Some(status),
        headers,
        error,
        raw_metadata: raw_metadata(error),
        aborted: false,
    }
}

/// A message with what the provider behind a gateway said on a line of its own, unless the message
/// holds it.
pub open spec fn with_raw(message: Seq<char>, raw: Option<JsonV>) -> Seq<char> {
    match raw {
        Some(raw) => if has_part(message, js_text(raw)) {
            message
        } else {
            message.push('\n') + js_text(raw)
        },
        None => message,
    }
}

fn append_raw(message: String, raw: &Option<Json>) -> (r: String)
    ensures
        r@ == with_raw(message@, raw.deep_view()),
{
    let mut r = message;
    if let Some(raw) = raw {
        let text = js_string(raw);
        if !contains(r.as_str(), text.as_str()) {
            r.push('\n');
            r.push_str(text.as_str());
        }
    }
    r
}

/// The words of a failed request: what the body holds, or else the message, behind the status.
pub open spec fn provider_error_text(error: OpenAiHttpErrorV, prefix: Option<Seq<char>>) -> Seq<
    char,
> {
    let body = match error.error {
        Some(e) => if truthy(e) {
            Some(stringified(e))
        } else {
            None
        },
        None => None,
    };
    let told = match body {
        Some(body) => body,
        None => error.message,
    };
    match (prefix, error.status) {
        (Some(prefix), Some(status)) => prefix + " ("@ + decimal(status as nat) + "): "@ + told,
        (Some(prefix), None) => prefix + ": "@ + told,
        (None, Some(status)) => match body {
            Some(body) => decimal(status as nat) + ": "@ + body,
            None => error.message,
        },
        (None, None) => told,
    }
}

/// What [`OpenAiHttpError::formatted`] returns.
pub open spec fn formatted_error(
    error: OpenAiHttpErrorV,
    prefix: Option<Seq<char>>,
    append_raw_metadata: bool,
) -> Seq<char> {
    if append_raw_metadata {
        with_raw(provider_error_text(error, prefix), error.raw_metadata)
    } else {
        provider_error_text(error, prefix)
    }
}

fn format_provider_error(error: &OpenAiHttpError, prefix: Option<&str>) -> (r: String)
    ensures
        r@ == provider_error_text(
            error@,
            match prefix {
                Some(prefix) => Some(prefix@),
                None => None,
            },
        ),
{
    let body = match &error.error {
        Some(e) => if js_truthy(e) {
            Some(safe_json_stringify(e))
        } else {
            None
        },
        None => None,
    };
    match (prefix, error.status) {
        (Some(prefix), Some(status)) => {
            let number = to_decimal(status);
            let mut r = concat(prefix, " (");
            r.push_str(number.as_str());
            r.push_str("): ");
            match body {
                Some(body) => r.push_str(body.as_str()),
                None => r.push_str(error.message.as_str()),
            }
            r
        },
        (Some(prefix), None) => {
            let mut r = concat(prefix, ": ");
            match body {
                Some(body) => r.push_str(body.as_str()),
                None => r.push_str(error.message.as_str()),
            }
            r
        },
        (None, Some(status)) => match body {
            Some(body) => {
                let number = to_decimal(status);
                let start = concat(number.as_str(), ": ");
                concat(start.as_str(), body.as_str())
            },
            None => error.message.clone(),
        },
        (None, None) => match body {
            Some(body) => body,
            None => error.message.clone(),
        },
    }
}

impl OpenAiHttpError {
    /// A request that got no response.
    pub fn transport(message: &str, aborted: bool) -> (r: Self)
        ensures
            r@ == (OpenAiHttpErrorV {
                message: message@,
                status: None,
                headers: Seq::empty(),
                error: None,
                raw_metadata: None,
                aborted,
            }),
    {
        let r = OpenAiHttpError {
            message: message.to_owned(),
            status: None,
            headers: Vec::new(),
            error: None,
            raw_metadata: None,
            aborted,
        };
        assert(r.headers.deep_view() =~= Seq::empty());
        r
    }

    /// The error that a response is, by its status and the bytes of its body.
    pub fn http(status: u16, headers: Vec<(String, String)>, body: &Vec<u8>) -> (r: Self)
        ensures
            r@ == http_error(status as u64, headers.deep_view(), body@),
            read_as_encoded(body@),
    {
        let text = from_utf8_lossy(body);
        let parsed = parse_json(text.as_str());
        let error = match &parsed {
            Ok(v) => v.get("error"),
            Err(_) => None,
        };
        let shown = match &parsed {
            Ok(v) => if js_truthy(v) {
                None
            } else {
                Some(text.as_str())
            },
            Err(_) => Some(text.as_str()),
        };
        OpenAiHttpError {
            message: sdk_error_message(status as u64, error, shown),
            status: Some(status as u64),
            headers,
            raw_metadata: find_raw_metadata(error),
            error: match error {
                Some(e) => Some(e.clone()),
                None => None,
            },
            aborted: false,
        }
    }

    /// Whether the caller gave the request up.
    pub fn aborted(&self) -> (r: bool)
        ensures
            r == self@.aborted,
    {
        self.aborted
    }

    /// The words of the error, behind a prefix where there is one, and with what the provider
    /// behind a gateway said where that is asked for.
    pub fn formatted(&self, prefix: Option<&str>, append_raw_metadata: bool) -> (r: String)
        ensures
            r@ == formatted_error(
                self@,
                match prefix {
                    Some(prefix) => Some(prefix@),
                    None => None,
                },
                append_raw_metadata,
            ),
    {
        let message = format_provider_error(self, prefix);
        if append_raw_metadata {
            append_raw(message, &self.raw_metadata)
        } else {
            message
        }
    }
}

/// An error with nothing but its words.
pub open spec fn plain_sse_error(message: Seq<char>) -> OpenAiSseErrorV {
    OpenAiSseErrorV { message, raw_metadata: None, aborted: false }
}

/// The error that a stream sends.
pub open spec fn api_error(error: JsonV) -> OpenAiSseErrorV {
    OpenAiSseErrorV {
        message: stream_error_text(error),
        raw_metadata: raw_metadata(Some(error)),
        aborted: false,
    }
}

/// The error of a stream that the caller gave up.
pub open spec fn aborted_error() -> OpenAiSseErrorV {
    OpenAiSseErrorV { message: "Request was aborted"@, raw_metadata: None, aborted: true }
}

impl OpenAiSseError {
    /// An error with nothing but its words.
    pub fn new(message: String) -> (r: Self)
        ensures
            r@ == plain_sse_error(message@),
    {
        OpenAiSseError { message, raw_metadata: None, aborted: false }
    }

    /// The error that a stream sends.
    pub fn api(error: &Json) -> (r: Self)
        ensures
            r@ == api_error(error@),
    {
        OpenAiSseError {
            message: sdk_stream_error_message(error),
            raw_metadata: find_raw_metadata(Some(error)),
            aborted: false,
        }
    }

    /// The error of a stream that the caller gave up.
    pub fn aborted() -> (r: Self)
        ensures
            r@ == aborted_error(),
    {
        OpenAiSseError {
            message: "Request was aborted".to_owned(),
            raw_metadata: None,
            aborted: true,
        }
    }

    /// Whether the caller gave the stream up.
    pub fn aborted_flag(&self) -> (r: bool)
        ensures
            r == self@.aborted,
    {
        self.aborted
    }

    /// The words of the error, with what the provider behind a gateway said where that is asked
    /// for.
    pub fn formatted(&self, append_raw_metadata: bool) -> (r: String)
        ensures
            r@ == if append_raw_metadata {
                with_raw(self@.message, self@.raw_metadata)
            } else {
                self@.message
            },
    {
        let message = self.message.clone();
        if append_raw_metadata {
            append_raw(message, &self.raw_metadata)
        } else {
            message
        }
    }
}

/// What a run says of a request that failed for good.
pub open spec fn retry_error(
    error: ProviderRetryErrorV,
    prefix: Option<Seq<char>>,
    append_raw_metadata: bool,
) -> RunErrorV {
    match error {
        ProviderRetryErrorV::Original(error) => RunErrorV {
            message: formatted_error(error, prefix, append_raw_metadata),
            aborted: error.aborted,
        },
        ProviderRetryErrorV::Abort => RunErrorV { message: "Request aborted"@, aborted: true },
        ProviderRetryErrorV::ServerDelay { message } => RunErrorV { message, aborted: false },
    }
}

/// What a run says of a request that failed for good.
pub fn format_retry_error(
    error: &ProviderRetryError,
    prefix: Option<&str>,
    append_raw_metadata: bool,
) -> (r: RunError)
    ensures
        r@ == retry_error(
            error@,
            match prefix {
                Some(prefix) => Some(prefix@),
                None => None,
            },
            append_raw_metadata,
        ),
{
    match error {
        ProviderRetryError::Original(error) => RunError {
            message: error.formatted(prefix, append_raw_metadata),
            aborted: error.aborted,
        },
        ProviderRetryError::Abort => RunError {
            message: "Request aborted".to_owned(),
            aborted: true,
        },
        ProviderRetryError::ServerDelay { message } => RunError {
            message: message.clone(),
            aborted: false,
        },
    }
}

} // verus!
