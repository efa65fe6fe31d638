//! The classified failures that a call can end in.

use vstd::prelude::*;
use crate::retry::{Delay, FailureKind, Method};
use crate::text::{chars_of, natural_chars, natural_text, push_chars, trim, trimmed};

verus! {

/// What went wrong with one HTTP exchange, with what is known of it.
#[derive(Clone, Debug)]
pub struct HttpError {
    pub method: Method,
    pub path: String,
    pub status: Option<u16>,
    pub request_id: Option<String>,
    pub message: Option<String>,
    pub body_snippet: Option<String>,
    pub retry_after: Option<Delay>,
}

/// The kind of a classified failure.
#[derive(Clone, Copy, Debug, PartialEq, Eq, Structural)]
pub enum ErrorKind {
    InvalidConfig,
    Transport,
    Decode,
    Auth,
    NotFound,
    Conflict,
    RateLimited,
    Api,
}

/// The kind that a failed status is classified as; the first row that
/// matches wins.
pub open spec fn status_kind(status: Option<u16>) -> ErrorKind {
    match status {
        Some(s) => if s == 401 || s == 403 {
            ErrorKind::Auth
        } else if s == 404 {
            ErrorKind::NotFound
        } else if s == 409 || s == 412 {
            ErrorKind::Conflict
        } else if s == 429 {
            ErrorKind::RateLimited
        } else {
            ErrorKind::Api
        },
        None => ErrorKind::Api,
    }
}

/// A failed call, classified.
#[derive(Clone, Debug)]
pub enum Error {
    /// The caller's configuration cannot be used.
    InvalidConfig { message: String },
    /// The network exchange could not be completed.
    Transport { message: String, kind: FailureKind, detail: String },
    /// A successful response whose body did not decode.
    Decode { http: Box<HttpError>, detail: String },
    /// 401 or 403.
    Auth(Box<HttpError>),
    /// 404.
    NotFound(Box<HttpError>),
    /// 409 or 412.
    Conflict(Box<HttpError>),
    /// 429.
    RateLimited(Box<HttpError>),
    /// Any other failed status.
    Api(Box<HttpError>),
}

impl HttpError {
    pub fn new(method: Method, path: String, status: Option<u16>) -> (r: HttpError)
        ensures
            r.method == method,
            r.path == path,
            r.status == status,
            r.request_id is None,
            r.message is None,
            r.body_snippet is None,
            r.retry_after is None,
    {
        HttpError {
            method,
            path,
            status,
            request_id: None,
            message: None,
            body_snippet: None,
            retry_after: None,
        }
    }

    pub fn with_request_id(self, request_id: Option<String>) -> (r: HttpError)
        ensures
            r == (HttpError { request_id, ..self }),
    {
        HttpError { request_id, ..self }
    }

    pub fn with_message(self, message: Option<String>) -> (r: HttpError)
        ensures
            r == (HttpError { message, ..self }),
    {
        HttpError { message, ..self }
    }

    pub fn with_body_snippet(self, body_snippet: Option<String>) -> (r: HttpError)
        ensures
            r == (HttpError { body_snippet, ..self }),
    {
        HttpError { body_snippet, ..self }
    }

    pub fn with_retry_after(self, retry_after: Option<Delay>) -> (r: HttpError)
        ensures
            r == (HttpError { retry_after, ..self }),
    {
        HttpError { retry_after, ..self }
    }

    pub fn method(&self) -> (r: Method)
        ensures
            r == self.method,
    {
        self.method
    }

    pub fn path(&self) -> (r: &str)
        ensures
            r@ == self.path@,
    {
        self.path.as_str()
    }

    pub fn status(&self) -> (r: Option<u16>)
        ensures
            r == self.status,
    {
        self.status
    }

    pub fn request_id(&self) -> (r: Option<&str>)
        ensures
            opt_text(r) == opt_view(self.request_id),
    {
        opt_str(&self.request_id)
    }

    pub fn message(&self) -> (r: Option<&str>)
        ensures
            opt_text(r) == opt_view(self.message),
    {
        opt_str(&self.message)
    }

    pub fn body_snippet(&self) -> (r: Option<&str>)
        ensures
            opt_text(r) == opt_view(self.body_snippet),
    {
        opt_str(&self.body_snippet)
    }

    pub fn retry_after(&self) -> (r: Option<Delay>)
        ensures
            r == self.retry_after,
    {
        self.retry_after
    }
}

/// The characters of an optional owned string.
pub open spec fn opt_view(s: Option<String>) -> Option<Seq<char>> {
    match s {
        Some(t) => Some(t@),
        None => None,
    }
}

/// The characters of an optional borrowed string.
pub open spec fn opt_text(s: Option<&str>) -> Option<Seq<char>> {
    match s {
        Some(t) => Some(t@),
        None => None,
    }
}

fn opt_str(s: &Option<String>) -> (r: Option<&str>)
    ensures
        opt_text(r) == opt_view(*s),
{
    match s {
        Some(t) => Some(t.as_str()),
        None => None,
    }
}

impl Error {
    /// The record of the exchange, for kinds that have one.
    pub open spec fn http_spec(self) -> Option<HttpError> {
        match self {
            Error::InvalidConfig { .. } => None,
            Error::Transport { .. } => None,
            Error::Decode { http, .. } => Some(*http),
            Error::Auth(http) => Some(*http),
            Error::NotFound(http) => Some(*http),
            Error::Conflict(http) => Some(*http),
            Error::RateLimited(http) => Some(*http),
            Error::Api(http) => Some(*http),
        }
    }

    pub open spec fn kind_spec(self) -> ErrorKind {
        match self {
            Error::InvalidConfig { .. } => ErrorKind::InvalidConfig,
            Error::Transport { .. } => ErrorKind::Transport,
            Error::Decode { .. } => ErrorKind::Decode,
            Error::Auth(_) => ErrorKind::Auth,
            Error::NotFound(_) => ErrorKind::NotFound,
            Error::Conflict(_) => ErrorKind::Conflict,
            Error::RateLimited(_) => ErrorKind::RateLimited,
            Error::Api(_) => ErrorKind::Api,
        }
    }

    pub fn invalid_config(message: String) -> (r: Error)
        ensures
            r == (Error::InvalidConfig { message }),
    {
        Error::InvalidConfig { message }
    }

    pub fn transport(message: String, kind: FailureKind, detail: String) -> (r: Error)
        ensures
            r == (Error::Transport { message, kind, detail }),
    {
        Error::Transport { message, kind, detail }
    }

    pub fn decode(http: HttpError, detail: String) -> (r: Error)
        ensures
            r == (Error::Decode { http: Box::new(http), detail }),
    {
        Error::Decode { http: Box::new(http), detail }
    }

    /// Classifies a failed exchange by its status.
    pub fn from_http(http: HttpError) -> (r: Error)
        ensures
            r.kind_spec() == status_kind(http.status),
            r.http_spec() == Some(http),
    {
        let status = http.status;
        match status {
            Some(s) => {
                if s == 401 || s == 403 {
                    Error::Auth(Box::new(http))
                } else if s == 404 {
                    Error::NotFound(Box::new(http))
                } else if s == 409 || s == 412 {
                    Error::Conflict(Box::new(http))
                } else if s == 429 {
                    Error::RateLimited(Box::new(http))
                } else {
                    Error::Api(Box::new(http))
                }
            },
            None => Error::Api(Box::new(http)),
        }
    }

    pub fn kind(&self) -> (r: ErrorKind)
        ensures
            r == self.kind_spec(),
    {
        match self {
            Error::InvalidConfig { .. } => ErrorKind::InvalidConfig,
            Error::Transport { .. } => ErrorKind::Transport,
            Error::Decode { .. } => ErrorKind::Decode,
            Error::Auth(_) => ErrorKind::Auth,
            Error::NotFound(_) => ErrorKind::NotFound,
            Error::Conflict(_) => ErrorKind::Conflict,
            Error::RateLimited(_) => ErrorKind::RateLimited,
            Error::Api(_) => ErrorKind::Api,
        }
    }

    /// The record of the exchange, for kinds that have one.
    pub fn http(&self) -> (r: Option<&HttpError>)
        ensures
            match r {
                Some(h) => self.http_spec() == Some(*h),
                None => self.http_spec() is None,
            },
    {
        match self {
            Error::InvalidConfig { .. } => None,
            Error::Transport { .. } => None,
            Error::Decode { http, .. } => Some(&**http),
            Error::Auth(http) => Some(&**http),
            Error::NotFound(http) => Some(&**http),
            Error::Conflict(http) => Some(&**http),
            Error::RateLimited(http) => Some(&**http),
            Error::Api(http) => Some(&**http),
        }
    }

    pub fn status(&self) -> (r: Option<u16>)
        ensures
            r == match self.http_spec() {
                Some(h) => h.status,
                None => None,
            },
    {
        match self.http() {
            Some(h) => h.status,
            None => None,
        }
    }

    pub fn request_id(&self) -> (r: Option<&str>)
        ensures
            opt_text(r) == match self.http_spec() {
                Some(h) => opt_view(h.request_id),
                None => None,
            },
    {
        match self.http() {
            Some(h) => h.request_id(),
            None => None,
        }
    }

    /// The human message: the configuration complaint, or the one the server
    /// gave.
    pub fn message(&self) -> (r: Option<&str>)
        ensures
            opt_text(r) == match *self {
                Error::InvalidConfig { message } => Some(message@),
                _ => match self.http_spec() {
                    Some(h) => opt_view(h.message),
                    None => None,
                },
            },
    {
        match self {
            Error::InvalidConfig { message } => Some(message.as_str()),
            _ => match self.http() {
                Some(h) => h.message(),
                None => None,
            },
        }
    }

    pub fn body_snippet(&self) -> (r: Option<&str>)
        ensures
            opt_text(r) == match self.http_spec() {
                Some(h) => opt_view(h.body_snippet),
                None => None,
            },
    {
        match self.http() {
            Some(h) => h.body_snippet(),
            None => None,
        }
    }

    pub fn retry_after(&self) -> (r: Option<Delay>)
        ensures
            r == match self.http_spec() {
                Some(h) => h.retry_after,
                None => None,
            },
    {
        match self.http() {
            Some(h) => h.retry_after,
            None => None,
        }
    }

    pub fn is_auth_error(&self) -> (r: bool)
        ensures
            r == (self.kind_spec() == ErrorKind::Auth),
    {
        match self {
            Error::Auth(_) => true,
            _ => false,
        }
    }

    /// Rate limiting, and the gateway statuses 502, 503 and 504 among the
    /// unclassified ones, are worth trying again later.
    pub fn is_retryable(&self) -> (r: bool)
        ensures
            r == match *self {
                Error::RateLimited(_) => true,
                Error::Api(h) => h.status == Some(502u16) || h.status == Some(503u16)
                    || h.status == Some(504u16),
                _ => false,
            },
    {
        match self {
            Error::RateLimited(_) => true,
            Error::Api(http) => match http.status {
                Some(s) => s == 502 || s == 503 || s == 504,
                None => false,
            },
            _ => false,
        }
    }
}


/// The standard reason phrase of a status code, if it has one.
pub uninterp spec fn reason_phrase_of(status: u16) -> Option<Seq<char>>;

/// Relies on `http::StatusCode::from_u16` and `canonical_reason`: the
/// reason phrase depends on the code alone, and codes outside 100 to 999
/// are not status codes.
#[verifier::external_body]
fn reason_phrase(status: u16) -> (r: Option<String>)
    ensures
        match r {
            Some(t) => reason_phrase_of(status) == Some(t@),
            None => reason_phrase_of(status) is None,
        },
        status < 100 || status > 999 ==> r is None,
{
    http::StatusCode::from_u16(status).ok().and_then(|s| s.canonical_reason()).map(str::to_owned)
}

/// The name of a method as HTTP writes it.
pub open spec fn method_text(m: Method) -> Seq<char> {
    match m {
        Method::Get => "GET"@,
        Method::Head => "HEAD"@,
        Method::Post => "POST"@,
        Method::Put => "PUT"@,
        Method::Patch => "PATCH"@,
        Method::Delete => "DELETE"@,
        Method::Options => "OPTIONS"@,
        Method::Connect => "CONNECT"@,
        Method::Trace => "TRACE"@,
    }
}

/// A status as code and reason phrase.
pub open spec fn status_text(status: u16) -> Seq<char> {
    natural_text(status as nat) + " "@ + match reason_phrase_of(status) {
        Some(r) => r,
        None => "<unknown status code>"@,
    }
}

/// The request id and retry hint of a record, as `key=value` details.
pub open spec fn detail_texts(h: HttpError) -> Seq<Seq<char>> {
    let id = match h.request_id {
        Some(r) => if trim(r@).len() > 0 {
            seq!["request_id="@ + trim(r@)]
        } else {
            Seq::empty()
        },
        None => Seq::empty(),
    };
    let hint = match h.retry_after {
        Some(d) => seq!["retry_after="@ + natural_text(d.total_millis() as nat) + "ms"@],
        None => Seq::empty(),
    };
    id + hint
}

/// The status part of a record's description.
pub open spec fn status_suffix(status: Option<u16>) -> Seq<char> {
    match status {
        Some(s) => " returned "@ + status_text(s),
        None => Seq::empty(),
    }
}

/// The message part of a record's description: the trimmed message, when
/// it is not blank.
pub open spec fn message_suffix(message: Option<String>) -> Seq<char> {
    match message {
        Some(m) => if trim(m@).len() > 0 {
            ": "@ + trim(m@)
        } else {
            Seq::empty()
        },
        None => Seq::empty(),
    }
}

/// The details part of a record's description.
pub open spec fn details_suffix(d: Seq<Seq<char>>) -> Seq<char> {
    if d.len() == 0 {
        Seq::empty()
    } else if d.len() == 1 {
        " ("@ + d[0] + ")"@
    } else {
        " ("@ + d[0] + ", "@ + d[1] + ")"@
    }
}

/// A record described in one line: method and path, then the status, the
/// trimmed message when it is not blank, and the details in parentheses.
pub open spec fn http_error_text(h: HttpError) -> Seq<char> {
    method_text(h.method) + " "@ + h.path@ + status_suffix(h.status) + message_suffix(h.message)
        + details_suffix(detail_texts(h))
}

fn status_part(status: Option<u16>) -> (r: String)
    ensures
        r@ == status_suffix(status),
{
    let mut out = String::new();
    match status {
        Some(s) => {
            out.append(" returned ");
            let digits = natural_chars(s as u128);
            push_chars(&mut out, &digits);
            out.append(" ");
            match reason_phrase(s) {
                Some(reason) => out.append(reason.as_str()),
                None => out.append("<unknown status code>"),
            }
            assert(out@ =~= status_suffix(status));
        },
        None => {
            assert(out@ =~= status_suffix(status));
        },
    }
    out
}

fn message_part(message: &Option<String>) -> (r: String)
    ensures
        r@ == message_suffix(*message),
{
    let mut out = String::new();
    match message {
        Some(m) => {
            let t = trimmed(chars_of(m.as_str()).as_slice());
            if t.len() > 0 {
                out.append(": ");
                push_chars(&mut out, &t);
                assert(out@ =~= message_suffix(*message));
            } else {
                assert(out@ =~= message_suffix(*message));
            }
        },
        None => {
            assert(out@ =~= message_suffix(*message));
        },
    }
    out
}

fn details_part(h: &HttpError) -> (r: String)
    requires
        h.retry_after matches Some(d) ==> d.wf(),
    ensures
        r@ == details_suffix(detail_texts(*h)),
{
    let mut parts: Vec<String> = Vec::new();
    match &h.request_id {
        Some(r) => {
            let t = trimmed(chars_of(r.as_str()).as_slice());
            if t.len() > 0 {
                let mut p = String::from_str("request_id=");
                push_chars(&mut p, &t);
                parts.push(p);
            }
        },
        None => {},
    }
    let ghost after_id = parts@.map_values(|p: String| p@);
    match h.retry_after {
        Some(d) => {
            let millis: u128 = (d.secs as u128) * 1000 + (d.nanos / 1_000_000) as u128;
            assert(millis == d.total_millis()) by (nonlinear_arith)
                requires
                    millis == d.secs * 1000 + d.nanos / 1_000_000,
                    d.total_millis() == (d.secs * 1_000_000_000 + d.nanos) / 1_000_000,
                    d.nanos < 1_000_000_000,
            ;
            let mut p = String::from_str("retry_after=");
            let digits = natural_chars(millis);
            push_chars(&mut p, &digits);
            p.append("ms");
            parts.push(p);
        },
        None => {},
    }
    let ghost pv = parts@.map_values(|p: String| p@);
    assert(pv =~= detail_texts(*h));
    let mut out = String::new();
    if parts.len() > 0 {
        out.append(" (");
        out.append(parts[0].as_str());
        if parts.len() > 1 {
            out.append(", ");
            out.append(parts[1].as_str());
        }
        out.append(")");
    }
    assert(pv.len() > 0 ==> pv[0] == parts@[0]@);
    assert(pv.len() > 1 ==> pv[1] == parts@[1]@);
    assert(out@ =~= details_suffix(pv));
    out
}

/// A classified error described in one line.
pub open spec fn error_text(e: Error) -> Seq<char> {
    match e {
        Error::InvalidConfig { message } => "invalid configuration: "@ + message@,
        Error::Transport { message, .. } => "transport error: "@ + message@,
        Error::Decode { http, .. } => "failed to decode response: "@ + http_error_text(*http),
        Error::Auth(http) => http_error_text(*http) + " (auth error)"@,
        Error::NotFound(http) => http_error_text(*http) + " (not found)"@,
        Error::Conflict(http) => http_error_text(*http) + " (conflict)"@,
        Error::RateLimited(http) => http_error_text(*http) + " (rate limited)"@,
        Error::Api(http) => http_error_text(*http),
    }
}

fn method_name(m: Method) -> (r: &'static str)
    ensures
        r@ == method_text(m),
{
    match m {
        Method::Get => "GET",
        Method::Head => "HEAD",
        Method::Post => "POST",
        Method::Put => "PUT",
        Method::Patch => "PATCH",
        Method::Delete => "DELETE",
        Method::Options => "OPTIONS",
        Method::Connect => "CONNECT",
        Method::Trace => "TRACE",
    }
}

impl HttpError {
    /// This record described in one line.
    pub fn describe(&self) -> (r: String)
        requires
            self.retry_after matches Some(d) ==> d.wf(),
        ensures
            r@ == http_error_text(*self),
    {
        let mut out = String::from_str(method_name(self.method));
        out.append(" ");
        out.append(self.path.as_str());
        let status = status_part(self.status);
        out.append(status.as_str());
        let message = message_part(&self.message);
        out.append(message.as_str());
        let details = details_part(self);
        out.append(details.as_str());
        out
    }
}

impl Error {
    /// This error described in one line.
    pub fn describe(&self) -> (r: String)
        requires
            self.http_spec() matches Some(h) ==> (h.retry_after matches Some(d) ==> d.wf()),
        ensures
            r@ == error_text(*self),
    {
        match self {
            Error::InvalidConfig { message } => {
                let mut s = String::from_str("invalid configuration: ");
                s.append(message.as_str());
                s
            },
            Error::Transport { message, .. } => {
                let mut s = String::from_str("transport error: ");
                s.append(message.as_str());
                s
            },
            Error::Decode { http, .. } => {
                let mut s = String::from_str("failed to decode response: ");
                let d = http.describe();
                s.append(d.as_str());
                s
            },
            Error::Auth(http) => {
                let mut s = http.describe();
                s.append(" (auth error)");
                s
            },
            Error::NotFound(http) => {
                let mut s = http.describe();
                s.append(" (not found)");
                s
            },
            Error::Conflict(http) => {
                let mut s = http.describe();
                s.append(" (conflict)");
                s
            },
            Error::RateLimited(http) => {
                let mut s = http.describe();
                s.append(" (rate limited)");
                s
            },
            Error::Api(http) => http.describe(),
        }
    }
}

} // verus!
