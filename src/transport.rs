//! The decisions of one logical call: preparing the request, and after each
//! attempt, whether to finish or to try again after a delay. The caller
//! performs the exchange and the waiting, with whatever scheduling it uses.

use vstd::prelude::*;
use vstd::utf8::encode_utf8;
use crate::auth::{Auth, header_value_accepts, valid_header_text};
use crate::error::{Error, ErrorKind, HttpError, opt_view, status_kind};
use crate::headers::{HeaderList, with_header};
use crate::json::{json_text, parsed_json, redaction};
use crate::redact::{lossy_text, redact_body_snippet, text_redaction, truncation};
use crate::response::{
    wall_time_now,
    ResponseBytes, RetryHint, WallTime, extract_message, extract_request_id, extract_retry_after_at,
    hint_nanos, message_in, request_id_in, retry_hint,
};
use crate::retry::{
    Delay, FailureKind, Method, NANOS_PER_MILLI, RetryConfig, backoff_cap_millis, compute_retry_delay, idempotent,
    is_retryable_status, is_retryable_transport_error, retryable_failure_kind,
    retryable_status_code,
};
use crate::text::{bytes_to_vec, chars_of, copy_string, eq_ignore_ascii_case, same_ignoring_ascii_case};
use crate::url::{BaseUrl, base_url_problem, endpoint, path_text, pop_if_empty, push_segments, raw_segments};

verus! {

/// Socket-level timeouts.
#[derive(Clone, Copy, Debug)]
pub struct TransportConfig {
    pub timeout: Delay,
    pub connect_timeout: Delay,
}

/// Whether error bodies are captured as snippets, and how many bytes of them.
#[derive(Clone, Copy, Debug)]
pub struct BodySnippetConfig {
    pub enabled: bool,
    pub byte_limit: usize,
}

/// What `capture_snippet` promises of its result `r` for a body.
pub open spec fn snippet_captured(config: BodySnippetConfig, body: Seq<u8>, r: Option<String>) -> bool {
    if !config.enabled || config.byte_limit == 0 || body.len() == 0 {
        r is None
    } else {
        match parsed_json(body) {
            Some(m) => r matches Some(t) && t@ == truncation(
                json_text(redaction(m)),
                config.byte_limit as int,
            ),
            None => r matches Some(t) && t@ == truncation(
                text_redaction(lossy_text(body)),
                config.byte_limit as int,
            ),
        }
    }
}

/// The redacted snippet of a body, when snippets are enabled.
pub fn capture_snippet(bytes: &[u8], config: &BodySnippetConfig) -> (r: Option<String>)
    ensures
        snippet_captured(*config, bytes@, r),
{
    if !config.enabled {
        return None;
    }
    redact_body_snippet(bytes, config.byte_limit)
}

/// The normalised text of a header name, if HTTP accepts the name.
pub uninterp spec fn header_name_of(s: Seq<char>) -> Option<Seq<char>>;

/// Relies on `http::HeaderName::from_bytes`: whether a name is accepted, and
/// its normalised (lower case) form, depend on the name alone.
#[verifier::external_body]
fn header_name(name: &str) -> (r: Option<String>)
    ensures
        match r {
            Some(t) => header_name_of(name@) == Some(t@),
            None => header_name_of(name@) is None,
        },
{
    http::HeaderName::from_bytes(name.as_bytes()).ok().map(|n| n.as_str().to_owned())
}

/// Per-call overrides: extra headers and a timeout.
#[derive(Clone, Debug)]
pub struct RequestOptions {
    pub headers: HeaderList,
    pub timeout: Option<Delay>,
}

impl RequestOptions {
    pub fn new() -> (r: RequestOptions)
        ensures
            r.headers@.len() == 0,
            r.timeout is None,
    {
        RequestOptions { headers: HeaderList::new(), timeout: None }
    }

    /// Sets a header, replacing any earlier value of it.
    pub fn header(self, name: String, value: Vec<u8>) -> (r: RequestOptions)
        ensures
            r.headers@ == with_header(self.headers@, name@, value@),
            r.timeout == self.timeout,
    {
        let mut headers = self.headers;
        headers.insert(name, value);
        RequestOptions { headers, timeout: self.timeout }
    }

    /// Sets a header given as text: the name is normalised as HTTP header
    /// names are; fails for a name or a value that HTTP does not accept.
    pub fn try_header(self, name: &str, value: &str) -> (r: Result<RequestOptions, Error>)
        ensures
            match header_name_of(name@) {
                None => r matches Err(e) && e.kind_spec() == ErrorKind::InvalidConfig,
                Some(n) => if valid_header_text(value@) {
                    r matches Ok(o) && o.headers@ == with_header(self.headers@, n, encode_utf8(value@))
                        && o.timeout == self.timeout
                } else {
                    r matches Err(e) && e.kind_spec() == ErrorKind::InvalidConfig
                },
            },
    {
        let normal = match header_name(name) {
            Some(n) => n,
            None => {
                return Err(Error::invalid_config(String::from_str("invalid header name: invalid HTTP header name")));
            },
        };
        if !header_value_accepts(value) {
            return Err(Error::invalid_config(String::from_str("invalid header value: failed to parse header value")));
        }
        Ok(self.header(normal, bytes_to_vec(value.as_bytes())))
    }

    pub fn timeout(self, timeout: Delay) -> (r: RequestOptions)
        ensures
            r.headers == self.headers,
            r.timeout == Some(timeout),
    {
        RequestOptions { headers: self.headers, timeout: Some(timeout) }
    }

    pub fn headers(&self) -> (r: &HeaderList)
        ensures
            r == &self.headers,
    {
        &self.headers
    }

    pub fn timeout_override(&self) -> (r: Option<Delay>)
        ensures
            r == self.timeout,
    {
        self.timeout
    }
}

/// Everything a call reads of the client: shared, and never changed.
#[derive(Clone, Copy)]
pub struct RequestContext<'a> {
    pub base_url: &'a BaseUrl,
    pub auth: &'a Auth,
    pub default_headers: &'a HeaderList,
    pub retry: &'a RetryConfig,
    pub body_snippet: &'a BodySnippetConfig,
}

/// A request ready to send: method, URL, path, headers and timeout.
pub struct PreparedRequest {
    pub method: Method,
    pub url: BaseUrl,
    pub path: String,
    pub headers: HeaderList,
    pub timeout: Option<Delay>,
}

/// `h` with each header of `extra`, in order, set over it.
pub open spec fn headers_merged(h: Seq<(Seq<char>, Seq<u8>)>, extra: Seq<(Seq<char>, Seq<u8>)>) -> Seq<
    (Seq<char>, Seq<u8>),
>
    decreases extra.len(),
{
    if extra.len() == 0 {
        h
    } else {
        let before = headers_merged(h, extra.drop_last());
        with_header(before, extra.last().0, extra.last().1)
    }
}

/// The headers of a request: the defaults, then the content type, then the
/// per-call headers, then the credentials.
pub open spec fn request_headers(
    defaults: Seq<(Seq<char>, Seq<u8>)>,
    content_type: Option<Seq<char>>,
    extra: Seq<(Seq<char>, Seq<u8>)>,
    auth: Option<Seq<char>>,
) -> Seq<(Seq<char>, Seq<u8>)> {
    let typed = match content_type {
        Some(t) => with_header(defaults, "content-type"@, encode_utf8(t)),
        None => defaults,
    };
    let merged = headers_merged(typed, extra);
    match auth {
        Some(v) => with_header(merged, "authorization"@, encode_utf8(v)),
        None => merged,
    }
}

/// Sets each header of `extra` over `headers`, in order.
fn merge_headers(headers: &mut HeaderList, extra: &HeaderList)
    ensures
        final(headers)@ == headers_merged(old(headers)@, extra@),
{
    let ghost start = headers@;
    for i in 0..extra.items.len()
        invariant
            headers@ == headers_merged(start, extra@.take(i as int)),
    {
        let h = extra.items[i].copy();
        assert(extra@.take(i + 1).drop_last() =~= extra@.take(i as int));
        assert(extra@.take(i + 1).last() == (extra.items@[i as int].name@, extra.items@[i as int].value@));
        headers.insert(h.name, h.value);
    }
    assert(extra@.take(extra.items@.len() as int) =~= extra@);
}

/// Builds the URL and the headers of a call. Fails where the base URL takes
/// no endpoint, or the credentials cannot stand in a header.
pub fn prepare_request(
    ctx: RequestContext,
    method: Method,
    segments: &[&str],
    content_type: Option<&str>,
    options: Option<&RequestOptions>,
) -> (r: Result<PreparedRequest, Error>)
    ensures
        ({
            let b = *ctx.base_url;
            if base_url_problem(b) is Some {
                r matches Err(e) && e.kind_spec() == ErrorKind::InvalidConfig
            } else {
                match push_segments(
                    b.origin@,
                    pop_if_empty(b.path_model()->0),
                    raw_segments(segments@),
                ) {
                    None => r matches Err(e) && e.kind_spec() == ErrorKind::InvalidConfig,
                    Some(q) => match ctx.auth.authorization_spec() {
                        Err(_) => r matches Err(e) && e.kind_spec() == ErrorKind::InvalidConfig,
                        Ok(a) => r matches Ok(p) && p.method == method && p.url.path_model() == Some(q)
                            && p.path@ == path_text(q) && p.headers@ == request_headers(
                            ctx.default_headers@,
                            match content_type {
                                Some(t) => Some(t@),
                                None => None,
                            },
                            match options {
                                Some(o) => o.headers@,
                                None => Seq::empty(),
                            },
                            a,
                        ) && p.timeout == match options {
                            Some(o) => o.timeout,
                            None => None,
                        },
                    },
                }
            }
        }),
{
    let url = match endpoint(ctx.base_url, segments) {
        Ok(u) => u,
        Err(e) => return Err(e),
    };
    let path = url.path();
    let mut headers = ctx.default_headers.copy();
    match content_type {
        Some(t) => {
            headers.insert(String::from_str("content-type"), bytes_to_vec(t.as_bytes()));
        },
        None => {},
    }
    let ghost typed = headers@;
    match options {
        Some(o) => merge_headers(&mut headers, &o.headers),
        None => {
            assert(headers_merged(typed, Seq::empty()) == typed);
        },
    }
    match ctx.auth.apply(&mut headers) {
        Ok(()) => {},
        Err(e) => return Err(e),
    }
    let timeout = match options {
        Some(o) => o.timeout,
        None => None,
    };
    Ok(PreparedRequest { method, url, path, headers, timeout })
}

/// How one attempt ended.
pub enum Outcome {
    /// A response arrived and its body was read.
    Response { status: u16, headers: HeaderList, body: Vec<u8> },
    /// No response arrived.
    Failed { kind: FailureKind, detail: String },
    /// A response arrived but its body could not be read.
    Unread { success: bool, detail: String },
}

/// What to do after an attempt.
pub enum Step {
    /// The call is over, with this result.
    Finish(Result<ResponseBytes, Error>),
    /// Wait for `delay`, then make attempt number `attempt`.
    Retry { delay: Delay, attempt: usize },
}

/// A 2xx status.
pub open spec fn success_status(status: u16) -> bool {
    200 <= status <= 299
}

/// Whether the attempt numbered `attempt` (from zero), ending in `outcome`,
/// is followed by another.
pub open spec fn will_retry(retry: RetryConfig, method: Method, attempt: nat, outcome: Outcome) -> bool {
    attempt < retry.max_retries && idempotent(method) && match outcome {
        Outcome::Response { status, .. } => !success_status(status) && retryable_status_code(
            status,
        ),
        Outcome::Failed { kind, .. } => retryable_failure_kind(kind),
        Outcome::Unread { .. } => false,
    }
}

/// The retry hint of an outcome's response, if any.
pub open spec fn outcome_hint(outcome: Outcome) -> Option<RetryHint> {
    match outcome {
        Outcome::Response { headers, .. } => retry_hint(headers@),
        _ => None,
    }
}

/// The record of a failed status, as the call reports it.
pub open spec fn status_record(
    h: HttpError,
    snippet: BodySnippetConfig,
    req_method: Method,
    req_path: Seq<char>,
    status: u16,
    headers: HeaderList,
    body: Vec<u8>,
    now: WallTime,
) -> bool {
    &&& h.method == req_method
    &&& h.path@ == req_path
    &&& h.status == Some(status)
    &&& opt_view(h.request_id) == request_id_in(headers@)
    &&& opt_view(h.message) == message_in(parsed_json(body@))
    &&& snippet_captured(snippet, body@, h.body_snippet)
    &&& match retry_hint(headers@) {
        Some(hint) => h.retry_after matches Some(d) && d.wf() && d.total_nanos() == hint_nanos(
            hint,
            now,
        ),
        None => h.retry_after is None,
    }
}

/// What the step after attempt `attempt`, ending in `outcome`, is, when the
/// clock reads `now`.
pub open spec fn step_spec(
    retry: RetryConfig,
    snippet: BodySnippetConfig,
    req_method: Method,
    req_path: Seq<char>,
    attempt: nat,
    outcome: Outcome,
    now: WallTime,
    r: Step,
) -> bool {
    if will_retry(retry, req_method, attempt, outcome) {
        r matches Step::Retry { delay, attempt: next } && next == attempt + 1 && delay.wf() && match outcome_hint(outcome) {
            Some(hint) => delay.total_nanos() == hint_nanos(hint, now),
            None => delay.total_millis() <= backoff_cap_millis(retry, attempt) && delay.total_nanos()
                % (NANOS_PER_MILLI as int) == 0 && (retry.base_delay.total_nanos() == 0
                ==> delay.total_nanos() == 0),
        }
    } else {
        match outcome {
            Outcome::Response { status, headers, body } => if success_status(status) {
                r matches Step::Finish(Ok(resp)) && resp.status == status && resp.headers == headers
                    && resp.body == body
            } else {
                r matches Step::Finish(Err(e)) && e.kind_spec() == status_kind(Some(status))
                    && (e.http_spec() matches Some(h) && status_record(
                    h,
                    snippet,
                    req_method,
                    req_path,
                    status,
                    headers,
                    body,
                    now,
                ))
            },
            Outcome::Failed { kind, detail } => r matches Step::Finish(
                Err(Error::Transport { message, kind: k, detail: d }),
            ) && message@ == "request failed"@ && k == kind && d == detail,
            Outcome::Unread { success, detail } => r matches Step::Finish(
                Err(Error::Transport { message, kind: k, detail: d }),
            ) && message@ == (if success {
                "failed to read response body"@
            } else {
                "failed to read error response body"@
            }) && k == FailureKind::Other && d == detail,
        }
    }
}

/// The step after attempt `attempt` (counted from zero), at time `now`.
pub fn next_step_at(
    ctx: RequestContext,
    request: &PreparedRequest,
    attempt: usize,
    outcome: Outcome,
    now: WallTime,
) -> (r: Step)
    requires
        ctx.retry.wf(),
        now.wf(),
    ensures
        step_spec(
            *ctx.retry,
            *ctx.body_snippet,
            request.method,
            request.path@,
            attempt as nat,
            outcome,
            now,
            r,
        ),
{
    let ghost whole = outcome;
    match outcome {
        Outcome::Response { status, headers, body } => {
            if 200 <= status && status <= 299 {
                return Step::Finish(Ok(ResponseBytes::new(status, headers, body)));
            }
            let retry_after = extract_retry_after_at(&headers, now);
            if attempt < ctx.retry.max_retries && is_retryable_status(request.method, status) {
                let delay = compute_retry_delay(retry_after, ctx.retry, attempt);
                return Step::Retry { delay, attempt: attempt + 1 };
            }
            let http = HttpError::new(request.method, copy_string(&request.path), Some(status))
                .with_request_id(extract_request_id(&headers))
                .with_message(extract_message(body.as_slice()))
                .with_body_snippet(capture_snippet(body.as_slice(), ctx.body_snippet))
                .with_retry_after(retry_after);
            Step::Finish(Err(Error::from_http(http)))
        },
        Outcome::Failed { kind, detail } => {
            if attempt < ctx.retry.max_retries && is_retryable_transport_error(request.method, kind) {
                let delay = compute_retry_delay(None, ctx.retry, attempt);
                return Step::Retry { delay, attempt: attempt + 1 };
            }
            Step::Finish(Err(Error::transport(String::from_str("request failed"), kind, detail)))
        },
        Outcome::Unread { success, detail } => {
            let message = if success {
                String::from_str("failed to read response body")
            } else {
                String::from_str("failed to read error response body")
            };
            Step::Finish(Err(Error::transport(message, FailureKind::Other, detail)))
        },
    }
}


/// The step after attempt `attempt` (counted from zero), reading the clock
/// for a retry hint that names an instant. The step is the one that
/// `next_step_at` gives for some reading of the clock.
pub fn next_step(ctx: RequestContext, request: &PreparedRequest, attempt: usize, outcome: Outcome) -> (r:
    Step)
    requires
        ctx.retry.wf(),
    ensures
        exists|now: WallTime|
            now.wf() && step_spec(
                *ctx.retry,
                *ctx.body_snippet,
                request.method,
                request.path@,
                attempt as nat,
                outcome,
                now,
                r,
            ),
{
    let now = wall_time_now();
    next_step_at(ctx, request, attempt, outcome, now)
}

/// The error of a successful response whose body did not decode.
pub fn decode_failure(
    ctx: RequestContext,
    request: &PreparedRequest,
    response: &ResponseBytes,
    detail: String,
) -> (r: Error)
    ensures
        r.kind_spec() == ErrorKind::Decode,
        r.http_spec() matches Some(h) && h.method == request.method && h.path@ == request.path@
            && h.status == Some(response.status) && opt_view(h.request_id) == request_id_in(
            response.headers@,
        ) && h.message is None && snippet_captured(*ctx.body_snippet, response.body@, h.body_snippet)
            && h.retry_after is None,
{
    let http = HttpError::new(request.method, copy_string(&request.path), Some(response.status))
        .with_request_id(extract_request_id(&response.headers))
        .with_body_snippet(capture_snippet(response.body.as_slice(), ctx.body_snippet));
    Error::decode(http, detail)
}

/// An idempotent call is retried after a retryable status (429, 502, 503,
/// 504) exactly while attempts remain; a POST or PATCH never is.
pub proof fn lemma_retry_gate(retry: RetryConfig, method: Method, attempt: nat, outcome: Outcome)
    requires
        outcome matches Outcome::Response { status, .. } && retryable_status_code(status),
    ensures
        will_retry(retry, method, attempt, outcome) <==> (attempt < retry.max_retries && idempotent(
            method,
        )),
        method == Method::Post || method == Method::Patch ==> !will_retry(
            retry,
            method,
            attempt,
            outcome,
        ),
{
}

/// A server hint of zero seconds makes the next attempt follow at once, and
/// a 2xx response to that attempt ends the call with that response.
pub proof fn lemma_retry_after_zero(
    retry: RetryConfig,
    snippet: BodySnippetConfig,
    method: Method,
    path: Seq<char>,
    attempt: nat,
    status: u16,
    headers: HeaderList,
    body: Vec<u8>,
    now: WallTime,
    r: Step,
    ok_status: u16,
    ok_headers: HeaderList,
    ok_body: Vec<u8>,
    later: WallTime,
    r2: Step,
)
    requires
        idempotent(method),
        attempt < retry.max_retries,
        retryable_status_code(status),
        retry_hint(headers@) == Some(RetryHint::Seconds(0)),
        step_spec(retry, snippet, method, path, attempt, Outcome::Response { status, headers, body }, now, r),
        success_status(ok_status),
        step_spec(
            retry,
            snippet,
            method,
            path,
            attempt + 1,
            Outcome::Response { status: ok_status, headers: ok_headers, body: ok_body },
            later,
            r2,
        ),
    ensures
        r matches Step::Retry { delay, attempt: next } && delay.total_nanos() == 0 && next == attempt
            + 1,
        r2 matches Step::Finish(Ok(resp)) && resp.status == ok_status && resp.body == ok_body,
{
}

/// After `max_retries` retried failures with retryable statuses, the next
/// one ends the call with the error that its status classifies as.
pub proof fn lemma_exhaustion(
    retry: RetryConfig,
    snippet: BodySnippetConfig,
    method: Method,
    path: Seq<char>,
    attempt: nat,
    status: u16,
    headers: HeaderList,
    body: Vec<u8>,
    now: WallTime,
    r: Step,
)
    requires
        idempotent(method),
        retryable_status_code(status),
        step_spec(retry, snippet, method, path, attempt, Outcome::Response { status, headers, body }, now, r),
    ensures
        attempt < retry.max_retries ==> (r matches Step::Retry { attempt: next, .. } && next
            == attempt + 1),
        attempt == retry.max_retries ==> (r matches Step::Finish(Err(e)) && e.kind_spec()
            == status_kind(Some(status)) && (e.http_spec() matches Some(h) && h.status == Some(
            status,
        ))),
{
}


/// A header list as the last value of each name, with `set-cookie` values
/// hidden: the headers of a response as it is shown in diagnostics.
pub open spec fn shown_headers(h: Seq<(Seq<char>, Seq<u8>)>) -> Seq<(Seq<char>, Seq<u8>)> {
    headers_merged(Seq::empty(), h.map_values(|e: (Seq<char>, Seq<u8>)|
        if same_ignoring_ascii_case(e.0, "set-cookie"@) {
            (e.0, encode_utf8("<redacted>"@))
        } else {
            e
        }
    ))
}

impl ResponseBytes {
    /// The headers to show in diagnostics: one value per name, `set-cookie`
    /// values replaced by the marker.
    pub fn shown_headers(&self) -> (r: HeaderList)
        ensures
            r@ == shown_headers(self.headers@),
    {
        let ghost mapped = self.headers@.map_values(|e: (Seq<char>, Seq<u8>)|
            if same_ignoring_ascii_case(e.0, "set-cookie"@) {
                (e.0, encode_utf8("<redacted>"@))
            } else {
                e
            }
        );
        let mut out = HeaderList::new();
        let items = &self.headers.items;
        for i in 0..items.len()
            invariant
                items == &self.headers.items,
                mapped == self.headers@.map_values(|e: (Seq<char>, Seq<u8>)|
                    if same_ignoring_ascii_case(e.0, "set-cookie"@) {
                        (e.0, encode_utf8("<redacted>"@))
                    } else {
                        e
                    }
                ),
                out@ == headers_merged(Seq::empty(), mapped.take(i as int)),
        {
            assert(mapped.take(i + 1).drop_last() =~= mapped.take(i as int));
            assert(self.headers@[i as int] == (items@[i as int].name@, items@[i as int].value@));
            let name = copy_string(&items[i].name);
            if eq_ignore_ascii_case(chars_of(name.as_str()).as_slice(), "set-cookie") {
                out.insert(name, bytes_to_vec("<redacted>".as_bytes()));
            } else {
                let h = items[i].copy();
                out.insert(h.name, h.value);
            }
        }
        assert(mapped.take(items.len() as int) =~= mapped);
        out
    }
}


/// A call whose every attempt meets a retryable status makes exactly
/// `max_retries + 1` attempts: each but the last is followed by a retry, and
/// the last ends the call with the error that its own status classifies as.
pub proof fn lemma_exhaustion_run(
    retry: RetryConfig,
    snippet: BodySnippetConfig,
    method: Method,
    path: Seq<char>,
    outcomes: Seq<Outcome>,
    nows: Seq<WallTime>,
    steps: Seq<Step>,
)
    requires
        idempotent(method),
        outcomes.len() == retry.max_retries + 1,
        nows.len() == outcomes.len(),
        steps.len() == outcomes.len(),
        forall|i: int|
            0 <= i < outcomes.len() ==> (#[trigger] outcomes[i] matches Outcome::Response {
                status,
                ..
            } && retryable_status_code(status)),
        forall|i: int|
            0 <= i < outcomes.len() ==> step_spec(
                retry,
                snippet,
                method,
                path,
                i as nat,
                #[trigger] outcomes[i],
                nows[i],
                steps[i],
            ),
    ensures
        forall|i: int|
            0 <= i < retry.max_retries ==> (#[trigger] steps[i] matches Step::Retry {
                attempt: next,
                ..
            } && next == i + 1),
        steps.last() matches Step::Finish(Err(e)) && (outcomes.last() matches Outcome::Response {
            status,
            ..
        } && e.kind_spec() == status_kind(Some(status)) && (e.http_spec() matches Some(h)
            && h.status == Some(status))),
{
    assert forall|i: int| 0 <= i < retry.max_retries implies (#[trigger] steps[i] matches Step::Retry {
        attempt: next,
        ..
    } && next == i + 1) by {
        assert(step_spec(retry, snippet, method, path, i as nat, outcomes[i], nows[i], steps[i]));
    }
    let k = retry.max_retries as int;
    assert(step_spec(retry, snippet, method, path, k as nat, outcomes[k], nows[k], steps[k]));
}

} // verus!
