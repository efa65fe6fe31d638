use grafana::error::{Error, ErrorKind, HttpError};
use grafana::headers::{Header, HeaderList};
use grafana::response::{extract_request_id, extract_retry_after_at, WallTime};
use grafana::retry::{Delay, FailureKind, Method, RetryConfig};
use grafana::transport::{
    decode_failure, next_step, next_step_at, prepare_request, BodySnippetConfig, Outcome,
    PreparedRequest, RequestContext, RequestOptions, Step,
};
use grafana::auth::Auth;
use grafana::response::ResponseBytes;
use grafana::url::BaseUrl;

fn base(segments: &[&str]) -> BaseUrl {
    BaseUrl {
        scheme: "http".to_string(),
        origin: "http://localhost:3000".to_string(),
        has_host: true,
        segments: Some(segments.iter().map(|s| s.to_string()).collect()),
        query: None,
        fragment: None,
    }
}

fn headers(pairs: &[(&str, &str)]) -> HeaderList {
    HeaderList {
        items: pairs
            .iter()
            .map(|(n, v)| Header { name: n.to_string(), value: v.as_bytes().to_vec() })
            .collect(),
    }
}

fn retry(max_retries: usize, base_ms: u64) -> RetryConfig {
    RetryConfig {
        max_retries,
        base_delay: Delay::from_millis(base_ms),
        max_delay: Delay::from_secs(2),
    }
}

fn snippets() -> BodySnippetConfig {
    BodySnippetConfig { enabled: true, byte_limit: 4096 }
}

fn now() -> WallTime {
    WallTime { after_epoch: true, offset: Delay::from_secs(1_700_000_000) }
}

fn request(method: Method, path: &str) -> PreparedRequest {
    PreparedRequest {
        method,
        url: base(&["api", "health"]),
        path: path.to_string(),
        headers: HeaderList::new(),
        timeout: None,
    }
}

fn response(status: u16, hs: &[(&str, &str)], body: &str) -> Outcome {
    Outcome::Response { status, headers: headers(hs), body: body.as_bytes().to_vec() }
}

/// Runs a call against scripted outcomes; gives the result and the number of
/// attempts made.
fn run(
    method: Method,
    retry: &RetryConfig,
    outcomes: Vec<Outcome>,
) -> (Result<ResponseBytes, Error>, usize) {
    let base_url = base(&["api"]);
    let auth = Auth::none();
    let defaults = HeaderList::new();
    let snippet = snippets();
    let ctx = RequestContext {
        base_url: &base_url,
        auth: &auth,
        default_headers: &defaults,
        retry,
        body_snippet: &snippet,
    };
    let req = request(method, "/api/health");
    let mut attempt: usize = 0;
    let mut made = 0;
    for outcome in outcomes {
        made += 1;
        match next_step_at(ctx, &req, attempt, outcome, now()) {
            Step::Finish(r) => return (r, made),
            Step::Retry { delay, attempt: next } => {
                assert!(delay.is_zero() || retry.base_delay.secs + retry.base_delay.nanos as u64 > 0);
                attempt = next;
            }
        }
    }
    panic!("the call did not finish after {made} attempts");
}

#[test]
fn classification_table() {
    let kind = |status: u16| {
        Error::from_http(HttpError::new(Method::Get, "/api/x".to_string(), Some(status))).kind()
    };
    assert_eq!(kind(404), ErrorKind::NotFound);
    assert_eq!(kind(401), ErrorKind::Auth);
    assert_eq!(kind(403), ErrorKind::Auth);
    assert_eq!(kind(429), ErrorKind::RateLimited);
    assert_eq!(kind(409), ErrorKind::Conflict);
    assert_eq!(kind(412), ErrorKind::Conflict);
    assert_eq!(kind(500), ErrorKind::Api);
    assert_eq!(kind(418), ErrorKind::Api);
    let none = Error::from_http(HttpError::new(Method::Get, "/".to_string(), None));
    assert_eq!(none.kind(), ErrorKind::Api);
}

#[test]
fn error_accessors_reach_the_record() {
    let http = HttpError::new(Method::Delete, "/api/teams/1".to_string(), Some(503))
        .with_request_id(Some("req-1".to_string()))
        .with_message(Some("busy".to_string()))
        .with_body_snippet(Some("{}".to_string()))
        .with_retry_after(Some(Delay::from_secs(3)));
    let err = Error::from_http(http);
    assert_eq!(err.status(), Some(503));
    assert_eq!(err.request_id(), Some("req-1"));
    assert_eq!(err.message(), Some("busy"));
    assert_eq!(err.body_snippet(), Some("{}"));
    assert_eq!(err.retry_after(), Some(Delay::from_secs(3)));
    assert!(err.is_retryable());
    assert!(!err.is_auth_error());
    let cfg = Error::invalid_config("bad".to_string());
    assert_eq!(cfg.message(), Some("bad"));
    assert_eq!(cfg.status(), None);
    assert!(!cfg.is_retryable());
    let limited = Error::from_http(HttpError::new(Method::Get, "/".to_string(), Some(429)));
    assert!(limited.is_retryable());
    let auth = Error::from_http(HttpError::new(Method::Get, "/".to_string(), Some(401)));
    assert!(auth.is_auth_error());
    let api = Error::from_http(HttpError::new(Method::Get, "/".to_string(), Some(500)));
    assert!(!api.is_retryable());
}

#[test]
fn idempotent_methods_are_retried_and_writes_are_not() {
    let policy = retry(3, 0);
    for status in [429u16, 502, 503, 504] {
        for method in [Method::Get, Method::Put, Method::Delete, Method::Head, Method::Options] {
            let (r, made) = run(method, &policy, vec![
                response(status, &[], ""),
                response(status, &[], ""),
                response(status, &[], ""),
                response(status, &[], ""),
            ]);
            assert!(r.is_err());
            assert_eq!(made, 4);
        }
        for method in [Method::Post, Method::Patch] {
            let (r, made) = run(method, &policy, vec![response(status, &[], "")]);
            assert!(r.is_err());
            assert_eq!(made, 1);
        }
    }
}

#[test]
fn retry_after_zero_retries_at_once_and_then_succeeds() {
    let base_url = base(&["api"]);
    let auth = Auth::none();
    let defaults = HeaderList::new();
    let policy = retry(3, 200);
    let snippet = snippets();
    let ctx = RequestContext {
        base_url: &base_url,
        auth: &auth,
        default_headers: &defaults,
        retry: &policy,
        body_snippet: &snippet,
    };
    let req = request(Method::Get, "/api/health");
    let first = next_step_at(
        ctx,
        &req,
        0,
        response(429, &[("retry-after", "0")], r#"{"message":"rate limited"}"#),
        now(),
    );
    match first {
        Step::Retry { delay, attempt } => {
            assert!(delay.is_zero());
            assert_eq!(attempt, 1);
        }
        Step::Finish(_) => panic!("expected a retry"),
    }
    let second = next_step_at(ctx, &req, 1, response(200, &[], r#"{"database":"ok"}"#), now());
    match second {
        Step::Finish(Ok(resp)) => {
            assert_eq!(resp.status(), 200);
            assert_eq!(resp.body(), br#"{"database":"ok"}"#);
        }
        _ => panic!("expected success"),
    }
}

#[test]
fn retry_after_seconds_are_used_verbatim() {
    let base_url = base(&["api"]);
    let auth = Auth::none();
    let defaults = HeaderList::new();
    let policy = retry(3, 200);
    let snippet = snippets();
    let ctx = RequestContext {
        base_url: &base_url,
        auth: &auth,
        default_headers: &defaults,
        retry: &policy,
        body_snippet: &snippet,
    };
    let req = request(Method::Get, "/api/health");
    match next_step_at(ctx, &req, 0, response(503, &[("retry-after", " 7 ")], ""), now()) {
        Step::Retry { delay, .. } => assert_eq!(delay, Delay::from_secs(7)),
        Step::Finish(_) => panic!("expected a retry"),
    }
}

#[test]
fn exhaustion_returns_the_last_classified_error() {
    let policy = retry(2, 0);
    let (r, made) = run(Method::Get, &policy, vec![
        response(503, &[], ""),
        response(502, &[], ""),
        response(429, &[], r#"{"message":"slow down"}"#),
    ]);
    assert_eq!(made, 3);
    let err = r.unwrap_err();
    assert_eq!(err.kind(), ErrorKind::RateLimited);
    assert_eq!(err.status(), Some(429));
    assert_eq!(err.message(), Some("slow down"));

    let (r, made) = run(Method::Get, &policy, vec![
        response(429, &[], ""),
        response(429, &[], ""),
        response(503, &[], ""),
    ]);
    assert_eq!(made, 3);
    assert_eq!(r.unwrap_err().kind(), ErrorKind::Api);
}

#[test]
fn service_unavailable_once_then_ok_takes_two_attempts() {
    let policy = retry(3, 0);
    let (r, made) = run(Method::Get, &policy, vec![
        response(503, &[], r#"{"message":"temporarily unavailable"}"#),
        response(200, &[], r#"{"database":"ok"}"#),
        response(200, &[], r#"{"database":"ok"}"#),
    ]);
    assert_eq!(made, 2);
    assert_eq!(r.unwrap().status(), 200);
}

#[test]
fn not_found_is_classified_without_retries() {
    let policy = retry(3, 0);
    let (r, made) = run(Method::Get, &policy, vec![
        response(404, &[("x-request-id", "abc")], r#"{"message":"not found","token":"SECRET"}"#),
        response(200, &[], "{}"),
    ]);
    assert_eq!(made, 1);
    let err = r.unwrap_err();
    assert_eq!(err.kind(), ErrorKind::NotFound);
    assert_eq!(err.message(), Some("not found"));
    assert_eq!(err.request_id(), Some("abc"));
    assert_eq!(err.http().unwrap().path(), "/api/health");
    let snippet = err.body_snippet().expect("body snippet");
    assert!(snippet.contains("<redacted>"));
    assert!(!snippet.contains("SECRET"));
}

#[test]
fn transport_failures_are_retried_only_when_transient() {
    let policy = retry(1, 0);
    let failed = |kind| Outcome::Failed { kind, detail: "boom".to_string() };
    let (r, made) = run(Method::Get, &policy, vec![
        failed(FailureKind::Timeout),
        failed(FailureKind::Connect),
    ]);
    assert_eq!(made, 2);
    match r.unwrap_err() {
        Error::Transport { message, kind, detail } => {
            assert_eq!(message, "request failed");
            assert_eq!(kind, FailureKind::Connect);
            assert_eq!(detail, "boom");
        }
        other => panic!("unexpected error variant: {other:?}"),
    }
    let (r, made) = run(Method::Get, &policy, vec![failed(FailureKind::Other)]);
    assert_eq!(made, 1);
    assert_eq!(r.unwrap_err().kind(), ErrorKind::Transport);
    let (r, made) = run(Method::Post, &policy, vec![failed(FailureKind::Timeout)]);
    assert_eq!(made, 1);
    assert_eq!(r.unwrap_err().kind(), ErrorKind::Transport);
}

#[test]
fn unreadable_bodies_end_the_call() {
    let policy = retry(3, 0);
    let (r, _) = run(Method::Get, &policy, vec![Outcome::Unread {
        success: false,
        detail: "reset".to_string(),
    }]);
    match r.unwrap_err() {
        Error::Transport { message, .. } => assert_eq!(message, "failed to read error response body"),
        other => panic!("unexpected error variant: {other:?}"),
    }
}

#[test]
fn clocked_step_uses_backoff_within_its_bound() {
    let base_url = base(&["api"]);
    let auth = Auth::none();
    let defaults = HeaderList::new();
    let policy = retry(3, 200);
    let snippet = snippets();
    let ctx = RequestContext {
        base_url: &base_url,
        auth: &auth,
        default_headers: &defaults,
        retry: &policy,
        body_snippet: &snippet,
    };
    let req = request(Method::Get, "/api/health");
    match next_step(ctx, &req, 2, response(502, &[], "")) {
        Step::Retry { delay, attempt } => {
            assert_eq!(attempt, 3);
            assert!(delay.saturating_millis() <= 800);
        }
        Step::Finish(_) => panic!("expected a retry"),
    }
}

#[test]
fn request_id_is_probed_in_order() {
    let h = headers(&[
        ("x-amzn-trace-id", "trace"),
        ("x-grafana-request-id", "  "),
        ("x-request-id", ""),
    ]);
    assert_eq!(extract_request_id(&h), Some("trace".to_string()));
    let h = headers(&[("x-grafana-request-id", " g-1 "), ("x-amzn-trace-id", "trace")]);
    assert_eq!(extract_request_id(&h), Some("g-1".to_string()));
    assert_eq!(extract_request_id(&headers(&[])), None);
}

#[test]
fn retry_after_dates_count_from_now() {
    let past = headers(&[("retry-after", "Sun, 06 Nov 1994 08:49:37 GMT")]);
    assert_eq!(extract_retry_after_at(&past, now()), Some(Delay::zero()));
    let future = headers(&[("retry-after", "Tue, 14 Nov 2023 22:13:30 GMT")]);
    let at = WallTime { after_epoch: true, offset: Delay::from_secs(1_700_000_000) };
    assert_eq!(extract_retry_after_at(&future, at), Some(Delay::from_secs(10)));
    let junk = headers(&[("retry-after", "soon")]);
    assert_eq!(extract_retry_after_at(&junk, now()), None);
    let empty = headers(&[("retry-after", "   ")]);
    assert_eq!(extract_retry_after_at(&empty, now()), None);
}

#[test]
fn prepared_requests_carry_defaults_overrides_and_credentials() {
    let base_url = base(&["grafana", "api"]);
    let auth = Auth::bearer("TOKEN");
    let defaults = headers(&[("accept", "application/json"), ("x-extra", "1")]);
    let policy = retry(3, 200);
    let snippet = snippets();
    let ctx = RequestContext {
        base_url: &base_url,
        auth: &auth,
        default_headers: &defaults,
        retry: &policy,
        body_snippet: &snippet,
    };
    let options = RequestOptions::new()
        .header("x-extra".to_string(), b"2".to_vec())
        .timeout(Delay::from_secs(5));
    let req = prepare_request(ctx, Method::Post, &["convert", "ns1"], Some("application/yaml"), Some(&options))
        .unwrap();
    assert_eq!(req.path, "/grafana/api/convert/ns1");
    assert_eq!(req.headers.get("authorization"), Some(&b"Bearer TOKEN".to_vec()));
    assert_eq!(req.headers.get("content-type"), Some(&b"application/yaml".to_vec()));
    assert_eq!(req.headers.get("x-extra"), Some(&b"2".to_vec()));
    assert_eq!(req.headers.get("accept"), Some(&b"application/json".to_vec()));
    assert_eq!(req.timeout, Some(Delay::from_secs(5)));

    let bad = Auth::bearer("line\nbreak");
    let ctx = RequestContext { auth: &bad, ..ctx };
    let err = prepare_request(ctx, Method::Get, &["health"], None, None).err().unwrap();
    assert_eq!(err.kind(), ErrorKind::InvalidConfig);
}

#[test]
fn decode_failures_keep_status_and_snippet() {
    let base_url = base(&["api"]);
    let auth = Auth::none();
    let defaults = HeaderList::new();
    let policy = retry(3, 200);
    let snippet = snippets();
    let ctx = RequestContext {
        base_url: &base_url,
        auth: &auth,
        default_headers: &defaults,
        retry: &policy,
        body_snippet: &snippet,
    };
    let req = request(Method::Get, "/api/health");
    let resp = ResponseBytes::new(200, headers(&[("x-request-id", "r")]), b"not json password".to_vec());
    let err = decode_failure(ctx, &req, &resp, "expected value".to_string());
    assert_eq!(err.kind(), ErrorKind::Decode);
    assert_eq!(err.status(), Some(200));
    assert_eq!(err.request_id(), Some("r"));
    assert_eq!(err.body_snippet(), Some("not json password"));
}

#[test]
fn errors_describe_themselves_in_one_line() {
    let http = HttpError::new(Method::Get, "/api/health".to_string(), Some(404))
        .with_message(Some("  not found  ".to_string()))
        .with_request_id(Some(" r-1 ".to_string()))
        .with_retry_after(Some(Delay::zero()));
    assert_eq!(
        http.describe(),
        "GET /api/health returned 404 Not Found: not found (request_id=r-1, retry_after=0ms)"
    );
    let err = Error::from_http(http);
    assert!(err.describe().ends_with(" (not found)"));
    let plain = HttpError::new(Method::Post, "/x".to_string(), Some(599))
        .with_message(Some("   ".to_string()))
        .with_retry_after(Some(Delay::from_millis(1500)));
    assert_eq!(plain.describe(), "POST /x returned 599 <unknown status code> (retry_after=1500ms)");
    assert_eq!(
        Error::from_http(HttpError::new(Method::Put, "/y".to_string(), None)).describe(),
        "PUT /y"
    );
    assert_eq!(Error::invalid_config("bad".to_string()).describe(), "invalid configuration: bad");
    let limited = Error::from_http(HttpError::new(Method::Get, "/z".to_string(), Some(429)));
    assert_eq!(limited.describe(), "GET /z returned 429 Too Many Requests (rate limited)");
}
