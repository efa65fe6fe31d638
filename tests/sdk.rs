use grafana::auth::Auth;
use grafana::client::ClientBuilder;
use grafana::error::{Error, ErrorKind};
use grafana::headers::{Header, HeaderList};
use grafana::response::{ResponseBytes, WallTime};
use grafana::retry::{Delay, Method};
use grafana::transport::{next_step_at, prepare_request, Outcome, PreparedRequest, RequestOptions, Step};
use grafana::url::BaseUrl;

fn server(path: &[&str]) -> BaseUrl {
    let mut segments: Vec<String> = path.iter().map(|s| s.to_string()).collect();
    if segments.is_empty() {
        segments.push(String::new());
    }
    BaseUrl {
        scheme: "http".to_string(),
        origin: "http://127.0.0.1:8080".to_string(),
        has_host: true,
        segments: Some(segments),
        query: None,
        fragment: None,
    }
}

fn now() -> WallTime {
    WallTime { after_epoch: true, offset: Delay::from_secs(1_700_000_000) }
}

fn reply(status: u16, headers: &[(&str, &str)], body: &str) -> Outcome {
    Outcome::Response {
        status,
        headers: HeaderList {
            items: headers
                .iter()
                .map(|(n, v)| Header { name: n.to_string(), value: v.as_bytes().to_vec() })
                .collect(),
        },
        body: body.as_bytes().to_vec(),
    }
}

/// Prepares a call with a client built from `builder` and drives it through
/// the scripted replies; gives the prepared request, the result and the
/// number of attempts.
fn call(
    builder: &ClientBuilder,
    method: Method,
    segments: &[&str],
    content_type: Option<&str>,
    options: Option<&RequestOptions>,
    replies: Vec<Outcome>,
) -> (PreparedRequest, Result<ResponseBytes, Error>, usize) {
    let api = builder.api_base_url().expect("client build");
    let ctx = builder.context(&api);
    let req = prepare_request(ctx, method, segments, content_type, options).expect("prepare");
    let mut attempt = 0;
    let mut made = 0;
    for outcome in replies {
        made += 1;
        match next_step_at(ctx, &req, attempt, outcome, now()) {
            Step::Finish(r) => return (req, r, made),
            Step::Retry { attempt: next, .. } => attempt = next,
        }
    }
    panic!("the call did not finish");
}

fn header<'a>(req: &'a PreparedRequest, name: &str) -> Option<&'a [u8]> {
    req.headers.get(name).map(|v| v.as_slice())
}

#[test]
fn sdk_health_supports_base_path_and_bearer_auth() {
    let builder = ClientBuilder::new(server(&["grafana"])).expect("client builder").auth(Auth::bearer("TOKEN"));
    let (req, r, made) = call(&builder, Method::Get, &["health"], None, None, vec![reply(
        200,
        &[],
        r#"{"database":"ok","message":"ok","version":"10.0.0","commit":"deadbeef"}"#,
    )]);
    assert_eq!(req.path, "/grafana/api/health");
    assert_eq!(header(&req, "authorization"), Some(&b"Bearer TOKEN"[..]));
    assert_eq!(made, 1);
    assert_eq!(r.expect("health call").status(), 200);
}

#[test]
fn sdk_dashboard_uid_is_path_segment_encoded() {
    let builder = ClientBuilder::new(server(&[])).expect("client builder");
    let (req, r, _) = call(&builder, Method::Get, &["dashboards", "uid", "a/b"], None, None, vec![reply(
        200,
        &[],
        r#"{"meta":{"folderId":0},"dashboard":{"uid":"a/b"}}"#,
    )]);
    assert_eq!(req.path, "/api/dashboards/uid/a%2Fb");
    assert!(r.is_ok());
}

#[test]
fn sdk_error_is_classified_and_body_snippet_is_redacted() {
    let builder = ClientBuilder::new(server(&[])).expect("client builder");
    let (_, r, made) = call(&builder, Method::Get, &["health"], None, None, vec![
        reply(404, &[], r#"{"message":"not found","token":"SECRET"}"#),
        reply(404, &[], r#"{"message":"not found","token":"SECRET"}"#),
    ]);
    assert_eq!(made, 1);
    let err = r.expect_err("expected error");
    match &err {
        Error::NotFound(http) => assert_eq!(http.status(), Some(404)),
        other => panic!("unexpected error variant: {other:?}"),
    }
    assert_eq!(err.message(), Some("not found"));
    let snippet = err.body_snippet().expect("body snippet");
    assert!(snippet.contains("<redacted>"));
    assert!(!snippet.contains("SECRET"));
}

#[test]
fn sdk_retry_after_is_honored_for_rate_limits() {
    let builder = ClientBuilder::new(server(&[]))
        .expect("client builder")
        .max_retries(1)
        .retry_base_delay(Delay::zero());
    let (_, r, made) = call(&builder, Method::Get, &["health"], None, None, vec![
        reply(429, &[("retry-after", "0")], r#"{"message":"rate limited"}"#),
        reply(200, &[], r#"{"database":"ok"}"#),
    ]);
    assert_eq!(made, 2);
    assert!(r.expect("health call after retry").body().starts_with(br#"{"database""#));
}

#[test]
fn retry_is_honored_for_service_unavailable() {
    let builder = ClientBuilder::new(server(&[]))
        .expect("client builder")
        .max_retries(1)
        .retry_base_delay(Delay::zero());
    let (_, r, made) = call(&builder, Method::Get, &["health"], None, None, vec![
        reply(503, &[("retry-after", "0")], r#"{"message":"temporarily unavailable"}"#),
        reply(200, &[], r#"{"database":"ok"}"#),
    ]);
    assert_eq!(made, 2);
    assert_eq!(r.expect("health call after retry").status(), 200);
}

#[test]
fn user_and_org_endpoints_work_with_base_path() {
    let builder = ClientBuilder::new(server(&["grafana"])).expect("client builder");
    let (req, r, _) = call(&builder, Method::Get, &["user"], None, None, vec![reply(200, &[], r#"{"login":"alice"}"#)]);
    assert_eq!(req.path, "/grafana/api/user");
    assert!(r.is_ok());
    let (req, r, _) = call(&builder, Method::Post, &["user", "using", "42"], None, None, vec![reply(
        200,
        &[],
        r#"{"message":"ok"}"#,
    )]);
    assert_eq!(req.path, "/grafana/api/user/using/42");
    assert_eq!(req.method, Method::Post);
    assert!(r.is_ok());
}

#[test]
fn org_user_role_update_uses_patch() {
    let builder = ClientBuilder::new(server(&[])).expect("client builder");
    let (req, r, made) = call(&builder, Method::Patch, &["org", "users", "123"], None, None, vec![
        reply(503, &[], r#"{"message":"unavailable"}"#),
    ]);
    assert_eq!(req.path, "/api/org/users/123");
    assert_eq!(made, 1);
    assert_eq!(r.expect_err("no retry for PATCH").kind(), ErrorKind::Api);
}

#[test]
fn sdk_retry_does_not_apply_to_post_requests() {
    let builder = ClientBuilder::new(server(&[]))
        .expect("client builder")
        .max_retries(3)
        .retry_base_delay(Delay::zero());
    let (_, r, made) = call(&builder, Method::Post, &["dashboards", "db"], None, None, vec![
        reply(503, &[], r#"{"message":"temporarily unavailable"}"#),
        reply(200, &[], "{}"),
    ]);
    assert_eq!(made, 1);
    let err = r.expect_err("expected non-retryable error for POST");
    assert_eq!(err.status(), Some(503));
}

#[test]
fn sdk_openapi_supports_yaml_request_bodies_for_convert_prometheus() {
    let builder = ClientBuilder::new(server(&[])).expect("client builder");
    let options = RequestOptions::new().try_header("X-Disable-Provenance", "true").expect("header");
    let (req, r, _) = call(
        &builder,
        Method::Post,
        &["convert", "prometheus", "config", "v1", "rules", "ns1"],
        Some("application/yaml"),
        Some(&options),
        vec![reply(202, &[], r#"{"message":"accepted"}"#)],
    );
    assert_eq!(req.path, "/api/convert/prometheus/config/v1/rules/ns1");
    assert_eq!(header(&req, "content-type"), Some(&b"application/yaml"[..]));
    assert_eq!(header(&req, "x-disable-provenance"), Some(&b"true"[..]));
    assert_eq!(r.expect("openapi yaml body call").status(), 202);
    assert!(RequestOptions::new().try_header("bad name", "v").is_err());
    assert!(RequestOptions::new().try_header("x-ok", "bad\nvalue").is_err());
}

#[test]
fn response_headers_are_shown_without_cookies() {
    let r = ResponseBytes::new(
        200,
        HeaderList {
            items: vec![
                Header { name: "set-cookie".to_string(), value: b"session=1".to_vec() },
                Header { name: "x-a".to_string(), value: b"1".to_vec() },
                Header { name: "x-a".to_string(), value: b"2".to_vec() },
            ],
        },
        Vec::new(),
    );
    let shown = r.shown_headers();
    assert_eq!(shown.get("set-cookie"), Some(&b"<redacted>".to_vec()));
    assert_eq!(shown.get("x-a"), Some(&b"2".to_vec()));
    assert_eq!(shown.len(), 2);
}

#[test]
fn header_names_compare_without_case() {
    let mut h = HeaderList::new();
    h.insert("X-Request-Id".to_string(), b"1".to_vec());
    h.insert("x-request-id".to_string(), b"2".to_vec());
    assert_eq!(h.len(), 1);
    assert_eq!(h.get("X-REQUEST-ID"), Some(&b"2".to_vec()));
}
