use grafana::auth::Auth;
use grafana::error::ErrorKind;
use grafana::headers::HeaderList;
use grafana::response::{extract_message, parse_u64, ResponseBytes};
use grafana::retry::{
    backoff_cap, compute_retry_delay, is_idempotent_method, is_retryable_status,
    is_retryable_transport_error, Delay, FailureKind, Method, RetryConfig,
};
use grafana::types::common::{DashboardUid, OrgId};
use grafana::types::folders::{CreateFolderRequest, UpdateFolderRequest};
use grafana::types::teams::{AddTeamMemberRequest, CreateTeamRequest};

fn retry(base_ms: u64, max_ms: u64) -> RetryConfig {
    RetryConfig { max_retries: 3, base_delay: Delay::from_millis(base_ms), max_delay: Delay::from_millis(max_ms) }
}

#[test]
fn idempotence_and_retryable_statuses() {
    for m in [Method::Get, Method::Head, Method::Put, Method::Delete, Method::Options] {
        assert!(is_idempotent_method(m));
        assert!(is_retryable_status(m, 503));
        assert!(!is_retryable_status(m, 500));
        assert!(is_retryable_transport_error(m, FailureKind::Timeout));
        assert!(!is_retryable_transport_error(m, FailureKind::Other));
    }
    for m in [Method::Post, Method::Patch, Method::Connect, Method::Trace] {
        assert!(!is_idempotent_method(m));
        assert!(!is_retryable_status(m, 429));
        assert!(!is_retryable_transport_error(m, FailureKind::Connect));
    }
}

#[test]
fn backoff_grows_and_is_capped() {
    let r = retry(200, 2000);
    assert_eq!(backoff_cap(&r, 0), 200);
    assert_eq!(backoff_cap(&r, 1), 400);
    assert_eq!(backoff_cap(&r, 3), 1600);
    assert_eq!(backoff_cap(&r, 4), 2000);
    assert_eq!(backoff_cap(&r, 1000), 2000);
    let huge = RetryConfig { max_retries: 1, base_delay: Delay::from_secs(u64::MAX), max_delay: Delay::from_secs(u64::MAX) };
    assert_eq!(backoff_cap(&huge, 40), u64::MAX);
}

#[test]
fn delays_follow_hints_then_jitter() {
    let r = retry(200, 2000);
    assert_eq!(compute_retry_delay(Some(Delay::from_secs(9)), &r, 0), Delay::from_secs(9));
    assert_eq!(compute_retry_delay(Some(Delay::zero()), &r, 0), Delay::zero());
    assert!(compute_retry_delay(None, &retry(0, 2000), 2).is_zero());
    for attempt in 0..6 {
        let d = compute_retry_delay(None, &r, attempt);
        assert!(d.saturating_millis() <= backoff_cap(&r, attempt));
        assert_eq!(d.nanos % 1_000_000, 0);
    }
    let sub_milli = RetryConfig { max_retries: 1, base_delay: Delay { secs: 0, nanos: 10 }, max_delay: Delay::from_secs(1) };
    assert!(compute_retry_delay(None, &sub_milli, 0).is_zero());
}

#[test]
fn delays_convert_exactly() {
    let d = Delay::from_millis(1500);
    assert_eq!(d, Delay { secs: 1, nanos: 500_000_000 });
    assert_eq!(d.saturating_millis(), 1500);
    assert!(Delay::zero().is_zero());
    assert_eq!(Delay::from_secs(u64::MAX).saturating_millis(), u64::MAX);
}

#[test]
fn messages_come_from_message_then_error() {
    assert_eq!(extract_message(br#"{"message":"m","error":"e"}"#), Some("m".to_string()));
    assert_eq!(extract_message(br#"{"message":null,"error":"e"}"#), Some("e".to_string()));
    assert_eq!(extract_message(br#"{"error":"e"}"#), Some("e".to_string()));
    assert_eq!(extract_message(br#"{"message":5,"error":"e"}"#), Some("e".to_string()));
    assert_eq!(extract_message(br#"{"message":"m","error":5}"#), Some("m".to_string()));
    assert_eq!(extract_message(br#"{"other":"x"}"#), None);
    assert_eq!(extract_message(br#"["m"]"#), None);
    assert_eq!(extract_message(b"plain text"), None);
}

#[test]
fn decimal_seconds_parse_like_std() {
    let p = |s: &str| parse_u64(&s.chars().collect::<Vec<char>>());
    assert_eq!(p("0"), Some(0));
    assert_eq!(p("+12"), Some(12));
    assert_eq!(p("18446744073709551615"), Some(u64::MAX));
    assert_eq!(p("18446744073709551616"), None);
    assert_eq!(p(""), None);
    assert_eq!(p("+"), None);
    assert_eq!(p("-1"), None);
    assert_eq!(p("1.5"), None);
}

#[test]
fn credentials_become_authorization_values() {
    assert_eq!(Auth::none().authorization().unwrap(), None);
    assert_eq!(Auth::bearer("TOKEN").authorization().unwrap(), Some("Bearer TOKEN".to_string()));
    assert_eq!(
        Auth::basic("user", "pass").authorization().unwrap(),
        Some("Basic dXNlcjpwYXNz".to_string())
    );
    assert_eq!(
        Auth::bearer("a\rb").authorization().err().unwrap().kind(),
        ErrorKind::InvalidConfig
    );
    let mut h = HeaderList::new();
    Auth::basic("a", "b").apply(&mut h).unwrap();
    assert_eq!(h.get("authorization"), Some(&b"Basic YTpi".to_vec()));
    Auth::bearer("t").apply(&mut h).unwrap();
    assert_eq!(h.get("authorization"), Some(&b"Bearer t".to_vec()));
    assert_eq!(h.len(), 1);
}

#[test]
fn credentials_never_show_in_descriptions() {
    assert_eq!(Auth::bearer("SECRET").describe(), "Bearer(\"<redacted>\")");
    let basic = Auth::basic("alice", "SECRET").describe();
    assert!(basic.contains("alice"));
    assert!(!basic.contains("SECRET"));
    assert_eq!(Auth::none().describe(), "Anonymous");
}

#[test]
fn response_bytes_accessors() {
    let r = ResponseBytes::new(201, HeaderList::new(), b"ok".to_vec());
    assert_eq!(r.status(), 201);
    assert_eq!(r.body(), b"ok");
    assert_eq!(r.headers().len(), 0);
    assert_eq!(r.into_body(), b"ok".to_vec());
}

#[test]
fn model_constructors() {
    let f = CreateFolderRequest::new("Ops");
    assert_eq!(f.title, "Ops");
    assert_eq!(f.uid, None);
    assert_eq!(UpdateFolderRequest::new("New").title, "New");
    let t = CreateTeamRequest::new("team-one");
    assert_eq!(t.name, "team-one");
    assert_eq!(t.email, None);
    assert_eq!(AddTeamMemberRequest::new(7).user_id, 7);
    assert_eq!(DashboardUid::from("a/b".to_string()).0, "a/b");
    assert_eq!(OrgId::from(42).0, 42);
}
