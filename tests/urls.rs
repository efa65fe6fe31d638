use grafana::client::{integer_string, ClientBuilder};
use grafana::error::{Error, ErrorKind};
use grafana::auth::Auth;
use grafana::retry::Delay;
use grafana::url::{endpoint, BaseUrl};

fn base(scheme: &str, segments: Option<&[&str]>) -> BaseUrl {
    BaseUrl {
        scheme: scheme.to_string(),
        origin: format!("{scheme}://localhost"),
        has_host: true,
        segments: segments.map(|s| s.iter().map(|x| x.to_string()).collect()),
        query: None,
        fragment: None,
    }
}

#[test]
fn slash_inside_a_segment_is_encoded() {
    let b = base("http", Some(&["api"]));
    let one = endpoint(&b, &["dashboards", "uid", "a/b"]).unwrap();
    assert_eq!(one.path(), "/api/dashboards/uid/a%2Fb");
    let two = endpoint(&b, &["dashboards", "uid", "a", "b"]).unwrap();
    assert_eq!(two.path(), "/api/dashboards/uid/a/b");
    assert_ne!(one.path(), two.path());
}

#[test]
fn trailing_slash_of_the_base_is_dropped_once() {
    let b = base("https", Some(&["grafana", ""]));
    assert_eq!(endpoint(&b, &["api", "health"]).unwrap().path(), "/grafana/api/health");
    let root = base("https", Some(&[""]));
    assert_eq!(endpoint(&root, &["api"]).unwrap().path(), "/api");
    assert_eq!(endpoint(&root, &[]).unwrap().path(), "/");
}

#[test]
fn segments_are_percent_encoded_like_url_paths() {
    let b = base("http", Some(&[""]));
    assert_eq!(endpoint(&b, &["a b?c#d%e\\f"]).unwrap().path(), "/a%20b%3Fc%23d%25e%5Cf");
    assert_eq!(endpoint(&b, &["é"]).unwrap().path(), "/%C3%A9");
    assert_eq!(endpoint(&b, &["x", ".", "..", "y"]).unwrap().path(), "/x/y");
    assert_eq!(endpoint(&b, &["x", "\t..", "y"]).unwrap().path(), "/y");
    assert_eq!(endpoint(&b, &["x", "a\tb"]).unwrap().path(), "/x/ab");
    assert_eq!(endpoint(&b, &["x", ""]).unwrap().path(), "/x/");
}

#[test]
fn bases_with_query_or_no_path_are_refused() {
    let mut q = base("http", Some(&["api"]));
    q.query = Some("a=1".to_string());
    assert_eq!(endpoint(&q, &["x"]).err().unwrap().kind(), ErrorKind::InvalidConfig);
    let opaque = base("http", None);
    assert_eq!(endpoint(&opaque, &["x"]).err().unwrap().kind(), ErrorKind::InvalidConfig);
    let ftp = base("ftp", Some(&[""]));
    match endpoint(&ftp, &["x"]) {
        Err(Error::InvalidConfig { message }) => assert_eq!(message, "base_url scheme must be http or https"),
        other => panic!("unexpected: {other:?}"),
    }
    let mut hostless = base("http", Some(&[""]));
    hostless.has_host = false;
    assert_eq!(endpoint(&hostless, &["x"]).err().unwrap().kind(), ErrorKind::InvalidConfig);
}

#[test]
fn base_url_checks_in_order() {
    let message = |b: &BaseUrl| match b.check() {
        Err(Error::InvalidConfig { message }) => message,
        other => panic!("unexpected: {other:?}"),
    };
    assert_eq!(message(&base("http", None)), "base_url must be hierarchical");
    assert_eq!(message(&base("ftp", Some(&[""]))), "base_url scheme must be http or https");
    let mut no_host = base("http", Some(&[""]));
    no_host.has_host = false;
    assert_eq!(message(&no_host), "base_url must include a host");
    let mut frag = base("https", Some(&[""]));
    frag.fragment = Some("top".to_string());
    assert_eq!(message(&frag), "base_url must not include query or fragment");
    assert!(base("https", Some(&[""])).check().is_ok());
}

#[test]
fn builder_defaults_and_api_base() {
    let b = ClientBuilder::new(base("http", Some(&["grafana"]))).unwrap();
    assert_eq!(b.retry.max_retries, 3);
    assert_eq!(b.retry.base_delay, Delay::from_millis(200));
    assert_eq!(b.retry.max_delay, Delay::from_secs(2));
    assert_eq!(b.transport.timeout, Delay::from_secs(30));
    assert_eq!(b.transport.connect_timeout, Delay::from_secs(10));
    assert!(b.body_snippet.enabled);
    assert_eq!(b.body_snippet.byte_limit, 4096);
    assert_eq!(b.default_headers.get("accept"), Some(&b"application/json".to_vec()));
    assert!(matches!(b.auth, Auth::Anonymous));
    assert_eq!(b.api_base_url().unwrap().path(), "/grafana/api");

    let api = ClientBuilder::new(base("http", Some(&["grafana", "api", ""]))).unwrap();
    assert_eq!(api.api_base_url().unwrap().path(), "/grafana/api/");
    let root = ClientBuilder::new(base("https", Some(&[""]))).unwrap();
    assert_eq!(root.api_base_url().unwrap().path(), "/api");
    assert!(ClientBuilder::new(base("ftp", Some(&[""]))).is_err());
}

#[test]
fn builder_settings() {
    let b = ClientBuilder::new(base("http", Some(&[""]))).unwrap()
        .max_retries(5)
        .retry_base_delay(Delay::zero())
        .retry_max_delay(Delay::from_secs(9))
        .timeout(Delay::from_secs(1))
        .connect_timeout(Delay::from_secs(2))
        .capture_body_snippet(false)
        .body_snippet_limit(10)
        .auth(Auth::basic("u", "p"))
        .user_agent("agent/1.0").unwrap()
        .org_id(-42).unwrap();
    assert_eq!(b.retry.max_retries, 5);
    assert!(b.retry.base_delay.is_zero());
    assert_eq!(b.retry.max_delay, Delay::from_secs(9));
    assert_eq!(b.transport.timeout, Delay::from_secs(1));
    assert_eq!(b.transport.connect_timeout, Delay::from_secs(2));
    assert!(!b.body_snippet.enabled);
    assert_eq!(b.body_snippet.byte_limit, 10);
    assert_eq!(b.default_headers.get("user-agent"), Some(&b"agent/1.0".to_vec()));
    assert_eq!(b.default_headers.get("x-grafana-org-id"), Some(&b"-42".to_vec()));
    let bad = ClientBuilder::new(base("http", Some(&[""]))).unwrap().user_agent("a\u{7f}b");
    assert_eq!(bad.err().unwrap().kind(), ErrorKind::InvalidConfig);
}

#[test]
fn integers_print_in_decimal() {
    assert_eq!(integer_string(0), "0");
    assert_eq!(integer_string(42), "42");
    assert_eq!(integer_string(-7), "-7");
    assert_eq!(integer_string(i64::MAX), "9223372036854775807");
    assert_eq!(integer_string(i64::MIN), "-9223372036854775808");
}
