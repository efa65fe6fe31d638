use grafana::json::{JsonValue};
use grafana::redact::{
    redact_body_snippet, redact_header_line, redact_inline_token, redact_prefixed_token,
    redact_text, should_redact_key, snippet_from_json, snippet_from_text, truncate_utf8_bytes,
    utf8_width,
};
use grafana::transport::{capture_snippet, BodySnippetConfig};

fn chars(s: &str) -> Vec<char> {
    s.chars().collect()
}

fn text(v: Vec<char>) -> String {
    v.into_iter().collect()
}

#[test]
fn json_secrets_never_leak() {
    let out = redact_body_snippet(br#"{"message":"failed","token":"SECRET123"}"#, 4096).unwrap();
    assert!(out.contains("<redacted>"));
    assert!(!out.contains("SECRET123"));
    assert!(out.contains("failed"));
}

#[test]
fn nested_json_secrets_are_redacted_at_any_depth() {
    let body = br#"{"items":[{"Password":"p1","name":"a"},{"inner":{"API_KEY":"k2"}}],"Authorization":"Bearer x"}"#;
    let out = redact_body_snippet(body, 4096).unwrap();
    assert!(!out.contains("p1"));
    assert!(!out.contains("k2"));
    assert!(!out.contains("Bearer x"));
    assert!(out.contains(r#""name":"a""#));
    assert_eq!(out.matches("<redacted>").count(), 3);
}

#[test]
fn redacted_json_is_stable_under_a_second_pass() {
    let once = redact_body_snippet(br#"{"token":{"deep":"x"},"list":[1,2,{"secret":null}]}"#, 4096).unwrap();
    let twice = redact_body_snippet(once.as_bytes(), 4096).unwrap();
    assert_eq!(once, twice);
    assert_eq!(once, r#"{"list":[1,2,{"secret":"<redacted>"}],"token":"<redacted>"}"#);
}

#[test]
fn header_style_text_is_redacted() {
    let out = redact_body_snippet(b"Authorization: Bearer abc.def", 4096).unwrap();
    assert_eq!(out, "Authorization: <redacted>");
    assert!(!out.contains("abc.def"));
}

#[test]
fn text_redaction_line_by_line() {
    assert_eq!(
        redact_text("GET /x\r\n  cookie : a=b\nnote Bearer tok123 end\nBasic Zm9v\n"),
        "GET /x\ncookie: <redacted>\nnote Bearer <redacted> end\nBasic <redacted>\n"
    );
    assert_eq!(redact_text("no secrets"), "no secrets");
    assert_eq!(redact_text(""), "");
    assert_eq!(redact_text("Bearer "), "Bearer ");
    assert_eq!(redact_text("x-token: keep"), "x-token: keep");
}

#[test]
fn header_line_and_token_helpers() {
    assert_eq!(
        redact_header_line(&chars(" AUTHORIZATION : Basic abc"), "authorization").map(text),
        Some("AUTHORIZATION: <redacted>".to_string())
    );
    assert_eq!(redact_header_line(&chars("no colon here"), "cookie"), None);
    assert_eq!(redact_header_line(&chars("set-cookie: a"), "cookie"), None);
    assert_eq!(
        text(redact_prefixed_token(&chars("a Bearer t1 b Bearer t2"), "Bearer ")),
        "a Bearer <redacted> b Bearer <redacted>"
    );
    assert_eq!(text(redact_prefixed_token(&chars("Bearer a Bearer b"), "Bearer ")), "Bearer <redacted> Bearer <redacted>");
    assert_eq!(text(redact_prefixed_token(&chars("Bearer  x"), "Bearer ")), "Bearer  x");
    assert_eq!(text(redact_prefixed_token(&chars("xBearer"), "Bearer ")), "xBearer");
    assert_eq!(
        text(redact_inline_token(&chars("Bearer x Basic y"))),
        "Bearer <redacted> Basic <redacted>"
    );
}

#[test]
fn secret_key_names() {
    for k in ["authorization", "Cookie", "PASSWORD", "secret", "client_secret", "token",
        "access_token", "Refresh_Token", "api_key", "ApiKey"] {
        assert!(should_redact_key(k), "{k}");
    }
    for k in ["tokens", "key", "", "passwords", "message"] {
        assert!(!should_redact_key(k), "{k}");
    }
}

#[test]
fn truncation_respects_characters_and_marks_cuts() {
    assert_eq!(truncate_utf8_bytes("hello", 5), "hello");
    assert_eq!(truncate_utf8_bytes("hello", 4), "hell...(truncated)");
    assert_eq!(truncate_utf8_bytes("héllo", 2), "h...(truncated)");
    assert_eq!(truncate_utf8_bytes("héllo", 3), "hé...(truncated)");
    assert_eq!(truncate_utf8_bytes("日本", 2), "...(truncated)");
    assert_eq!(truncate_utf8_bytes("日本", 3), "日...(truncated)");
    assert_eq!(truncate_utf8_bytes("", 0), "");
    assert_eq!(utf8_width('a'), 1);
    assert_eq!(utf8_width('é'), 2);
    assert_eq!(utf8_width('日'), 3);
    assert_eq!(utf8_width('😀'), 4);
}

#[test]
fn snippets_are_capped_and_optional() {
    assert_eq!(redact_body_snippet(b"", 10), None);
    assert_eq!(redact_body_snippet(b"abc", 0), None);
    assert_eq!(redact_body_snippet(b"abcdef", 3).unwrap(), "abc...(truncated)");
    assert_eq!(redact_body_snippet(br#"{"a":"bcdef"}"#, 5).unwrap(), r#"{"a":...(truncated)"#);
    let off = BodySnippetConfig { enabled: false, byte_limit: 100 };
    assert_eq!(capture_snippet(b"abc", &off), None);
    let on = BodySnippetConfig { enabled: true, byte_limit: 100 };
    assert_eq!(capture_snippet(b"abc", &on), Some("abc".to_string()));
}

#[test]
fn invalid_utf8_is_read_lossily() {
    let out = redact_body_snippet(&[0x61, 0xFF, 0x62], 100).unwrap();
    assert_eq!(out, "a\u{FFFD}b");
}

#[test]
fn snippet_parts_on_their_own() {
    let doc = JsonValue::Object {
        keys: vec!["token".to_string(), "n".to_string()],
        values: vec![JsonValue::String("s".to_string()), JsonValue::Bool(true)],
    };
    assert_eq!(snippet_from_json(doc, 100), r#"{"n":true,"token":"<redacted>"}"#);
    assert_eq!(snippet_from_text("Cookie: a=1", 100), "Cookie: <redacted>");
}
