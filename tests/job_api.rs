use job_api::{
    authorization_header, authorization_text, credential_hint, decode_job_result, frame_body,
    is_success_status, job_result_from_members, job_status_url, plan_status, plan_submit,
    read_output_field, read_text_field, settle_reply, ApiError, JobRequest, JobResult, Member,
    Method, Reply, POOL_IDLE_TIMEOUT_SECS, REQUEST_TIMEOUT_SECS,
};
use serde_json::Value;

fn json(text: &str) -> Value {
    serde_json::from_str(text).unwrap()
}

fn received(status_code: u16, body: &str) -> Reply {
    Reply::Received { status_code, body: body.to_string() }
}

fn hi_request() -> JobRequest {
    JobRequest::new("v1".to_string(), r#"{"prompt":"hi"}"#.to_string(), false)
}

#[test]
fn submit_plan_carries_header_and_body() {
    let plan = plan_submit("tok_abc", &hi_request()).unwrap();
    assert_eq!(plan.method, Method::Post);
    assert_eq!(plan.url, "https://api.replicate.com/v1/predictions");
    assert_eq!(plan.authorization, "Token tok_abc");
    assert_eq!(plan.content_type.as_deref(), Some("application/json"));
    assert_eq!(
        plan.body.as_deref(),
        Some(r#"{"version":"v1","input":{"prompt":"hi"},"stream":false}"#)
    );
}

#[test]
fn submit_body_round_trips_to_the_request() {
    let input = json(r#"{"a":[1,2,{"b":null}]}"#);
    let req = JobRequest::new("ver \"x\"\n".to_string(), input.to_string(), true);
    let plan = plan_submit("tok", &req).unwrap();
    let body: Value = json(plan.body.as_deref().unwrap());
    assert_eq!(body["version"], Value::String("ver \"x\"\n".to_string()));
    assert_eq!(body["input"], input);
    assert_eq!(body["stream"], Value::Bool(true));
    assert_eq!(body.as_object().unwrap().len(), 3);
}

#[test]
fn submit_body_escapes_the_version() {
    let req = JobRequest::new("a\"b".to_string(), "null".to_string(), true);
    let plan = plan_submit("tok", &req).unwrap();
    assert_eq!(plan.body.as_deref(), Some(r#"{"version":"a\"b","input":null,"stream":true}"#));
    let req = JobRequest::new("\\\u{1}\u{8}\u{c}\r\t\u{1f}\u{7f}\u{e9}/".to_string(), "1".to_string(), false);
    let plan = plan_submit("tok", &req).unwrap();
    assert_eq!(
        plan.body.as_deref(),
        Some("{\"version\":\"\\\\\\u0001\\b\\f\\r\\t\\u001f\u{7f}\u{e9}/\",\"input\":1,\"stream\":false}")
    );
}

#[test]
fn status_plan_is_a_bare_get() {
    let plan = plan_status("tok_abc", "p1").unwrap();
    assert_eq!(plan.method, Method::Get);
    assert_eq!(plan.url, "https://api.replicate.com/v1/predictions/p1");
    assert_eq!(plan.authorization, "Token tok_abc");
    assert!(plan.content_type.is_none());
    assert!(plan.body.is_none());
}

#[test]
fn status_url_keeps_job_id_verbatim() {
    assert_eq!(job_status_url("a b/c?d"), "https://api.replicate.com/v1/predictions/a b/c?d");
    assert_eq!(job_status_url(""), "https://api.replicate.com/v1/predictions/");
}

#[test]
fn frame_body_writes_exact_text() {
    assert_eq!(frame_body("\"v\"", "[1]", true), r#"{"version":"v","input":[1],"stream":true}"#);
    assert_eq!(frame_body("\"\"", "{}", false), r#"{"version":"","input":{},"stream":false}"#);
}

#[test]
fn newline_in_credential_is_invalid() {
    assert!(matches!(plan_submit("tok\nabc", &hi_request()), Err(ApiError::InvalidCredential(_))));
    assert!(matches!(plan_status("tok\nabc", "p1"), Err(ApiError::InvalidCredential(_))));
    assert!(matches!(authorization_header("\r"), Err(ApiError::InvalidCredential(_))));
    assert!(matches!(authorization_header("a\u{7f}"), Err(ApiError::InvalidCredential(_))));
    assert!(matches!(authorization_header("a\u{0}b"), Err(ApiError::InvalidCredential(_))));
}

#[test]
fn tab_and_non_ascii_credentials_are_accepted() {
    assert_eq!(authorization_header("a\tb"), Ok("Token a\tb".to_string()));
    assert_eq!(authorization_header("t\u{f6}k\u{e9}n"), Ok("Token t\u{f6}k\u{e9}n".to_string()));
    assert_eq!(authorization_header(""), Ok("Token ".to_string()));
    assert_eq!(authorization_text(""), "Token ");
}

#[test]
fn credential_hint_never_shows_whole_credential() {
    assert_eq!(credential_hint("tok_abcdef"), "tok_a");
    assert_eq!(credential_hint("tok_ab"), "tok_a");
    assert_eq!(credential_hint("tok_a"), "");
    assert_eq!(credential_hint(""), "");
    assert_eq!(credential_hint("\u{e9}\u{e9}\u{e9}\u{e9}\u{e9}\u{e9}"), "");
    assert_eq!(credential_hint("ab\u{e9}cdefg"), "ab");
    assert_eq!(credential_hint("abcd\u{e9}fg"), "abcd");
    assert_eq!(credential_hint("abcde\u{e9}"), "abcde");
}

#[test]
fn success_range_edges() {
    assert!(!is_success_status(199));
    assert!(is_success_status(200));
    assert!(is_success_status(201));
    assert!(is_success_status(299));
    assert!(!is_success_status(300));
    assert!(!is_success_status(404));
}

#[test]
fn created_job_is_decoded() {
    let r = settle_reply(received(201, r#"{"id":"p1","status":"starting"}"#)).unwrap();
    assert_eq!(
        r,
        JobResult {
            id: Some("p1".to_string()),
            status: Some("starting".to_string()),
            output: None,
            error: None,
            detail: None,
        }
    );
}

#[test]
fn finished_job_has_output() {
    let r = settle_reply(received(200, r#"{"id":"p1","status":"succeeded","output":{"text":"hello"}}"#))
        .unwrap();
    assert_eq!(r.id.as_deref(), Some("p1"));
    assert_eq!(r.status.as_deref(), Some("succeeded"));
    assert_eq!(r.output, Some(json(r#"{"text":"hello"}"#)));
    assert!(r.error.is_none());
    assert!(r.detail.is_none());
}

#[test]
fn all_fields_and_unknown_keys() {
    let r = decode_job_result(
        r#"{"id":"x","status":"failed","output":"o","error":"boom","detail":"d","extra":[1]}"#,
    )
    .unwrap();
    assert_eq!(r.id.as_deref(), Some("x"));
    assert_eq!(r.status.as_deref(), Some("failed"));
    assert_eq!(r.output, Some(Value::String("o".to_string())));
    assert_eq!(r.error.as_deref(), Some("boom"));
    assert_eq!(r.detail.as_deref(), Some("d"));
}

#[test]
fn null_fields_are_absent() {
    let r = decode_job_result(r#"{"id":null,"output":null,"detail":"Not found."}"#).unwrap();
    assert!(r.id.is_none());
    assert!(r.output.is_none());
    assert_eq!(r.detail.as_deref(), Some("Not found."));
    let empty = decode_job_result("{}").unwrap();
    assert!(empty.id.is_none() && empty.status.is_none() && empty.output.is_none());
}

#[test]
fn non_success_is_remote_with_verbatim_body() {
    assert_eq!(
        settle_reply(received(404, r#"{"detail":"Not found."}"#)),
        Err(ApiError::Remote { status_code: 404, body: r#"{"detail":"Not found."}"#.to_string() })
    );
    assert_eq!(
        settle_reply(received(500, "<html>oops")),
        Err(ApiError::Remote { status_code: 500, body: "<html>oops".to_string() })
    );
    assert_eq!(
        settle_reply(received(302, "")),
        Err(ApiError::Remote { status_code: 302, body: String::new() })
    );
}

#[test]
fn success_with_bad_body_is_malformed() {
    assert!(matches!(settle_reply(received(200, "not json")), Err(ApiError::MalformedResponse(_))));
    assert!(matches!(settle_reply(received(200, "")), Err(ApiError::MalformedResponse(_))));
    assert!(matches!(settle_reply(received(200, "{\"id\":")), Err(ApiError::MalformedResponse(_))));
    assert!(matches!(settle_reply(received(200, "[1,2]")), Err(ApiError::MalformedResponse(_))));
    assert!(matches!(settle_reply(received(200, "{\"id\":5}")), Err(ApiError::MalformedResponse(_))));
    assert!(matches!(settle_reply(received(200, "{\"error\":{}}")), Err(ApiError::MalformedResponse(_))));
}

#[test]
fn transport_failure_is_passed_on() {
    assert_eq!(
        settle_reply(Reply::TransportFailed("timed out".to_string())),
        Err(ApiError::Transport("timed out".to_string()))
    );
}

#[test]
fn members_make_a_record() {
    let r = job_result_from_members(
        Member::Text("p1".to_string(), Value::String("p1".to_string())),
        Member::Absent,
        Member::Other(json("[1]")),
        Member::Null,
        Member::Absent,
    )
    .unwrap();
    assert_eq!(r.id.as_deref(), Some("p1"));
    assert_eq!(r.output, Some(json("[1]")));
    assert!(r.status.is_none() && r.error.is_none() && r.detail.is_none());
    assert!(matches!(
        job_result_from_members(Member::NotObject, Member::NotObject, Member::NotObject, Member::NotObject, Member::NotObject),
        Err(ApiError::MalformedResponse(_))
    ));
}

#[test]
fn single_fields() {
    assert_eq!(read_text_field(Member::Text("a".to_string(), Value::String("a".to_string()))), Ok(Some("a".to_string())));
    assert_eq!(read_text_field(Member::Null), Ok(None));
    assert!(matches!(read_text_field(Member::Other(Value::Bool(true))), Err(ApiError::MalformedResponse(_))));
    assert_eq!(read_output_field(Member::Absent), Ok(None));
    assert_eq!(
        read_output_field(Member::Text("t".to_string(), Value::String("t".to_string()))),
        Ok(Some(Value::String("t".to_string())))
    );
    assert!(matches!(read_output_field(Member::NotObject), Err(ApiError::MalformedResponse(_))));
}

#[test]
fn client_timeouts() {
    assert_eq!(POOL_IDLE_TIMEOUT_SECS, 30);
    assert_eq!(REQUEST_TIMEOUT_SECS, 60);
}

#[test]
fn both_calls_settle_one_reply_alike() {
    let body = r#"{"id":"p9","status":"processing","output":[1,"two"]}"#;
    let a = settle_reply(received(200, body));
    let b = settle_reply(received(200, body));
    assert_eq!(a, b);
    assert_eq!(a.unwrap().output, Some(json(r#"[1,"two"]"#)));
    assert_eq!(settle_reply(received(429, "slow down")), settle_reply(received(429, "slow down")));
}

#[test]
fn string_output_keeps_its_value() {
    let r = decode_job_result(r#"{"output":"done","status":"succeeded"}"#).unwrap();
    assert_eq!(r.output, Some(Value::String("done".to_string())));
    let r = decode_job_result(r#"{"output":0}"#).unwrap();
    assert_eq!(r.output, Some(json("0")));
}
