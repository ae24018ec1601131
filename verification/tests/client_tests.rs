use torizon_cloud_cli::auth::token_from_reply;
use torizon_cloud_cli::output::{out_text, Out};
use torizon_cloud_cli::client::take_reply;
use torizon_cloud_cli::json::{compact_text, Json};
use torizon_cloud_cli::client::{
    encode_segment, judge_reply, parse_context, rate_limit_notice, rate_limit_step, request_context,
    url, Reply, Retry, DEFAULT_RETRY_WAIT_SECS, MAX_RATE_LIMIT_RETRIES,
};

#[test]
fn url_appends_path() {
    assert_eq!(url("https://app.torizon.io/api/v2", "/devices"), "https://app.torizon.io/api/v2/devices");
}

#[test]
fn rate_limit_uses_retry_after() {
    match rate_limit_step(420, 0, Some(" 7 ")) {
        Retry::Again { wait_secs, attempt } => {
            assert_eq!(wait_secs, 7);
            assert_eq!(attempt, 1);
        }
        Retry::Done => panic!("expected a retry"),
    }
}

#[test]
fn rate_limit_falls_back_to_default_wait() {
    for header in [None, Some("soon"), Some(""), Some("-1"), Some("1.5")] {
        match rate_limit_step(420, 2, header) {
            Retry::Again { wait_secs, attempt } => {
                assert_eq!(wait_secs, DEFAULT_RETRY_WAIT_SECS);
                assert_eq!(attempt, 3);
            }
            Retry::Done => panic!("expected a retry"),
        }
    }
}

#[test]
fn rate_limit_gives_up_after_the_limit() {
    assert!(matches!(rate_limit_step(420, MAX_RATE_LIMIT_RETRIES, Some("1")), Retry::Done));
    assert!(matches!(rate_limit_step(200, 0, Some("1")), Retry::Done));
    assert!(matches!(rate_limit_step(429, 0, None), Retry::Done));
}

#[test]
fn retries_are_bounded_scenario() {
    let mut attempt = 0u32;
    let mut sends = 1u32;
    while let Retry::Again { attempt: next, .. } = rate_limit_step(420, attempt, None) {
        assert_eq!(next, attempt + 1);
        attempt = next;
        sends += 1;
    }
    assert_eq!(sends, MAX_RATE_LIMIT_RETRIES + 1);
}

#[test]
fn notice_text() {
    assert_eq!(rate_limit_notice(2, 1), "rate limited (HTTP 420); waiting 2s (retry 1/5)");
}

#[test]
fn replies_are_judged() {
    match judge_reply("/devices", 404, "  not found\n") {
        Reply::Failed(m) => assert_eq!(m, "/devices returned HTTP 404: not found"),
        _ => panic!("expected a failure"),
    }
    assert!(matches!(judge_reply("/devices", 204, ""), Reply::Empty));
    assert!(matches!(judge_reply("/devices", 200, " \n\t"), Reply::Empty));
    assert!(matches!(judge_reply("/devices", 200, "[]"), Reply::Body));
    match judge_reply("/x", 500, "") {
        Reply::Failed(m) => assert_eq!(m, "/x returned HTTP 500: "),
        _ => panic!("expected a failure"),
    }
    assert!(matches!(judge_reply("/x", 199, "ok"), Reply::Failed(_)));
    assert!(matches!(judge_reply("/x", 300, "ok"), Reply::Failed(_)));
}

#[test]
fn contexts() {
    assert_eq!(request_context("/fleets"), "requesting /fleets");
    assert_eq!(parse_context("/fleets"), "parsing response from /fleets");
}

#[test]
fn segments_are_percent_encoded() {
    assert_eq!(encode_segment("abc-XYZ_0.9~"), "abc-XYZ_0.9~");
    assert_eq!(encode_segment("a b/c"), "a%20b%2Fc");
    assert_eq!(encode_segment("é"), "%C3%A9");
    assert_eq!(encode_segment(""), "");
    assert_eq!(encode_segment("2024-01-01T00:00:00Z"), "2024-01-01T00%3A00%3A00Z");
}

#[test]
fn replies_are_taken() {
    match take_reply("/devices", 200, " {\"values\":[1,\"a\"],\"total\":2} ") {
        Ok(j) => {
            assert_eq!(compact_text(&j), "{\"total\":2,\"values\":[1,\"a\"]}");
            assert!(matches!(j.get("values"), Some(Json::Array(a)) if a.len() == 2));
        }
        Err(m) => panic!("unexpected error {m}"),
    }
    assert!(matches!(take_reply("/devices", 204, "  "), Ok(Json::Null)));
    assert_eq!(take_reply("/devices", 404, " gone ").err(), Some("/devices returned HTTP 404: gone".to_string()));
    match take_reply("/fleets", 200, "not json") {
        Err(m) => {
            let d = serde_json::from_str::<serde_json::Value>("not json").unwrap_err().to_string();
            assert_eq!(m, format!("parsing response from /fleets: {d}"));
        }
        Ok(_) => panic!("expected a parse error"),
    }
    match take_reply("/n", 200, "-1.5e3") {
        Ok(Json::Number { display, json }) => {
            assert_eq!(display, "-1500.0");
            assert_eq!(json, "-1500.0");
        }
        _ => panic!("expected a number"),
    }
}

#[test]
fn token_replies_are_read() {
    assert_eq!(
        token_from_reply("{\"access_token\":\"abc\",\"expires_in\":300,\"token_type\":\"Bearer\"}"),
        Ok(("abc".to_string(), 300))
    );
    let shape = "parsing token response: expected a string `access_token` and an unsigned integer `expires_in`";
    assert_eq!(token_from_reply("{\"access_token\":\"abc\"}").err().as_deref(), Some(shape));
    assert_eq!(token_from_reply("{\"access_token\":\"abc\",\"expires_in\":-1}").err().as_deref(), Some(shape));
    assert_eq!(token_from_reply("{\"access_token\":\"abc\",\"expires_in\":1.5}").err().as_deref(), Some(shape));
    assert_eq!(token_from_reply("{\"access_token\":7,\"expires_in\":1}").err().as_deref(), Some(shape));
    let d = serde_json::from_str::<serde_json::Value>("oops").unwrap_err().to_string();
    assert_eq!(token_from_reply("oops").err(), Some(format!("parsing token response: {d}")));
}

#[test]
fn output_text_is_printed_pretty() {
    let doc = Json::object(vec![
        ("b".to_string(), Json::integer(1)),
        ("a".to_string(), Json::Array(vec![Json::string("x")])),
    ]);
    assert_eq!(out_text(&Out::Pretty(doc)), "{\n  \"a\": [\n    \"x\"\n  ],\n  \"b\": 1\n}");
    assert_eq!(out_text(&Out::Line("plain".to_string())), "plain");
    assert_eq!(out_text(&Out::Pretty(Json::Null)), "null");
}
