use zhihu_cli::cli::{AskArgs, ModelTier};
use zhihu_cli::commands::ask::{
    ask_output, build_ask_body, chunk_lines, event_output, parse_sse_line, sse_events, sse_payload,
    stream_complete, JsonEvent,
};
use zhihu_cli::error::ZhihuError;
use zhihu_cli::json::{Json, JsonNumber};

fn args(query: &str, model: ModelTier, stream: bool) -> AskArgs {
    AskArgs { query: query.to_string(), model, stream }
}

fn s(text: &str) -> Json {
    Json::String(text.to_string())
}

fn to_json(v: &serde_json::Value) -> Json {
    match v {
        serde_json::Value::Null => Json::Null,
        serde_json::Value::Bool(b) => Json::Bool(*b),
        serde_json::Value::Number(n) => Json::Number(if let Some(u) = n.as_u64() {
            JsonNumber::PosInt(u)
        } else if let Some(i) = n.as_i64() {
            JsonNumber::NegInt(i)
        } else {
            JsonNumber::Float(n.to_string())
        }),
        serde_json::Value::String(t) => Json::String(t.clone()),
        serde_json::Value::Array(a) => Json::Array(a.iter().map(to_json).collect()),
        serde_json::Value::Object(m) => {
            Json::Object(m.iter().map(|(k, x)| (k.clone(), to_json(x))).collect())
        }
    }
}

fn parse(text: &str) -> Json {
    to_json(&serde_json::from_str::<serde_json::Value>(text).unwrap())
}

/// Parses a line the way the streaming loop does: the payload is decoded as
/// JSON, and what that gives is handed to `parse_sse_line`.
fn parse_line(line: &str) -> Vec<JsonEvent> {
    let decoded = sse_payload(line)
        .and_then(|p| serde_json::from_str::<serde_json::Value>(&p).ok())
        .map(|v| to_json(&v));
    parse_sse_line(line, decoded.as_ref())
}

fn delta(content: &str) -> Json {
    Json::Object(vec![("content".to_string(), s(content))])
}

fn message(body: &Json) -> &Json {
    match body.get("messages") {
        Some(Json::Array(items)) => &items[0],
        other => panic!("messages must be an array, got {other:?}"),
    }
}

#[test]
fn fast_model_uses_fast_api_name() {
    let body = build_ask_body(&args("hi", ModelTier::Fast, false));
    assert_eq!(body.get("model"), Some(&s("zhida-fast-1p5")));
}

#[test]
fn thinking_model_uses_thinking_api_name() {
    let body = build_ask_body(&args("hi", ModelTier::Thinking, false));
    assert_eq!(body.get("model"), Some(&s("zhida-thinking-1p5")));
}

#[test]
fn agent_model_uses_agent_api_name() {
    let body = build_ask_body(&args("hi", ModelTier::Agent, false));
    assert_eq!(body.get("model"), Some(&s("zhida-agent")));
}

#[test]
fn stream_true_is_reflected_in_body() {
    let body = build_ask_body(&args("hi", ModelTier::Fast, true));
    assert_eq!(body.get("stream"), Some(&Json::Bool(true)));
}

#[test]
fn stream_false_is_reflected_in_body() {
    let body = build_ask_body(&args("hi", ModelTier::Fast, false));
    assert_eq!(body.get("stream"), Some(&Json::Bool(false)));
}

#[test]
fn messages_is_single_user_message() {
    let body = build_ask_body(&args("hi", ModelTier::Fast, false));
    match body.get("messages") {
        Some(Json::Array(items)) => assert_eq!(items.len(), 1, "expected exactly one message"),
        other => panic!("messages must be an array, got {other:?}"),
    }
    assert_eq!(message(&body).get("role"), Some(&s("user")));
    assert_eq!(message(&body).get("content"), Some(&s("hi")));
}

#[test]
fn multi_word_query_preserved() {
    let body = build_ask_body(&args("hello  world", ModelTier::Fast, false));
    assert_eq!(message(&body).get("content"), Some(&s("hello  world")));
}

#[test]
fn unicode_query_preserved() {
    let body = build_ask_body(&args("你好，世界", ModelTier::Fast, false));
    assert_eq!(message(&body).get("content"), Some(&s("你好，世界")));
}

#[test]
fn body_has_exactly_three_top_level_keys() {
    let body = build_ask_body(&args("hi", ModelTier::Fast, false));
    let mut keys: Vec<&str> = match &body {
        Json::Object(members) => members.iter().map(|(k, _)| k.as_str()).collect(),
        other => panic!("body must be an object, got {other:?}"),
    };
    keys.sort_unstable();
    assert_eq!(keys, vec!["messages", "model", "stream"], "unexpected top-level keys");
    assert_eq!(
        body,
        Json::Object(vec![
            ("model".to_string(), s("zhida-fast-1p5")),
            (
                "messages".to_string(),
                Json::Array(vec![Json::Object(vec![
                    ("role".to_string(), s("user")),
                    ("content".to_string(), s("hi")),
                ])]),
            ),
            ("stream".to_string(), Json::Bool(false)),
        ])
    );
}

#[test]
fn empty_line_yields_no_events() {
    assert_eq!(parse_line(""), Vec::<JsonEvent>::new());
}

#[test]
fn whitespace_only_line_yields_no_events() {
    assert_eq!(parse_line("   "), Vec::<JsonEvent>::new());
}

#[test]
fn comment_line_is_skipped() {
    assert_eq!(parse_line(":heartbeat"), Vec::<JsonEvent>::new());
}

#[test]
fn done_marker_is_skipped() {
    assert_eq!(parse_line("data: [DONE]"), Vec::<JsonEvent>::new());
}

#[test]
fn data_with_delta_yields_one_delta_event() {
    let line = r#"data: {"choices":[{"delta":{"content":"hi"}}]}"#;
    assert_eq!(parse_line(line), vec![JsonEvent::Delta(delta("hi"))]);
}

#[test]
fn data_with_finish_reason_yields_one_finish_event() {
    let line = r#"data: {"choices":[{"finish_reason":"stop"}]}"#;
    assert_eq!(parse_line(line), vec![JsonEvent::Finish("stop".to_string())]);
}

#[test]
fn data_with_delta_and_finish_reason_yields_both_in_order() {
    let line = r#"data: {"choices":[{"delta":{"content":"x"},"finish_reason":"stop"}]}"#;
    assert_eq!(
        parse_line(line),
        vec![JsonEvent::Delta(delta("x")), JsonEvent::Finish("stop".to_string())]
    );
}

#[test]
fn data_with_empty_delta_and_no_finish_yields_nothing() {
    let line = r#"data: {"choices":[{"delta":{}}]}"#;
    assert_eq!(parse_line(line), Vec::<JsonEvent>::new());
}

#[test]
fn malformed_json_is_skipped() {
    assert_eq!(parse_line("data: {not valid json"), Vec::<JsonEvent>::new());
}

#[test]
fn line_without_data_prefix_is_ignored() {
    assert_eq!(parse_line("event: foo"), Vec::<JsonEvent>::new());
}

#[test]
fn data_prefix_without_space_is_rejected() {
    let line = r#"data:{"choices":[{"delta":{"content":"noSpace"}}]}"#;
    assert_eq!(parse_line(line), Vec::<JsonEvent>::new());
}

#[test]
fn unicode_content_in_delta_is_preserved() {
    let line = r#"data: {"choices":[{"delta":{"content":"中文"}}]}"#;
    assert_eq!(parse_line(line), vec![JsonEvent::Delta(delta("中文"))]);
}

#[test]
fn sse_payload_strips_prefix_after_trimming() {
    assert_eq!(sse_payload("  data: {\"a\":1}  ").as_deref(), Some("{\"a\":1}"));
    assert_eq!(sse_payload("data: "), None);
    assert_eq!(sse_payload("data:  x").as_deref(), Some(" x"));
    assert_eq!(sse_payload("data: [DONE] "), None);
    assert_eq!(sse_payload(": data: x"), None);
}

#[test]
fn sse_events_ignore_non_object_delta_and_non_string_reason() {
    let event = parse(r#"{"choices":[{"delta":"text","finish_reason":3}]}"#);
    assert!(sse_events(&event).is_empty());
    let event = parse(r#"{"choices":{"0":{"finish_reason":"length"}}}"#);
    assert_eq!(sse_events(&event), vec![JsonEvent::Finish("length".to_string())]);
    let event = parse(r#"{"choices":[]}"#);
    assert!(sse_events(&event).is_empty());
}

#[test]
fn decoded_payload_is_ignored_for_lines_without_payload() {
    let event = parse(r#"{"choices":[{"finish_reason":"stop"}]}"#);
    assert!(parse_sse_line("event: foo", Some(&event)).is_empty());
    assert_eq!(
        parse_sse_line("data: ignored", Some(&event)),
        vec![JsonEvent::Finish("stop".to_string())]
    );
}

#[test]
fn print_ask_result_streams_ok_drops_sentinel() {
    let result: Result<Json, ZhihuError> = Ok(stream_complete());
    assert_eq!(ask_output(result, true).unwrap(), None);
}

#[test]
fn print_ask_result_non_stream_ok_prints() {
    let value = parse(r#"{"id": "x", "choices": []}"#);
    let result: Result<Json, ZhihuError> = Ok(parse(r#"{"id": "x", "choices": []}"#));
    assert_eq!(ask_output(result, false).unwrap(), Some(value));
}

#[test]
fn print_ask_result_non_stream_err_propagates() {
    let result: Result<Json, ZhihuError> = Err(ZhihuError::MissingSecret);
    let err = ask_output(result, false).expect_err("Err should propagate");
    assert!(matches!(err, ZhihuError::MissingSecret));
}

#[test]
fn print_ask_result_stream_err_propagates() {
    let result: Result<Json, ZhihuError> =
        Err(ZhihuError::Api { status: 500, body: "boom".into() });
    let err = ask_output(result, true).expect_err("Err should propagate even in stream mode");
    assert!(matches!(err, ZhihuError::Api { .. }));
}

#[test]
fn stream_complete_reply() {
    assert_eq!(stream_complete(), parse(r#"{"status":"stream_complete"}"#));
}

#[test]
fn event_output_lines() {
    assert_eq!(event_output(&JsonEvent::Delta(delta("hi"))), parse(r#"{"delta":{"content":"hi"}}"#));
    assert_eq!(
        event_output(&JsonEvent::Finish("stop".to_string())),
        parse(r#"{"finish_reason":"stop"}"#)
    );
}

#[test]
fn chunk_lines_split_like_str_lines() {
    assert_eq!(chunk_lines(b"a\nb\r\n\nc"), vec!["a", "b", "", "c"]);
    assert_eq!(chunk_lines(b"a\n"), vec!["a"]);
    assert_eq!(chunk_lines(b""), Vec::<String>::new());
    assert_eq!(chunk_lines(b"x\ry\r"), vec!["x\ry\r"]);
    assert_eq!(chunk_lines(b"ok\xffno\n"), vec!["ok\u{FFFD}no"]);
}
