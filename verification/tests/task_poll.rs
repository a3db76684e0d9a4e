use zhihu_cli::error::ZhihuError;
use zhihu_cli::json::{Json, JsonNumber};
use zhihu_cli::task_poll::{
    flow_step, is_terminal, poll_step, start_pdf_parse, start_ppt_generate, task_id_of, FlowAction,
    FlowEvent, TaskKind,
};

fn to_json(v: &serde_json::Value) -> Json {
    match v {
        serde_json::Value::Null => Json::Null,
        serde_json::Value::Bool(b) => Json::Bool(*b),
        serde_json::Value::Number(n) => Json::Number(if let Some(u) = n.as_u64() {
            JsonNumber::PosInt(u)
        } else if let Some(i) = n.as_i64() {
            JsonNumber::NegInt(i)
        } else {
            JsonNumber::Float(n.to_string())
        }),
        serde_json::Value::String(t) => Json::String(t.clone()),
        serde_json::Value::Array(a) => Json::Array(a.iter().map(to_json).collect()),
        serde_json::Value::Object(m) => {
            Json::Object(m.iter().map(|(k, x)| (k.clone(), to_json(x))).collect())
        }
    }
}

fn parse(text: &str) -> Json {
    to_json(&serde_json::from_str::<serde_json::Value>(text).unwrap())
}

#[test]
fn is_terminal_true_for_succeeded_and_failed() {
    for status in ["succeeded", "failed"] {
        let task = parse(&format!(r#"{{ "Code": 0, "Data": {{ "task_status": "{status}" }} }}"#));
        assert!(is_terminal(&task), "{status} should be terminal");
    }
}

#[test]
fn is_terminal_false_for_pending_and_running() {
    for status in ["pending", "running"] {
        let task = parse(&format!(r#"{{ "Code": 0, "Data": {{ "task_status": "{status}" }} }}"#));
        assert!(!is_terminal(&task), "{status} should not be terminal");
    }
}

#[test]
fn is_terminal_true_for_nonzero_code_envelope() {
    let task = parse(r#"{ "Code": 10001, "Message": "file_id is invalid", "Data": null }"#);
    assert!(is_terminal(&task));
}

#[test]
fn is_terminal_false_for_missing_status() {
    let task = parse(r#"{ "Code": 0, "Data": null }"#);
    assert!(!is_terminal(&task));
}

#[test]
fn is_terminal_true_without_integer_zero_code() {
    assert!(is_terminal(&parse(r#"{ "Data": { "task_status": "running" } }"#)));
    assert!(is_terminal(&parse(r#"{ "Code": "0", "Data": { "task_status": "running" } }"#)));
    assert!(is_terminal(&parse(r#"{ "Code": 0.0, "Data": { "task_status": "running" } }"#)));
    assert!(is_terminal(&parse(r#"{ "Code": -0, "Data": { "task_status": "running" } }"#)));
    assert!(!is_terminal(&parse(r#"{ "Code": 0, "Data": { "task_status": "running" } }"#)));
}

#[test]
fn poll_step_returns_final_task() {
    let task = parse(r#"{ "Code": 0, "Data": { "task_id": "t-1", "task_status": "succeeded" } }"#);
    let expected = parse(r#"{ "Code": 0, "Data": { "task_id": "t-1", "task_status": "succeeded" } }"#);
    match poll_step(task, true, "t-1", 30) {
        Some(Ok(t)) => assert_eq!(t, expected),
        other => panic!("unexpected {other:?}"),
    }
}

#[test]
fn poll_step_times_out_with_task_timeout_error() {
    let task = parse(r#"{ "Code": 0, "Data": { "task_id": "t-1", "task_status": "running" } }"#);
    match poll_step(task, true, "t-1", 0) {
        Some(Err(ZhihuError::TaskTimeout { task_id, waited_secs })) => {
            assert_eq!(task_id, "t-1");
            assert_eq!(waited_secs, 0);
        }
        other => panic!("unexpected {other:?}"),
    }
}

#[test]
fn poll_step_waits_before_the_deadline() {
    let task = parse(r#"{ "Code": 0, "Data": { "task_status": "running" } }"#);
    assert!(poll_step(task, false, "t-1", 30).is_none());
}

#[test]
fn task_id_is_extracted_or_rejected() {
    assert_eq!(task_id_of(&parse(r#"{"Data":{"task_id":"pdf_1"}}"#)).unwrap(), "pdf_1");
    match task_id_of(&parse(r#"{"Data":{"task_id":1}}"#)).unwrap_err() {
        ZhihuError::InvalidArgument(msg) => {
            assert_eq!(msg, "task response did not contain Data.task_id")
        }
        other => panic!("unexpected {other:?}"),
    }
}

#[test]
fn pdf_parse_flow_uploads_creates_and_polls_until_final() {
    let (state, action) = start_pdf_parse();
    assert!(matches!(action, FlowAction::Upload));
    let upload = parse(r#"{"Code":0,"Data":{"file_id":"file_abc"}}"#);
    let (state, action) = flow_step(TaskKind::PdfParse, state, FlowEvent::Uploaded(upload), 30);
    match &action {
        FlowAction::CreateTask(body) => assert_eq!(body, &parse(r#"{"file_id":"file_abc"}"#)),
        other => panic!("unexpected {other:?}"),
    }
    let created = parse(r#"{"Code":0,"Data":{"task_id":"pdf_1"}}"#);
    let (state, action) = flow_step(TaskKind::PdfParse, state, FlowEvent::Created(created), 30);
    match &action {
        FlowAction::Poll { path, pause } => {
            assert_eq!(path, "/api/v1/pdf-parse/tasks/pdf_1");
            assert!(!pause);
        }
        other => panic!("unexpected {other:?}"),
    }
    let running = parse(r#"{"Code":0,"Data":{"task_status":"running"}}"#);
    let (state, action) = flow_step(TaskKind::PdfParse, state, FlowEvent::Polled(running, false), 30);
    assert!(matches!(action, FlowAction::Poll { pause: true, .. }));
    let done = parse(r#"{"Code":0,"Data":{"task_status":"succeeded"}}"#);
    let (_, action) = flow_step(TaskKind::PdfParse, state, FlowEvent::Polled(done, false), 30);
    match action {
        FlowAction::Finish(Ok(t)) => {
            assert_eq!(t, parse(r#"{"Code":0,"Data":{"task_status":"succeeded"}}"#))
        }
        other => panic!("unexpected {other:?}"),
    }
}

#[test]
fn ppt_generate_flow_times_out_and_reports_failures() {
    let (state, action) = start_ppt_generate("https://www.zhihu.com/answer/1", 3);
    match &action {
        FlowAction::CreateTask(body) => assert_eq!(
            body,
            &Json::Object(vec![
                ("resource_url".to_string(), Json::String("https://www.zhihu.com/answer/1".to_string())),
                ("num_pages".to_string(), Json::Number(JsonNumber::PosInt(6))),
            ])
        ),
        other => panic!("unexpected {other:?}"),
    }
    let created = parse(r#"{"Data":{"task_id":"ppt_9"}}"#);
    let (state, action) = flow_step(TaskKind::PptGenerate, state, FlowEvent::Created(created), 5);
    assert!(matches!(action, FlowAction::Poll { ref path, pause: false } if path == "/api/v1/ppt-generation/tasks/ppt_9"));
    let running = parse(r#"{"Code":0,"Data":{"task_status":"pending"}}"#);
    let (_, action) = flow_step(TaskKind::PptGenerate, state, FlowEvent::Polled(running, true), 5);
    match action {
        FlowAction::Finish(Err(ZhihuError::TaskTimeout { task_id, waited_secs })) => {
            assert_eq!(task_id, "ppt_9");
            assert_eq!(waited_secs, 5);
        }
        other => panic!("unexpected {other:?}"),
    }
    let (state, _) = start_ppt_generate("u", 10);
    let (_, action) =
        flow_step(TaskKind::PptGenerate, state, FlowEvent::Failed(ZhihuError::NonJsonResponse), 5);
    assert!(matches!(action, FlowAction::Finish(Err(ZhihuError::NonJsonResponse))));
    let (state, _) = start_ppt_generate("u", 10);
    let (_, action) =
        flow_step(TaskKind::PptGenerate, state, FlowEvent::Created(parse(r#"{"Data":{}}"#)), 5);
    assert!(matches!(action, FlowAction::Finish(Err(ZhihuError::InvalidArgument(_)))));
}
