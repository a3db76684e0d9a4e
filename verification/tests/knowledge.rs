use zhihu_cli::cli::{KbScope, RecallScope};
use zhihu_cli::commands::knowledge::{
    build_items_request, build_list_request, build_search_body, build_upload_form,
};
use zhihu_cli::error::ZhihuError;
use zhihu_cli::json::{Json, JsonNumber};

fn s(text: &str) -> Json {
    Json::String(text.to_string())
}

fn n(v: u64) -> Json {
    Json::Number(JsonNumber::PosInt(v))
}

#[test]
fn list_request_uses_scope() {
    let req = build_list_request(&KbScope::Subscribed);
    assert_eq!(req.path, "/api/v1/knowledge/bases");
    assert_eq!(req.scope, "subscribed");
}

#[test]
fn items_request_builds_path_and_limit() {
    let req = build_items_request("7526139256098382426", None, 20);
    assert_eq!(req.path, "/api/v1/knowledge/bases/7526139256098382426/items");
    assert_eq!(req.query, vec![("Limit", "20".to_string())]);
}

#[test]
fn items_request_includes_cursor_when_provided() {
    let req = build_items_request("kb-1", Some("next-cursor"), 20);
    assert_eq!(
        req.query,
        vec![
            ("Cursor", "next-cursor".to_string()),
            ("Limit", "20".to_string()),
        ]
    );
}

#[test]
fn items_request_omits_blank_cursor() {
    let req = build_items_request("kb-1", Some("   "), 20);
    assert_eq!(req.query, vec![("Limit", "20".to_string())]);
}

#[test]
fn items_request_limit_clamps_to_one_through_twenty() {
    let assert_limit = |limit: i32, expected: &str| {
        let req = build_items_request("kb-1", None, limit);
        let pair = req.query.iter().find(|(k, _)| *k == "Limit").unwrap();
        assert_eq!(pair.1, expected, "limit {limit} should clamp to {expected}");
    };
    assert_limit(0, "1");
    assert_limit(-1, "1");
    assert_limit(21, "20");
    assert_limit(100, "20");
    assert_limit(20, "20");
    assert_limit(15, "15");
}

#[test]
fn items_request_passes_cursor_untrimmed() {
    let req = build_items_request("kb-1", Some(" c "), 5);
    assert_eq!(req.query[0], ("Cursor", " c ".to_string()));
}

#[test]
fn search_body_requires_kb_ids_or_scopes() {
    let err = build_search_body("q", &[], &[], 10).unwrap_err();
    assert!(matches!(err, ZhihuError::InvalidArgument(ref msg) if msg.contains("kb-id")));
}

#[test]
fn search_body_rejects_blank_query() {
    let err = build_search_body("   ", &["kb-1".to_string()], &[], 10).unwrap_err();
    assert!(matches!(err, ZhihuError::InvalidArgument(ref msg) if msg.contains("query")));
}

#[test]
fn search_body_assembles_full_payload() {
    let body = build_search_body(
        " 退款规则 ",
        &["kb-1".to_string(), "kb-2".to_string()],
        &[RecallScope::Personal, RecallScope::Public],
        10,
    )
    .unwrap();
    assert_eq!(body.get("Query"), Some(&s("退款规则")));
    assert_eq!(body.get("KnowledgeBaseIDs"), Some(&Json::Array(vec![s("kb-1"), s("kb-2")])));
    assert_eq!(body.get("RecallScopes"), Some(&Json::Array(vec![s("personal"), s("public")])));
    assert_eq!(body.get("Limit"), Some(&n(10)));
}

#[test]
fn search_body_limit_clamps_to_one_through_ten() {
    let kb = vec!["kb-1".to_string()];
    let assert_limit = |limit: i32, expected: u64| {
        let body = build_search_body("q", &kb, &[], limit).unwrap();
        assert_eq!(body.get("Limit"), Some(&n(expected)));
    };
    assert_limit(0, 1);
    assert_limit(-2, 1);
    assert_limit(11, 10);
    assert_limit(99, 10);
    assert_limit(5, 5);
}

#[test]
fn search_body_accepts_scopes_without_ids() {
    let body = build_search_body("q", &[], &[RecallScope::Subscription], 3).unwrap();
    assert_eq!(body.get("KnowledgeBaseIDs"), Some(&Json::Array(vec![])));
    assert_eq!(body.get("RecallScopes"), Some(&Json::Array(vec![s("subscription")])));
}

#[test]
fn upload_form_names_file_after_last_component() {
    let form = build_upload_form("/tmp/docs/notes.txt", Some("7526139256098382426"));
    assert_eq!(form.field, "File");
    assert_eq!(form.file_name, "notes.txt");
    assert_eq!(form.mime, "text/plain");
    assert_eq!(form.kb_id.as_deref(), Some("7526139256098382426"));
}

#[test]
fn upload_form_without_kb_id_and_unknown_extension() {
    let form = build_upload_form("data.zzzunknown", None);
    assert_eq!(form.file_name, "data.zzzunknown");
    assert_eq!(form.mime, "application/octet-stream");
    assert!(form.kb_id.is_none());
}

#[test]
fn upload_form_falls_back_to_whole_path_without_file_name() {
    let form = build_upload_form("/", None);
    assert_eq!(form.file_name, "/");
    assert_eq!(form.mime, "application/octet-stream");
}
