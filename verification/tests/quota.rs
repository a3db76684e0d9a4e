use zhihu_cli::cli::QuotaArgs;
use zhihu_cli::commands::quota::build_request;

#[test]
fn quota_request_uses_quota_path() {
    let args = QuotaArgs { ids: vec![] };
    let req = build_request(&args);
    assert_eq!(req.path, "/api/v1/quota");
}

#[test]
fn quota_request_omits_apiids_for_empty_ids() {
    let args = QuotaArgs { ids: vec![] };
    let req = build_request(&args);
    assert!(req.query.is_empty());
}

#[test]
fn quota_request_joins_ids_with_comma() {
    let args = QuotaArgs { ids: vec!["knowledge".into(), "zhihu_search".into()] };
    let req = build_request(&args);
    assert_eq!(req.query, vec![("APIIDs", "knowledge,zhihu_search".to_string())]);
}

#[test]
fn quota_request_trims_and_drops_empty_ids() {
    let args = QuotaArgs { ids: vec!["  knowledge ".into(), "".into(), "tools".into()] };
    let req = build_request(&args);
    assert_eq!(req.query, vec![("APIIDs", "knowledge,tools".to_string())]);
}

#[test]
fn quota_request_omits_apiids_when_every_id_is_blank() {
    let args = QuotaArgs { ids: vec!["  ".into(), "".into(), "\t".into()] };
    let req = build_request(&args);
    assert!(req.query.is_empty());
    assert_eq!(req.path, "/api/v1/quota");
}

#[test]
fn quota_request_keeps_single_id_without_comma() {
    let args = QuotaArgs { ids: vec![" knowledge".into()] };
    let req = build_request(&args);
    assert_eq!(req.query, vec![("APIIDs", "knowledge".to_string())]);
}
