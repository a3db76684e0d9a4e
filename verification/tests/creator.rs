use zhihu_cli::cli::{CommentOrder, CreatorCommand, CreatorContentType};
use zhihu_cli::commands::creator::{
    build_request, date_range_params, invalid_date_error, is_valid_date, require_non_blank,
};
use zhihu_cli::error::ZhihuError;

fn detail(url: &str) -> CreatorCommand {
    CreatorCommand::Detail {
        content_url: url.to_string(),
    }
}

fn comments(url: &str, offset: i64, limit: i64, order: CommentOrder) -> CreatorCommand {
    CreatorCommand::Comments {
        content_url: url.to_string(),
        offset,
        limit,
        order,
    }
}

fn account_stats(content_type: CreatorContentType, start: Option<&str>, end: Option<&str>) -> CreatorCommand {
    CreatorCommand::AccountStats {
        content_type,
        start_date: start.map(str::to_string),
        end_date: end.map(str::to_string),
    }
}

fn content_stats(url: &str, start: Option<&str>, end: Option<&str>) -> CreatorCommand {
    CreatorCommand::ContentStats {
        content_url: url.to_string(),
        start_date: start.map(str::to_string),
        end_date: end.map(str::to_string),
    }
}

// ---- detail ----

#[test]
fn detail_request_uses_content_detail_path() {
    let req = build_request(&detail("https://www.zhihu.com/answer/1")).unwrap();
    assert_eq!(req.path, "/api/v1/user/content_detail");
    assert_eq!(
        req.query,
        vec![("ContentUrl", "https://www.zhihu.com/answer/1".to_string())]
    );
}

#[test]
fn detail_request_trims_content_url() {
    let req = build_request(&detail("  https://www.zhihu.com/answer/1  ")).unwrap();
    assert_eq!(
        req.query,
        vec![("ContentUrl", "https://www.zhihu.com/answer/1".to_string())]
    );
}

#[test]
fn detail_request_rejects_blank_url() {
    let err = build_request(&detail("   ")).unwrap_err();
    assert!(matches!(err, ZhihuError::InvalidArgument(ref msg) if msg.contains("content URL")));
}

// ---- comments ----

#[test]
fn comments_request_uses_content_comments_path() {
    let req = build_request(&comments("https://www.zhihu.com/answer/1", 0, 20, CommentOrder::Score)).unwrap();
    assert_eq!(req.path, "/api/v1/user/content_comments");
}

#[test]
fn comments_request_assembles_full_query() {
    let req = build_request(&comments("https://www.zhihu.com/answer/1", 10, 30, CommentOrder::Reverse)).unwrap();
    assert_eq!(
        req.query,
        vec![
            ("ContentUrl", "https://www.zhihu.com/answer/1".to_string()),
            ("Offset", "10".to_string()),
            ("Limit", "30".to_string()),
            ("Order", "reverse".to_string()),
        ]
    );
}

#[test]
fn comments_request_rejects_blank_url() {
    let err = build_request(&comments("  ", 0, 20, CommentOrder::Score)).unwrap_err();
    assert!(matches!(err, ZhihuError::InvalidArgument(ref msg) if msg.contains("content URL")));
}

#[test]
fn comments_request_limit_clamps_to_one_through_fifty() {
    let assert_limit = |limit: i64, expected: &str| {
        let req = build_request(&comments("https://www.zhihu.com/answer/1", 0, limit, CommentOrder::Score)).unwrap();
        let pair = req.query.iter().find(|(k, _)| *k == "Limit").unwrap();
        assert_eq!(pair.1, expected, "limit {limit} should clamp to {expected}");
    };
    assert_limit(0, "1");
    assert_limit(-3, "1");
    assert_limit(1, "1");
    assert_limit(25, "25");
    assert_limit(50, "50");
    assert_limit(51, "50");
    assert_limit(1000, "50");
}

#[test]
fn comments_request_passes_offset_through_unvalidated() {
    // Matches `user.rs`: the server rejects negative offsets.
    let req = build_request(&comments("https://www.zhihu.com/answer/1", -5, 20, CommentOrder::Score)).unwrap();
    let pair = req.query.iter().find(|(k, _)| *k == "Offset").unwrap();
    assert_eq!(pair.1, "-5");
}

// ---- account-stats ----

#[test]
fn account_stats_request_uses_account_stats_path() {
    let req = build_request(&account_stats(CreatorContentType::All, None, None)).unwrap();
    assert_eq!(req.path, "/api/v1/user/creator_account_stats");
}

#[test]
fn account_stats_request_omits_dates_when_absent() {
    let req = build_request(&account_stats(CreatorContentType::Article, None, None)).unwrap();
    assert_eq!(req.query, vec![("ContentType", "article".to_string())]);
}

#[test]
fn account_stats_request_includes_date_range_when_given() {
    let req = build_request(&account_stats(
        CreatorContentType::Answer,
        Some("2026-01-01"),
        Some("2026-01-31"),
    ))
    .unwrap();
    assert_eq!(
        req.query,
        vec![
            ("ContentType", "answer".to_string()),
            ("StartDate", "2026-01-01".to_string()),
            ("EndDate", "2026-01-31".to_string()),
        ]
    );
}

// ---- content-stats ----

#[test]
fn content_stats_request_uses_content_stats_path() {
    let req = build_request(&content_stats("https://zhuanlan.zhihu.com/p/1", None, None)).unwrap();
    assert_eq!(req.path, "/api/v1/user/creator_content_stats");
}

#[test]
fn content_stats_request_assembles_query_with_dates() {
    let req = build_request(&content_stats(
        "https://zhuanlan.zhihu.com/p/1",
        Some("2026-02-01"),
        Some("2026-02-28"),
    ))
    .unwrap();
    assert_eq!(
        req.query,
        vec![
            ("ContentUrl", "https://zhuanlan.zhihu.com/p/1".to_string()),
            ("StartDate", "2026-02-01".to_string()),
            ("EndDate", "2026-02-28".to_string()),
        ]
    );
}

#[test]
fn content_stats_request_rejects_blank_url() {
    let err = build_request(&content_stats("  ", None, None)).unwrap_err();
    assert!(matches!(err, ZhihuError::InvalidArgument(ref msg) if msg.contains("content URL")));
}

// ---- date-range validation (shared by account-stats / content-stats) ----

#[test]
fn date_range_rejects_solo_start_date() {
    let err = build_request(&account_stats(CreatorContentType::All, Some("2026-01-01"), None)).unwrap_err();
    assert!(matches!(err, ZhihuError::InvalidArgument(ref msg) if msg.contains("provided together")));
}

#[test]
fn date_range_rejects_solo_end_date() {
    let err = build_request(&content_stats("https://zhuanlan.zhihu.com/p/1", None, Some("2026-01-31"))).unwrap_err();
    assert!(matches!(err, ZhihuError::InvalidArgument(ref msg) if msg.contains("provided together")));
}

#[test]
fn date_range_rejects_end_earlier_than_start() {
    let err = build_request(&account_stats(
        CreatorContentType::All,
        Some("2026-01-31"),
        Some("2026-01-01"),
    ))
    .unwrap_err();
    assert!(matches!(err, ZhihuError::InvalidArgument(ref msg) if msg.contains("earlier")));
}

#[test]
fn date_range_accepts_equal_start_and_end() {
    let req = build_request(&account_stats(
        CreatorContentType::All,
        Some("2026-01-15"),
        Some("2026-01-15"),
    ))
    .unwrap();
    assert_eq!(
        req.query,
        vec![
            ("ContentType", "all".to_string()),
            ("StartDate", "2026-01-15".to_string()),
            ("EndDate", "2026-01-15".to_string()),
        ]
    );
}

#[test]
fn date_range_rejects_malformed_start_date() {
    for bad in [
        "2026-1-1",    // not zero-padded
        "2026/01/01",  // wrong separator
        "20260101",    // no separators
        "2026-13-01",  // month out of range
        "2026-00-01",  // month zero
        "2026-01-32",  // day out of range
        "2026-01-00",  // day zero
        "abcd-ef-gh",  // non-digits
        " 2026-01-01", // leading whitespace
    ] {
        let err = build_request(&account_stats(CreatorContentType::All, Some(bad), Some("2026-12-31")))
            .unwrap_err();
        assert!(
            matches!(err, ZhihuError::InvalidArgument(ref msg) if msg.contains("--start-date")),
            "start date {bad:?} should be rejected"
        );
    }
}

#[test]
fn date_range_rejects_malformed_end_date() {
    // Valid start + malformed end must name --end-date.
    for bad in ["2026-1-31", "2026/01/31", "2026-13-31", "2026-01-32"] {
        let err = build_request(&account_stats(CreatorContentType::All, Some("2026-01-01"), Some(bad)))
            .unwrap_err();
        assert!(
            matches!(err, ZhihuError::InvalidArgument(ref msg) if msg.contains("--end-date")),
            "end date {bad:?} should be rejected"
        );
    }
}


#[test]
fn invalid_date_message_quotes_the_value() {
    let err = build_request(&account_stats(CreatorContentType::All, Some("2026-1-1"), Some("2026-12-31")))
        .unwrap_err();
    match err {
        ZhihuError::InvalidArgument(msg) => {
            assert_eq!(msg, "invalid --start-date \"2026-1-1\": expected YYYY-MM-DD")
        }
        other => panic!("expected InvalidArgument, got {other:?}"),
    }
    let err = date_range_params(Some("2026-01-01"), Some("x\"y")).unwrap_err();
    match err {
        ZhihuError::InvalidArgument(msg) => {
            assert_eq!(msg, "invalid --end-date \"x\\\"y\": expected YYYY-MM-DD")
        }
        other => panic!("expected InvalidArgument, got {other:?}"),
    }
}

#[test]
fn invalid_date_error_assembles_message() {
    match invalid_date_error("--end-date", "\"13\"") {
        ZhihuError::InvalidArgument(msg) => {
            assert_eq!(msg, "invalid --end-date \"13\": expected YYYY-MM-DD")
        }
        other => panic!("expected InvalidArgument, got {other:?}"),
    }
}

#[test]
fn date_range_messages_are_exact() {
    match date_range_params(Some("2026-01-01"), None).unwrap_err() {
        ZhihuError::InvalidArgument(msg) => {
            assert_eq!(msg, "--start-date and --end-date must be provided together")
        }
        other => panic!("unexpected {other:?}"),
    }
    match date_range_params(Some("2026-02-01"), Some("2026-01-31")).unwrap_err() {
        ZhihuError::InvalidArgument(msg) => {
            assert_eq!(msg, "--end-date must not be earlier than --start-date")
        }
        other => panic!("unexpected {other:?}"),
    }
    assert!(date_range_params(None, None).unwrap().is_empty());
}

#[test]
fn date_text_order_follows_the_calendar() {
    // Later year beats any month/day; later month beats any day.
    assert!(date_range_params(Some("2025-12-31"), Some("2026-01-01")).is_ok());
    assert!(date_range_params(Some("2026-01-31"), Some("2026-02-01")).is_ok());
    assert!(date_range_params(Some("2026-02-01"), Some("2026-01-31")).is_err());
    assert!(date_range_params(Some("2026-01-01"), Some("2025-12-31")).is_err());
}

#[test]
fn is_valid_date_checks_shape_and_ranges() {
    assert!(is_valid_date("2026-01-01"));
    assert!(is_valid_date("0000-12-31"));
    assert!(!is_valid_date("2026-12-00"));
    assert!(!is_valid_date("2026-00-10"));
    assert!(!is_valid_date("２０２６-01-01"));
    assert!(!is_valid_date("2026-01-011"));
    assert!(!is_valid_date(""));
}

#[test]
fn require_non_blank_trims_and_names_label() {
    assert_eq!(require_non_blank("  x  ", "content URL").unwrap(), "x");
    match require_non_blank(" \t ", "content URL").unwrap_err() {
        ZhihuError::InvalidArgument(msg) => assert_eq!(msg, "content URL cannot be empty"),
        other => panic!("unexpected {other:?}"),
    }
}
