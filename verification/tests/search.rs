use zhihu_cli::cli::{SearchCommand, SearchDb};
use zhihu_cli::commands::search::{build_request, SearchRequest};

fn pairs(req: &SearchRequest) -> Vec<(&str, &str)> {
    req.query.iter().map(|(k, v)| (*k, v.as_str())).collect()
}

// 1. Zhihu search hits the zhihu_search endpoint.
#[test]
fn zhihu_search_uses_zhihu_search_path() {
    let cmd = SearchCommand::Zhihu {
        query: "rust".into(),
        count: 5,
    };
    let req = build_request(&cmd);
    assert_eq!(req.path, "/api/v1/content/zhihu_search");
}

// 2. Zhihu count clamps to the [1, 10] range — both ends.
#[test]
fn zhihu_count_clamps_to_one_through_ten() {
    let make = |c: i32| SearchCommand::Zhihu {
        query: "q".into(),
        count: c,
    };
    let assert_count = |c: i32, expected: &str| {
        let req = build_request(&make(c));
        assert_eq!(pairs(&req)[1].1, expected);
    };
    assert_count(0, "1");
    assert_count(-7, "1");
    assert_count(5, "5");
    assert_count(10, "10");
    assert_count(11, "10");
    assert_count(1000, "10");
}

// 3. Zhihu's first query param is the user's query string.
#[test]
fn zhihu_query_param_is_user_input() {
    let cmd = SearchCommand::Zhihu {
        query: "async rust".into(),
        count: 3,
    };
    let req = build_request(&cmd);
    let p = pairs(&req);
    assert_eq!(p[0], ("Query", "async rust"));
}

// 4. Global search hits the global_search endpoint.
#[test]
fn global_search_uses_global_search_path() {
    let cmd = SearchCommand::Global {
        query: "q".into(),
        count: 5,
        filter: None,
        db: SearchDb::All,
    };
    let req = build_request(&cmd);
    assert_eq!(req.path, "/api/v1/content/global_search");
}

// 5. Global count clamps to [1, 20] — DIFFERENT upper bound than Zhihu.
#[test]
fn global_count_clamps_to_one_through_twenty() {
    let make = |c: i32| SearchCommand::Global {
        query: "q".into(),
        count: c,
        filter: None,
        db: SearchDb::All,
    };
    let assert_count = |c: i32, expected: &str| {
        let req = build_request(&make(c));
        assert_eq!(pairs(&req)[1].1, expected);
    };
    assert_count(0, "1");
    assert_count(15, "15");
    assert_count(20, "20");
    assert_count(21, "20");
    assert_count(9999, "20");
}

// 6. SearchDB carries the api_name for each variant.
#[test]
fn global_search_db_is_renders_api_name() {
    let cases = [
        (SearchDb::All, "all"),
        (SearchDb::Realtime, "realtime"),
        (SearchDb::Static, "static"),
    ];
    for (db, expected) in cases {
        let cmd = SearchCommand::Global {
            query: "q".into(),
            count: 5,
            filter: None,
            db,
        };
        let req = build_request(&cmd);
        let p = pairs(&req);
        let search_db = p.iter().find(|(k, _)| *k == "SearchDB").unwrap();
        assert_eq!(search_db.1, expected, "db variant {:?} wrong", db);
    }
}

// 7. Filter param appears only when Some.
#[test]
fn global_filter_param_omitted_when_none() {
    let cmd = SearchCommand::Global {
        query: "q".into(),
        count: 5,
        filter: None,
        db: SearchDb::All,
    };
    let req = build_request(&cmd);
    let p = pairs(&req);
    assert!(
        p.iter().all(|(k, _)| *k != "Filter"),
        "Filter must be absent when input is None, got: {p:?}"
    );
}

#[test]
fn global_filter_param_present_when_some() {
    let cmd = SearchCommand::Global {
        query: "q".into(),
        count: 5,
        filter: Some("host==\"example.com\"".into()),
        db: SearchDb::All,
    };
    let req = build_request(&cmd);
    let p = pairs(&req);
    let filter = p
        .iter()
        .find(|(k, _)| *k == "Filter")
        .expect("Filter param should be present");
    assert_eq!(filter.1, "host==\"example.com\"");
}
