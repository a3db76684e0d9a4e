//! `search`: the requests for searching Zhihu and the whole web.
use vstd::prelude::*;
use crate::cli::SearchCommand;
use crate::commands::{clamp, clamp_i32, query_view, RequestV};
use crate::text::{dec_int, i64_to_text, owned};

verus! {

/// The request of a search: the path and the query parameters.
#[derive(Debug, PartialEq)]
pub struct SearchRequest {
    pub path: &'static str,
    pub query: Vec<(&'static str, String)>,
}

impl View for SearchRequest {
    type V = RequestV;

    open spec fn view(&self) -> RequestV {
        RequestV { path: self.path@, query: query_view(self.query@) }
    }
}

/// The request of a search. A Zhihu search brings `Count` into `[1, 10]`; a
/// global search brings it into `[1, 20]`, names the database in `SearchDB`,
/// and passes `Filter` only when one is given. The query is passed as given.
pub open spec fn search_request_spec(cmd: SearchCommand) -> RequestV {
    match cmd {
        SearchCommand::Zhihu { query, count } => RequestV {
            path: "/api/v1/content/zhihu_search"@,
            query: seq![("Query"@, query@), ("Count"@, dec_int(clamp(count as int, 1, 10)))],
        },
        SearchCommand::Global { query, count, filter, db } => RequestV {
            path: "/api/v1/content/global_search"@,
            query: seq![
                ("Query"@, query@),
                ("Count"@, dec_int(clamp(count as int, 1, 20))),
                ("SearchDB"@, db.spec_api_name()),
            ] + match filter {
                Some(f) => seq![("Filter"@, f@)],
                None => seq![],
            },
        },
    }
}

/// The request of the search `cmd`.
pub fn build_request(cmd: &SearchCommand) -> (r: SearchRequest)
    ensures
        r@ == search_request_spec(*cmd),
{
    match cmd {
        SearchCommand::Zhihu { query, count } => {
            let mut q: Vec<(&'static str, String)> = Vec::new();
            q.push(("Query", query.clone()));
            q.push(("Count", i64_to_text(clamp_i32(*count, 1, 10) as i64)));
            let req = SearchRequest { path: "/api/v1/content/zhihu_search", query: q };
            assert(req@.query =~= search_request_spec(*cmd).query);
            req
        },
        SearchCommand::Global { query, count, filter, db } => {
            let mut q: Vec<(&'static str, String)> = Vec::new();
            q.push(("Query", query.clone()));
            q.push(("Count", i64_to_text(clamp_i32(*count, 1, 20) as i64)));
            q.push(("SearchDB", owned(db.api_name())));
            match filter {
                Some(f) => {
                    q.push(("Filter", f.clone()));
                },
                None => {},
            }
            let req = SearchRequest { path: "/api/v1/content/global_search", query: q };
            assert(req@.query =~= search_request_spec(*cmd).query);
            req
        },
    }
}


/// A search passes the query text unchanged as its first parameter, and asks
/// for exactly the given count when it is within the command's bounds (1 to
/// 10 on Zhihu, 1 to 20 on the web), for the nearest bound otherwise. A
/// global search passes the filter exactly when one is given, unchanged.
pub proof fn lemma_search_query_and_count(cmd: SearchCommand)
    ensures
        match cmd {
            SearchCommand::Zhihu { query, count } => {
                let q = search_request_spec(cmd).query;
                &&& q.len() == 2
                &&& q[0] == ("Query"@, query@)
                &&& q[1].0 == "Count"@
                &&& (1 <= count <= 10 ==> q[1].1 == dec_int(count as int))
                &&& (count < 1 ==> q[1].1 == dec_int(1))
                &&& (count > 10 ==> q[1].1 == dec_int(10))
            },
            SearchCommand::Global { query, count, filter, db } => {
                let q = search_request_spec(cmd).query;
                &&& q[0] == ("Query"@, query@)
                &&& q[1].0 == "Count"@
                &&& (1 <= count <= 20 ==> q[1].1 == dec_int(count as int))
                &&& (count < 1 ==> q[1].1 == dec_int(1))
                &&& (count > 20 ==> q[1].1 == dec_int(20))
                &&& q[2] == ("SearchDB"@, db.spec_api_name())
                &&& match filter {
                    Some(f) => q.len() == 4 && q[3] == ("Filter"@, f@),
                    None => q.len() == 3,
                }
            },
        },
{
}

} // verus!
