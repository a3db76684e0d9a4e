//! `hot`: the request for the Zhihu hot list.
use vstd::prelude::*;
use crate::cli::HotArgs;
use crate::commands::{clamp, clamp_i32, query_view, RequestV};
use crate::text::{dec_int, i64_to_text};

verus! {

/// The request for the hot list: the path and the query parameters.
#[derive(Debug, PartialEq)]
pub struct HotRequest {
    pub path: &'static str,
    pub query: Vec<(&'static str, String)>,
}

impl View for HotRequest {
    type V = RequestV;

    open spec fn view(&self) -> RequestV {
        RequestV { path: self.path@, query: query_view(self.query@) }
    }
}

/// The request for the hot list: `Limit` brought into `[1, 30]`.
pub open spec fn hot_request_spec(limit: i32) -> RequestV {
    RequestV {
        path: "/api/v1/content/hot_list"@,
        query: seq![("Limit"@, dec_int(clamp(limit as int, 1, 30)))],
    }
}

/// The request for the hot list.
pub fn build_request(args: &HotArgs) -> (r: HotRequest)
    ensures
        r@ == hot_request_spec(args.limit),
{
    let mut query: Vec<(&'static str, String)> = Vec::new();
    let n = clamp_i32(args.limit, 1, 30);
    query.push(("Limit", i64_to_text(n as i64)));
    let req = HotRequest { path: "/api/v1/content/hot_list", query };
    assert(req@.query =~= seq![("Limit"@, dec_int(clamp(args.limit as int, 1, 30)))]);
    req
}


/// The hot list asks for exactly the given number of items when it is 1 to
/// 30, for 1 below that and for 30 above.
pub proof fn lemma_hot_limit_bounds(limit: i32)
    ensures
        hot_request_spec(limit).path == "/api/v1/content/hot_list"@,
        hot_request_spec(limit).query.len() == 1,
        hot_request_spec(limit).query[0].0 == "Limit"@,
        1 <= limit <= 30 ==> hot_request_spec(limit).query[0].1 == dec_int(limit as int),
        limit < 1 ==> hot_request_spec(limit).query[0].1 == dec_int(1),
        limit > 30 ==> hot_request_spec(limit).query[0].1 == dec_int(30),
{
}

} // verus!
