//! `kb`: listing knowledge bases and their items, the search body, and the
//! upload form.
use vstd::prelude::*;
use crate::cli::{KbScope, RecallScope};
use crate::commands::{
    clamp, clamp_i32, guessed_mime_of, query_view, upload_form, upload_name_spec, RequestV,
    UploadForm,
};
use crate::error::{invalid_argument, ErrorV, ZhihuError};
use crate::json::{field, member, jnat, jstr, json_view, lemma_array_view, obj4, Json, JsonV, NumberV, items_view};
use crate::text::{concat3, dec_int, i64_to_text, is_blank, owned, trim, trim_str, views};
use vstd::string::StrSliceExecFns;

verus! {

/// The endpoint that runs knowledge base searches.
pub const SEARCH_PATH: &'static str = "/api/v1/knowledge/search";

/// The endpoint that receives files for knowledge bases.
pub const UPLOAD_PATH: &'static str = "/api/v1/knowledge/files";

/// The request of `kb list`: the path and the `Scope` parameter.
#[derive(Debug, PartialEq)]
pub struct KbListRequest {
    pub path: &'static str,
    pub scope: String,
}

/// The request of `kb list` for `scope`.
pub fn build_list_request(scope: &KbScope) -> (r: KbListRequest)
    ensures
        r.path@ == "/api/v1/knowledge/bases"@,
        r.scope@ == scope.spec_api_name(),
{
    KbListRequest { path: "/api/v1/knowledge/bases", scope: owned(scope.api_name()) }
}

/// The request of `kb items`: the path, which names the knowledge base, and
/// the query parameters.
#[derive(Debug, PartialEq)]
pub struct KbItemsRequest {
    pub path: String,
    pub query: Vec<(&'static str, String)>,
}

impl View for KbItemsRequest {
    type V = RequestV;

    open spec fn view(&self) -> RequestV {
        RequestV { path: self.path@, query: query_view(self.query@) }
    }
}

/// The request of `kb items`: the `Cursor` when one is given and is not
/// blank (passed as given), then `Limit` brought into `[1, 20]`.
pub open spec fn items_request_spec(kb_id: Seq<char>, cursor: Option<Seq<char>>, limit: i32) -> RequestV {
    RequestV {
        path: "/api/v1/knowledge/bases/"@ + kb_id + "/items"@,
        query: match cursor {
            Some(c) => if !is_blank(c) {
                seq![("Cursor"@, c)]
            } else {
                seq![]
            },
            None => seq![],
        } + seq![("Limit"@, dec_int(clamp(limit as int, 1, 20)))],
    }
}

/// The request of `kb items` for the knowledge base `kb_id`.
pub fn build_items_request(kb_id: &str, cursor: Option<&str>, limit: i32) -> (r: KbItemsRequest)
    ensures
        r@ == items_request_spec(
            kb_id@,
            match cursor {
                Some(c) => Some(c@),
                None => None,
            },
            limit,
        ),
{
    let mut query: Vec<(&'static str, String)> = Vec::new();
    match cursor {
        Some(c) => {
            let t = trim_str(c);
            if t.as_str().unicode_len() != 0 {
                query.push(("Cursor", owned(c)));
                assert(query_view(query@) =~= seq![("Cursor"@, c@)]);
            } else {
                assert(query_view(query@) =~= seq![]);
            }
        },
        None => {
            assert(query_view(query@) =~= seq![]);
        },
    }
    let ghost head = query_view(query@);
    let n = clamp_i32(limit, 1, 20);
    query.push(("Limit", i64_to_text(n as i64)));
    let path = concat3("/api/v1/knowledge/bases/", kb_id, "/items");
    let req = KbItemsRequest { path, query };
    assert(req@.query =~= head + seq![("Limit"@, dec_int(clamp(limit as int, 1, 20)))]);
    assert(req@.path == "/api/v1/knowledge/bases/"@ + kb_id@ + "/items"@);
    req
}

/// The JSON values of a list of strings.
pub open spec fn str_values(v: Seq<Seq<char>>) -> Seq<JsonV> {
    Seq::new(v.len(), |i: int| JsonV::Str(v[i]))
}

/// The API names of a list of recall scopes.
pub open spec fn scope_values(v: Seq<RecallScope>) -> Seq<JsonV> {
    Seq::new(v.len(), |i: int| JsonV::Str(v[i].spec_api_name()))
}

/// The body of `kb search`: the trimmed query, the knowledge base ids, the
/// recall scopes and `Limit` brought into `[1, 10]`. The query must not be
/// blank, and at least one id or scope is needed.
pub open spec fn search_body_spec(
    query: Seq<char>,
    kb_ids: Seq<Seq<char>>,
    scopes: Seq<RecallScope>,
    limit: i32,
) -> Result<JsonV, ErrorV> {
    if is_blank(query) {
        Err(ErrorV::InvalidArgument("query cannot be empty"@))
    } else if kb_ids.len() == 0 && scopes.len() == 0 {
        Err(ErrorV::InvalidArgument("at least one --kb-id or --scope is required"@))
    } else {
        Ok(
            JsonV::Object(
                seq![
                    ("Query"@, JsonV::Str(trim(query))),
                    ("KnowledgeBaseIDs"@, JsonV::Array(str_values(kb_ids))),
                    ("RecallScopes"@, JsonV::Array(scope_values(scopes))),
                    (
                        "Limit"@,
                        JsonV::Number(NumberV::PosInt(clamp(limit as int, 1, 10) as u64)),
                    ),
                ],
            ),
        )
    }
}

/// The body of `kb search`.
pub fn build_search_body(query: &str, kb_ids: &[String], scopes: &[RecallScope], limit: i32) -> (r:
    Result<Json, ZhihuError>)
    ensures
        match r {
            Ok(j) => search_body_spec(query@, views(kb_ids@), scopes@, limit) == Ok::<
                JsonV,
                ErrorV,
            >(j@),
            Err(e) => search_body_spec(query@, views(kb_ids@), scopes@, limit) == Err::<
                JsonV,
                ErrorV,
            >(e@),
        },
{
    let q = trim_str(query);
    if q.as_str().unicode_len() == 0 {
        return Err(invalid_argument("query cannot be empty"));
    }
    if kb_ids.len() == 0 && scopes.len() == 0 {
        return Err(invalid_argument("at least one --kb-id or --scope is required"));
    }
    let mut ids: Vec<Json> = Vec::new();
    let mut i: usize = 0;
    while i < kb_ids.len()
        invariant
            i <= kb_ids@.len(),
            ids@.len() == i,
            forall|k: int| 0 <= k < i ==> json_view(#[trigger] ids@[k]) == JsonV::Str(kb_ids@[k]@),
        decreases kb_ids@.len() - i,
    {
        ids.push(jstr(kb_ids[i].as_str()));
        i = i + 1;
    }
    let mut names: Vec<Json> = Vec::new();
    let mut j: usize = 0;
    while j < scopes.len()
        invariant
            j <= scopes@.len(),
            names@.len() == j,
            forall|k: int| 0 <= k < j ==> json_view(#[trigger] names@[k]) == JsonV::Str(
                scopes@[k].spec_api_name(),
            ),
        decreases scopes@.len() - j,
    {
        names.push(jstr(scopes[j].api_name()));
        j = j + 1;
    }
    proof {
        lemma_array_view(ids);
        lemma_array_view(names);
        assert(items_view(ids@) =~= str_values(views(kb_ids@)));
        assert(items_view(names@) =~= scope_values(scopes@));
    }
    let n = clamp_i32(limit, 1, 10);
    Ok(
        obj4(
            "Query",
            Json::String(q),
            "KnowledgeBaseIDs",
            Json::Array(ids),
            "RecallScopes",
            Json::Array(names),
            "Limit",
            jnat(n as u64),
        ),
    )
}

/// The upload form for the file at `file_path`: the file goes in the form
/// field `File`, with the knowledge base id when one is given.
pub fn build_upload_form(file_path: &str, kb_id: Option<&str>) -> (r: UploadForm)
    ensures
        r.field@ == "File"@,
        r.file_name@ == upload_name_spec(file_path@),
        r.mime@ == guessed_mime_of(upload_name_spec(file_path@)),
        match kb_id {
            Some(k) => r.kb_id matches Some(x) && x@ == k@,
            None => r.kb_id is None,
        },
{
    upload_form("File", file_path, kb_id)
}


/// An accepted search body sends every given knowledge base id, in order, as
/// the `KnowledgeBaseIDs` array, and every given recall scope, in order, as the
/// `RecallScopes` array, whatever the other list holds.
pub proof fn lemma_search_body_sends_all_ids_and_scopes(
    query: Seq<char>,
    kb_ids: Seq<Seq<char>>,
    scopes: Seq<RecallScope>,
    limit: i32,
)
    requires
        search_body_spec(query, kb_ids, scopes, limit) is Ok,
    ensures
        field(search_body_spec(query, kb_ids, scopes, limit)->Ok_0, "KnowledgeBaseIDs"@) matches Some(
            JsonV::Array(a),
        ) && a.len() == kb_ids.len() && forall|i: int| 0 <= i < kb_ids.len() ==> #[trigger] a[i]
            == JsonV::Str(kb_ids[i]),
        field(search_body_spec(query, kb_ids, scopes, limit)->Ok_0, "RecallScopes"@) matches Some(
            JsonV::Array(a),
        ) && a.len() == scopes.len() && forall|i: int| 0 <= i < scopes.len() ==> #[trigger] a[i]
            == JsonV::Str(scopes[i].spec_api_name()),
        field(search_body_spec(query, kb_ids, scopes, limit)->Ok_0, "Query"@) == Some(
            JsonV::Str(trim(query)),
        ),
{
    reveal_strlit("Query");
    reveal_strlit("KnowledgeBaseIDs");
    reveal_strlit("RecallScopes");
    let j = search_body_spec(query, kb_ids, scopes, limit)->Ok_0;
    let m = j->Object_0;
    assert(m[0].0 == "Query"@);
    assert(m[1].0 == "KnowledgeBaseIDs"@);
    assert("Query"@.len() == 5);
    assert("KnowledgeBaseIDs"@.len() == 16);
    assert("RecallScopes"@.len() == 12);
    assert(m[0].0 != "KnowledgeBaseIDs"@);
    assert(m[0].0 != "RecallScopes"@);
    assert(m[1].0 != "RecallScopes"@);
    assert(m.drop_first()[0] == m[1]);
    assert(m.drop_first().drop_first()[0] == m[2]);
    assert(m[2].0 == "RecallScopes"@);
    assert(member(m.drop_first(), "KnowledgeBaseIDs"@) == Some(m[1].1));
    assert(member(m, "KnowledgeBaseIDs"@) == Some(m[1].1));
    assert(member(m.drop_first().drop_first(), "RecallScopes"@) == Some(m[2].1));
    assert(member(m.drop_first(), "RecallScopes"@) == Some(m[2].1));
    assert(member(m, "RecallScopes"@) == Some(m[2].1));
}


/// `kb items` names the knowledge base in its path, sends a cursor exactly
/// when one is given that is not blank (unchanged, first), and asks for
/// exactly the given number of items when it is 1 to 20, the nearest bound
/// otherwise.
pub proof fn lemma_items_request_values(kb_id: Seq<char>, cursor: Option<Seq<char>>, limit: i32)
    ensures
        items_request_spec(kb_id, cursor, limit).path == "/api/v1/knowledge/bases/"@ + kb_id
            + "/items"@,
        ({
            let q = items_request_spec(kb_id, cursor, limit).query;
            let n = q.len();
            &&& n >= 1
            &&& q[n - 1].0 == "Limit"@
            &&& (1 <= limit <= 20 ==> q[n - 1].1 == dec_int(limit as int))
            &&& (limit < 1 ==> q[n - 1].1 == dec_int(1))
            &&& (limit > 20 ==> q[n - 1].1 == dec_int(20))
            &&& match cursor {
                Some(c) => if is_blank(c) {
                    n == 1
                } else {
                    n == 2 && q[0] == ("Cursor"@, c)
                },
                None => n == 1,
            }
        }),
{
}

/// A search is refused exactly when the query is blank or when neither a
/// knowledge base nor a recall scope is given; the number of documents asked
/// for is the given limit when it is 1 to 10, the nearest bound otherwise.
pub proof fn lemma_search_body_refusals_and_limit(
    query: Seq<char>,
    kb_ids: Seq<Seq<char>>,
    scopes: Seq<RecallScope>,
    limit: i32,
)
    ensures
        search_body_spec(query, kb_ids, scopes, limit) is Err <==> (is_blank(query) || (kb_ids.len()
            == 0 && scopes.len() == 0)),
        search_body_spec(query, kb_ids, scopes, limit) matches Ok(JsonV::Object(m)) ==> {
            &&& m.len() == 4
            &&& m[3].0 == "Limit"@
            &&& (1 <= limit <= 10 ==> m[3].1 == JsonV::Number(NumberV::PosInt(limit as u64)))
            &&& (limit < 1 ==> m[3].1 == JsonV::Number(NumberV::PosInt(1)))
            &&& (limit > 10 ==> m[3].1 == JsonV::Number(NumberV::PosInt(10)))
        },
{
}

} // verus!
