//! `quota`: the request for the daily free quota usage.
use vstd::prelude::*;
use crate::cli::QuotaArgs;
use crate::commands::{query_view, RequestV};
use crate::text::{is_blank, join, join_strings, trim, trim_str, views};
use vstd::string::StrSliceExecFns;

verus! {

/// The request for the quota usage: the path and the query parameters.
#[derive(Debug, PartialEq)]
pub struct QuotaRequest {
    pub path: &'static str,
    pub query: Vec<(&'static str, String)>,
}

impl View for QuotaRequest {
    type V = RequestV;

    open spec fn view(&self) -> RequestV {
        RequestV { path: self.path@, query: query_view(self.query@) }
    }
}

/// The ids that are kept: each trimmed, the blank ones dropped, in order.
pub open spec fn kept_ids(ids: Seq<Seq<char>>) -> Seq<Seq<char>>
    decreases ids.len(),
{
    if ids.len() == 0 {
        seq![]
    } else if is_blank(ids.last()) {
        kept_ids(ids.drop_last())
    } else {
        kept_ids(ids.drop_last()).push(trim(ids.last()))
    }
}

/// The request for the quota usage: `APIIDs` holds the kept ids joined by
/// commas, and is left out when no id is kept, so that every quota item is
/// reported.
pub open spec fn quota_request_spec(ids: Seq<Seq<char>>) -> RequestV {
    RequestV {
        path: "/api/v1/quota"@,
        query: if kept_ids(ids).len() == 0 {
            seq![]
        } else {
            seq![("APIIDs"@, join(kept_ids(ids), ","@))]
        },
    }
}

/// The request for the quota usage of the ids in `args`.
pub fn build_request(args: &QuotaArgs) -> (r: QuotaRequest)
    ensures
        r@ == quota_request_spec(views(args.ids@)),
{
    let mut kept: Vec<String> = Vec::new();
    let mut i: usize = 0;
    while i < args.ids.len()
        invariant
            i <= args.ids@.len(),
            views(kept@) == kept_ids(views(args.ids@).take(i as int)),
        decreases args.ids@.len() - i,
    {
        let ghost prefix = views(args.ids@).take(i as int);
        let ghost next = views(args.ids@).take(i + 1);
        assert(next.drop_last() =~= prefix);
        assert(next.last() == args.ids@[i as int]@);
        let t = trim_str(args.ids[i].as_str());
        if t.as_str().unicode_len() != 0 {
            let ghost before = views(kept@);
            kept.push(t);
            assert(views(kept@) =~= before.push(trim(args.ids@[i as int]@)));
        }
        i = i + 1;
    }
    assert(views(args.ids@).take(args.ids@.len() as int) =~= views(args.ids@));
    let mut query: Vec<(&'static str, String)> = Vec::new();
    if kept.len() != 0 {
        query.push(("APIIDs", join_strings(&kept, ",")));
        assert(query_view(query@) =~= seq![("APIIDs"@, join(kept_ids(views(args.ids@)), ","@))]);
    } else {
        assert(query_view(query@) =~= seq![]);
    }
    QuotaRequest { path: "/api/v1/quota", query }
}

/// `APIIDs` is left out exactly when every given id is blank.
pub proof fn lemma_apiids_omitted_iff_all_blank(ids: Seq<Seq<char>>)
    ensures
        quota_request_spec(ids).query.len() == 0 <==> forall|i: int|
            0 <= i < ids.len() ==> is_blank(#[trigger] ids[i]),
    decreases ids.len(),
{
    if ids.len() > 0 {
        lemma_apiids_omitted_iff_all_blank(ids.drop_last());
        if kept_ids(ids).len() == 0 {
            assert forall|i: int| 0 <= i < ids.len() implies is_blank(#[trigger] ids[i]) by {
                if i < ids.len() - 1 {
                    assert(ids[i] == ids.drop_last()[i]);
                }
            }
        } else {
            if forall|i: int| 0 <= i < ids.len() ==> is_blank(#[trigger] ids[i]) {
                assert forall|i: int| 0 <= i < ids.drop_last().len() implies is_blank(
                    #[trigger] ids.drop_last()[i],
                ) by {
                    assert(ids.drop_last()[i] == ids[i]);
                }
                assert(is_blank(ids[ids.len() - 1]));
            }
        }
    }
}


/// No given id that is not blank is lost: the ids kept are the given ones,
/// trimmed, in order, and exactly as many as are not blank; when none is
/// blank, every id is kept.
pub proof fn lemma_kept_ids_keep_every_nonblank_id(ids: Seq<Seq<char>>)
    ensures
        kept_ids(ids).len() <= ids.len(),
        forall|i: int| 0 <= i < kept_ids(ids).len() ==> !is_blank(#[trigger] kept_ids(ids)[i])
            || kept_ids(ids)[i].len() == 0,
        (forall|i: int| 0 <= i < ids.len() ==> !is_blank(#[trigger] ids[i])) ==> kept_ids(ids)
            == ids.map_values(|s: Seq<char>| trim(s)),
    decreases ids.len(),
{
    if ids.len() > 0 {
        lemma_kept_ids_keep_every_nonblank_id(ids.drop_last());
        assert forall|i: int| 0 <= i < kept_ids(ids).len() implies !is_blank(
            #[trigger] kept_ids(ids)[i],
        ) || kept_ids(ids)[i].len() == 0 by {
            if i < kept_ids(ids.drop_last()).len() {
                assert(kept_ids(ids)[i] == kept_ids(ids.drop_last())[i]);
            } else {
                crate::text::lemma_trim_idempotent(ids.last());
            }
        }
        if forall|i: int| 0 <= i < ids.len() ==> !is_blank(#[trigger] ids[i]) {
            assert forall|i: int| 0 <= i < ids.drop_last().len() implies !is_blank(
                #[trigger] ids.drop_last()[i],
            ) by {
                assert(ids.drop_last()[i] == ids[i]);
            }
            assert(!is_blank(ids[ids.len() - 1]));
            assert(kept_ids(ids) =~= ids.map_values(|s: Seq<char>| trim(s)));
        }
    }
}


/// The kept ids are sent joined by commas: one kept id is sent as it is, and
/// each further kept id is added after a comma.
pub proof fn lemma_apiids_joined_by_commas(ids: Seq<Seq<char>>, id: Seq<char>)
    requires
        !is_blank(id),
    ensures
        kept_ids(ids.push(id)) == kept_ids(ids).push(trim(id)),
        kept_ids(ids).len() == 0 ==> quota_request_spec(ids.push(id)).query == seq![
            ("APIIDs"@, trim(id)),
        ],
        kept_ids(ids).len() > 0 ==> quota_request_spec(ids.push(id)).query == seq![
            ("APIIDs"@, join(kept_ids(ids), ","@) + ","@ + trim(id)),
        ],
{
    assert(ids.push(id).drop_last() =~= ids);
    let k = kept_ids(ids).push(trim(id));
    assert(k.drop_last() =~= kept_ids(ids));
}

} // verus!
