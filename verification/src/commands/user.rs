//! `user`: the requests for a user's contents, followees, collections and
//! favlists.
use vstd::prelude::*;
use crate::cli::UserCommand;
use crate::commands::{clamp, clamp_i64, query_view, RequestV};
use crate::text::{dec_int, i64_to_text, opt_view, owned};

verus! {

/// The request of a user-data command: the path, the query parameters, and
/// the OAuth token of another user who authorized the query, if any.
#[derive(Debug, PartialEq)]
pub struct UserRequest {
    pub path: &'static str,
    pub query: Vec<(&'static str, String)>,
    pub oauth_token: Option<String>,
}

/// Mathematical view of a user-data request.
pub struct UserRequestV {
    pub request: RequestV,
    pub oauth_token: Option<Seq<char>>,
}

impl View for UserRequest {
    type V = UserRequestV;

    open spec fn view(&self) -> UserRequestV {
        UserRequestV {
            request: RequestV { path: self.path@, query: query_view(self.query@) },
            oauth_token: opt_view(self.oauth_token),
        }
    }
}

/// The request of a user-data command. `Limit` is brought into `[1, 50]` for
/// contents and followees and passed as given otherwise; `Offset` is passed
/// as given.
pub open spec fn user_request_spec(cmd: UserCommand) -> UserRequestV {
    match cmd {
        UserCommand::Contents {
            content_type,
            offset,
            limit,
            sort_field,
            sort_order,
            oauth_token,
        } => UserRequestV {
            request: RequestV {
                path: "/api/v1/user/contents"@,
                query: seq![
                    ("ContentType"@, content_type.spec_api_name()),
                    ("Offset"@, dec_int(offset as int)),
                    ("Limit"@, dec_int(clamp(limit as int, 1, 50))),
                    ("SortField"@, sort_field.spec_api_name()),
                    ("SortOrder"@, sort_order.spec_api_name()),
                ],
            },
            oauth_token: opt_view(oauth_token),
        },
        UserCommand::Followees { offset, limit, oauth_token } => UserRequestV {
            request: RequestV {
                path: "/api/v1/user/followees"@,
                query: seq![
                    ("Offset"@, dec_int(offset as int)),
                    ("Limit"@, dec_int(clamp(limit as int, 1, 50))),
                ],
            },
            oauth_token: opt_view(oauth_token),
        },
        UserCommand::Collections { limit, oauth_token } => UserRequestV {
            request: RequestV {
                path: "/api/v1/user/collections"@,
                query: seq![("Limit"@, dec_int(limit as int))],
            },
            oauth_token: opt_view(oauth_token),
        },
        UserCommand::Favlists { limit, oauth_token } => UserRequestV {
            request: RequestV {
                path: "/api/v1/user/favlists"@,
                query: seq![("Limit"@, dec_int(limit as int))],
            },
            oauth_token: opt_view(oauth_token),
        },
        UserCommand::FavlistContents { favlist_url_token, offset, limit, oauth_token } =>
            UserRequestV {
            request: RequestV {
                path: "/api/v1/user/favlist_contents"@,
                query: seq![
                    ("FavlistUrlToken"@, dec_int(favlist_url_token as int)),
                    ("Offset"@, dec_int(offset as int)),
                    ("Limit"@, dec_int(limit as int)),
                ],
            },
            oauth_token: opt_view(oauth_token),
        },
    }
}

fn copy_token(t: &Option<String>) -> (r: Option<String>)
    ensures
        opt_view(r) == opt_view(*t),
{
    match t {
        Some(s) => Some(s.clone()),
        None => None,
    }
}

/// The request of the user-data command `cmd`.
pub fn build_request(cmd: &UserCommand) -> (r: UserRequest)
    ensures
        r@ == user_request_spec(*cmd),
{
    match cmd {
        UserCommand::Contents {
            content_type,
            offset,
            limit,
            sort_field,
            sort_order,
            oauth_token,
        } => {
            let mut q: Vec<(&'static str, String)> = Vec::new();
            q.push(("ContentType", owned(content_type.api_name())));
            q.push(("Offset", i64_to_text(*offset)));
            q.push(("Limit", i64_to_text(clamp_i64(*limit, 1, 50))));
            q.push(("SortField", owned(sort_field.api_name())));
            q.push(("SortOrder", owned(sort_order.api_name())));
            let req = UserRequest {
                path: "/api/v1/user/contents",
                query: q,
                oauth_token: copy_token(oauth_token),
            };
            assert(req@.request.query =~= user_request_spec(*cmd).request.query);
            req
        },
        UserCommand::Followees { offset, limit, oauth_token } => {
            let mut q: Vec<(&'static str, String)> = Vec::new();
            q.push(("Offset", i64_to_text(*offset)));
            q.push(("Limit", i64_to_text(clamp_i64(*limit, 1, 50))));
            let req = UserRequest {
                path: "/api/v1/user/followees",
                query: q,
                oauth_token: copy_token(oauth_token),
            };
            assert(req@.request.query =~= user_request_spec(*cmd).request.query);
            req
        },
        UserCommand::Collections { limit, oauth_token } => {
            let mut q: Vec<(&'static str, String)> = Vec::new();
            q.push(("Limit", i64_to_text(*limit)));
            let req = UserRequest {
                path: "/api/v1/user/collections",
                query: q,
                oauth_token: copy_token(oauth_token),
            };
            assert(req@.request.query =~= user_request_spec(*cmd).request.query);
            req
        },
        UserCommand::Favlists { limit, oauth_token } => {
            let mut q: Vec<(&'static str, String)> = Vec::new();
            q.push(("Limit", i64_to_text(*limit)));
            let req = UserRequest {
                path: "/api/v1/user/favlists",
                query: q,
                oauth_token: copy_token(oauth_token),
            };
            assert(req@.request.query =~= user_request_spec(*cmd).request.query);
            req
        },
        UserCommand::FavlistContents { favlist_url_token, offset, limit, oauth_token } => {
            let mut q: Vec<(&'static str, String)> = Vec::new();
            q.push(("FavlistUrlToken", i64_to_text(*favlist_url_token)));
            q.push(("Offset", i64_to_text(*offset)));
            q.push(("Limit", i64_to_text(*limit)));
            let req = UserRequest {
                path: "/api/v1/user/favlist_contents",
                query: q,
                oauth_token: copy_token(oauth_token),
            };
            assert(req@.request.query =~= user_request_spec(*cmd).request.query);
            req
        },
    }
}


/// Every user-data request carries exactly the OAuth token the command was
/// given (none when none was given), for every kind of user command.
pub proof fn lemma_user_request_carries_oauth_token(cmd: UserCommand)
    ensures
        user_request_spec(cmd).oauth_token == match cmd {
            UserCommand::Contents { oauth_token, .. } => opt_view(oauth_token),
            UserCommand::Followees { oauth_token, .. } => opt_view(oauth_token),
            UserCommand::Collections { oauth_token, .. } => opt_view(oauth_token),
            UserCommand::Favlists { oauth_token, .. } => opt_view(oauth_token),
            UserCommand::FavlistContents { oauth_token, .. } => opt_view(oauth_token),
        },
{
}


/// Contents and followees ask for exactly the given number of items when it
/// is 1 to 50 and for the nearest bound otherwise; collections, favlists and
/// favlist contents pass the limit unchanged; every offset and favlist token
/// is passed unchanged.
pub proof fn lemma_user_limits_and_offsets(cmd: UserCommand)
    ensures
        match cmd {
            UserCommand::Contents { offset, limit, .. } => {
                let q = user_request_spec(cmd).request.query;
                &&& q.len() == 5
                &&& q[1] == ("Offset"@, dec_int(offset as int))
                &&& q[2].0 == "Limit"@
                &&& (1 <= limit <= 50 ==> q[2].1 == dec_int(limit as int))
                &&& (limit < 1 ==> q[2].1 == dec_int(1))
                &&& (limit > 50 ==> q[2].1 == dec_int(50))
            },
            UserCommand::Followees { offset, limit, .. } => {
                let q = user_request_spec(cmd).request.query;
                &&& q.len() == 2
                &&& q[0] == ("Offset"@, dec_int(offset as int))
                &&& q[1].0 == "Limit"@
                &&& (1 <= limit <= 50 ==> q[1].1 == dec_int(limit as int))
                &&& (limit < 1 ==> q[1].1 == dec_int(1))
                &&& (limit > 50 ==> q[1].1 == dec_int(50))
            },
            UserCommand::Collections { limit, .. } => user_request_spec(cmd).request.query == seq![
                ("Limit"@, dec_int(limit as int)),
            ],
            UserCommand::Favlists { limit, .. } => user_request_spec(cmd).request.query == seq![
                ("Limit"@, dec_int(limit as int)),
            ],
            UserCommand::FavlistContents { favlist_url_token, offset, limit, .. } =>
                user_request_spec(cmd).request.query == seq![
                ("FavlistUrlToken"@, dec_int(favlist_url_token as int)),
                ("Offset"@, dec_int(offset as int)),
                ("Limit"@, dec_int(limit as int)),
            ],
        },
{
}

} // verus!
