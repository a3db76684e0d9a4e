//! Questions: recommended questions and the answers of a question.
use vstd::prelude::*;
use crate::cli::QuestionCommand;
use crate::commands::{clamp, clamp_i32, clamp_i64, query_view, RequestV};
use crate::error::{invalid_argument, outcome, ErrorV, ZhihuError};
use crate::text::{dec_int, i64_to_text, is_blank, trim, trim_str};
use vstd::string::StrSliceExecFns;

verus! {

/// The request of a question command: the path and the query parameters.
#[derive(Debug, PartialEq)]
pub struct QuestionRequest {
    pub path: &'static str,
    pub query: Vec<(&'static str, String)>,
}

impl View for QuestionRequest {
    type V = RequestV;

    open spec fn view(&self) -> RequestV {
        RequestV { path: self.path@, query: query_view(self.query@) }
    }
}

/// The request of a question command. A recommendation passes the trimmed
/// `Query` when one is given (a blank one is refused) and brings `Count` into
/// `[1, 20]`; the answers of a question need its URL, trimmed and not blank,
/// pass `Offset` as given and bring `Limit` into `[1, 50]`.
pub open spec fn question_request_spec(cmd: QuestionCommand) -> Result<RequestV, ErrorV> {
    match cmd {
        QuestionCommand::Recommend { query, count } => match query {
            Some(q) => if is_blank(q@) {
                Err(ErrorV::InvalidArgument("--query cannot be empty"@))
            } else {
                Ok(
                    RequestV {
                        path: "/api/v1/user/question_recommendations"@,
                        query: seq![
                            ("Query"@, trim(q@)),
                            ("Count"@, dec_int(clamp(count as int, 1, 20))),
                        ],
                    },
                )
            },
            None => Ok(
                RequestV {
                    path: "/api/v1/user/question_recommendations"@,
                    query: seq![("Count"@, dec_int(clamp(count as int, 1, 20)))],
                },
            ),
        },
        QuestionCommand::Answers { question_url, offset, limit } => if is_blank(question_url@) {
            Err(ErrorV::InvalidArgument("question URL cannot be empty"@))
        } else {
            Ok(
                RequestV {
                    path: "/api/v1/content/question_answers"@,
                    query: seq![
                        ("QuestionUrl"@, trim(question_url@)),
                        ("Offset"@, dec_int(offset as int)),
                        ("Limit"@, dec_int(clamp(limit as int, 1, 50))),
                    ],
                },
            )
        },
    }
}

/// Validates the input of a question command and assembles its request.
pub fn build_request(cmd: &QuestionCommand) -> (r: Result<QuestionRequest, ZhihuError>)
    ensures
        outcome(r) == question_request_spec(*cmd),
{
    match cmd {
        QuestionCommand::Recommend { query, count } => {
            let mut params: Vec<(&'static str, String)> = Vec::new();
            match query {
                Some(q) => {
                    let trimmed = trim_str(q.as_str());
                    if trimmed.as_str().unicode_len() == 0 {
                        return Err(invalid_argument("--query cannot be empty"));
                    }
                    params.push(("Query", trimmed));
                },
                None => {},
            }
            params.push(("Count", i64_to_text(clamp_i32(*count, 1, 20) as i64)));
            let req = QuestionRequest { path: "/api/v1/user/question_recommendations", query: params };
            assert(req@.query =~= question_request_spec(*cmd)->Ok_0.query);
            Ok(req)
        },
        QuestionCommand::Answers { question_url, offset, limit } => {
            let url = trim_str(question_url.as_str());
            if url.as_str().unicode_len() == 0 {
                return Err(invalid_argument("question URL cannot be empty"));
            }
            let mut params: Vec<(&'static str, String)> = Vec::new();
            params.push(("QuestionUrl", url));
            params.push(("Offset", i64_to_text(*offset)));
            params.push(("Limit", i64_to_text(clamp_i64(*limit, 1, 50))));
            let req = QuestionRequest { path: "/api/v1/content/question_answers", query: params };
            assert(req@.query =~= question_request_spec(*cmd)->Ok_0.query);
            Ok(req)
        },
    }
}


/// A blank recommendation topic or question URL is refused; otherwise the
/// topic (when given) and the URL are sent trimmed, the offset unchanged, and
/// the count and limit exactly as given when within their bounds (1 to 20 and
/// 1 to 50), the nearest bound otherwise.
pub proof fn lemma_question_request_values(cmd: QuestionCommand)
    ensures
        match cmd {
            QuestionCommand::Recommend { query, count } => if query matches Some(t) && is_blank(
                t@,
            ) {
                question_request_spec(cmd) is Err
            } else {
                question_request_spec(cmd) matches Ok(r) && {
                    let n = r.query.len();
                    &&& n >= 1
                    &&& r.query[n - 1].0 == "Count"@
                    &&& (1 <= count <= 20 ==> r.query[n - 1].1 == dec_int(count as int))
                    &&& (count < 1 ==> r.query[n - 1].1 == dec_int(1))
                    &&& (count > 20 ==> r.query[n - 1].1 == dec_int(20))
                    &&& match query {
                        Some(t) => n == 2 && r.query[0] == ("Query"@, trim(t@)),
                        None => n == 1,
                    }
                }
            },
            QuestionCommand::Answers { question_url, offset, limit } => if is_blank(question_url@) {
                question_request_spec(cmd) is Err
            } else {
                question_request_spec(cmd) matches Ok(r) && {
                    &&& r.query.len() == 3
                    &&& r.query[0] == ("QuestionUrl"@, trim(question_url@))
                    &&& r.query[1] == ("Offset"@, dec_int(offset as int))
                    &&& r.query[2].0 == "Limit"@
                    &&& (1 <= limit <= 50 ==> r.query[2].1 == dec_int(limit as int))
                    &&& (limit < 1 ==> r.query[2].1 == dec_int(1))
                    &&& (limit > 50 ==> r.query[2].1 == dec_int(50))
                }
            },
        },
{
}

} // verus!
