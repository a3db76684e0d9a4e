//! Creator data: the detail, comments and statistics of the user's own
//! contents, with strict `YYYY-MM-DD` date ranges.
use vstd::prelude::*;
use crate::cli::CreatorCommand;
use crate::commands::{clamp, clamp_i64, query_view, RequestV};
use crate::error::{invalid_argument, outcome, ErrorV, ZhihuError};
use crate::text::{
    concat2, concat3, debug_text, debug_text_of, dec_int, digit_value, i64_to_text, is_blank, is_digit,
    lex_less, opt_view, owned, str_lt, trim, trim_str,
};
use vstd::string::StrSliceExecFns;

verus! {

/// The request for a creator command: the HTTP path and the query parameters.
#[derive(Debug, PartialEq)]
pub struct CreatorRequest {
    pub path: &'static str,
    pub query: Vec<(&'static str, String)>,
}

impl View for CreatorRequest {
    type V = RequestV;

    open spec fn view(&self) -> RequestV {
        RequestV { path: self.path@, query: query_view(self.query@) }
    }
}

/// The month of a `YYYY-MM-DD` text.
pub open spec fn month_of(s: Seq<char>) -> int {
    10 * digit_value(s[5]) + digit_value(s[6])
}

/// The day of a `YYYY-MM-DD` text.
pub open spec fn day_of(s: Seq<char>) -> int {
    10 * digit_value(s[8]) + digit_value(s[9])
}

/// The year of a `YYYY-MM-DD` text.
pub open spec fn year_of(s: Seq<char>) -> int {
    1000 * digit_value(s[0]) + 100 * digit_value(s[1]) + 10 * digit_value(s[2]) + digit_value(s[3])
}

/// Strict `YYYY-MM-DD`: ten characters, dashes at 4 and 7, digits elsewhere,
/// a month from 1 to 12 and a day from 1 to 31.
pub open spec fn valid_date(s: Seq<char>) -> bool {
    &&& s.len() == 10
    &&& s[4] == '-'
    &&& s[7] == '-'
    &&& forall|i: int| 0 <= i < 10 && i != 4 && i != 7 ==> is_digit(#[trigger] s[i])
    &&& 1 <= month_of(s) <= 12
    &&& 1 <= day_of(s) <= 31
}

/// The day a valid date names, as one number that orders days in time.
pub open spec fn date_key(s: Seq<char>) -> int {
    10000 * year_of(s) + 100 * month_of(s) + day_of(s)
}

/// The message for an argument that is blank.
pub open spec fn blank_message(label: Seq<char>) -> Seq<char> {
    label + " cannot be empty"@
}

/// The message for a date that is not `YYYY-MM-DD`, given the flag and the
/// date as `{:?}` writes it.
pub open spec fn invalid_date_message(flag: Seq<char>, quoted: Seq<char>) -> Seq<char> {
    "invalid "@ + flag + " "@ + quoted + ": expected YYYY-MM-DD"@
}

/// What the date flags of the statistics commands give: no parameters when
/// both are absent, `StartDate` and `EndDate` when both are valid dates in
/// order, an error otherwise.
pub open spec fn date_range_spec(start: Option<Seq<char>>, end: Option<Seq<char>>) -> Result<
    Seq<(Seq<char>, Seq<char>)>,
    ErrorV,
> {
    match (start, end) {
        (None, None) => Ok(seq![]),
        (Some(s), Some(e)) => if !valid_date(s) {
            Err(ErrorV::InvalidArgument(invalid_date_message("--start-date"@, debug_text_of(s))))
        } else if !valid_date(e) {
            Err(ErrorV::InvalidArgument(invalid_date_message("--end-date"@, debug_text_of(e))))
        } else if lex_less(e, s) {
            Err(ErrorV::InvalidArgument("--end-date must not be earlier than --start-date"@))
        } else {
            Ok(seq![("StartDate"@, s), ("EndDate"@, e)])
        },
        _ => Err(ErrorV::InvalidArgument("--start-date and --end-date must be provided together"@)),
    }
}

/// A required argument: its trimmed text, or an error naming `label` when
/// it is blank.
pub open spec fn non_blank_spec(value: Seq<char>, label: Seq<char>) -> Result<Seq<char>, ErrorV> {
    if is_blank(value) {
        Err(ErrorV::InvalidArgument(blank_message(label)))
    } else {
        Ok(trim(value))
    }
}

/// The request a creator command makes.
pub open spec fn creator_request_spec(cmd: CreatorCommand) -> Result<RequestV, ErrorV> {
    match cmd {
        CreatorCommand::Detail { content_url } => match non_blank_spec(
            content_url@,
            "content URL"@,
        ) {
            Err(e) => Err(e),
            Ok(url) => Ok(
                RequestV {
                    path: "/api/v1/user/content_detail"@,
                    query: seq![("ContentUrl"@, url)],
                },
            ),
        },
        CreatorCommand::Comments { content_url, offset, limit, order } => match non_blank_spec(
            content_url@,
            "content URL"@,
        ) {
            Err(e) => Err(e),
            Ok(url) => Ok(
                RequestV {
                    path: "/api/v1/user/content_comments"@,
                    query: seq![
                        ("ContentUrl"@, url),
                        ("Offset"@, dec_int(offset as int)),
                        ("Limit"@, dec_int(clamp(limit as int, 1, 50))),
                        ("Order"@, order.spec_api_name()),
                    ],
                },
            ),
        },
        CreatorCommand::AccountStats { content_type, start_date, end_date } => match date_range_spec(
            opt_view(start_date),
            opt_view(end_date),
        ) {
            Err(e) => Err(e),
            Ok(dates) => Ok(
                RequestV {
                    path: "/api/v1/user/creator_account_stats"@,
                    query: seq![("ContentType"@, content_type.spec_api_name())] + dates,
                },
            ),
        },
        CreatorCommand::ContentStats { content_url, start_date, end_date } => match non_blank_spec(
            content_url@,
            "content URL"@,
        ) {
            Err(e) => Err(e),
            Ok(url) => match date_range_spec(opt_view(start_date), opt_view(end_date)) {
                Err(e) => Err(e),
                Ok(dates) => Ok(
                    RequestV {
                        path: "/api/v1/user/creator_content_stats"@,
                        query: seq![("ContentUrl"@, url)] + dates,
                    },
                ),
            },
        },
    }
}

/// Validates the input of a creator command and assembles its request.
/// `Limit` is clamped to `[1, 50]`; `Offset` is passed through as given.
pub fn build_request(cmd: &CreatorCommand) -> (r: Result<CreatorRequest, ZhihuError>)
    ensures
        outcome(r) == creator_request_spec(*cmd),
{
    match cmd {
        CreatorCommand::Detail { content_url } => {
            let url = require_non_blank(content_url.as_str(), "content URL")?;
            let mut query: Vec<(&'static str, String)> = Vec::new();
            query.push(("ContentUrl", url));
            let req = CreatorRequest { path: "/api/v1/user/content_detail", query };
            assert(req@.query =~= creator_request_spec(*cmd)->Ok_0.query);
            Ok(req)
        },
        CreatorCommand::Comments { content_url, offset, limit, order } => {
            let url = require_non_blank(content_url.as_str(), "content URL")?;
            let mut query: Vec<(&'static str, String)> = Vec::new();
            query.push(("ContentUrl", url));
            query.push(("Offset", i64_to_text(*offset)));
            query.push(("Limit", i64_to_text(clamp_i64(*limit, 1, 50))));
            query.push(("Order", owned(order.api_name())));
            let req = CreatorRequest { path: "/api/v1/user/content_comments", query };
            assert(req@.query =~= creator_request_spec(*cmd)->Ok_0.query);
            Ok(req)
        },
        CreatorCommand::AccountStats { content_type, start_date, end_date } => {
            let dates = date_range_params(as_str_opt(start_date), as_str_opt(end_date))?;
            let mut query: Vec<(&'static str, String)> = Vec::new();
            query.push(("ContentType", owned(content_type.api_name())));
            let ghost head = query@;
            let mut tail = dates;
            let ghost tail0 = tail@;
            query.append(&mut tail);
            proof {
                assert(query@ == head + tail0);
                assert(query_view(query@) =~= query_view(head) + query_view(tail0));
            }
            let req = CreatorRequest { path: "/api/v1/user/creator_account_stats", query };
            assert(req@.query =~= creator_request_spec(*cmd)->Ok_0.query);
            Ok(req)
        },
        CreatorCommand::ContentStats { content_url, start_date, end_date } => {
            let url = require_non_blank(content_url.as_str(), "content URL")?;
            let dates = date_range_params(as_str_opt(start_date), as_str_opt(end_date))?;
            let mut query: Vec<(&'static str, String)> = Vec::new();
            query.push(("ContentUrl", url));
            let ghost head = query@;
            let mut tail = dates;
            let ghost tail0 = tail@;
            query.append(&mut tail);
            proof {
                assert(query@ == head + tail0);
                assert(query_view(query@) =~= query_view(head) + query_view(tail0));
            }
            let req = CreatorRequest { path: "/api/v1/user/creator_content_stats", query };
            assert(req@.query =~= creator_request_spec(*cmd)->Ok_0.query);
            Ok(req)
        },
    }
}

fn as_str_opt(o: &Option<String>) -> (r: Option<&str>)
    ensures
        match r {
            Some(s) => opt_view(*o) == Some(s@),
            None => opt_view(*o) is None,
        },
{
    match o {
        Some(s) => Some(s.as_str()),
        None => None,
    }
}

/// `value` trimmed, or an `InvalidArgument` error "`label` cannot be empty"
/// when nothing is left of it.
pub fn require_non_blank(value: &str, label: &str) -> (r: Result<String, ZhihuError>)
    ensures
        match r {
            Ok(s) => non_blank_spec(value@, label@) == Ok::<Seq<char>, ErrorV>(s@),
            Err(e) => non_blank_spec(value@, label@) == Err::<Seq<char>, ErrorV>(e@),
        },
{
    let trimmed = trim_str(value);
    if trimmed.as_str().unicode_len() == 0 {
        let msg = concat2(label, " cannot be empty");
        return Err(ZhihuError::InvalidArgument(msg));
    }
    Ok(trimmed)
}

/// The error for a date flag whose value is not `YYYY-MM-DD`, given the flag
/// and the value as `{:?}` writes it.
pub fn invalid_date_error(flag: &str, quoted: &str) -> (e: ZhihuError)
    ensures
        e@ == ErrorV::InvalidArgument(invalid_date_message(flag@, quoted@)),
{
    let head = concat3("invalid ", flag, " ");
    let msg = concat3(head.as_str(), quoted, ": expected YYYY-MM-DD");
    ZhihuError::InvalidArgument(msg)
}

/// The `StartDate`/`EndDate` parameters. The dates must be given together,
/// both be strict `YYYY-MM-DD`, and the end must not sort before the start.
pub fn date_range_params(start_date: Option<&str>, end_date: Option<&str>) -> (r: Result<
    Vec<(&'static str, String)>,
    ZhihuError,
>)
    ensures
        match r {
            Ok(v) => date_range_spec(
                match start_date {
                    Some(s) => Some(s@),
                    None => None,
                },
                match end_date {
                    Some(s) => Some(s@),
                    None => None,
                },
            ) == Ok::<Seq<(Seq<char>, Seq<char>)>, ErrorV>(query_view(v@)),
            Err(e) => date_range_spec(
                match start_date {
                    Some(s) => Some(s@),
                    None => None,
                },
                match end_date {
                    Some(s) => Some(s@),
                    None => None,
                },
            ) == Err::<Seq<(Seq<char>, Seq<char>)>, ErrorV>(e@),
        },
{
    match (start_date, end_date) {
        (None, None) => {
            let v: Vec<(&'static str, String)> = Vec::new();
            assert(query_view(v@) =~= seq![]);
            Ok(v)
        },
        (Some(start), Some(end)) => {
            if !is_valid_date(start) {
                let quoted = debug_text(start);
                return Err(invalid_date_error("--start-date", quoted.as_str()));
            }
            if !is_valid_date(end) {
                let quoted = debug_text(end);
                return Err(invalid_date_error("--end-date", quoted.as_str()));
            }
            if str_lt(end, start) {
                return Err(invalid_argument("--end-date must not be earlier than --start-date"));
            }
            let mut v: Vec<(&'static str, String)> = Vec::new();
            v.push(("StartDate", owned(start)));
            v.push(("EndDate", owned(end)));
            assert(query_view(v@) =~= seq![("StartDate"@, start@), ("EndDate"@, end@)]);
            Ok(v)
        },
        _ => Err(invalid_argument("--start-date and --end-date must be provided together")),
    }
}

fn digit_at(s: &str, i: usize) -> (r: Option<u32>)
    requires
        i < s@.len(),
    ensures
        match r {
            Some(d) => is_digit(s@[i as int]) && d == digit_value(s@[i as int]),
            None => !is_digit(s@[i as int]),
        },
{
    let c = s.get_char(i);
    if '0' <= c && c <= '9' {
        Some((c as u32) - ('0' as u32))
    } else {
        None
    }
}

/// Whether `s` is a strict `YYYY-MM-DD` date with a month from 01 to 12 and
/// a day from 01 to 31.
pub fn is_valid_date(s: &str) -> (r: bool)
    ensures
        r == valid_date(s@),
{
    if s.unicode_len() != 10 {
        return false;
    }
    if s.get_char(4) != '-' || s.get_char(7) != '-' {
        return false;
    }
    let mut i: usize = 0;
    while i < 10
        invariant
            s@.len() == 10,
            i <= 10,
            forall|k: int| 0 <= k < i && k != 4 && k != 7 ==> is_digit(#[trigger] s@[k]),
        decreases 10 - i,
    {
        if i != 4 && i != 7 {
            if digit_at(s, i).is_none() {
                return false;
            }
        }
        i = i + 1;
    }
    let m1 = digit_at(s, 5).unwrap();
    let m2 = digit_at(s, 6).unwrap();
    let d1 = digit_at(s, 8).unwrap();
    let d2 = digit_at(s, 9).unwrap();
    let month = m1 * 10 + m2;
    let day = d1 * 10 + d2;
    1 <= month && month <= 12 && 1 <= day && day <= 31
}

/// Two texts of equal length that agree before position `i` and differ at `i`
/// are ordered by their characters at `i`.
proof fn lemma_lex_first_difference(a: Seq<char>, b: Seq<char>, i: int)
    requires
        a.len() == b.len(),
        0 <= i < a.len(),
        forall|k: int| 0 <= k < i ==> a[k] == b[k],
        a[i] != b[i],
    ensures
        lex_less(a, b) <==> (a[i] as u32) < (b[i] as u32),
    decreases i,
{
    if i > 0 {
        assert forall|k: int| 0 <= k < i - 1 implies a.drop_first()[k] == b.drop_first()[k] by {
            assert(a[k + 1] == b[k + 1]);
        }
        lemma_lex_first_difference(a.drop_first(), b.drop_first(), i - 1);
    }
}

/// Two texts of equal length that agree everywhere are not ordered.
proof fn lemma_lex_equal(a: Seq<char>, b: Seq<char>)
    requires
        a.len() == b.len(),
        forall|k: int| 0 <= k < a.len() ==> a[k] == b[k],
    ensures
        !lex_less(a, b),
    decreases a.len(),
{
    if a.len() > 0 {
        assert forall|k: int| 0 <= k < a.len() - 1 implies a.drop_first()[k] == b.drop_first()[k] by {
            assert(a[k + 1] == b[k + 1]);
        }
        lemma_lex_equal(a.drop_first(), b.drop_first());
    }
}

/// For two valid dates, the text order that `date_range_params` checks is the
/// order of the days they name: the end is refused as earlier than the start
/// exactly when it is an earlier day.
pub proof fn lemma_date_text_order_is_chronological(a: Seq<char>, b: Seq<char>)
    requires
        valid_date(a),
        valid_date(b),
    ensures
        lex_less(a, b) <==> date_key(a) < date_key(b),
{
    assert(is_digit(a[0]) && is_digit(a[1]) && is_digit(a[2]) && is_digit(a[3]));
    assert(is_digit(a[5]) && is_digit(a[6]) && is_digit(a[8]) && is_digit(a[9]));
    assert(is_digit(b[0]) && is_digit(b[1]) && is_digit(b[2]) && is_digit(b[3]));
    assert(is_digit(b[5]) && is_digit(b[6]) && is_digit(b[8]) && is_digit(b[9]));
    if a[0] != b[0] {
        lemma_lex_first_difference(a, b, 0);
    } else if a[1] != b[1] {
        lemma_lex_first_difference(a, b, 1);
    } else if a[2] != b[2] {
        lemma_lex_first_difference(a, b, 2);
    } else if a[3] != b[3] {
        lemma_lex_first_difference(a, b, 3);
    } else if a[5] != b[5] {
        lemma_lex_first_difference(a, b, 5);
    } else if a[6] != b[6] {
        lemma_lex_first_difference(a, b, 6);
    } else if a[8] != b[8] {
        lemma_lex_first_difference(a, b, 8);
    } else if a[9] != b[9] {
        lemma_lex_first_difference(a, b, 9);
    } else {
        lemma_lex_equal(a, b);
    }
}

/// Two valid dates are accepted as a range exactly when the end day is not
/// before the start day; an accepted range passes both dates on unchanged.
pub proof fn lemma_date_range_accepts_ordered_days(start: Seq<char>, end: Seq<char>)
    requires
        valid_date(start),
        valid_date(end),
    ensures
        date_range_spec(Some(start), Some(end)) is Ok <==> date_key(start) <= date_key(end),
        date_range_spec(Some(start), Some(end)) is Ok ==> date_range_spec(Some(start), Some(end))
            == Ok::<Seq<(Seq<char>, Seq<char>)>, ErrorV>(
            seq![("StartDate"@, start), ("EndDate"@, end)],
        ),
{
    lemma_date_text_order_is_chronological(end, start);
}


/// Completeness and soundness of the date check: a ten-character text
/// `YYYY-MM-DD` of ASCII digits and two dashes is accepted exactly when its
/// month (the two digits after the first dash) is 1 to 12 and its day (the
/// last two digits) is 1 to 31; no other text is accepted.
pub proof fn lemma_valid_date_characterized(s: Seq<char>)
    ensures
        valid_date(s) <==> (s.len() == 10 && s[4] == '-' && s[7] == '-' && (forall|i: int|
            0 <= i < 10 && i != 4 && i != 7 ==> '0' <= #[trigger] s[i] <= '9') && 1 <= 10 * ((
        s[5] as u32) - ('0' as u32)) + ((s[6] as u32) - ('0' as u32)) <= 12 && 1 <= 10 * ((
        s[8] as u32) - ('0' as u32)) + ((s[9] as u32) - ('0' as u32)) <= 31),
{
}


/// A creator command with a blank content URL is refused; otherwise the URL
/// is sent trimmed, first. Comments pass the offset unchanged, ask for exactly
/// the given number when it is 1 to 50 (the nearest bound otherwise) and name
/// the order; account statistics name the content type first; a valid date
/// pair in calendar order ends the query with the two dates unchanged.
pub proof fn lemma_creator_request_values(cmd: CreatorCommand)
    ensures
        match cmd {
            CreatorCommand::Detail { content_url } => if is_blank(content_url@) {
                creator_request_spec(cmd) is Err
            } else {
                creator_request_spec(cmd) matches Ok(r) && r.query == seq![
                    ("ContentUrl"@, trim(content_url@)),
                ]
            },
            CreatorCommand::Comments { content_url, offset, limit, order } => if is_blank(
                content_url@,
            ) {
                creator_request_spec(cmd) is Err
            } else {
                creator_request_spec(cmd) matches Ok(r) && {
                    &&& r.query.len() == 4
                    &&& r.query[0] == ("ContentUrl"@, trim(content_url@))
                    &&& r.query[1] == ("Offset"@, dec_int(offset as int))
                    &&& r.query[2].0 == "Limit"@
                    &&& (1 <= limit <= 50 ==> r.query[2].1 == dec_int(limit as int))
                    &&& (limit < 1 ==> r.query[2].1 == dec_int(1))
                    &&& (limit > 50 ==> r.query[2].1 == dec_int(50))
                    &&& r.query[3] == ("Order"@, order.spec_api_name())
                }
            },
            CreatorCommand::AccountStats { content_type, start_date, end_date } => match (
                start_date,
                end_date,
            ) {
                (None, None) => creator_request_spec(cmd) matches Ok(r) && r.query == seq![
                    ("ContentType"@, content_type.spec_api_name()),
                ],
                (Some(s), Some(e)) => valid_date(s@) && valid_date(e@) && date_key(s@) <= date_key(
                    e@,
                ) ==> (creator_request_spec(cmd) matches Ok(r) && r.query == seq![
                    ("ContentType"@, content_type.spec_api_name()),
                    ("StartDate"@, s@),
                    ("EndDate"@, e@),
                ]),
                _ => creator_request_spec(cmd) is Err,
            },
            CreatorCommand::ContentStats { content_url, start_date, end_date } => if is_blank(
                content_url@,
            ) {
                creator_request_spec(cmd) is Err
            } else {
                match (start_date, end_date) {
                    (None, None) => creator_request_spec(cmd) matches Ok(r) && r.query == seq![
                        ("ContentUrl"@, trim(content_url@)),
                    ],
                    (Some(s), Some(e)) => valid_date(s@) && valid_date(e@) && date_key(s@)
                        <= date_key(e@) ==> (creator_request_spec(cmd) matches Ok(r) && r.query
                        == seq![
                        ("ContentUrl"@, trim(content_url@)),
                        ("StartDate"@, s@),
                        ("EndDate"@, e@),
                    ]),
                    _ => creator_request_spec(cmd) is Err,
                }
            },
        },
{
    match cmd {
        CreatorCommand::AccountStats { content_type, start_date, end_date } => {
            let head = seq![("ContentType"@, content_type.spec_api_name())];
            match (start_date, end_date) {
                (Some(s), Some(e)) => {
                    if valid_date(s@) && valid_date(e@) {
                        lemma_date_text_order_is_chronological(e@, s@);
                        assert(head + seq![("StartDate"@, s@), ("EndDate"@, e@)] =~= seq![
                            ("ContentType"@, content_type.spec_api_name()),
                            ("StartDate"@, s@),
                            ("EndDate"@, e@),
                        ]);
                    }
                },
                (None, None) => {
                    assert(head + seq![] =~= head);
                },
                _ => {},
            }
        },
        CreatorCommand::ContentStats { content_url, start_date, end_date } => {
            let head = seq![("ContentUrl"@, trim(content_url@))];
            match (start_date, end_date) {
                (Some(s), Some(e)) => {
                    if valid_date(s@) && valid_date(e@) {
                        lemma_date_text_order_is_chronological(e@, s@);
                        assert(head + seq![("StartDate"@, s@), ("EndDate"@, e@)] =~= seq![
                            ("ContentUrl"@, trim(content_url@)),
                            ("StartDate"@, s@),
                            ("EndDate"@, e@),
                        ]);
                    }
                },
                (None, None) => {
                    assert(head + seq![] =~= head);
                },
                _ => {},
            }
        },
        _ => {},
    }
}

} // verus!
