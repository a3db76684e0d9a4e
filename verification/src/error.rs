//! The errors of the client and the messages they are shown with.
use vstd::prelude::*;
use crate::text::{concat2, concat3, dec_int, owned, u64_to_text};

verus! {

/// What can go wrong. Errors that come from elsewhere (the file system, the
/// config parser, the HTTP stack) carry the message of the underlying error.
#[derive(Debug)]
pub enum ZhihuError {
    MissingSecret,
    ConfigDirNotFound,
    Io(String),
    ConfigParse(String),
    ConfigSerialize(String),
    Http(String),
    Api { status: u16, body: String },
    NonJsonResponse,
    InvalidArgument(String),
    TaskTimeout { task_id: String, waited_secs: u64 },
}

/// Mathematical view of an error.
pub enum ErrorV {
    MissingSecret,
    ConfigDirNotFound,
    Io(Seq<char>),
    ConfigParse(Seq<char>),
    ConfigSerialize(Seq<char>),
    Http(Seq<char>),
    Api { status: u16, body: Seq<char> },
    NonJsonResponse,
    InvalidArgument(Seq<char>),
    TaskTimeout { task_id: Seq<char>, waited_secs: u64 },
}

impl View for ZhihuError {
    type V = ErrorV;

    open spec fn view(&self) -> ErrorV {
        match self {
            ZhihuError::MissingSecret => ErrorV::MissingSecret,
            ZhihuError::ConfigDirNotFound => ErrorV::ConfigDirNotFound,
            ZhihuError::Io(m) => ErrorV::Io(m@),
            ZhihuError::ConfigParse(m) => ErrorV::ConfigParse(m@),
            ZhihuError::ConfigSerialize(m) => ErrorV::ConfigSerialize(m@),
            ZhihuError::Http(m) => ErrorV::Http(m@),
            ZhihuError::Api { status, body } => ErrorV::Api { status: *status, body: body@ },
            ZhihuError::NonJsonResponse => ErrorV::NonJsonResponse,
            ZhihuError::InvalidArgument(m) => ErrorV::InvalidArgument(m@),
            ZhihuError::TaskTimeout { task_id, waited_secs } => ErrorV::TaskTimeout {
                task_id: task_id@,
                waited_secs: *waited_secs,
            },
        }
    }
}

/// The view of a result whose error is a `ZhihuError`.
pub open spec fn outcome<T: View>(r: Result<T, ZhihuError>) -> Result<T::V, ErrorV> {
    match r {
        Ok(t) => Ok(t@),
        Err(e) => Err(e@),
    }
}

/// An `InvalidArgument` error carrying `msg`.
pub fn invalid_argument(msg: &str) -> (e: ZhihuError)
    ensures
        e@ == ErrorV::InvalidArgument(msg@),
{
    ZhihuError::InvalidArgument(owned(msg))
}

/// Name for the reason phrase that the `http` crate's `StatusCode::canonical_reason`
/// gives a valid status code (100 to 999).
pub uninterp spec fn canonical_reason_of(code: u16) -> Option<Seq<char>>;

/// Calls `http::StatusCode::from_u16` (re-exported by reqwest) and then
/// `StatusCode::canonical_reason`. `from_u16` accepts exactly the codes 100 to
/// 999, and for those the result is the table entry that `canonical_reason_of`
/// names; other codes have no reason phrase.
#[verifier::external_body]
fn canonical_reason(code: u16) -> (r: Option<&'static str>)
    ensures
        100 <= code <= 999 ==> match r {
            Some(s) => canonical_reason_of(code) == Some(s@),
            None => canonical_reason_of(code) is None,
        },
        !(100 <= code <= 999) ==> r is None,
{
    match reqwest::StatusCode::from_u16(code) {
        Ok(status) => status.canonical_reason(),
        Err(_) => None,
    }
}

/// How a status code is displayed: its number, a space, and its reason phrase.
pub open spec fn status_text(code: u16) -> Seq<char> {
    status_text_with(
        code,
        if 100 <= code <= 999 {
            canonical_reason_of(code)
        } else {
            None
        },
    )
}

/// The message of an error, as the command line shows it.
pub open spec fn error_message(e: ErrorV) -> Seq<char> {
    match e {
        ErrorV::MissingSecret =>
            "Missing access secret. Set ZHIHU_ACCESS_SECRET or run 'zhihu auth set-secret'."@,
        ErrorV::ConfigDirNotFound => "Configuration directory could not be determined"@,
        ErrorV::Io(m) => "IO error: "@ + m,
        ErrorV::ConfigParse(m) => "Failed to parse config: "@ + m,
        ErrorV::ConfigSerialize(m) => "Failed to serialize config: "@ + m,
        ErrorV::Http(m) => "HTTP request failed: "@ + m,
        ErrorV::Api { status, body } => "HTTP "@ + status_text(status) + ": "@ + body,
        ErrorV::NonJsonResponse => "Non-JSON response from API"@,
        ErrorV::InvalidArgument(m) => "Invalid argument: "@ + m,
        ErrorV::TaskTimeout { task_id, waited_secs } => "Task "@ + task_id
            + " did not finish within "@ + dec_int(waited_secs as int) + " seconds"@,
    }
}

/// How a status code is displayed given its reason phrase, if it has one.
pub open spec fn status_text_with(code: u16, reason: Option<Seq<char>>) -> Seq<char> {
    dec_int(code as int) + " "@ + match reason {
        Some(r) => r,
        None => "<unknown status code>"@,
    }
}

/// The text of `code` with the reason phrase `reason`: the number, a space and
/// the phrase, or `<unknown status code>` when there is none.
pub fn status_line(code: u16, reason: Option<&str>) -> (r: String)
    ensures
        r@ == status_text_with(code, match reason {
            Some(s) => Some(s@),
            None => None,
        }),
{
    let num = u64_to_text(code as u64);
    let phrase = match reason {
        Some(s) => s,
        None => "<unknown status code>",
    };
    concat3(num.as_str(), " ", phrase)
}

/// The text of a status code, as `StatusCode` displays it.
pub fn status_code_text(code: u16) -> (r: String)
    ensures
        r@ == status_text(code),
{
    status_line(code, canonical_reason(code))
}

impl ZhihuError {
    /// The message of this error.
    pub fn message(&self) -> (r: String)
        ensures
            r@ == error_message(self@),
    {
        match self {
            ZhihuError::MissingSecret => owned(
                "Missing access secret. Set ZHIHU_ACCESS_SECRET or run 'zhihu auth set-secret'.",
            ),
            ZhihuError::ConfigDirNotFound => owned("Configuration directory could not be determined"),
            ZhihuError::Io(m) => concat2("IO error: ", m.as_str()),
            ZhihuError::ConfigParse(m) => concat2("Failed to parse config: ", m.as_str()),
            ZhihuError::ConfigSerialize(m) => concat2("Failed to serialize config: ", m.as_str()),
            ZhihuError::Http(m) => concat2("HTTP request failed: ", m.as_str()),
            ZhihuError::Api { status, body } => {
                let st = status_code_text(*status);
                let head = concat3("HTTP ", st.as_str(), ": ");
                concat2(head.as_str(), body.as_str())
            },
            ZhihuError::NonJsonResponse => owned("Non-JSON response from API"),
            ZhihuError::InvalidArgument(m) => concat2("Invalid argument: ", m.as_str()),
            ZhihuError::TaskTimeout { task_id, waited_secs } => {
                let secs = u64_to_text(*waited_secs);
                let head = concat3("Task ", task_id.as_str(), " did not finish within ");
                concat3(head.as_str(), secs.as_str(), " seconds")
            },
        }
    }
}

} // verus!
