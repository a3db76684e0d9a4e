//! Request assembly for each command group: the HTTP path, the query
//! parameters or JSON body, and the validation of user input.
use vstd::prelude::*;
use crate::text::owned;

pub mod ask;
pub mod auth;
pub mod creator;
pub mod hot;
pub mod knowledge;
pub mod pdf;
pub mod ppt;
pub mod question;
pub mod quota;
pub mod search;
pub mod user;

verus! {

/// Mathematical view of a GET request: its path and its query parameters,
/// in order.
pub struct RequestV {
    pub path: Seq<char>,
    pub query: Seq<(Seq<char>, Seq<char>)>,
}

/// The views of a list of query parameters.
pub open spec fn query_view(q: Seq<(&'static str, String)>) -> Seq<(Seq<char>, Seq<char>)> {
    Seq::new(q.len(), |i: int| (q[i].0@, q[i].1@))
}

/// `v` brought into `[lo, hi]`, as `Ord::clamp` does.
pub open spec fn clamp(v: int, lo: int, hi: int) -> int {
    if v < lo {
        lo
    } else if v > hi {
        hi
    } else {
        v
    }
}

/// `v` brought into `[lo, hi]`.
pub fn clamp_i64(v: i64, lo: i64, hi: i64) -> (r: i64)
    requires
        lo <= hi,
    ensures
        r == clamp(v as int, lo as int, hi as int),
{
    if v < lo {
        lo
    } else if v > hi {
        hi
    } else {
        v
    }
}

/// `v` brought into `[lo, hi]`.
pub fn clamp_i32(v: i32, lo: i32, hi: i32) -> (r: i32)
    requires
        lo <= hi,
    ensures
        r == clamp(v as int, lo as int, hi as int),
{
    if v < lo {
        lo
    } else if v > hi {
        hi
    } else {
        v
    }
}

/// A clamped value lies within the bounds, and a value already within them
/// is left as it is.
pub proof fn lemma_clamp(v: int, lo: int, hi: int)
    requires
        lo <= hi,
    ensures
        lo <= clamp(v, lo, hi) <= hi,
        lo <= v <= hi ==> clamp(v, lo, hi) == v,
        clamp(clamp(v, lo, hi), lo, hi) == clamp(v, lo, hi),
{
}

/// The parts of a multipart file upload besides the file's bytes: the form
/// field that carries the file, the file name and MIME type sent with it, and
/// the knowledge base it goes to (sent as the text field `KnowledgeBaseID`).
#[derive(Debug, PartialEq)]
pub struct UploadForm {
    pub field: &'static str,
    pub file_name: String,
    pub mime: String,
    pub kb_id: Option<String>,
}

/// Name for what `Path::file_name` gives for a path: its last component,
/// unless that is `..` or there is none.
pub uninterp spec fn file_name_of(path: Seq<char>) -> Option<Seq<char>>;

/// Calls `std::path::Path::file_name` on `path`. The result depends on the
/// path alone; which component it picks is left to the name `file_name_of`.
/// The component of a path given as UTF-8 text is UTF-8, so the conversion
/// back to text loses nothing.
#[verifier::external_body]
fn path_file_name(path: &str) -> (r: Option<String>)
    ensures
        match r {
            Some(n) => file_name_of(path@) == Some(n@),
            None => file_name_of(path@) is None,
        },
{
    match std::path::Path::new(path).file_name() {
        Some(n) => Some(n.to_string_lossy().into_owned()),
        None => None,
    }
}

/// Name for the MIME type (type and subtype) that `mime_guess` guesses from
/// a file name's extension, `application/octet-stream` when it knows none.
pub uninterp spec fn guessed_mime_of(file_name: Seq<char>) -> Seq<char>;

/// Calls `mime_guess::from_path(..).first_or_octet_stream()` and takes the
/// essence of the guessed type. The guess is a lookup of the extension in
/// the crate's table, so it depends on the file name alone; the table is left
/// to the name `guessed_mime_of`.
#[verifier::external_body]
fn guess_mime(file_name: &str) -> (r: String)
    ensures
        r@ == guessed_mime_of(file_name@),
{
    mime_guess::from_path(file_name).first_or_octet_stream().essence_str().to_string()
}

/// The name a file is uploaded under: the last component of its path, or
/// the whole path when it has none.
pub open spec fn upload_name_spec(path: Seq<char>) -> Seq<char> {
    match file_name_of(path) {
        Some(n) => n,
        None => path,
    }
}

/// The upload form for the file at `file_path`, given the last component of
/// the path (`base_name`) and the MIME type guessed for the name: the name is
/// `base_name`, or the whole path when there is none.
pub fn upload_form_from(
    field: &'static str,
    file_path: &str,
    base_name: Option<String>,
    mime: String,
    kb_id: Option<&str>,
) -> (r: UploadForm)
    ensures
        r.field@ == field@,
        r.file_name@ == match base_name {
            Some(n) => n@,
            None => file_path@,
        },
        r.mime@ == mime@,
        match kb_id {
            Some(k) => r.kb_id matches Some(x) && x@ == k@,
            None => r.kb_id is None,
        },
{
    let file_name = match base_name {
        Some(n) => n,
        None => owned(file_path),
    };
    let kb = match kb_id {
        Some(k) => Some(owned(k)),
        None => None,
    };
    UploadForm { field, file_name, mime, kb_id: kb }
}

/// The upload form for the file at `file_path`, its file sent in the form
/// field `field`.
pub fn upload_form(field: &'static str, file_path: &str, kb_id: Option<&str>) -> (r: UploadForm)
    ensures
        r.field@ == field@,
        r.file_name@ == upload_name_spec(file_path@),
        r.mime@ == guessed_mime_of(upload_name_spec(file_path@)),
        match kb_id {
            Some(k) => r.kb_id matches Some(x) && x@ == k@,
            None => r.kb_id is None,
        },
{
    let base_name = path_file_name(file_path);
    let name = match &base_name {
        Some(n) => owned(n.as_str()),
        None => owned(file_path),
    };
    let mime = guess_mime(name.as_str());
    upload_form_from(field, file_path, base_name, mime, kb_id)
}

} // verus!
