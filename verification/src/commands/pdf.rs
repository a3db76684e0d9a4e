//! `pdf`: the upload form, the parse-task body, the status path, and the
//! file id that an upload answers with.
use vstd::prelude::*;
use crate::commands::{guessed_mime_of, upload_form, upload_name_spec, UploadForm};
use crate::error::{invalid_argument, ErrorV, ZhihuError};
use crate::json::{jstr, obj1, step2, Json, JsonV};
use crate::text::concat2;

verus! {

/// The endpoint that receives uploaded files.
pub const UPLOAD_PATH: &'static str = "/resources/v1/files";

/// The endpoint that creates parse tasks.
pub const TASKS_PATH: &'static str = "/api/v1/pdf-parse/tasks";

/// The upload form for the PDF at `file_path`: the file goes in the form
/// field `file`, under the last component of its path.
pub fn build_upload_form(file_path: &str) -> (r: UploadForm)
    ensures
        r.field@ == "file"@,
        r.file_name@ == upload_name_spec(file_path@),
        r.mime@ == guessed_mime_of(upload_name_spec(file_path@)),
        r.kb_id is None,
{
    upload_form("file", file_path, None)
}

/// The body that creates a parse task for an uploaded file.
pub fn build_task_body(file_id: &str) -> (r: Json)
    ensures
        r@ == JsonV::Object(seq![("file_id"@, JsonV::Str(file_id@))]),
{
    obj1("file_id", jstr(file_id))
}

/// The status path of the parse task `task_id`.
pub fn build_status_path(task_id: &str) -> (r: String)
    ensures
        r@ == "/api/v1/pdf-parse/tasks/"@ + task_id@,
{
    concat2("/api/v1/pdf-parse/tasks/", task_id)
}

/// The `Data.file_id` that an upload response carries, when it is a string.
pub open spec fn file_id_spec(upload: JsonV) -> Result<Seq<char>, ErrorV> {
    match step2(upload, "Data"@, "file_id"@) {
        Some(JsonV::Str(id)) => Ok(id),
        _ => Err(ErrorV::InvalidArgument("upload response did not contain Data.file_id"@)),
    }
}

/// The file id that an upload response carries.
pub fn upload_file_id(upload: &Json) -> (r: Result<String, ZhihuError>)
    ensures
        match r {
            Ok(id) => file_id_spec(upload@) == Ok::<Seq<char>, ErrorV>(id@),
            Err(e) => file_id_spec(upload@) == Err::<Seq<char>, ErrorV>(e@),
        },
{
    let found = match upload.step("Data") {
        Some(d) => match d.step("file_id") {
            Some(v) => v.as_str(),
            None => None,
        },
        None => None,
    };
    match found {
        Some(id) => Ok(id.clone()),
        None => Err(invalid_argument("upload response did not contain Data.file_id")),
    }
}

} // verus!
