//! `ppt`: the generation-task body and the status path.
use vstd::prelude::*;
use crate::commands::{clamp, clamp_i32};
use crate::json::{jnat, jstr, obj2, Json, JsonV, NumberV};
use crate::text::concat2;

verus! {

/// The endpoint that creates generation tasks.
pub const TASKS_PATH: &'static str = "/api/v1/ppt-generation/tasks";

/// The body that creates a generation task for a Zhihu answer or article:
/// its URL, and the number of pages brought into `[6, 21]`.
pub open spec fn build_task_body_spec(resource_url: Seq<char>, pages: i32) -> JsonV {
    JsonV::Object(
        seq![
            ("resource_url"@, JsonV::Str(resource_url)),
            ("num_pages"@, JsonV::Number(NumberV::PosInt(clamp(pages as int, 6, 21) as u64))),
        ],
    )
}

/// The body that creates a generation task.
pub fn build_task_body(resource_url: &str, pages: i32) -> (r: Json)
    ensures
        r@ == build_task_body_spec(resource_url@, pages),
{
    let n = clamp_i32(pages, 6, 21);
    obj2("resource_url", jstr(resource_url), "num_pages", jnat(n as u64))
}

/// The status path of the generation task `task_id`.
pub fn build_status_path(task_id: &str) -> (r: String)
    ensures
        r@ == "/api/v1/ppt-generation/tasks/"@ + task_id@,
{
    concat2("/api/v1/ppt-generation/tasks/", task_id)
}


/// The generation task is asked for the given resource unchanged, and for
/// exactly the given number of pages when it is 6 to 21, the nearest bound
/// otherwise.
pub proof fn lemma_ppt_pages_bounds(resource_url: Seq<char>, pages: i32)
    ensures
        build_task_body_spec(resource_url, pages) matches JsonV::Object(m) && {
            &&& m.len() == 2
            &&& m[0] == ("resource_url"@, JsonV::Str(resource_url))
            &&& m[1].0 == "num_pages"@
            &&& (6 <= pages <= 21 ==> m[1].1 == JsonV::Number(NumberV::PosInt(pages as u64)))
            &&& (pages < 6 ==> m[1].1 == JsonV::Number(NumberV::PosInt(6)))
            &&& (pages > 21 ==> m[1].1 == JsonV::Number(NumberV::PosInt(21)))
        },
{
}

} // verus!
