//! Waiting for an asynchronous task (PDF parsing, PPT generation): when a
//! task-status envelope is final, and what one poll decides.
use vstd::prelude::*;
use crate::error::{invalid_argument, ErrorV, ZhihuError};
use crate::commands::{pdf, ppt};
use crate::json::{field, i64_of, step2, Json, JsonV};
use crate::text::{owned, str_eq};

verus! {

/// Whether the envelope reports success: its `Code` is the integer 0.
pub open spec fn code_is_zero(task: JsonV) -> bool {
    field(task, "Code"@) matches Some(c) && i64_of(c) == Some(0i64)
}

/// Whether a task-status envelope is final: `Data.task_status` is
/// `succeeded` or `failed`, or the envelope reports an error (a `Code` other
/// than 0), which polling cannot mend.
pub open spec fn is_terminal_spec(task: JsonV) -> bool {
    if !code_is_zero(task) {
        true
    } else {
        match step2(task, "Data"@, "task_status"@) {
            Some(JsonV::Str(s)) => s == "succeeded"@ || s == "failed"@,
            _ => false,
        }
    }
}

/// Whether a task-status envelope is final.
pub fn is_terminal(task: &Json) -> (r: bool)
    ensures
        r == is_terminal_spec(task@),
{
    let code_zero = match task.get("Code") {
        Some(c) => match c.as_i64() {
            Some(v) => v == 0,
            None => false,
        },
        None => false,
    };
    if !code_zero {
        return true;
    }
    match task.get("Data") {
        Some(d) => match d.step("task_status") {
            Some(st) => match st.as_str() {
                Some(s) => str_eq(s.as_str(), "succeeded") || str_eq(s.as_str(), "failed"),
                None => false,
            },
            None => false,
        },
        None => false,
    }
}

/// What one poll of a task decides, given the status just fetched and whether
/// the deadline has passed: the status when it is final (`Some(Ok)`), a
/// timeout naming the task and the time waited when the deadline has passed
/// (`Some(Err)`), or another poll after a pause (`None`).
pub fn poll_step(task: Json, deadline_reached: bool, task_id: &str, timeout_secs: u64) -> (r: Option<
    Result<Json, ZhihuError>,
>)
    ensures
        is_terminal_spec(task@) ==> (r matches Some(Ok(t)) && t@ == task@),
        !is_terminal_spec(task@) && deadline_reached ==> (r matches Some(Err(e)) && e@
            == ErrorV::TaskTimeout { task_id: task_id@, waited_secs: timeout_secs }),
        !is_terminal_spec(task@) && !deadline_reached ==> r is None,
{
    if is_terminal(&task) {
        return Some(Ok(task));
    }
    if deadline_reached {
        return Some(Err(ZhihuError::TaskTimeout { task_id: owned(task_id), waited_secs: timeout_secs }));
    }
    None
}

/// The `Data.task_id` that a task-creation response carries, when it is a
/// string.
pub open spec fn task_id_spec(task: JsonV) -> Result<Seq<char>, ErrorV> {
    match step2(task, "Data"@, "task_id"@) {
        Some(JsonV::Str(id)) => Ok(id),
        _ => Err(ErrorV::InvalidArgument("task response did not contain Data.task_id"@)),
    }
}

/// The task id that a task-creation response carries.
pub fn task_id_of(task: &Json) -> (r: Result<String, ZhihuError>)
    ensures
        match r {
            Ok(id) => task_id_spec(task@) == Ok::<Seq<char>, ErrorV>(id@),
            Err(e) => task_id_spec(task@) == Err::<Seq<char>, ErrorV>(e@),
        },
{
    let found = match task.step("Data") {
        Some(d) => match d.step("task_id") {
            Some(v) => v.as_str(),
            None => None,
        },
        None => None,
    };
    match found {
        Some(id) => Ok(id.clone()),
        None => Err(invalid_argument("task response did not contain Data.task_id")),
    }
}

/// The commands that create a task and wait for it.
#[derive(Debug, Clone, Copy, PartialEq, Eq)]
pub enum TaskKind {
    /// `pdf parse`: upload the file, create the parse task, wait.
    PdfParse,
    /// `ppt generate`: create the generation task, wait.
    PptGenerate,
}

/// The status path of task `task_id` of the given kind.
pub open spec fn status_path_spec(kind: TaskKind, task_id: Seq<char>) -> Seq<char> {
    match kind {
        TaskKind::PdfParse => "/api/v1/pdf-parse/tasks/"@ + task_id,
        TaskKind::PptGenerate => "/api/v1/ppt-generation/tasks/"@ + task_id,
    }
}

/// Where a one-shot task command stands.
#[derive(Debug)]
pub enum FlowState {
    /// The file is being uploaded.
    Uploading,
    /// The task is being created.
    Creating,
    /// The task `task_id` is being polled.
    Waiting { task_id: String },
    /// The command has its result.
    Finished,
}

/// What the program does next.
#[derive(Debug)]
pub enum FlowAction {
    /// Upload the file.
    Upload,
    /// Create the task with this body.
    CreateTask(Json),
    /// Fetch the task status at `path`, after a pause when `pause` is set.
    Poll { path: String, pause: bool },
    /// Stop with this result.
    Finish(Result<Json, ZhihuError>),
}

/// What the outside work answered.
#[derive(Debug)]
pub enum FlowEvent {
    /// The upload answered with this response.
    Uploaded(Json),
    /// The task creation answered with this response.
    Created(Json),
    /// A status poll answered with this status; whether the deadline had
    /// passed when it did.
    Polled(Json, bool),
    /// The request failed.
    Failed(ZhihuError),
}

/// Mathematical view of a flow state.
pub enum FlowStateV {
    Uploading,
    Creating,
    Waiting(Seq<char>),
    Finished,
}

/// Mathematical view of a flow action.
pub enum FlowActionV {
    Upload,
    CreateTask(JsonV),
    Poll(Seq<char>, bool),
    Finish(Result<JsonV, ErrorV>),
}

/// Mathematical view of a flow event.
pub enum FlowEventV {
    Uploaded(JsonV),
    Created(JsonV),
    Polled(JsonV, bool),
    Failed(ErrorV),
}

impl View for FlowState {
    type V = FlowStateV;

    open spec fn view(&self) -> FlowStateV {
        match self {
            FlowState::Uploading => FlowStateV::Uploading,
            FlowState::Creating => FlowStateV::Creating,
            FlowState::Waiting { task_id } => FlowStateV::Waiting(task_id@),
            FlowState::Finished => FlowStateV::Finished,
        }
    }
}

impl View for FlowAction {
    type V = FlowActionV;

    open spec fn view(&self) -> FlowActionV {
        match self {
            FlowAction::Upload => FlowActionV::Upload,
            FlowAction::CreateTask(body) => FlowActionV::CreateTask(body@),
            FlowAction::Poll { path, pause } => FlowActionV::Poll(path@, *pause),
            FlowAction::Finish(r) => FlowActionV::Finish(
                match r {
                    Ok(j) => Ok(j@),
                    Err(e) => Err(e@),
                },
            ),
        }
    }
}

impl View for FlowEvent {
    type V = FlowEventV;

    open spec fn view(&self) -> FlowEventV {
        match self {
            FlowEvent::Uploaded(j) => FlowEventV::Uploaded(j@),
            FlowEvent::Created(j) => FlowEventV::Created(j@),
            FlowEvent::Polled(j, reached) => FlowEventV::Polled(j@, *reached),
            FlowEvent::Failed(e) => FlowEventV::Failed(e@),
        }
    }
}

/// Whether `event` is an answer to the work that `state` waits for: an upload
/// while uploading, a creation while creating, a poll while waiting, or a
/// failure of any of them.
pub open spec fn event_fits(state: FlowStateV, event: FlowEventV) -> bool {
    match (state, event) {
        (FlowStateV::Finished, _) => false,
        (_, FlowEventV::Failed(_)) => true,
        (FlowStateV::Uploading, FlowEventV::Uploaded(_)) => true,
        (FlowStateV::Creating, FlowEventV::Created(_)) => true,
        (FlowStateV::Waiting(_), FlowEventV::Polled(_, _)) => true,
        _ => false,
    }
}

/// Whether `event` answers the work that `state` waits for.
pub fn event_fits_state(state: &FlowState, event: &FlowEvent) -> (r: bool)
    ensures
        r == event_fits(state@, event@),
{
    match (state, event) {
        (FlowState::Finished, _) => false,
        (_, FlowEvent::Failed(_)) => true,
        (FlowState::Uploading, FlowEvent::Uploaded(_)) => true,
        (FlowState::Creating, FlowEvent::Created(_)) => true,
        (FlowState::Waiting { .. }, FlowEvent::Polled(_, _)) => true,
        _ => false,
    }
}

/// How a one-shot task command goes on: a failed request ends it with that
/// error; an upload answer gives the file id to create the task with; a
/// creation answer gives the task id to poll; a poll answer ends the command
/// with the task when it is final, with a timeout when the deadline has
/// passed, and otherwise polls again after a pause.
pub open spec fn flow_step_spec(kind: TaskKind, state: FlowStateV, event: FlowEventV, timeout_secs: u64) -> (
    FlowStateV,
    FlowActionV,
) {
    match event {
        FlowEventV::Failed(e) => (FlowStateV::Finished, FlowActionV::Finish(Err(e))),
        FlowEventV::Uploaded(upload) => match pdf::file_id_spec(upload) {
            Err(e) => (FlowStateV::Finished, FlowActionV::Finish(Err(e))),
            Ok(id) => (
                FlowStateV::Creating,
                FlowActionV::CreateTask(JsonV::Object(seq![("file_id"@, JsonV::Str(id))])),
            ),
        },
        FlowEventV::Created(task) => match task_id_spec(task) {
            Err(e) => (FlowStateV::Finished, FlowActionV::Finish(Err(e))),
            Ok(id) => (FlowStateV::Waiting(id), FlowActionV::Poll(status_path_spec(kind, id), false)),
        },
        FlowEventV::Polled(task, deadline_reached) => {
            let id = state->Waiting_0;
            if is_terminal_spec(task) {
                (FlowStateV::Finished, FlowActionV::Finish(Ok(task)))
            } else if deadline_reached {
                (
                    FlowStateV::Finished,
                    FlowActionV::Finish(
                        Err(ErrorV::TaskTimeout { task_id: id, waited_secs: timeout_secs }),
                    ),
                )
            } else {
                (FlowStateV::Waiting(id), FlowActionV::Poll(status_path_spec(kind, id), true))
            }
        },
    }
}

/// The status path of task `task_id` of the given kind.
pub fn status_path(kind: TaskKind, task_id: &str) -> (r: String)
    ensures
        r@ == status_path_spec(kind, task_id@),
{
    match kind {
        TaskKind::PdfParse => pdf::build_status_path(task_id),
        TaskKind::PptGenerate => ppt::build_status_path(task_id),
    }
}

/// How `pdf parse` starts: by uploading the file.
pub fn start_pdf_parse() -> (r: (FlowState, FlowAction))
    ensures
        r.0@ == FlowStateV::Uploading,
        r.1@ == FlowActionV::Upload,
{
    (FlowState::Uploading, FlowAction::Upload)
}

/// How `ppt generate` starts: by creating the task for the resource with the
/// number of pages brought into `[6, 21]`.
pub fn start_ppt_generate(resource_url: &str, pages: i32) -> (r: (FlowState, FlowAction))
    ensures
        r.0@ == FlowStateV::Creating,
        r.1 matches FlowAction::CreateTask(body) && body@ == ppt::build_task_body_spec(
            resource_url@,
            pages,
        ),
{
    (FlowState::Creating, FlowAction::CreateTask(ppt::build_task_body(resource_url, pages)))
}

/// The next state and action of a one-shot task command, given the answer to
/// the work it waited for.
pub fn flow_step(kind: TaskKind, state: FlowState, event: FlowEvent, timeout_secs: u64) -> (r: (
    FlowState,
    FlowAction,
))
    requires
        event_fits(state@, event@),
    ensures
        (r.0@, r.1@) == flow_step_spec(kind, state@, event@, timeout_secs),
{
    match event {
        FlowEvent::Failed(e) => (FlowState::Finished, FlowAction::Finish(Err(e))),
        FlowEvent::Uploaded(upload) => match pdf::upload_file_id(&upload) {
            Err(e) => (FlowState::Finished, FlowAction::Finish(Err(e))),
            Ok(id) => (FlowState::Creating, FlowAction::CreateTask(pdf::build_task_body(id.as_str()))),
        },
        FlowEvent::Created(task) => match task_id_of(&task) {
            Err(e) => (FlowState::Finished, FlowAction::Finish(Err(e))),
            Ok(id) => {
                let path = status_path(kind, id.as_str());
                (FlowState::Waiting { task_id: id }, FlowAction::Poll { path, pause: false })
            },
        },
        FlowEvent::Polled(task, deadline_reached) => {
            let task_id = match state {
                FlowState::Waiting { task_id } => task_id,
                _ => String::new(),
            };
            match poll_step(task, deadline_reached, task_id.as_str(), timeout_secs) {
                Some(result) => (FlowState::Finished, FlowAction::Finish(result)),
                None => {
                    let path = status_path(kind, task_id.as_str());
                    (FlowState::Waiting { task_id }, FlowAction::Poll { path, pause: true })
                },
            }
        },
    }
}

/// A one-shot task command only ever succeeds with a final task status: any
/// `Ok` it finishes with is a status that `is_terminal` accepts.
pub proof fn lemma_flow_succeeds_only_with_final_status(
    kind: TaskKind,
    state: FlowStateV,
    event: FlowEventV,
    timeout_secs: u64,
)
    requires
        event_fits(state, event),
    ensures
        flow_step_spec(kind, state, event, timeout_secs).1 matches FlowActionV::Finish(Ok(t))
            ==> is_terminal_spec(t),
        flow_step_spec(kind, state, event, timeout_secs).0 is Finished <==> flow_step_spec(
            kind,
            state,
            event,
            timeout_secs,
        ).1 is Finish,
{
}


/// While a task is not final and the deadline has not passed, the command
/// keeps polling the very status path it first polled after creating the task
/// (the path of that task, for its own kind of command), after a pause.
pub proof fn lemma_repoll_uses_first_poll_path(
    kind: TaskKind,
    created: JsonV,
    task_id: Seq<char>,
    task: JsonV,
    timeout_secs: u64,
)
    requires
        task_id_spec(created) == Ok::<Seq<char>, ErrorV>(task_id),
        !is_terminal_spec(task),
    ensures
        flow_step_spec(kind, FlowStateV::Creating, FlowEventV::Created(created), timeout_secs).1
            == FlowActionV::Poll(
            match kind {
                TaskKind::PdfParse => "/api/v1/pdf-parse/tasks/"@ + task_id,
                TaskKind::PptGenerate => "/api/v1/ppt-generation/tasks/"@ + task_id,
            },
            false,
        ),
        flow_step_spec(kind, FlowStateV::Waiting(task_id), FlowEventV::Polled(task, false), timeout_secs)
            == (
            FlowStateV::Waiting(task_id),
            FlowActionV::Poll(
                match kind {
                    TaskKind::PdfParse => "/api/v1/pdf-parse/tasks/"@ + task_id,
                    TaskKind::PptGenerate => "/api/v1/ppt-generation/tasks/"@ + task_id,
                },
                true,
            ),
        ),
{
}


/// The file uploaded for a PDF parse is the file the parse task is created
/// for: the task body holds exactly the file id that the upload answered with.
pub proof fn lemma_task_created_for_uploaded_file(upload: JsonV, file_id: Seq<char>, timeout_secs: u64)
    requires
        step2(upload, "Data"@, "file_id"@) == Some(JsonV::Str(file_id)),
    ensures
        flow_step_spec(
            TaskKind::PdfParse,
            FlowStateV::Uploading,
            FlowEventV::Uploaded(upload),
            timeout_secs,
        ) == (
            FlowStateV::Creating,
            FlowActionV::CreateTask(JsonV::Object(seq![("file_id"@, JsonV::Str(file_id))])),
        ),
{
}

/// A poll that finds the task not final after the deadline ends the command
/// with a timeout that names the task waited for and the time allowed; a poll
/// that finds it final ends the command with that very status.
pub proof fn lemma_poll_outcomes(kind: TaskKind, task_id: Seq<char>, task: JsonV, reached: bool, timeout_secs: u64)
    ensures
        !is_terminal_spec(task) && reached ==> flow_step_spec(
            kind,
            FlowStateV::Waiting(task_id),
            FlowEventV::Polled(task, reached),
            timeout_secs,
        ) == (
            FlowStateV::Finished,
            FlowActionV::Finish(
                Err(ErrorV::TaskTimeout { task_id: task_id, waited_secs: timeout_secs }),
            ),
        ),
        is_terminal_spec(task) ==> flow_step_spec(
            kind,
            FlowStateV::Waiting(task_id),
            FlowEventV::Polled(task, reached),
            timeout_secs,
        ) == (FlowStateV::Finished, FlowActionV::Finish(Ok::<JsonV, ErrorV>(task))),
{
}

/// A status is final when its `Code` is anything but the integer 0 (missing,
/// another number, not a number), and otherwise exactly when its
/// `Data.task_status` is the string `succeeded` or `failed`.
pub proof fn lemma_terminal_statuses(task: JsonV)
    ensures
        !(field(task, "Code"@) matches Some(c) && i64_of(c) == Some(0i64)) ==> is_terminal_spec(task),
        (field(task, "Code"@) matches Some(c) && i64_of(c) == Some(0i64)) ==> (is_terminal_spec(task)
            <==> (step2(task, "Data"@, "task_status"@) == Some(JsonV::Str("succeeded"@))
            || step2(task, "Data"@, "task_status"@) == Some(JsonV::Str("failed"@)))),
{
}

} // verus!
