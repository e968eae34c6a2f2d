//! Decisions shared by the task services: the errors they answer with, the
//! ticket a caller gets for a task, the updates that move a task through its
//! life, whether a task may be cancelled, and the steps that create a task.

use vstd::prelude::*;
use vstd::string::StringExecFns;
use crate::text::{str_eq, i64_text, signed_decimal};
use crate::clock::{Timestamp, instant_text};
use crate::task::{AudioGenerationTask, CreateTaskRequest, OperationType, TaskFilter, TaskStatus, UpdateTaskRequest};

verus! {

broadcast use vstd::string::group_string_axioms;

/// An error of a task service.
#[derive(Debug)]
pub enum ServiceError {
    TaskNotFound { task_no: String },
    InvalidRequest { message: String },
    AiEngine(String),
    DriveService(String),
    Database(String),
    Internal(String),
}

impl ServiceError {
    /// The human-readable text of the error.
    pub open spec fn text(self) -> Seq<char> {
        match self {
            ServiceError::TaskNotFound { task_no } => "Task not found: "@ + task_no@,
            ServiceError::InvalidRequest { message } => "Invalid request: "@ + message@,
            ServiceError::AiEngine(m) => "AI engine error: "@ + m@,
            ServiceError::DriveService(m) => "Drive service error: "@ + m@,
            ServiceError::Database(m) => "Database error: "@ + m@,
            ServiceError::Internal(m) => "Internal error: "@ + m@,
        }
    }

    /// The human-readable text of the error.
    pub fn message(&self) -> (r: String)
        ensures
            r@ == self.text(),
    {
        match self {
            ServiceError::TaskNotFound { task_no } => String::from_str("Task not found: ").concat(task_no.as_str()),
            ServiceError::InvalidRequest { message } => String::from_str("Invalid request: ").concat(message.as_str()),
            ServiceError::AiEngine(m) => String::from_str("AI engine error: ").concat(m.as_str()),
            ServiceError::DriveService(m) => String::from_str("Drive service error: ").concat(m.as_str()),
            ServiceError::Database(m) => String::from_str("Database error: ").concat(m.as_str()),
            ServiceError::Internal(m) => String::from_str("Internal error: ").concat(m.as_str()),
        }
    }
}

impl Clone for ServiceError {
    fn clone(&self) -> (r: Self)
        ensures
            r == *self,
    {
        match self {
            ServiceError::TaskNotFound { task_no } => ServiceError::TaskNotFound { task_no: task_no.clone() },
            ServiceError::InvalidRequest { message } => ServiceError::InvalidRequest { message: message.clone() },
            ServiceError::AiEngine(m) => ServiceError::AiEngine(m.clone()),
            ServiceError::DriveService(m) => ServiceError::DriveService(m.clone()),
            ServiceError::Database(m) => ServiceError::Database(m.clone()),
            ServiceError::Internal(m) => ServiceError::Internal(m.clone()),
        }
    }
}

/// A copy of an optional text.
pub fn clone_opt_string(o: &Option<String>) -> (r: Option<String>)
    ensures
        r == *o,
{
    match o {
        Some(s) => Some(s.clone()),
        None => None,
    }
}

/// `e` is the request error that carries exactly the text `m`.
pub open spec fn is_invalid_request(e: ServiceError, m: Seq<char>) -> bool {
    e matches ServiceError::InvalidRequest { message } && message@ == m
}

/// Builds the request error that carries `message`.
pub fn invalid_request(message: &str) -> (e: ServiceError)
    ensures
        is_invalid_request(e, message@),
{
    ServiceError::InvalidRequest { message: String::from_str(message) }
}

/// What a caller gets back for a task: its identifiers, its status and how
/// long the work is expected to take.
#[derive(Debug, Clone)]
pub struct TaskTicket {
    pub task_id: String,
    pub task_no: String,
    pub status: String,
    pub estimated_duration_ms: Option<u64>,
}

/// `r` is the ticket of task `t` with the estimate `est`.
pub open spec fn is_ticket_for(r: TaskTicket, t: AudioGenerationTask, est: Option<u64>) -> bool {
    &&& r.task_id@ == signed_decimal(t.id as int)
    &&& r.task_no@ == t.task_no@
    &&& r.status@ == t.status@
    &&& r.estimated_duration_ms == est
}

/// The ticket of a task.
pub fn ticket(task: &AudioGenerationTask, est: Option<u64>) -> (r: TaskTicket)
    ensures
        is_ticket_for(r, *task, est),
{
    TaskTicket {
        task_id: i64_text(task.id),
        task_no: task.task_no.clone(),
        status: task.status.clone(),
        estimated_duration_ms: est,
    }
}

/// The update that changes only the progress.
pub open spec fn progress_only(p: i32) -> UpdateTaskRequest {
    UpdateTaskRequest {
        status: None,
        progress: Some(p),
        provider_code: None,
        provider_route_id: None,
        provider_task_id: None,
        provider_request_json: None,
        provider_response_json: None,
        result_json: None,
        error_code: None,
        error_message: None,
        callback_status: None,
        submitted_at: None,
        completed_at: None,
        expires_at: None,
    }
}

/// The update that sets a status and a progress.
pub open spec fn status_and_progress(s: TaskStatus, p: i32) -> UpdateTaskRequest {
    UpdateTaskRequest { status: Some(s), ..progress_only(p) }
}

/// The update that cancels a task at `now`.
pub open spec fn cancellation(now: Timestamp) -> UpdateTaskRequest {
    UpdateTaskRequest {
        status: Some(TaskStatus::Cancelled),
        progress: None,
        completed_at: Some(now),
        ..progress_only(0)
    }
}

pub fn progress_update(p: i32) -> (u: UpdateTaskRequest)
    ensures
        u == progress_only(p),
{
    UpdateTaskRequest { progress: Some(p), ..Default::default() }
}

pub fn status_update(s: TaskStatus, p: i32) -> (u: UpdateTaskRequest)
    ensures
        u == status_and_progress(s, p),
{
    UpdateTaskRequest { status: Some(s), progress: Some(p), ..Default::default() }
}

/// `u` records a failed run with the error text `message`, completed at `now`.
pub open spec fn is_failure_update(u: UpdateTaskRequest, message: Seq<char>, now: Timestamp) -> bool {
    &&& u.status == Some(TaskStatus::Failed)
    &&& u.error_code matches Some(c) && c@ == "PROCESSING_ERROR"@
    &&& u.error_message matches Some(m) && m@ == message
    &&& u.completed_at == Some(now)
    &&& u.progress is None
    &&& u.result_json is None
    &&& u.provider_code is None
    &&& u.provider_route_id is None
    &&& u.provider_task_id is None
    &&& u.provider_request_json is None
    &&& u.provider_response_json is None
    &&& u.callback_status is None
    &&& u.submitted_at is None
    &&& u.expires_at is None
}

/// The update that records a failed run of a task.
pub fn failure_update(error: &ServiceError, now: Timestamp) -> (u: UpdateTaskRequest)
    ensures
        is_failure_update(u, error.text(), now),
{
    UpdateTaskRequest {
        status: Some(TaskStatus::Failed),
        error_code: Some(String::from_str("PROCESSING_ERROR")),
        error_message: Some(error.message()),
        completed_at: Some(now),
        ..Default::default()
    }
}

/// `u` records a successful run with the result document `json`, completed at `now`.
pub open spec fn is_success_update(u: UpdateTaskRequest, json: Seq<char>, now: Timestamp) -> bool {
    &&& u.status == Some(TaskStatus::Succeeded)
    &&& u.progress == Some(100i32)
    &&& u.result_json matches Some(j) && j@ == json
    &&& u.completed_at == Some(now)
    &&& u.error_code is None
    &&& u.error_message is None
    &&& u.provider_code is None
    &&& u.provider_route_id is None
    &&& u.provider_task_id is None
    &&& u.provider_request_json is None
    &&& u.provider_response_json is None
    &&& u.callback_status is None
    &&& u.submitted_at is None
    &&& u.expires_at is None
}

/// The update that records a successful run of a task.
pub fn success_update(result_json: String, now: Timestamp) -> (u: UpdateTaskRequest)
    ensures
        is_success_update(u, result_json@, now),
{
    UpdateTaskRequest {
        status: Some(TaskStatus::Succeeded),
        progress: Some(100),
        result_json: Some(result_json),
        completed_at: Some(now),
        ..Default::default()
    }
}

/// A task whose run has ended, well or badly, can no longer be cancelled.
pub open spec fn is_finished(status: Seq<char>) -> bool {
    status == TaskStatus::Succeeded.text() || status == TaskStatus::Failed.text()
}

/// Checks that a task is of the operation a service handles; otherwise the
/// request error with `message`.
pub fn check_operation(task: &AudioGenerationTask, op: OperationType, message: &str) -> (r: Result<(), ServiceError>)
    ensures
        r is Ok <==> task.operation_type@ == op.text(),
        r matches Err(e) ==> is_invalid_request(e, message@),
{
    if str_eq(task.operation_type.as_str(), op.as_str()) {
        Ok(())
    } else {
        Err(invalid_request(message))
    }
}

/// The answer to cancelling the task numbered `task_no`, given the task found
/// under that number (if any) and the operation the service handles with the
/// text it refuses other tasks with (when it checks): not found; not of this
/// service; already finished; or the task's id with the cancelling update.
pub open spec fn cancel_answer(
    task_no: Seq<char>,
    found: Option<AudioGenerationTask>,
    kind: Option<(OperationType, Seq<char>)>,
    now: Timestamp,
    r: Result<(i64, UpdateTaskRequest), ServiceError>,
) -> bool {
    match found {
        None => r matches Err(ServiceError::TaskNotFound { task_no: n }) && n@ == task_no,
        Some(t) => if kind is Some && t.operation_type@ != kind.unwrap().0.text() {
            r matches Err(e) && is_invalid_request(e, kind.unwrap().1)
        } else if is_finished(t.status@) {
            r matches Err(e) && is_invalid_request(e, "Cannot cancel completed task"@)
        } else {
            r == Ok::<(i64, UpdateTaskRequest), ServiceError>((t.id, cancellation(now)))
        },
    }
}

/// Decides a cancellation: the id of the task and the update to apply, or the
/// error to answer with.
pub fn plan_cancel(
    task_no: &str,
    found: Option<AudioGenerationTask>,
    kind: Option<(OperationType, &str)>,
    now: Timestamp,
) -> (r: Result<(i64, UpdateTaskRequest), ServiceError>)
    ensures
        cancel_answer(task_no@, found, match kind { Some(k) => Some((k.0, k.1@)), None => None }, now, r),
{
    match found {
        None => Err(ServiceError::TaskNotFound { task_no: String::from_str(task_no) }),
        Some(task) => {
            if let Some((op, message)) = kind {
                let c = check_operation(&task, op, message);
                if let Err(e) = c {
                    return Err(e);
                }
            }
            let succeeded = str_eq(task.status.as_str(), TaskStatus::Succeeded.as_str());
            let failed = str_eq(task.status.as_str(), TaskStatus::Failed.as_str());
            if succeeded || failed {
                return Err(invalid_request("Cannot cancel completed task"));
            }
            let u = UpdateTaskRequest {
                status: Some(TaskStatus::Cancelled),
                completed_at: Some(now),
                ..Default::default()
            };
            Ok((task.id, u))
        },
    }
}

/// The tasks a listing asks for: the tenant's tasks of one operation, narrowed
/// by user and by the status when it names one.
pub fn task_filter(op: OperationType, tenant_id: i64, user_id: Option<i64>, status: &Option<String>) -> (f: TaskFilter)
    ensures
        f.tenant_id == Some(tenant_id),
        f.user_id == user_id,
        f.organization_id is None,
        f.operation_type == Some(op),
        f.status == (match status {
            Some(s) => TaskStatus::parse(s@),
            None => None,
        }),
        f.provider_code is None,
        f.created_after is None,
        f.created_before is None,
{
    let st = match status {
        Some(s) => TaskStatus::from_str(s.as_str()),
        None => None,
    };
    TaskFilter {
        tenant_id: Some(tenant_id),
        user_id,
        organization_id: None,
        operation_type: Some(op),
        status: st,
        provider_code: None,
        created_after: None,
        created_before: None,
    }
}

/// How a task is identified and where it stands, as shown to readers.
#[derive(Debug, Clone)]
pub struct TaskSummary {
    pub task_id: String,
    pub task_no: String,
    pub status: String,
    pub progress: i32,
    pub created_at: String,
    pub completed_at: Option<String>,
}

/// `r` shows task `t`.
pub open spec fn is_summary_of(r: TaskSummary, t: AudioGenerationTask) -> bool {
    &&& r.task_id@ == signed_decimal(t.id as int)
    &&& r.task_no == t.task_no
    &&& r.status == t.status
    &&& r.progress == t.progress
    &&& r.created_at@ == instant_text(t.created_at)
    &&& match t.completed_at {
        Some(c) => r.completed_at matches Some(x) && x@ == instant_text(c),
        None => r.completed_at is None,
    }
}

/// How a task is shown to readers.
pub fn summarize(task: &AudioGenerationTask) -> (r: TaskSummary)
    ensures
        is_summary_of(r, *task),
{
    TaskSummary {
        task_id: i64_text(task.id),
        task_no: task.task_no.clone(),
        status: task.status.clone(),
        progress: task.progress,
        created_at: task.created_at.to_rfc3339(),
        completed_at: match task.completed_at {
            Some(c) => Some(c.to_rfc3339()),
            None => None,
        },
    }
}

/// The task a result is read from, shown as a ticket without an estimate,
/// provided it is of the operation the service handles (when it checks).
pub fn result_header(task: &AudioGenerationTask, kind: Option<(OperationType, &str)>) -> (r: Result<TaskTicket, ServiceError>)
    ensures
        match kind {
            Some(k) => if task.operation_type@ == k.0.text() {
                r matches Ok(h) && is_ticket_for(h, *task, None)
            } else {
                r matches Err(e) && is_invalid_request(e, k.1@)
            },
            None => r matches Ok(h) && is_ticket_for(h, *task, None),
        },
{
    if let Some((op, message)) = kind {
        let c = check_operation(task, op, message);
        if let Err(e) = c {
            return Err(e);
        }
    }
    Ok(ticket(task, None))
}

/// What a service knows about a task it is asked to create, before any store
/// is consulted.
#[derive(Debug)]
pub struct TaskDraft {
    pub tenant_id: i64,
    pub organization_id: i64,
    pub user_id: i64,
    pub idempotency_key: Option<String>,
    /// Who will do the work.
    pub provider_code: String,
    /// The outcome of checking the request.
    pub checked: Result<(), ServiceError>,
    /// The request as stored with the task, or the serializer's complaint.
    pub request_json: Result<String, String>,
}

/// Where the creation of a task stands.
#[derive(Debug, Clone, Copy, PartialEq, Eq, Structural)]
pub enum CreateStage {
    Begin,
    AwaitingLookup,
    AwaitingCreate,
    Finished,
}

/// The creation of one task.
#[derive(Debug)]
pub struct CreateFlow {
    pub operation: OperationType,
    pub estimated_duration_ms: u64,
    pub draft: TaskDraft,
    pub stage: CreateStage,
}

/// What the stores answered.
#[derive(Debug, Clone)]
pub enum CreateEvent {
    Start,
    LookedUp(Option<AudioGenerationTask>),
    Created(AudioGenerationTask),
    StoreFailed(String),
}

/// What to do next.
#[derive(Debug)]
pub enum CreateAction {
    /// Look for a task of this tenant and operation with this idempotency key.
    FindByIdempotencyKey { tenant_id: i64, operation_type: String, idempotency_key: String },
    /// Store a new task.
    CreateTask(CreateTaskRequest),
    /// Answer the caller.
    Respond(Result<TaskTicket, ServiceError>),
    /// Start the work on the new task, then answer the caller with the ticket.
    Accept { task: AudioGenerationTask, ticket: TaskTicket },
}

/// The event fits the stage.
pub open spec fn create_event_fits(stage: CreateStage, e: CreateEvent) -> bool {
    match stage {
        CreateStage::Begin => e is Start,
        CreateStage::AwaitingLookup => e is LookedUp || e is StoreFailed,
        CreateStage::AwaitingCreate => e is Created || e is StoreFailed,
        CreateStage::Finished => false,
    }
}

/// `r` is the request that stores the drafted task of `op` with `json`.
pub open spec fn is_create_request(r: CreateTaskRequest, op: OperationType, d: TaskDraft, json: Seq<char>) -> bool {
    &&& r.tenant_id == d.tenant_id
    &&& r.organization_id == d.organization_id
    &&& r.user_id == d.user_id
    &&& r.operation_type == op
    &&& r.provider_code@ == d.provider_code@
    &&& r.provider_route_id is None
    &&& r.model is None
    &&& r.idempotency_key == d.idempotency_key
    &&& r.request_json@ == json
    &&& r.callback_url is None
}

/// The step taken once no earlier task answers for the idempotency key:
/// refuse a bad request, refuse an unserializable one, or store the task.
pub open spec fn after_lookup_ok(f: CreateFlow, next: CreateFlow, a: CreateAction) -> bool {
    match f.draft.checked {
        Err(e) => next.stage == CreateStage::Finished && a == CreateAction::Respond(Err(e)),
        Ok(_) => match f.draft.request_json {
            Err(m) => next.stage == CreateStage::Finished
                && (a matches CreateAction::Respond(Err(ServiceError::Internal(x))) && x@ == m@),
            Ok(j) => next.stage == CreateStage::AwaitingCreate
                && (a matches CreateAction::CreateTask(r) && is_create_request(r, f.operation, f.draft, j@)),
        },
    }
}

/// One step of a creation: with a key, look for an earlier task first; an
/// earlier task is answered with as it is; otherwise a bad request is refused,
/// and a good one stored and, once stored, started and answered with its
/// ticket and the service's estimate; a store failure is answered with.
pub open spec fn create_step(f: CreateFlow, e: CreateEvent, next: CreateFlow, a: CreateAction) -> bool {
    &&& (f.stage == CreateStage::Begin ==> (f.draft.idempotency_key matches Some(k) ==> (
                next.stage == CreateStage::AwaitingLookup
                && (a matches CreateAction::FindByIdempotencyKey { tenant_id, operation_type, idempotency_key }
                && tenant_id == f.draft.tenant_id
                && operation_type@ == f.operation.text()
                && idempotency_key@ == k@))))
    &&& ((f.stage == CreateStage::Begin && f.draft.idempotency_key is None)
                ==> after_lookup_ok(f, next, a))
    &&& (e matches CreateEvent::LookedUp(Some(t)) ==> (
                next.stage == CreateStage::Finished
                && (a matches CreateAction::Respond(Ok(tk))
                && is_ticket_for(tk, t, None))))
    &&& ((e matches CreateEvent::LookedUp(None)) ==> after_lookup_ok(f, next, a))
    &&& (e matches CreateEvent::Created(t) ==> (
                next.stage == CreateStage::Finished
                && (a matches CreateAction::Accept { task, ticket }
                && task == t
                && is_ticket_for(ticket, t, Some(f.estimated_duration_ms)))))
    &&& (e matches CreateEvent::StoreFailed(m) ==> (
                next.stage == CreateStage::Finished
                && (a matches CreateAction::Respond(Err(ServiceError::Database(x)))
                && x@ == m@)))
}

impl CreateFlow {
    /// A creation that has not consulted any store yet.
    pub fn new(operation: OperationType, estimated_duration_ms: u64, draft: TaskDraft) -> (r: Self)
        ensures
            r.operation == operation,
            r.estimated_duration_ms == estimated_duration_ms,
            r.draft == draft,
            r.stage == CreateStage::Begin,
    {
        CreateFlow { operation, estimated_duration_ms, draft, stage: CreateStage::Begin }
    }

    fn after_lookup(self) -> (r: (CreateFlow, CreateAction))
        ensures
            after_lookup_ok(self, r.0, r.1),
            r.0.operation == self.operation,
            r.0.estimated_duration_ms == self.estimated_duration_ms,
            r.0.draft == self.draft,
    {
        let refusal = match &self.draft.checked {
            Err(e) => Some(e.clone()),
            Ok(_) => None,
        };
        match refusal {
            Some(e) => (CreateFlow { stage: CreateStage::Finished, ..self }, CreateAction::Respond(Err(e))),
            None => {
                let next = match &self.draft.request_json {
                    Err(m) => CreateAction::Respond(Err(ServiceError::Internal(m.clone()))),
                    Ok(j) => CreateAction::CreateTask(CreateTaskRequest {
                        tenant_id: self.draft.tenant_id,
                        organization_id: self.draft.organization_id,
                        user_id: self.draft.user_id,
                        operation_type: self.operation,
                        provider_code: self.draft.provider_code.clone(),
                        provider_route_id: None,
                        model: None,
                        idempotency_key: clone_opt_string(&self.draft.idempotency_key),
                        request_json: j.clone(),
                        callback_url: None,
                    }),
                };
                let stage = if self.draft.request_json.is_ok() {
                    CreateStage::AwaitingCreate
                } else {
                    CreateStage::Finished
                };
                (CreateFlow { stage, ..self }, next)
            },
        }
    }

    /// Takes one step of the creation on what the stores answered.
    pub fn step(self, event: CreateEvent) -> (r: (CreateFlow, CreateAction))
        requires
            create_event_fits(self.stage, event),
        ensures
            r.0.operation == self.operation,
            r.0.estimated_duration_ms == self.estimated_duration_ms,
            r.0.draft == self.draft,
            create_step(self, event, r.0, r.1),
    {
        match event {
            CreateEvent::Start => {
                match &self.draft.idempotency_key {
                    Some(k) => {
                        let a = CreateAction::FindByIdempotencyKey {
                            tenant_id: self.draft.tenant_id,
                            operation_type: String::from_str(self.operation.as_str()),
                            idempotency_key: k.clone(),
                        };
                        (CreateFlow { stage: CreateStage::AwaitingLookup, ..self }, a)
                    },
                    None => self.after_lookup(),
                }
            },
            CreateEvent::LookedUp(found) => {
                match found {
                    Some(t) => {
                        let tk = ticket(&t, None);
                        (CreateFlow { stage: CreateStage::Finished, ..self }, CreateAction::Respond(Ok(tk)))
                    },
                    None => self.after_lookup(),
                }
            },
            CreateEvent::Created(t) => {
                let tk = ticket(&t, Some(self.estimated_duration_ms));
                (CreateFlow { stage: CreateStage::Finished, ..self }, CreateAction::Accept { task: t, ticket: tk })
            },
            CreateEvent::StoreFailed(m) => {
                (CreateFlow { stage: CreateStage::Finished, ..self }, CreateAction::Respond(Err(ServiceError::Database(m))))
            },
        }
    }
}

/// A repeated creation under the same idempotency key is answered with the
/// earlier task, with no estimate, and stores nothing.
pub proof fn idempotent_replay(f: CreateFlow, t: AudioGenerationTask, next: CreateFlow, a: CreateAction)
    requires
        f.stage == CreateStage::AwaitingLookup,
        create_step(f, CreateEvent::LookedUp(Some(t)), next, a),
    ensures
        a matches CreateAction::Respond(Ok(tk)) && tk.task_no@ == t.task_no@ && tk.status@ == t.status@
            && tk.estimated_duration_ms is None,
        !(a is CreateTask),
        !(a is Accept),
        next.stage == CreateStage::Finished,
{
}

/// The key a creation looks up is the key the created task is stored under,
/// for the same tenant and operation; so a task stored by one creation is the
/// one a later creation with that key looks for.
pub proof fn idempotency_key_round_trip(f: CreateFlow, e1: CreateEvent, n1: CreateFlow, a1: CreateAction,
    e2: CreateEvent, n2: CreateFlow, a2: CreateAction)
    requires
        f.stage == CreateStage::Begin,
        f.draft.idempotency_key is Some,
        create_step(f, e1, n1, a1),
        n1.operation == f.operation,
        n1.draft == f.draft,
        e2 == CreateEvent::LookedUp(None),
        create_step(n1, e2, n2, a2),
        a2 is CreateTask,
    ensures
        a1 matches CreateAction::FindByIdempotencyKey { tenant_id, operation_type, idempotency_key }
            && (a2 matches CreateAction::CreateTask(r)
            && r.tenant_id == tenant_id
            && r.operation_type.text() == operation_type@
            && (r.idempotency_key matches Some(k) && k@ == idempotency_key@)),
{
}

/// A task whose run has ended is never cancelled; a cancellation that goes
/// through sets the status to cancelled and the completion time, and nothing else.
pub proof fn cancel_law(
    task_no: Seq<char>,
    found: Option<AudioGenerationTask>,
    kind: Option<(OperationType, Seq<char>)>,
    now: Timestamp,
    r: Result<(i64, UpdateTaskRequest), ServiceError>,
)
    requires
        cancel_answer(task_no, found, kind, now, r),
    ensures
        (found matches Some(t) && is_finished(t.status@)) ==> r is Err,
        r matches Ok(p) ==> (found matches Some(t) && p.0 == t.id
            && p.1.status == Some(TaskStatus::Cancelled) && p.1.completed_at == Some(now)
            && p.1.progress is None && p.1.result_json is None && p.1.error_code is None
            && p.1.error_message is None),
{
}


/// The items of `s` that are there, in their order.
pub open spec fn present<T>(s: Seq<Option<T>>) -> Seq<T>
    decreases s.len(),
{
    if s.len() == 0 {
        Seq::empty()
    } else {
        let before = present(s.drop_last());
        match s.last() {
            Some(x) => before.push(x),
            None => before,
        }
    }
}

/// A page of a task listing: the details shown, and what the listing said of
/// the tasks beyond them.
pub struct TaskPage<T> {
    pub tasks: Vec<T>,
    pub total: i64,
    pub has_more: bool,
    pub next_cursor: Option<String>,
}

/// The page shown for a listing: the details that were found for the listed
/// tasks, in the listing's order, with the total, whether more follow and the
/// cursor as the listing gave them.
pub fn list_page<T>(details: Vec<Option<T>>, total: i64, has_more: bool, next_cursor: Option<String>) -> (p: TaskPage<T>)
    ensures
        p.tasks@ == present(details@),
        p.total == total,
        p.has_more == has_more,
        p.next_cursor == next_cursor,
{
    let ghost all = details@;
    let mut tasks: Vec<T> = Vec::new();
    for d in it: details
        invariant
            it.seq() == all,
            tasks@ == present(all.take(it.index() as int)),
    {
        proof {
            assert(all.take(it.index() as int + 1).drop_last() =~= all.take(it.index() as int));
        }
        match d {
            Some(x) => tasks.push(x),
            None => {},
        }
    }
    proof {
        assert(all.take(all.len() as int) =~= all);
    }
    TaskPage { tasks, total, has_more, next_cursor }
}

} // verus!
