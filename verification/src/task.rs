//! Audio generation tasks: their status and operation vocabularies, the stored
//! task record and the requests that create, change and select tasks.

use vstd::prelude::*;
use crate::text::str_eq;
use crate::clock::Timestamp;

verus! {

/// Task status
#[derive(Debug, Clone, Copy, PartialEq, Eq, Structural)]
pub enum TaskStatus {
    Queued,
    Routing,
    Submitted,
    Running,
    Succeeded,
    Failed,
    Cancelled,
    Expired,
    NeedsReview,
}

impl TaskStatus {
    /// The stored text of the value.
    pub open spec fn text(self) -> Seq<char> {
        match self {
            TaskStatus::Queued => "queued"@,
            TaskStatus::Routing => "routing"@,
            TaskStatus::Submitted => "submitted"@,
            TaskStatus::Running => "running"@,
            TaskStatus::Succeeded => "succeeded"@,
            TaskStatus::Failed => "failed"@,
            TaskStatus::Cancelled => "cancelled"@,
            TaskStatus::Expired => "expired"@,
            TaskStatus::NeedsReview => "needs_review"@,
        }
    }

    /// The value whose stored text is `s`, if any.
    pub open spec fn parse(s: Seq<char>) -> Option<TaskStatus> {
        if s == "queued"@ {
            Some(TaskStatus::Queued)
        } else if s == "routing"@ {
            Some(TaskStatus::Routing)
        } else if s == "submitted"@ {
            Some(TaskStatus::Submitted)
        } else if s == "running"@ {
            Some(TaskStatus::Running)
        } else if s == "succeeded"@ {
            Some(TaskStatus::Succeeded)
        } else if s == "failed"@ {
            Some(TaskStatus::Failed)
        } else if s == "cancelled"@ {
            Some(TaskStatus::Cancelled)
        } else if s == "expired"@ {
            Some(TaskStatus::Expired)
        } else if s == "needs_review"@ {
            Some(TaskStatus::NeedsReview)
        } else {
            None
        }
    }

    pub fn as_str(&self) -> (r: &'static str)
        ensures
            r@ == self.text(),
    {
        match self {
            TaskStatus::Queued => "queued",
            TaskStatus::Routing => "routing",
            TaskStatus::Submitted => "submitted",
            TaskStatus::Running => "running",
            TaskStatus::Succeeded => "succeeded",
            TaskStatus::Failed => "failed",
            TaskStatus::Cancelled => "cancelled",
            TaskStatus::Expired => "expired",
            TaskStatus::NeedsReview => "needs_review",
        }
    }

    pub fn from_str(s: &str) -> (r: Option<Self>)
        ensures
            r == Self::parse(s@),
    {
        if str_eq(s, "queued") {
            Some(TaskStatus::Queued)
        } else if str_eq(s, "routing") {
            Some(TaskStatus::Routing)
        } else if str_eq(s, "submitted") {
            Some(TaskStatus::Submitted)
        } else if str_eq(s, "running") {
            Some(TaskStatus::Running)
        } else if str_eq(s, "succeeded") {
            Some(TaskStatus::Succeeded)
        } else if str_eq(s, "failed") {
            Some(TaskStatus::Failed)
        } else if str_eq(s, "cancelled") {
            Some(TaskStatus::Cancelled)
        } else if str_eq(s, "expired") {
            Some(TaskStatus::Expired)
        } else if str_eq(s, "needs_review") {
            Some(TaskStatus::NeedsReview)
        } else {
            None
        }
    }
}

/// Parsing the stored text of a value gives that value back.
pub proof fn task_status_round_trip(k: TaskStatus)
    ensures
        TaskStatus::parse(k.text()) == Some(k),
{
        reveal_strlit("queued");
        reveal_strlit("routing");
        reveal_strlit("submitted");
        reveal_strlit("running");
        reveal_strlit("succeeded");
        reveal_strlit("failed");
        reveal_strlit("cancelled");
        reveal_strlit("expired");
        reveal_strlit("needs_review");
        assert("queued"@.len() != "routing"@.len());
        assert("queued"@.len() != "submitted"@.len());
        assert("queued"@.len() != "running"@.len());
        assert("queued"@.len() != "succeeded"@.len());
        assert("queued"@[0] != "failed"@[0]);
        assert("queued"@.len() != "cancelled"@.len());
        assert("queued"@.len() != "expired"@.len());
        assert("queued"@.len() != "needs_review"@.len());
        assert("routing"@.len() != "submitted"@.len());
        assert("routing"@[1] != "running"@[1]);
        assert("routing"@.len() != "succeeded"@.len());
        assert("routing"@.len() != "failed"@.len());
        assert("routing"@.len() != "cancelled"@.len());
        assert("routing"@[0] != "expired"@[0]);
        assert("routing"@.len() != "needs_review"@.len());
        assert("submitted"@.len() != "running"@.len());
        assert("submitted"@[2] != "succeeded"@[2]);
        assert("submitted"@.len() != "failed"@.len());
        assert("submitted"@[0] != "cancelled"@[0]);
        assert("submitted"@.len() != "expired"@.len());
        assert("submitted"@.len() != "needs_review"@.len());
        assert("running"@.len() != "succeeded"@.len());
        assert("running"@.len() != "failed"@.len());
        assert("running"@.len() != "cancelled"@.len());
        assert("running"@[0] != "expired"@[0]);
        assert("running"@.len() != "needs_review"@.len());
        assert("succeeded"@.len() != "failed"@.len());
        assert("succeeded"@[0] != "cancelled"@[0]);
        assert("succeeded"@.len() != "expired"@.len());
        assert("succeeded"@.len() != "needs_review"@.len());
        assert("failed"@.len() != "cancelled"@.len());
        assert("failed"@.len() != "expired"@.len());
        assert("failed"@.len() != "needs_review"@.len());
        assert("cancelled"@.len() != "expired"@.len());
        assert("cancelled"@.len() != "needs_review"@.len());
        assert("expired"@.len() != "needs_review"@.len());
}

/// Whatever parses to a value is exactly that value's stored text.
pub proof fn task_status_parse_exact(s: Seq<char>)
    ensures
        TaskStatus::parse(s) matches Some(k) ==> k.text() == s,
{
}

/// Distinct values are stored as distinct texts.
pub proof fn task_status_text_injective(a: TaskStatus, b: TaskStatus)
    ensures
        a.text() == b.text() ==> a == b,
{
    task_status_round_trip(a);
    task_status_round_trip(b);
}

/// Operation type
#[derive(Debug, Clone, Copy, PartialEq, Eq, Structural)]
pub enum OperationType {
    Speech,
    Transcription,
    Translation,
    SoundEffect,
    Music,
}

impl OperationType {
    /// The stored text of the value.
    pub open spec fn text(self) -> Seq<char> {
        match self {
            OperationType::Speech => "speech"@,
            OperationType::Transcription => "transcription"@,
            OperationType::Translation => "translation"@,
            OperationType::SoundEffect => "sound_effect"@,
            OperationType::Music => "music"@,
        }
    }

    /// The value whose stored text is `s`, if any.
    pub open spec fn parse(s: Seq<char>) -> Option<OperationType> {
        if s == "speech"@ {
            Some(OperationType::Speech)
        } else if s == "transcription"@ {
            Some(OperationType::Transcription)
        } else if s == "translation"@ {
            Some(OperationType::Translation)
        } else if s == "sound_effect"@ {
            Some(OperationType::SoundEffect)
        } else if s == "music"@ {
            Some(OperationType::Music)
        } else {
            None
        }
    }

    pub fn as_str(&self) -> (r: &'static str)
        ensures
            r@ == self.text(),
    {
        match self {
            OperationType::Speech => "speech",
            OperationType::Transcription => "transcription",
            OperationType::Translation => "translation",
            OperationType::SoundEffect => "sound_effect",
            OperationType::Music => "music",
        }
    }

    pub fn from_str(s: &str) -> (r: Option<Self>)
        ensures
            r == Self::parse(s@),
    {
        if str_eq(s, "speech") {
            Some(OperationType::Speech)
        } else if str_eq(s, "transcription") {
            Some(OperationType::Transcription)
        } else if str_eq(s, "translation") {
            Some(OperationType::Translation)
        } else if str_eq(s, "sound_effect") {
            Some(OperationType::SoundEffect)
        } else if str_eq(s, "music") {
            Some(OperationType::Music)
        } else {
            None
        }
    }
}

/// Parsing the stored text of a value gives that value back.
pub proof fn operation_type_round_trip(k: OperationType)
    ensures
        OperationType::parse(k.text()) == Some(k),
{
        reveal_strlit("speech");
        reveal_strlit("transcription");
        reveal_strlit("translation");
        reveal_strlit("sound_effect");
        reveal_strlit("music");
        assert("speech"@.len() != "transcription"@.len());
        assert("speech"@.len() != "translation"@.len());
        assert("speech"@.len() != "sound_effect"@.len());
        assert("speech"@.len() != "music"@.len());
        assert("transcription"@.len() != "translation"@.len());
        assert("transcription"@.len() != "sound_effect"@.len());
        assert("transcription"@.len() != "music"@.len());
        assert("translation"@.len() != "sound_effect"@.len());
        assert("translation"@.len() != "music"@.len());
        assert("sound_effect"@.len() != "music"@.len());
}

/// Whatever parses to a value is exactly that value's stored text.
pub proof fn operation_type_parse_exact(s: Seq<char>)
    ensures
        OperationType::parse(s) matches Some(k) ==> k.text() == s,
{
}

/// Distinct values are stored as distinct texts.
pub proof fn operation_type_text_injective(a: OperationType, b: OperationType)
    ensures
        a.text() == b.text() ==> a == b,
{
    operation_type_round_trip(a);
    operation_type_round_trip(b);
}

/// Audio generation task entity
#[derive(Debug, Clone)]
pub struct AudioGenerationTask {
    pub id: i64,
    pub task_no: String,
    pub tenant_id: i64,
    pub organization_id: i64,
    pub user_id: i64,
    pub operation_type: String,
    pub provider_code: String,
    pub provider_route_id: Option<i64>,
    pub model: Option<String>,
    pub provider_task_id: Option<String>,
    pub idempotency_key: Option<String>,
    pub input_hash: Option<String>,
    pub status: String,
    pub progress: i32,
    pub request_json: String,
    pub normalized_options_json: Option<String>,
    pub provider_request_json: Option<String>,
    pub provider_response_json: Option<String>,
    pub result_json: Option<String>,
    pub error_code: Option<String>,
    pub error_message: Option<String>,
    pub callback_url: Option<String>,
    pub callback_status: Option<String>,
    pub submitted_at: Option<Timestamp>,
    pub completed_at: Option<Timestamp>,
    pub expires_at: Option<Timestamp>,
    pub created_at: Timestamp,
    pub updated_at: Timestamp,
    pub deleted: bool,
    pub version: i64,
}

/// Create task request
#[derive(Debug, Clone)]
pub struct CreateTaskRequest {
    pub tenant_id: i64,
    pub organization_id: i64,
    pub user_id: i64,
    pub operation_type: OperationType,
    pub provider_code: String,
    pub provider_route_id: Option<i64>,
    pub model: Option<String>,
    pub idempotency_key: Option<String>,
    pub request_json: String,
    pub callback_url: Option<String>,
}

/// Update task request: each field that is `Some` replaces the stored one.
#[derive(Debug, Clone)]
pub struct UpdateTaskRequest {
    pub status: Option<TaskStatus>,
    pub progress: Option<i32>,
    pub provider_code: Option<String>,
    pub provider_route_id: Option<i64>,
    pub provider_task_id: Option<String>,
    pub provider_request_json: Option<String>,
    pub provider_response_json: Option<String>,
    pub result_json: Option<String>,
    pub error_code: Option<String>,
    pub error_message: Option<String>,
    pub callback_status: Option<String>,
    pub submitted_at: Option<Timestamp>,
    pub completed_at: Option<Timestamp>,
    pub expires_at: Option<Timestamp>,
}

impl UpdateTaskRequest {
    /// The request that changes nothing.
    pub open spec fn is_empty(self) -> bool {
        &&& self.status is None
        &&& self.progress is None
        &&& self.provider_code is None
        &&& self.provider_route_id is None
        &&& self.provider_task_id is None
        &&& self.provider_request_json is None
        &&& self.provider_response_json is None
        &&& self.result_json is None
        &&& self.error_code is None
        &&& self.error_message is None
        &&& self.callback_status is None
        &&& self.submitted_at is None
        &&& self.completed_at is None
        &&& self.expires_at is None
    }
}

impl Default for UpdateTaskRequest {
    fn default() -> (r: Self)
        ensures
            r.is_empty(),
    {
        UpdateTaskRequest {
            status: None,
            progress: None,
            provider_code: None,
            provider_route_id: None,
            provider_task_id: None,
            provider_request_json: None,
            provider_response_json: None,
            result_json: None,
            error_code: None,
            error_message: None,
            callback_status: None,
            submitted_at: None,
            completed_at: None,
            expires_at: None,
        }
    }
}

/// Task filter
#[derive(Debug, Clone)]
pub struct TaskFilter {
    pub tenant_id: Option<i64>,
    pub user_id: Option<i64>,
    pub organization_id: Option<i64>,
    pub operation_type: Option<OperationType>,
    pub status: Option<TaskStatus>,
    pub provider_code: Option<String>,
    pub created_after: Option<Timestamp>,
    pub created_before: Option<Timestamp>,
}

/// Task list result
#[derive(Debug, Clone)]
pub struct TaskListResult {
    pub tasks: Vec<AudioGenerationTask>,
    pub total: i64,
    pub has_more: bool,
    pub next_cursor: Option<String>,
}

/// The names under which each task status is stored: `queued`, `routing`, `submitted`, `running`, `succeeded`, `failed`, `cancelled`, `expired`, `needs_review`.
pub proof fn task_status_names()
    ensures
        TaskStatus::Queued.text() == "queued"@,
        TaskStatus::Routing.text() == "routing"@,
        TaskStatus::Submitted.text() == "submitted"@,
        TaskStatus::Running.text() == "running"@,
        TaskStatus::Succeeded.text() == "succeeded"@,
        TaskStatus::Failed.text() == "failed"@,
        TaskStatus::Cancelled.text() == "cancelled"@,
        TaskStatus::Expired.text() == "expired"@,
        TaskStatus::NeedsReview.text() == "needs_review"@,
{
}

/// The names under which each operation type is stored: `speech`, `transcription`, `translation`, `sound_effect`, `music`.
pub proof fn operation_type_names()
    ensures
        OperationType::Speech.text() == "speech"@,
        OperationType::Transcription.text() == "transcription"@,
        OperationType::Translation.text() == "translation"@,
        OperationType::SoundEffect.text() == "sound_effect"@,
        OperationType::Music.text() == "music"@,
{
}

} // verus!
