//! Translation of speech: the request, its digest, the creation of a task, the
//! run that translates, writes and stores the translated document, the reading
//! of results and details, listing and cancellation.

use vstd::prelude::*;
use vstd::string::{StringExecFns, StrSliceExecFns};
use vstd::utf8::encode_utf8;
use crate::text::{bool_text, opt_text, push_bool, push_opt, signed_decimal};
use crate::digest::{hex_sha256, text_digest};
use crate::document::{stored_text, stored_text_field, stored_u64, stored_u64_field, text_view};
use crate::clock::Timestamp;
use crate::formats::OutputFormat;
use crate::task::{AudioGenerationTask, OperationType, TaskFilter, TaskStatus, UpdateTaskRequest};
use crate::artifact::ArtifactKind;
use crate::lifecycle::{
    cancel_answer, clone_opt_string, invalid_request, is_invalid_request, is_ticket_for, plan_cancel,
    progress_only, progress_update, result_header, status_and_progress, status_update, task_filter,
    CreateFlow, CreateStage, ServiceError, TaskDraft, TaskTicket,
};
use crate::pipeline::{
    document_event_fits, file_name, output_file_name, ArtifactPlan, DocumentStage, DriveUpload,
    MediaResource, RunAction, RunEvent, UploadCall,
};

verus! {

broadcast use vstd::string::group_string_axioms;

/// The error of the translation service.
pub type TranslationServiceError = ServiceError;

/// What a caller gets back for a translation task.
pub type TranslationResponse = TaskTicket;

/// A request to translate the speech in an audio file.
#[derive(Debug, Clone)]
pub struct TranslationRequest {
    pub tenant_id: i64,
    pub organization_id: i64,
    pub user_id: i64,
    pub audio_url: String,
    pub source_language: Option<String>,
    pub target_language: String,
    pub output_format: OutputFormat,
    pub include_timestamps: bool,
    pub idempotency_key: Option<String>,
}

/// What the digest of a translation request covers, in this order: the audio
/// URL, the source language when given, the target language, the output format
/// and whether timestamps are wanted.
pub open spec fn translation_digest_input(r: TranslationRequest) -> Seq<char> {
    r.audio_url@ + opt_text(r.source_language) + r.target_language@ + r.output_format.text()
        + bool_text(r.include_timestamps)
}

/// The engine call for a translation request.
#[derive(Debug, Clone)]
pub struct TranslationCall {
    pub audio_url: String,
    pub source_language: Option<String>,
    pub target_language: String,
    pub output_format: String,
}

/// What the engine translated: the recognised text, its translation, and the
/// whole answer written as a pretty JSON document by the caller.
#[derive(Debug, Clone)]
pub struct TranslationOutput {
    pub source_text: String,
    pub translated_text: String,
    pub json_document: String,
}

/// The part of the result written with a finished translation task that the
/// run decides; the caller adds what the engine said of the languages and the
/// confidence.
#[derive(Debug, Clone)]
pub struct TranslationResultRecord {
    pub source_text: String,
    pub translated_text: String,
    pub drive_space_id: String,
    pub drive_node_id: String,
    pub output_url: String,
}

/// The document written for a translation in the requested format: subtitle
/// formats hold one cue over the first ten seconds.
pub open spec fn translation_document(format: OutputFormat, out: TranslationOutput) -> Seq<char> {
    match format {
        OutputFormat::JSON => out.json_document@,
        OutputFormat::SRT => "1\n00:00:00,000 --> 00:00:10,000\n"@ + out.translated_text@ + "\n"@,
        OutputFormat::VTT => "WEBVTT\n\n00:00:00.000 --> 00:00:10.000\n"@ + out.translated_text@ + "\n"@,
        OutputFormat::TXT => out.translated_text@,
    }
}

/// The document written for a translation in the requested format.
pub fn render_translation(format: OutputFormat, out: &TranslationOutput) -> (r: String)
    ensures
        r@ == translation_document(format, *out),
{
    match format {
        OutputFormat::JSON => out.json_document.clone(),
        OutputFormat::SRT => String::from_str("1\n00:00:00,000 --> 00:00:10,000\n")
            .concat(out.translated_text.as_str()).concat("\n"),
        OutputFormat::VTT => String::from_str("WEBVTT\n\n00:00:00.000 --> 00:00:10.000\n")
            .concat(out.translated_text.as_str()).concat("\n"),
        OutputFormat::TXT => out.translated_text.clone(),
    }
}

/// The title of a translation artifact: `Translation: <source> -> <target>`,
/// with `auto` when no source language was given.
pub open spec fn translation_title(r: TranslationRequest) -> Seq<char> {
    "Translation: "@ + (match r.source_language {
        Some(s) => s@,
        None => "auto"@,
    }) + " -> "@ + r.target_language@
}

/// The run of one translation task.
#[derive(Debug)]
pub struct TranslationRun {
    pub task_id: i64,
    pub task_no: String,
    pub tenant_id: i64,
    pub user_id: i64,
    pub provider_code: String,
    pub request: TranslationRequest,
    pub stage: DocumentStage,
    /// The recognised text, its translation and the document written from them.
    pub output: Option<(String, String, String)>,
    pub upload: Option<DriveUpload>,
}

/// What a run has gathered fits its stage.
pub open spec fn translation_run_wf(run: TranslationRun) -> bool {
    &&& (run.stage == DocumentStage::MarkingProduced || run.stage == DocumentStage::Uploading
        || run.stage == DocumentStage::MarkingUploaded || run.stage == DocumentStage::StoringArtifact
        || run.stage == DocumentStage::Completing) ==> run.output is Some
    &&& (run.stage == DocumentStage::MarkingUploaded || run.stage == DocumentStage::StoringArtifact
        || run.stage == DocumentStage::Completing) ==> run.upload is Some
}

/// The run keeps what it was started with.
pub open spec fn translation_run_same(run: TranslationRun, next: TranslationRun) -> bool {
    &&& next.task_id == run.task_id
    &&& next.task_no == run.task_no
    &&& next.tenant_id == run.tenant_id
    &&& next.user_id == run.user_id
    &&& next.provider_code == run.provider_code
    &&& next.request == run.request
}

/// One step of a translation run. The run marks the task running at ten
/// percent, marks thirty percent, calls the engine, marks sixty percent,
/// uploads the document in the requested format, marks eighty percent,
/// records the artifact, then completes the task; any failure on the way
/// records the failure and ends the run.
pub open spec fn translation_step(
    run: TranslationRun,
    e: RunEvent<TranslationOutput>,
    next: TranslationRun,
    a: RunAction<TranslationCall, TranslationResultRecord>,
) -> bool {
    if e is Failed {
        next.stage == DocumentStage::Finished
            && a == RunAction::<TranslationCall, TranslationResultRecord>::RecordFailure { task_id: run.task_id, error: e->Failed_0 }
    } else {
        match run.stage {
            DocumentStage::Begin => next.stage == DocumentStage::MarkingRunning
                && a == RunAction::<TranslationCall, TranslationResultRecord>::Update {
                    task_id: run.task_id, update: status_and_progress(TaskStatus::Running, 10) },
            DocumentStage::MarkingRunning => next.stage == DocumentStage::MarkingPrepared
                && a == RunAction::<TranslationCall, TranslationResultRecord>::Update {
                    task_id: run.task_id, update: progress_only(30) },
            DocumentStage::MarkingPrepared => next.stage == DocumentStage::Working
                && (a matches RunAction::Invoke(c)
                    && c.audio_url@ == run.request.audio_url@
                    && c.source_language == run.request.source_language
                    && c.target_language@ == run.request.target_language@
                    && c.output_format@ == run.request.output_format.text()),
            DocumentStage::Working => next.stage == DocumentStage::MarkingProduced
                && a == RunAction::<TranslationCall, TranslationResultRecord>::Update {
                    task_id: run.task_id, update: progress_only(60) }
                && (next.output matches Some(o)
                    && o.0@ == e->Produced_0.source_text@
                    && o.1@ == e->Produced_0.translated_text@
                    && o.2@ == translation_document(run.request.output_format, e->Produced_0)),
            DocumentStage::MarkingProduced => next.stage == DocumentStage::Uploading
                && (a matches RunAction::Upload(u)
                    && u.tenant_id == run.tenant_id
                    && u.user_id == run.user_id
                    && u.data@ == encode_utf8(run.output.unwrap().2@)
                    && u.mime_type@ == run.request.output_format.mime()
                    && u.filename@ == file_name("translation"@, run.task_no@, run.request.output_format.text())),
            DocumentStage::Uploading => next.stage == DocumentStage::MarkingUploaded
                && a == RunAction::<TranslationCall, TranslationResultRecord>::Update {
                    task_id: run.task_id, update: progress_only(80) }
                && next.upload == Some(e->Uploaded_0),
            DocumentStage::MarkingUploaded => next.stage == DocumentStage::StoringArtifact
                && (a matches RunAction::StoreArtifact(p)
                    && p.task_id == run.task_id
                    && p.kind == ArtifactKind::Text
                    && p.artifact_type@ == "translation"@
                    && p.title@ == translation_title(run.request)
                    && p.voice_id is None
                    && p.provider_code@ == run.provider_code@
                    && p.format@ == run.request.output_format.text()
                    && p.mime_type@ == run.request.output_format.mime()
                    && p.duration_seconds is None
                    && (p.transcript_text matches Some(t) && t@ == run.output.unwrap().0@)
                    && (p.translation_text matches Some(t) && t@ == run.output.unwrap().1@)
                    && p.media_resource.drive_space_id == run.upload.unwrap().drive_space_id
                    && p.media_resource.drive_node_id == run.upload.unwrap().drive_node_id
                    && p.media_resource.drive_resource_uri == run.upload.unwrap().drive_resource_uri),
            DocumentStage::StoringArtifact => next.stage == DocumentStage::Completing
                && (a matches RunAction::Complete { task_id, result }
                    && task_id == run.task_id
                    && result.source_text@ == run.output.unwrap().0@
                    && result.translated_text@ == run.output.unwrap().1@
                    && result.drive_space_id == run.upload.unwrap().drive_space_id
                    && result.drive_node_id == run.upload.unwrap().drive_node_id
                    && result.output_url == run.upload.unwrap().drive_resource_uri),
            DocumentStage::Completing => next.stage == DocumentStage::Finished
                && a == RunAction::<TranslationCall, TranslationResultRecord>::Finish,
            DocumentStage::Finished => false,
        }
    }
}

/// The progress a run has reported once it reaches a stage.
pub open spec fn translation_progress(stage: DocumentStage) -> int {
    match stage {
        DocumentStage::Begin => 0,
        DocumentStage::MarkingRunning => 10,
        DocumentStage::MarkingPrepared => 30,
        DocumentStage::Working => 30,
        DocumentStage::MarkingProduced => 60,
        DocumentStage::Uploading => 60,
        DocumentStage::MarkingUploaded => 80,
        DocumentStage::StoringArtifact => 80,
        DocumentStage::Completing => 100,
        DocumentStage::Finished => 100,
    }
}

/// Over a run, every update reports more progress than the one before; the
/// task is completed only after its artifact was recorded with nothing
/// failing; a failure is recorded exactly when one is reported; and a run that
/// is over asks for nothing but that.
pub proof fn translation_run_law(run: TranslationRun, e: RunEvent<TranslationOutput>, next: TranslationRun, a: RunAction<TranslationCall, TranslationResultRecord>)
    requires
        document_event_fits(run.stage, e),
        translation_step(run, e, next, a),
    ensures
        a matches RunAction::Update { update, .. } ==> (update.progress matches Some(p)
            && p > translation_progress(run.stage) && p == translation_progress(next.stage)),
        a is Complete ==> (run.stage == DocumentStage::StoringArtifact && e is Done),
        a is RecordFailure <==> e is Failed,
        next.stage == DocumentStage::Finished ==> (a is Finish || a is RecordFailure),
{
}

/// What a run has gathered stays as it was, except where the step takes it
/// in: the engine's answer when it comes, the upload when it is done, and (for
/// the audio) when it is handed to storage.
pub open spec fn translation_run_carries(run: TranslationRun, e: RunEvent<TranslationOutput>, next: TranslationRun, a: RunAction<TranslationCall, TranslationResultRecord>) -> bool {
    &&& !(e is Produced) ==> next.output == run.output
    &&& !(e is Uploaded) ==> next.upload == run.upload
}

/// Across a run, the artifact recorded carries what the engine produced and
/// where storage put the file: the recognised and translated texts, and the storage location.
pub proof fn translation_artifact_carries_answer(
    r0: TranslationRun, o: TranslationOutput, r1: TranslationRun, a0: RunAction<TranslationCall, TranslationResultRecord>,
    r2: TranslationRun, a1: RunAction<TranslationCall, TranslationResultRecord>,
    u: DriveUpload, r3: TranslationRun, a2: RunAction<TranslationCall, TranslationResultRecord>,
    r4: TranslationRun, a3: RunAction<TranslationCall, TranslationResultRecord>,
)
    requires
        r0.stage == DocumentStage::Working,
        translation_step(r0, RunEvent::Produced(o), r1, a0),
        translation_run_carries(r0, RunEvent::Produced(o), r1, a0),
        translation_step(r1, RunEvent::Done, r2, a1),
        translation_run_carries(r1, RunEvent::Done, r2, a1),
        translation_run_same(r1, r2),
        translation_step(r2, RunEvent::Uploaded(u), r3, a2),
        translation_run_carries(r2, RunEvent::Uploaded(u), r3, a2),
        translation_run_same(r2, r3),
        translation_step(r3, RunEvent::Done, r4, a3),
    ensures
        a3 matches RunAction::StoreArtifact(p)
            && (p.transcript_text matches Some(t) && t@ == o.source_text@)
            && (p.translation_text matches Some(t) && t@ == o.translated_text@)
            && p.media_resource.drive_space_id == u.drive_space_id
            && p.media_resource.drive_node_id == u.drive_node_id
            && p.media_resource.drive_resource_uri == u.drive_resource_uri,
{
}

/// The document a translation run uploads is the one the requested format asks
/// for: the engine's own JSON document for JSON, one cue over the first ten
/// seconds holding the translated text for SRT and WebVTT, or the translated
/// text itself for TXT; it is stored under that format's media type as
/// `translation_<task number>.<extension>`.
pub proof fn translation_uploads_requested_document(
    r0: TranslationRun, out: TranslationOutput, r1: TranslationRun,
    a0: RunAction<TranslationCall, TranslationResultRecord>,
    r2: TranslationRun, a1: RunAction<TranslationCall, TranslationResultRecord>,
)
    requires
        r0.stage == DocumentStage::Working,
        translation_step(r0, RunEvent::Produced(out), r1, a0),
        translation_run_same(r0, r1),
        translation_step(r1, RunEvent::Done, r2, a1),
    ensures
        a1 matches RunAction::Upload(u) && u.tenant_id == r0.tenant_id && u.user_id == r0.user_id,
        r0.request.output_format == OutputFormat::JSON ==> (a1 matches RunAction::Upload(u)
            && u.data@ == encode_utf8(out.json_document@)
            && u.mime_type@ == "application/json"@
            && u.filename@ == file_name("translation"@, r0.task_no@, "json"@)),
        r0.request.output_format == OutputFormat::SRT ==> (a1 matches RunAction::Upload(u)
            && u.data@ == encode_utf8("1\n00:00:00,000 --> 00:00:10,000\n"@ + out.translated_text@ + "\n"@)
            && u.mime_type@ == "text/srt"@
            && u.filename@ == file_name("translation"@, r0.task_no@, "srt"@)),
        r0.request.output_format == OutputFormat::VTT ==> (a1 matches RunAction::Upload(u)
            && u.data@ == encode_utf8("WEBVTT\n\n00:00:00.000 --> 00:00:10.000\n"@ + out.translated_text@ + "\n"@)
            && u.mime_type@ == "text/vtt"@
            && u.filename@ == file_name("translation"@, r0.task_no@, "vtt"@)),
        r0.request.output_format == OutputFormat::TXT ==> (a1 matches RunAction::Upload(u)
            && u.data@ == encode_utf8(out.translated_text@)
            && u.mime_type@ == "text/plain"@
            && u.filename@ == file_name("translation"@, r0.task_no@, "txt"@)),
{
}

impl TranslationRun {
    /// Takes one step of the run.
    pub fn step(self, event: RunEvent<TranslationOutput>) -> (r: (TranslationRun, RunAction<TranslationCall, TranslationResultRecord>))
        requires
            document_event_fits(self.stage, event),
            translation_run_wf(self),
        ensures
            translation_step(self, event, r.0, r.1),
            translation_run_same(self, r.0),
            translation_run_carries(self, event, r.0, r.1),
            translation_run_wf(r.0),
    {
        let task_id = self.task_id;
        match event {
            RunEvent::Failed(error) => {
                return (TranslationRun { stage: DocumentStage::Finished, ..self }, RunAction::RecordFailure { task_id, error });
            },
            RunEvent::Produced(out) => {
                let document = render_translation(self.request.output_format, &out);
                let next = TranslationRun {
                    stage: DocumentStage::MarkingProduced,
                    output: Some((out.source_text, out.translated_text, document)),
                    ..self
                };
                return (next, RunAction::Update { task_id, update: progress_update(60) });
            },
            RunEvent::Uploaded(u) => {
                let next = TranslationRun { stage: DocumentStage::MarkingUploaded, upload: Some(u), ..self };
                return (next, RunAction::Update { task_id, update: progress_update(80) });
            },
            _ => {},
        }
        match self.stage {
            DocumentStage::Begin => {
                (TranslationRun { stage: DocumentStage::MarkingRunning, ..self },
                 RunAction::Update { task_id, update: status_update(TaskStatus::Running, 10) })
            },
            DocumentStage::MarkingRunning => {
                (TranslationRun { stage: DocumentStage::MarkingPrepared, ..self },
                 RunAction::Update { task_id, update: progress_update(30) })
            },
            DocumentStage::MarkingPrepared => {
                let call = TranslationCall {
                    audio_url: self.request.audio_url.clone(),
                    source_language: clone_opt_string(&self.request.source_language),
                    target_language: self.request.target_language.clone(),
                    output_format: String::from_str(self.request.output_format.as_str()),
                };
                (TranslationRun { stage: DocumentStage::Working, ..self }, RunAction::Invoke(call))
            },
            DocumentStage::MarkingProduced => {
                let data = match &self.output {
                    Some(o) => o.2.as_str().as_bytes_vec(),
                    None => Vec::new(),
                };
                proof { reveal_strlit("translation"); }
                let call = UploadCall {
                    tenant_id: self.tenant_id,
                    user_id: self.user_id,
                    data,
                    mime_type: String::from_str(self.request.output_format.mime_type()),
                    filename: output_file_name("translation", self.task_no.as_str(), self.request.output_format.as_str()),
                };
                (TranslationRun { stage: DocumentStage::Uploading, ..self }, RunAction::Upload(call))
            },
            DocumentStage::MarkingUploaded => {
                let (source_text, translated_text) = match &self.output {
                    Some(o) => (o.0.clone(), o.1.clone()),
                    None => (String::new(), String::new()),
                };
                let media = match &self.upload {
                    Some(u) => MediaResource::of_upload(u),
                    None => MediaResource { drive_space_id: String::new(), drive_node_id: String::new(), drive_resource_uri: String::new() },
                };
                let source = match &self.request.source_language {
                    Some(s) => s.as_str(),
                    None => "auto",
                };
                let title = String::from_str("Translation: ").concat(source).concat(" -> ")
                    .concat(self.request.target_language.as_str());
                proof { reveal_strlit("translation"); }
                let plan = ArtifactPlan {
                    task_id,
                    kind: ArtifactKind::Text,
                    artifact_type: String::from_str("translation"),
                    title,
                    voice_id: None,
                    provider_code: self.provider_code.clone(),
                    format: String::from_str(self.request.output_format.as_str()),
                    mime_type: String::from_str(self.request.output_format.mime_type()),
                    duration_seconds: None,
                    transcript_text: Some(source_text),
                    translation_text: Some(translated_text),
                    media_resource: media,
                };
                (TranslationRun { stage: DocumentStage::StoringArtifact, ..self }, RunAction::StoreArtifact(plan))
            },
            DocumentStage::StoringArtifact => {
                let result = match (&self.output, &self.upload) {
                    (Some(o), Some(u)) => TranslationResultRecord {
                        source_text: o.0.clone(),
                        translated_text: o.1.clone(),
                        drive_space_id: u.drive_space_id.clone(),
                        drive_node_id: u.drive_node_id.clone(),
                        output_url: u.drive_resource_uri.clone(),
                    },
                    _ => TranslationResultRecord {
                        source_text: String::new(), translated_text: String::new(), drive_space_id: String::new(),
                        drive_node_id: String::new(), output_url: String::new(),
                    },
                };
                (TranslationRun { stage: DocumentStage::Completing, ..self }, RunAction::Complete { task_id, result })
            },
            _ => {
                (TranslationRun { stage: DocumentStage::Finished, ..self }, RunAction::Finish)
            },
        }
    }
}

/// The request shown for a task whose stored request cannot be read back.
pub open spec fn is_fallback_translation(r: TranslationRequest, t: AudioGenerationTask) -> bool {
    &&& r.tenant_id == t.tenant_id
    &&& r.organization_id == t.organization_id
    &&& r.user_id == t.user_id
    &&& r.audio_url@ == Seq::<char>::empty()
    &&& r.source_language is None
    &&& r.target_language@ == Seq::<char>::empty()
    &&& r.output_format == OutputFormat::JSON
    &&& r.include_timestamps
    &&& r.idempotency_key is None
}

/// What a reader gets for a translation task from its stored result document;
/// the engine's confidence and segments are read by the caller.
#[derive(Debug, Clone)]
pub struct TranslationResult {
    pub task_id: String,
    pub task_no: String,
    pub status: String,
    pub source_text: Option<String>,
    pub translated_text: Option<String>,
    pub source_language: Option<String>,
    pub target_language: Option<String>,
    pub output_url: Option<String>,
}

/// The translation service's own decisions; `provider_code` names the engine
/// that translates.
#[derive(Debug, Clone)]
pub struct TranslationServiceImpl {
    pub provider_code: String,
}

impl TranslationServiceImpl {
    pub fn new(provider_code: String) -> (r: Self)
        ensures
            r.provider_code == provider_code,
    {
        TranslationServiceImpl { provider_code }
    }

    /// Digest of the request, for recognising repeated input.
    pub fn calculate_input_hash(request: &TranslationRequest) -> (r: String)
        ensures
            r@ == text_digest(translation_digest_input(*request)),
            r@.len() == 64,
    {
        let mut m = String::new();
        m.append(request.audio_url.as_str());
        push_opt(&mut m, &request.source_language);
        m.append(request.target_language.as_str());
        m.append(request.output_format.as_str());
        push_bool(&mut m, request.include_timestamps);
        assert(m@ =~= translation_digest_input(*request));
        hex_sha256(m.as_str())
    }

    /// The checks of a translation request: an audio URL, then a target
    /// language.
    pub fn validate(request: &TranslationRequest) -> (r: Result<(), ServiceError>)
        ensures
            r is Ok <==> (request.audio_url@.len() != 0 && request.target_language@.len() != 0),
            request.audio_url@.len() == 0 ==> (r matches Err(e) && is_invalid_request(e, "Audio URL is required"@)),
            (request.audio_url@.len() != 0 && request.target_language@.len() == 0)
                ==> (r matches Err(e) && is_invalid_request(e, "Target language is required"@)),
    {
        if request.audio_url.as_str().is_empty() {
            return Err(invalid_request("Audio URL is required"));
        }
        if request.target_language.as_str().is_empty() {
            return Err(invalid_request("Target language is required"));
        }
        Ok(())
    }

    /// The creation of a translation task for `request`, stored with
    /// `request_json`: a request without audio URL or target language is
    /// refused, and an accepted task is expected to take eight seconds.
    pub fn creation(&self, request: &TranslationRequest, request_json: Result<String, String>) -> (f: CreateFlow)
        ensures
            f.operation == OperationType::Translation,
            f.estimated_duration_ms == 8000,
            f.stage == CreateStage::Begin,
            f.draft.tenant_id == request.tenant_id,
            f.draft.organization_id == request.organization_id,
            f.draft.user_id == request.user_id,
            f.draft.idempotency_key == request.idempotency_key,
            f.draft.provider_code@ == self.provider_code@,
            f.draft.checked is Ok <==> (request.audio_url@.len() != 0 && request.target_language@.len() != 0),
            request.audio_url@.len() == 0 ==> (f.draft.checked matches Err(e) && is_invalid_request(e, "Audio URL is required"@)),
            (request.audio_url@.len() != 0 && request.target_language@.len() == 0)
                ==> (f.draft.checked matches Err(e) && is_invalid_request(e, "Target language is required"@)),
            f.draft.request_json == request_json,
    {
        let draft = TaskDraft {
            tenant_id: request.tenant_id,
            organization_id: request.organization_id,
            user_id: request.user_id,
            idempotency_key: clone_opt_string(&request.idempotency_key),
            provider_code: self.provider_code.clone(),
            checked: Self::validate(request),
            request_json,
        };
        CreateFlow::new(OperationType::Translation, 8000, draft)
    }

    /// The run of `task` for `request`, not yet started.
    pub fn run(&self, task: &AudioGenerationTask, request: TranslationRequest) -> (r: TranslationRun)
        ensures
            r.task_id == task.id,
            r.task_no == task.task_no,
            r.tenant_id == task.tenant_id,
            r.user_id == task.user_id,
            r.provider_code == self.provider_code,
            r.request == request,
            r.stage == DocumentStage::Begin,
            r.output is None,
            r.upload is None,
    {
        TranslationRun {
            task_id: task.id,
            task_no: task.task_no.clone(),
            tenant_id: task.tenant_id,
            user_id: task.user_id,
            provider_code: self.provider_code.clone(),
            request,
            stage: DocumentStage::Begin,
            output: None,
            upload: None,
        }
    }

    /// Cancelling a translation task: only a translation task that has not
    /// finished may be cancelled.
    pub fn cancellation(task_no: &str, found: Option<AudioGenerationTask>, now: Timestamp)
        -> (r: Result<(i64, UpdateTaskRequest), ServiceError>)
        ensures
            cancel_answer(task_no@, found, Some((OperationType::Translation, "Task is not a translation task"@)), now, r),
    {
        plan_cancel(task_no, found, Some((OperationType::Translation, "Task is not a translation task")), now)
    }

    /// The head of a result read from `task`: refused unless it is a
    /// translation task.
    pub fn result_header(task: &AudioGenerationTask) -> (r: Result<TaskTicket, ServiceError>)
        ensures
            task.operation_type@ == OperationType::Translation.text() ==> (r matches Ok(h) && is_ticket_for(h, *task, None)),
            task.operation_type@ != OperationType::Translation.text() ==> (r matches Err(e)
                && is_invalid_request(e, "Task is not a translation task"@)),
    {
        result_header(task, Some((OperationType::Translation, "Task is not a translation task")))
    }

    /// The result shown for `task`: refused unless it is a translation task;
    /// otherwise its ticket and what its stored result document holds under
    /// the keys read here, where it has one and they are there.
    pub fn translation_result(task: &AudioGenerationTask) -> (r: Result<TranslationResult, ServiceError>)
        ensures
            task.operation_type@ != OperationType::Translation.text() ==> (r matches Err(e)
                && is_invalid_request(e, "Task is not a translation task"@)),
            task.operation_type@ == OperationType::Translation.text() ==> (r matches Ok(v)
                && v.task_id@ == signed_decimal(task.id as int)
                && v.task_no@ == task.task_no@
                && v.status@ == task.status@
                && text_view(v.source_text) == stored_text(task.result_json, "sourceText"@)
                && text_view(v.translated_text) == stored_text(task.result_json, "translatedText"@)
                && text_view(v.source_language) == stored_text(task.result_json, "sourceLanguage"@)
                && text_view(v.target_language) == stored_text(task.result_json, "targetLanguage"@)
                && text_view(v.output_url) == stored_text(task.result_json, "outputUrl"@)),
    {
        let h = result_header(task, Some((OperationType::Translation, "Task is not a translation task")));
        match h {
            Err(e) => Err(e),
            Ok(h) => Ok(TranslationResult {
                task_id: h.task_id,
                task_no: h.task_no,
                status: h.status,
                source_text: stored_text_field(&task.result_json, "sourceText"),
                translated_text: stored_text_field(&task.result_json, "translatedText"),
                source_language: stored_text_field(&task.result_json, "sourceLanguage"),
                target_language: stored_text_field(&task.result_json, "targetLanguage"),
                output_url: stored_text_field(&task.result_json, "outputUrl"),
            }),
        }
    }

    /// The request shown with a task: the stored one when it could be read
    /// back, otherwise the defaults for the task's tenant, organization and user.
    pub fn request_params(task: &AudioGenerationTask, stored: Option<TranslationRequest>) -> (r: TranslationRequest)
        ensures
            match stored {
                Some(s) => r == s,
                None => is_fallback_translation(r, *task),
            },
    {
        match stored {
            Some(s) => s,
            None => TranslationRequest {
                tenant_id: task.tenant_id,
                organization_id: task.organization_id,
                user_id: task.user_id,
                audio_url: String::new(),
                source_language: None,
                target_language: String::new(),
                output_format: OutputFormat::JSON,
                include_timestamps: true,
                idempotency_key: None,
            },
        }
    }

    /// The tasks a listing asks for.
    pub fn list_filter(tenant_id: i64, user_id: Option<i64>, status: &Option<String>) -> (f: TaskFilter)
        ensures
            f.tenant_id == Some(tenant_id),
            f.user_id == user_id,
            f.organization_id is None,
            f.operation_type == Some(OperationType::Translation),
            f.status == (match status {
                Some(s) => TaskStatus::parse(s@),
                None => None,
            }),
            f.provider_code is None,
            f.created_after is None,
            f.created_before is None,
    {
        task_filter(OperationType::Translation, tenant_id, user_id, status)
    }
}

} // verus!
