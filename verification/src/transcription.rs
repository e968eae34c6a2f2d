//! Transcription: the request, its digest, the creation of a task, the run that
//! transcribes, writes and stores the transcript document, the reading of
//! results and details, listing and cancellation.

use vstd::prelude::*;
use vstd::string::{StringExecFns, StrSliceExecFns};
use vstd::utf8::encode_utf8;
use crate::text::{bool_text, opt_text, push_bool, push_opt, signed_decimal};
use crate::digest::{hex_sha256, text_digest};
use crate::document::{stored_text, stored_text_field, stored_u64, stored_u64_field, text_view};
use crate::clock::Timestamp;
use crate::formats::OutputFormat;
use crate::task::{AudioGenerationTask, OperationType, TaskFilter, TaskStatus, UpdateTaskRequest};
use crate::artifact::ArtifactKind;
use crate::subtitles::{render_srt, render_vtt, srt_document, vtt_document, Segment};
use crate::lifecycle::{
    cancel_answer, clone_opt_string, invalid_request, is_invalid_request, is_ticket_for, plan_cancel,
    progress_only, progress_update, result_header, status_and_progress, status_update, task_filter,
    CreateFlow, CreateStage, ServiceError, TaskDraft, TaskTicket,
};
use crate::pipeline::{
    document_event_fits, file_name, output_file_name, title_cut_ok, title_head, titled, ArtifactPlan,
    DocumentStage, DriveUpload, MediaResource, RunAction, RunEvent, UploadCall,
};

verus! {

broadcast use vstd::string::group_string_axioms;

/// The error of the transcription service.
pub type TranscriptionServiceError = ServiceError;

/// What a caller gets back for a transcription task.
pub type TranscriptionResponse = TaskTicket;

/// A request to transcribe audio.
#[derive(Debug, Clone)]
pub struct TranscriptionRequest {
    pub tenant_id: i64,
    pub organization_id: i64,
    pub user_id: i64,
    pub audio_url: String,
    pub language: Option<String>,
    pub detect_language: bool,
    pub enable_timestamps: bool,
    pub enable_speaker_diarization: bool,
    pub max_speakers: Option<u32>,
    pub output_format: OutputFormat,
    pub include_confidence: bool,
    pub include_words: bool,
    pub idempotency_key: Option<String>,
}

/// What the digest of a transcription request covers, in this order: the
/// audio URL, the language when given, the three switches as `true`/`false`,
/// and the output format.
pub open spec fn transcription_digest_input(r: TranscriptionRequest) -> Seq<char> {
    r.audio_url@ + opt_text(r.language) + bool_text(r.detect_language) + bool_text(r.enable_timestamps)
        + bool_text(r.enable_speaker_diarization) + r.output_format.text()
}

/// The engine call for a transcription request.
#[derive(Debug, Clone)]
pub struct TranscriptionCall {
    pub audio_url: String,
    pub language: Option<String>,
    pub detect_language: bool,
    pub enable_timestamps: bool,
    pub enable_speaker_diarization: bool,
    pub max_speakers: Option<u32>,
    pub output_format: String,
}

/// What the engine transcribed: the text, its timed segments, and the whole
/// answer written as a pretty JSON document by the caller.
#[derive(Debug, Clone)]
pub struct TranscriptOutput {
    pub text: String,
    pub segments: Vec<Segment>,
    pub json_document: String,
}

/// The part of the result written with a finished transcription task that the
/// run decides; the caller adds what the engine said of language, confidence
/// and segments.
#[derive(Debug, Clone)]
pub struct TranscriptionResultRecord {
    pub text: String,
    pub drive_space_id: String,
    pub drive_node_id: String,
    pub output_url: String,
}

/// The document written for a transcript in the requested format.
pub open spec fn transcript_document(format: OutputFormat, out: TranscriptOutput) -> Seq<char> {
    match format {
        OutputFormat::JSON => out.json_document@,
        OutputFormat::SRT => srt_document(out.segments@),
        OutputFormat::VTT => vtt_document(out.segments@),
        OutputFormat::TXT => out.text@,
    }
}

/// The run of one transcription task.
#[derive(Debug)]
pub struct TranscriptionRun {
    pub task_id: i64,
    pub task_no: String,
    pub tenant_id: i64,
    pub user_id: i64,
    pub provider_code: String,
    pub request: TranscriptionRequest,
    pub stage: DocumentStage,
    /// The transcript text and the document written from it.
    pub output: Option<(String, String)>,
    pub upload: Option<DriveUpload>,
}

/// What a run has gathered fits its stage.
pub open spec fn transcription_run_wf(run: TranscriptionRun) -> bool {
    &&& (run.stage == DocumentStage::MarkingProduced || run.stage == DocumentStage::Uploading
        || run.stage == DocumentStage::MarkingUploaded || run.stage == DocumentStage::StoringArtifact
        || run.stage == DocumentStage::Completing) ==> run.output is Some
    &&& (run.stage == DocumentStage::MarkingUploaded || run.stage == DocumentStage::StoringArtifact
        || run.stage == DocumentStage::Completing) ==> run.upload is Some
}

/// The run keeps what it was started with.
pub open spec fn transcription_run_same(run: TranscriptionRun, next: TranscriptionRun) -> bool {
    &&& next.task_id == run.task_id
    &&& next.task_no == run.task_no
    &&& next.tenant_id == run.tenant_id
    &&& next.user_id == run.user_id
    &&& next.provider_code == run.provider_code
    &&& next.request == run.request
}

/// `c` is the engine call for `r`.
pub open spec fn is_transcription_call(c: TranscriptionCall, r: TranscriptionRequest) -> bool {
    &&& c.audio_url@ == r.audio_url@
    &&& c.language == r.language
    &&& c.detect_language == r.detect_language
    &&& c.enable_timestamps == r.enable_timestamps
    &&& c.enable_speaker_diarization == r.enable_speaker_diarization
    &&& c.max_speakers == r.max_speakers
    &&& c.output_format@ == r.output_format.text()
}

/// One step of a transcription run. The run marks the task running at ten
/// percent, marks thirty percent, calls the engine, marks sixty percent,
/// uploads the document in the requested format, marks eighty percent,
/// records the artifact, then completes the task; any failure on the way
/// records the failure and ends the run.
pub open spec fn transcription_step(
    run: TranscriptionRun,
    e: RunEvent<TranscriptOutput>,
    next: TranscriptionRun,
    a: RunAction<TranscriptionCall, TranscriptionResultRecord>,
) -> bool {
    if e is Failed {
        next.stage == DocumentStage::Finished
            && a == RunAction::<TranscriptionCall, TranscriptionResultRecord>::RecordFailure { task_id: run.task_id, error: e->Failed_0 }
    } else {
        match run.stage {
            DocumentStage::Begin => next.stage == DocumentStage::MarkingRunning
                && a == RunAction::<TranscriptionCall, TranscriptionResultRecord>::Update {
                    task_id: run.task_id, update: status_and_progress(TaskStatus::Running, 10) },
            DocumentStage::MarkingRunning => next.stage == DocumentStage::MarkingPrepared
                && a == RunAction::<TranscriptionCall, TranscriptionResultRecord>::Update {
                    task_id: run.task_id, update: progress_only(30) },
            DocumentStage::MarkingPrepared => next.stage == DocumentStage::Working
                && (a matches RunAction::Invoke(c) && is_transcription_call(c, run.request)),
            DocumentStage::Working => next.stage == DocumentStage::MarkingProduced
                && a == RunAction::<TranscriptionCall, TranscriptionResultRecord>::Update {
                    task_id: run.task_id, update: progress_only(60) }
                && (next.output matches Some(o)
                    && o.0@ == e->Produced_0.text@
                    && o.1@ == transcript_document(run.request.output_format, e->Produced_0)),
            DocumentStage::MarkingProduced => next.stage == DocumentStage::Uploading
                && (a matches RunAction::Upload(u)
                    && u.tenant_id == run.tenant_id
                    && u.user_id == run.user_id
                    && u.data@ == encode_utf8(run.output.unwrap().1@)
                    && u.mime_type@ == run.request.output_format.mime()
                    && u.filename@ == file_name("transcription"@, run.task_no@, run.request.output_format.text())),
            DocumentStage::Uploading => next.stage == DocumentStage::MarkingUploaded
                && a == RunAction::<TranscriptionCall, TranscriptionResultRecord>::Update {
                    task_id: run.task_id, update: progress_only(80) }
                && next.upload == Some(e->Uploaded_0),
            DocumentStage::MarkingUploaded => next.stage == DocumentStage::StoringArtifact
                && (a matches RunAction::StoreArtifact(p)
                    && p.task_id == run.task_id
                    && p.kind == ArtifactKind::Text
                    && p.artifact_type@ == "transcription"@
                    && p.title@ == "Transcription: "@ + title_head(run.request.audio_url@)
                    && p.voice_id is None
                    && p.provider_code@ == run.provider_code@
                    && p.format@ == run.request.output_format.text()
                    && p.mime_type@ == run.request.output_format.mime()
                    && p.duration_seconds is None
                    && (p.transcript_text matches Some(t) && t@ == run.output.unwrap().0@)
                    && p.translation_text is None
                    && p.media_resource.drive_space_id == run.upload.unwrap().drive_space_id
                    && p.media_resource.drive_node_id == run.upload.unwrap().drive_node_id
                    && p.media_resource.drive_resource_uri == run.upload.unwrap().drive_resource_uri),
            DocumentStage::StoringArtifact => next.stage == DocumentStage::Completing
                && (a matches RunAction::Complete { task_id, result }
                    && task_id == run.task_id
                    && result.text@ == run.output.unwrap().0@
                    && result.drive_space_id == run.upload.unwrap().drive_space_id
                    && result.drive_node_id == run.upload.unwrap().drive_node_id
                    && result.output_url == run.upload.unwrap().drive_resource_uri),
            DocumentStage::Completing => next.stage == DocumentStage::Finished
                && a == RunAction::<TranscriptionCall, TranscriptionResultRecord>::Finish,
            DocumentStage::Finished => false,
        }
    }
}

/// The progress a run has reported once it reaches a stage.
pub open spec fn transcription_progress(stage: DocumentStage) -> int {
    match stage {
        DocumentStage::Begin => 0,
        DocumentStage::MarkingRunning => 10,
        DocumentStage::MarkingPrepared => 30,
        DocumentStage::Working => 30,
        DocumentStage::MarkingProduced => 60,
        DocumentStage::Uploading => 60,
        DocumentStage::MarkingUploaded => 80,
        DocumentStage::StoringArtifact => 80,
        DocumentStage::Completing => 100,
        DocumentStage::Finished => 100,
    }
}

/// Over a run, every update reports more progress than the one before; the
/// task is completed only after its artifact was recorded with nothing
/// failing; a failure is recorded exactly when one is reported; and a run that
/// is over asks for nothing but that.
pub proof fn transcription_run_law(run: TranscriptionRun, e: RunEvent<TranscriptOutput>, next: TranscriptionRun, a: RunAction<TranscriptionCall, TranscriptionResultRecord>)
    requires
        document_event_fits(run.stage, e),
        transcription_step(run, e, next, a),
    ensures
        a matches RunAction::Update { update, .. } ==> (update.progress matches Some(p)
            && p > transcription_progress(run.stage) && p == transcription_progress(next.stage)),
        a is Complete ==> (run.stage == DocumentStage::StoringArtifact && e is Done),
        a is RecordFailure <==> e is Failed,
        next.stage == DocumentStage::Finished ==> (a is Finish || a is RecordFailure),
{
}

/// What a run has gathered stays as it was, except where the step takes it
/// in: the engine's answer when it comes, the upload when it is done, and (for
/// the audio) when it is handed to storage.
pub open spec fn transcription_run_carries(run: TranscriptionRun, e: RunEvent<TranscriptOutput>, next: TranscriptionRun, a: RunAction<TranscriptionCall, TranscriptionResultRecord>) -> bool {
    &&& !(e is Produced) ==> next.output == run.output
    &&& !(e is Uploaded) ==> next.upload == run.upload
}

/// Across a run, the artifact recorded carries what the engine produced and
/// where storage put the file: the transcript text, and the storage location.
pub proof fn transcription_artifact_carries_answer(
    r0: TranscriptionRun, o: TranscriptOutput, r1: TranscriptionRun, a0: RunAction<TranscriptionCall, TranscriptionResultRecord>,
    r2: TranscriptionRun, a1: RunAction<TranscriptionCall, TranscriptionResultRecord>,
    u: DriveUpload, r3: TranscriptionRun, a2: RunAction<TranscriptionCall, TranscriptionResultRecord>,
    r4: TranscriptionRun, a3: RunAction<TranscriptionCall, TranscriptionResultRecord>,
)
    requires
        r0.stage == DocumentStage::Working,
        transcription_step(r0, RunEvent::Produced(o), r1, a0),
        transcription_run_carries(r0, RunEvent::Produced(o), r1, a0),
        transcription_step(r1, RunEvent::Done, r2, a1),
        transcription_run_carries(r1, RunEvent::Done, r2, a1),
        transcription_run_same(r1, r2),
        transcription_step(r2, RunEvent::Uploaded(u), r3, a2),
        transcription_run_carries(r2, RunEvent::Uploaded(u), r3, a2),
        transcription_run_same(r2, r3),
        transcription_step(r3, RunEvent::Done, r4, a3),
    ensures
        a3 matches RunAction::StoreArtifact(p)
            && (p.transcript_text matches Some(t) && t@ == o.text@)
            && p.media_resource.drive_space_id == u.drive_space_id
            && p.media_resource.drive_node_id == u.drive_node_id
            && p.media_resource.drive_resource_uri == u.drive_resource_uri,
{
}

/// The document a transcription run uploads is the one the requested format
/// asks for: the engine's own JSON document for JSON, the SRT or WebVTT cues of
/// its segments, or its plain text for TXT; it is stored under that format's
/// media type as `transcription_<task number>.<extension>`.
pub proof fn transcription_uploads_requested_document(
    r0: TranscriptionRun, out: TranscriptOutput, r1: TranscriptionRun,
    a0: RunAction<TranscriptionCall, TranscriptionResultRecord>,
    r2: TranscriptionRun, a1: RunAction<TranscriptionCall, TranscriptionResultRecord>,
)
    requires
        r0.stage == DocumentStage::Working,
        transcription_step(r0, RunEvent::Produced(out), r1, a0),
        transcription_run_same(r0, r1),
        transcription_step(r1, RunEvent::Done, r2, a1),
    ensures
        a1 matches RunAction::Upload(u) && u.tenant_id == r0.tenant_id && u.user_id == r0.user_id,
        r0.request.output_format == OutputFormat::JSON ==> (a1 matches RunAction::Upload(u)
            && u.data@ == encode_utf8(out.json_document@)
            && u.mime_type@ == "application/json"@
            && u.filename@ == file_name("transcription"@, r0.task_no@, "json"@)),
        r0.request.output_format == OutputFormat::SRT ==> (a1 matches RunAction::Upload(u)
            && u.data@ == encode_utf8(srt_document(out.segments@))
            && u.mime_type@ == "text/srt"@
            && u.filename@ == file_name("transcription"@, r0.task_no@, "srt"@)),
        r0.request.output_format == OutputFormat::VTT ==> (a1 matches RunAction::Upload(u)
            && u.data@ == encode_utf8(vtt_document(out.segments@))
            && u.mime_type@ == "text/vtt"@
            && u.filename@ == file_name("transcription"@, r0.task_no@, "vtt"@)),
        r0.request.output_format == OutputFormat::TXT ==> (a1 matches RunAction::Upload(u)
            && u.data@ == encode_utf8(out.text@)
            && u.mime_type@ == "text/plain"@
            && u.filename@ == file_name("transcription"@, r0.task_no@, "txt"@)),
{
}

impl TranscriptionRun {
    /// Takes one step of the run. Recording the artifact takes the head of the
    /// audio URL for its title, which must be cut between two characters.
    pub fn step(self, event: RunEvent<TranscriptOutput>) -> (r: (TranscriptionRun, RunAction<TranscriptionCall, TranscriptionResultRecord>))
        requires
            document_event_fits(self.stage, event),
            transcription_run_wf(self),
            (self.stage == DocumentStage::MarkingUploaded && event is Done) ==> title_cut_ok(self.request.audio_url@),
        ensures
            transcription_step(self, event, r.0, r.1),
            transcription_run_same(self, r.0),
            transcription_run_carries(self, event, r.0, r.1),
            transcription_run_wf(r.0),
    {
        let task_id = self.task_id;
        match event {
            RunEvent::Failed(error) => {
                return (TranscriptionRun { stage: DocumentStage::Finished, ..self }, RunAction::RecordFailure { task_id, error });
            },
            RunEvent::Produced(out) => {
                let document = match self.request.output_format {
                    OutputFormat::JSON => out.json_document.clone(),
                    OutputFormat::SRT => render_srt(&out.segments),
                    OutputFormat::VTT => render_vtt(&out.segments),
                    OutputFormat::TXT => out.text.clone(),
                };
                let next = TranscriptionRun { stage: DocumentStage::MarkingProduced, output: Some((out.text, document)), ..self };
                return (next, RunAction::Update { task_id, update: progress_update(60) });
            },
            RunEvent::Uploaded(u) => {
                let next = TranscriptionRun { stage: DocumentStage::MarkingUploaded, upload: Some(u), ..self };
                return (next, RunAction::Update { task_id, update: progress_update(80) });
            },
            _ => {},
        }
        match self.stage {
            DocumentStage::Begin => {
                (TranscriptionRun { stage: DocumentStage::MarkingRunning, ..self },
                 RunAction::Update { task_id, update: status_update(TaskStatus::Running, 10) })
            },
            DocumentStage::MarkingRunning => {
                (TranscriptionRun { stage: DocumentStage::MarkingPrepared, ..self },
                 RunAction::Update { task_id, update: progress_update(30) })
            },
            DocumentStage::MarkingPrepared => {
                let call = TranscriptionCall {
                    audio_url: self.request.audio_url.clone(),
                    language: clone_opt_string(&self.request.language),
                    detect_language: self.request.detect_language,
                    enable_timestamps: self.request.enable_timestamps,
                    enable_speaker_diarization: self.request.enable_speaker_diarization,
                    max_speakers: self.request.max_speakers,
                    output_format: String::from_str(self.request.output_format.as_str()),
                };
                (TranscriptionRun { stage: DocumentStage::Working, ..self }, RunAction::Invoke(call))
            },
            DocumentStage::MarkingProduced => {
                let data = match &self.output {
                    Some(o) => o.1.as_str().as_bytes_vec(),
                    None => Vec::new(),
                };
                proof { reveal_strlit("transcription"); }
                let call = UploadCall {
                    tenant_id: self.tenant_id,
                    user_id: self.user_id,
                    data,
                    mime_type: String::from_str(self.request.output_format.mime_type()),
                    filename: output_file_name("transcription", self.task_no.as_str(), self.request.output_format.as_str()),
                };
                (TranscriptionRun { stage: DocumentStage::Uploading, ..self }, RunAction::Upload(call))
            },
            DocumentStage::MarkingUploaded => {
                let text = match &self.output {
                    Some(o) => o.0.clone(),
                    None => String::new(),
                };
                let media = match &self.upload {
                    Some(u) => MediaResource::of_upload(u),
                    None => MediaResource { drive_space_id: String::new(), drive_node_id: String::new(), drive_resource_uri: String::new() },
                };
                proof { reveal_strlit("transcription"); }
                let plan = ArtifactPlan {
                    task_id,
                    kind: ArtifactKind::Text,
                    artifact_type: String::from_str("transcription"),
                    title: titled("Transcription: ", self.request.audio_url.as_str()),
                    voice_id: None,
                    provider_code: self.provider_code.clone(),
                    format: String::from_str(self.request.output_format.as_str()),
                    mime_type: String::from_str(self.request.output_format.mime_type()),
                    duration_seconds: None,
                    transcript_text: Some(text),
                    translation_text: None,
                    media_resource: media,
                };
                (TranscriptionRun { stage: DocumentStage::StoringArtifact, ..self }, RunAction::StoreArtifact(plan))
            },
            DocumentStage::StoringArtifact => {
                let result = match (&self.output, &self.upload) {
                    (Some(o), Some(u)) => TranscriptionResultRecord {
                        text: o.0.clone(),
                        drive_space_id: u.drive_space_id.clone(),
                        drive_node_id: u.drive_node_id.clone(),
                        output_url: u.drive_resource_uri.clone(),
                    },
                    _ => TranscriptionResultRecord {
                        text: String::new(), drive_space_id: String::new(), drive_node_id: String::new(), output_url: String::new(),
                    },
                };
                (TranscriptionRun { stage: DocumentStage::Completing, ..self }, RunAction::Complete { task_id, result })
            },
            _ => {
                (TranscriptionRun { stage: DocumentStage::Finished, ..self }, RunAction::Finish)
            },
        }
    }
}

/// The request shown for a task whose stored request cannot be read back.
pub open spec fn is_fallback_transcription(r: TranscriptionRequest, t: AudioGenerationTask) -> bool {
    &&& r.tenant_id == t.tenant_id
    &&& r.organization_id == t.organization_id
    &&& r.user_id == t.user_id
    &&& r.audio_url@ == Seq::<char>::empty()
    &&& r.language is None
    &&& r.detect_language
    &&& r.enable_timestamps
    &&& !r.enable_speaker_diarization
    &&& r.max_speakers is None
    &&& r.output_format == OutputFormat::JSON
    &&& r.include_confidence
    &&& r.include_words
    &&& r.idempotency_key is None
}

/// What a reader gets for a transcription task from its stored result document;
/// the engine's confidence and segments are read by the caller.
#[derive(Debug, Clone)]
pub struct TranscriptionResult {
    pub task_id: String,
    pub task_no: String,
    pub status: String,
    pub text: Option<String>,
    pub language: Option<String>,
    pub duration_ms: Option<u64>,
    pub output_url: Option<String>,
}

/// The transcription service's own decisions; `provider_code` names the engine
/// that transcribes.
#[derive(Debug, Clone)]
pub struct TranscriptionServiceImpl {
    pub provider_code: String,
}

impl TranscriptionServiceImpl {
    pub fn new(provider_code: String) -> (r: Self)
        ensures
            r.provider_code == provider_code,
    {
        TranscriptionServiceImpl { provider_code }
    }

    /// Digest of the request, for recognising repeated input.
    pub fn calculate_input_hash(request: &TranscriptionRequest) -> (r: String)
        ensures
            r@ == text_digest(transcription_digest_input(*request)),
            r@.len() == 64,
    {
        let mut m = String::new();
        m.append(request.audio_url.as_str());
        push_opt(&mut m, &request.language);
        push_bool(&mut m, request.detect_language);
        push_bool(&mut m, request.enable_timestamps);
        push_bool(&mut m, request.enable_speaker_diarization);
        m.append(request.output_format.as_str());
        assert(m@ =~= transcription_digest_input(*request));
        hex_sha256(m.as_str())
    }

    /// Milliseconds as an SRT clock time, `HH:MM:SS,mmm`.
    pub fn format_srt_time(ms: u64) -> (r: String)
        ensures
            r@ == crate::subtitles::clock_text(ms, ','),
    {
        let mut s = String::new();
        crate::subtitles::push_clock(&mut s, ms, true);
        assert(s@ =~= crate::subtitles::clock_text(ms, ','));
        s
    }

    /// Milliseconds as a WebVTT clock time, `HH:MM:SS.mmm`.
    pub fn format_vtt_time(ms: u64) -> (r: String)
        ensures
            r@ == crate::subtitles::clock_text(ms, '.'),
    {
        let mut s = String::new();
        crate::subtitles::push_clock(&mut s, ms, false);
        assert(s@ =~= crate::subtitles::clock_text(ms, '.'));
        s
    }

    /// The checks of a transcription request.
    pub fn validate(request: &TranscriptionRequest) -> (r: Result<(), ServiceError>)
        ensures
            r is Ok <==> request.audio_url@.len() != 0,
            r matches Err(e) ==> is_invalid_request(e, "Audio URL is required"@),
    {
        if request.audio_url.as_str().is_empty() {
            Err(invalid_request("Audio URL is required"))
        } else {
            Ok(())
        }
    }

    /// The creation of a transcription task for `request`, stored with
    /// `request_json`: an empty audio URL is refused, and an accepted task is
    /// expected to take five seconds.
    pub fn creation(&self, request: &TranscriptionRequest, request_json: Result<String, String>) -> (f: CreateFlow)
        ensures
            f.operation == OperationType::Transcription,
            f.estimated_duration_ms == 5000,
            f.stage == CreateStage::Begin,
            f.draft.tenant_id == request.tenant_id,
            f.draft.organization_id == request.organization_id,
            f.draft.user_id == request.user_id,
            f.draft.idempotency_key == request.idempotency_key,
            f.draft.provider_code@ == self.provider_code@,
            f.draft.checked is Ok <==> request.audio_url@.len() != 0,
            f.draft.checked matches Err(e) ==> is_invalid_request(e, "Audio URL is required"@),
            f.draft.request_json == request_json,
    {
        let draft = TaskDraft {
            tenant_id: request.tenant_id,
            organization_id: request.organization_id,
            user_id: request.user_id,
            idempotency_key: clone_opt_string(&request.idempotency_key),
            provider_code: self.provider_code.clone(),
            checked: Self::validate(request),
            request_json,
        };
        CreateFlow::new(OperationType::Transcription, 5000, draft)
    }

    /// The run of `task` for `request`, not yet started.
    pub fn run(&self, task: &AudioGenerationTask, request: TranscriptionRequest) -> (r: TranscriptionRun)
        ensures
            r.task_id == task.id,
            r.task_no == task.task_no,
            r.tenant_id == task.tenant_id,
            r.user_id == task.user_id,
            r.provider_code == self.provider_code,
            r.request == request,
            r.stage == DocumentStage::Begin,
            r.output is None,
            r.upload is None,
    {
        TranscriptionRun {
            task_id: task.id,
            task_no: task.task_no.clone(),
            tenant_id: task.tenant_id,
            user_id: task.user_id,
            provider_code: self.provider_code.clone(),
            request,
            stage: DocumentStage::Begin,
            output: None,
            upload: None,
        }
    }

    /// Cancelling a transcription task: only a transcription task that has
    /// not finished may be cancelled.
    pub fn cancellation(task_no: &str, found: Option<AudioGenerationTask>, now: Timestamp)
        -> (r: Result<(i64, UpdateTaskRequest), ServiceError>)
        ensures
            cancel_answer(task_no@, found, Some((OperationType::Transcription, "Task is not a transcription task"@)), now, r),
    {
        plan_cancel(task_no, found, Some((OperationType::Transcription, "Task is not a transcription task")), now)
    }

    /// The head of a result read from `task`: refused unless it is a
    /// transcription task.
    pub fn result_header(task: &AudioGenerationTask) -> (r: Result<TaskTicket, ServiceError>)
        ensures
            task.operation_type@ == OperationType::Transcription.text() ==> (r matches Ok(h) && is_ticket_for(h, *task, None)),
            task.operation_type@ != OperationType::Transcription.text() ==> (r matches Err(e)
                && is_invalid_request(e, "Task is not a transcription task"@)),
    {
        result_header(task, Some((OperationType::Transcription, "Task is not a transcription task")))
    }

    /// The result shown for `task`: refused unless it is a transcription task;
    /// otherwise its ticket and what its stored result document holds under
    /// the keys read here, where it has one and they are there.
    pub fn transcription_result(task: &AudioGenerationTask) -> (r: Result<TranscriptionResult, ServiceError>)
        ensures
            task.operation_type@ != OperationType::Transcription.text() ==> (r matches Err(e)
                && is_invalid_request(e, "Task is not a transcription task"@)),
            task.operation_type@ == OperationType::Transcription.text() ==> (r matches Ok(v)
                && v.task_id@ == signed_decimal(task.id as int)
                && v.task_no@ == task.task_no@
                && v.status@ == task.status@
                && text_view(v.text) == stored_text(task.result_json, "text"@)
                && text_view(v.language) == stored_text(task.result_json, "language"@)
                && v.duration_ms == stored_u64(task.result_json, "durationMs"@)
                && text_view(v.output_url) == stored_text(task.result_json, "outputUrl"@)),
    {
        let h = result_header(task, Some((OperationType::Transcription, "Task is not a transcription task")));
        match h {
            Err(e) => Err(e),
            Ok(h) => Ok(TranscriptionResult {
                task_id: h.task_id,
                task_no: h.task_no,
                status: h.status,
                text: stored_text_field(&task.result_json, "text"),
                language: stored_text_field(&task.result_json, "language"),
                duration_ms: stored_u64_field(&task.result_json, "durationMs"),
                output_url: stored_text_field(&task.result_json, "outputUrl"),
            }),
        }
    }

    /// The request shown with a task: the stored one when it could be read
    /// back, otherwise the defaults for the task's tenant, organization and user.
    pub fn request_params(task: &AudioGenerationTask, stored: Option<TranscriptionRequest>) -> (r: TranscriptionRequest)
        ensures
            match stored {
                Some(s) => r == s,
                None => is_fallback_transcription(r, *task),
            },
    {
        match stored {
            Some(s) => s,
            None => TranscriptionRequest {
                tenant_id: task.tenant_id,
                organization_id: task.organization_id,
                user_id: task.user_id,
                audio_url: String::new(),
                language: None,
                detect_language: true,
                enable_timestamps: true,
                enable_speaker_diarization: false,
                max_speakers: None,
                output_format: OutputFormat::JSON,
                include_confidence: true,
                include_words: true,
                idempotency_key: None,
            },
        }
    }

    /// The tasks a listing asks for.
    pub fn list_filter(tenant_id: i64, user_id: Option<i64>, status: &Option<String>) -> (f: TaskFilter)
        ensures
            f.tenant_id == Some(tenant_id),
            f.user_id == user_id,
            f.organization_id is None,
            f.operation_type == Some(OperationType::Transcription),
            f.status == (match status {
                Some(s) => TaskStatus::parse(s@),
                None => None,
            }),
            f.provider_code is None,
            f.created_after is None,
            f.created_before is None,
    {
        task_filter(OperationType::Transcription, tenant_id, user_id, status)
    }
}

} // verus!
