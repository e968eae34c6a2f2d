//! Speech synthesis: the request, its digest, the creation of a task, the run
//! that synthesizes, stores and records the audio, the reading of a result,
//! cancellation and the listing of voices.

use vstd::prelude::*;
use vstd::string::StringExecFns;
use crate::text::{decimal, opt_text, push_decimal, push_opt, signed_decimal, i64_text};
use crate::digest::{hex_sha256, text_digest};
use crate::document::{
    entries_of, json_object, json_object_text, json_text_field, json_u64_field, reads_back, stored_text,
    stored_text_field, stored_u64, stored_u64_field, text_entry, text_view, unsigned_entry, JsonScalar,
    JsonScalarView,
};
use crate::clock::Timestamp;
use crate::formats::{AudioFormat, TextFormat};
use crate::task::{AudioGenerationTask, OperationType, TaskStatus, UpdateTaskRequest};
use crate::artifact::ArtifactKind;
use crate::voice::{AudioVoice, VoiceFilter, VoiceListResult, VoiceStatus, VoiceType};
use crate::lifecycle::{
    clone_opt_string, plan_cancel, cancel_answer, is_success_update, progress_only, progress_update,
    status_and_progress, status_update, CreateFlow, CreateStage, ServiceError, TaskDraft, TaskTicket,
};
use crate::pipeline::{
    file_name, output_file_name, seconds_of, title_cut_ok, title_head, titled, whole_seconds,
    ArtifactPlan, DriveUpload, MediaResource, RunAction, RunEvent, UploadCall,
};

verus! {

broadcast use vstd::string::group_string_axioms;

/// The error of the speech service.
pub type SpeechServiceError = ServiceError;

/// What a caller gets back for a speech task.
pub type SpeechSynthesisResponse = TaskTicket;

/// A request to synthesize speech. Speed, pitch, volume and emotion intensity
/// are the texts that `f32`'s `Display` writes for the requested numbers.
#[derive(Debug, Clone)]
pub struct SpeechSynthesisRequest {
    pub tenant_id: i64,
    pub organization_id: i64,
    pub user_id: i64,
    pub text: String,
    pub text_format: TextFormat,
    pub language: Option<String>,
    pub voice_id: Option<String>,
    pub speed: String,
    pub pitch: String,
    pub volume: String,
    pub emotion: Option<String>,
    pub emotion_intensity: String,
    pub audio_format: AudioFormat,
    pub sample_rate: u32,
    pub idempotency_key: Option<String>,
}

/// What the digest of a speech request covers, in this order: the text, its
/// format, the language and the voice when given, speed, pitch, volume, the
/// audio format and the sample rate in decimal.
pub open spec fn speech_digest_input(r: SpeechSynthesisRequest) -> Seq<char> {
    r.text@ + r.text_format.text() + opt_text(r.language) + opt_text(r.voice_id) + r.speed@ + r.pitch@
        + r.volume@ + r.audio_format.text() + decimal(r.sample_rate as nat)
}

/// Two requests that differ only in their text have different digest inputs
/// exactly when the texts differ.
pub proof fn digest_input_tells_texts_apart(r1: SpeechSynthesisRequest, r2: SpeechSynthesisRequest)
    requires
        r1.text_format == r2.text_format,
        r1.language == r2.language,
        r1.voice_id == r2.voice_id,
        r1.speed@ == r2.speed@,
        r1.pitch@ == r2.pitch@,
        r1.volume@ == r2.volume@,
        r1.audio_format == r2.audio_format,
        r1.sample_rate == r2.sample_rate,
    ensures
        (speech_digest_input(r1) == speech_digest_input(r2)) <==> (r1.text@ == r2.text@),
{
    let rest = r1.text_format.text() + opt_text(r1.language) + opt_text(r1.voice_id) + r1.speed@ + r1.pitch@
        + r1.volume@ + r1.audio_format.text() + decimal(r1.sample_rate as nat);
    assert(speech_digest_input(r1) =~= r1.text@ + rest);
    assert(speech_digest_input(r2) =~= r2.text@ + rest);
    if r1.text@ != r2.text@ {
        if r1.text@.len() == r2.text@.len() {
            assert(!(r1.text@ =~= r2.text@));
            assert(exists|i: int| 0 <= i < r1.text@.len() && r1.text@[i] != r2.text@[i]);
            let i = choose|i: int| 0 <= i < r1.text@.len() && r1.text@[i] != r2.text@[i];
            assert((r1.text@ + rest)[i] != (r2.text@ + rest)[i]);
        } else {
            assert((r1.text@ + rest).len() != (r2.text@ + rest).len());
        }
    }
}

/// The engine call for a speech request, besides the numbers that the caller
/// supplies from the request it holds.
#[derive(Debug, Clone)]
pub struct SpeechCall {
    pub text: String,
    pub text_format: String,
    pub language: Option<String>,
    pub voice_id: Option<String>,
    pub emotion: Option<String>,
    pub audio_format: String,
    pub sample_rate: u32,
}

/// What the engine synthesized.
#[derive(Debug, Clone)]
pub struct SynthesisOutput {
    pub audio_data: Vec<u8>,
    pub mime_type: String,
    pub duration_ms: u64,
    pub sample_rate: u32,
    pub channels: u32,
}

/// The result written with a finished speech task.
#[derive(Debug, Clone)]
pub struct SpeechResultRecord {
    pub duration_ms: u64,
    pub sample_rate: u32,
    pub channels: u32,
    pub file_size_bytes: u64,
    pub drive_space_id: String,
    pub drive_node_id: String,
}

/// Where a speech run stands.
#[derive(Debug, Clone, Copy, PartialEq, Eq, Structural)]
pub enum SpeechStage {
    Begin,
    MarkingRunning,
    Synthesizing,
    MarkingSynthesized,
    Uploading,
    MarkingUploaded,
    StoringArtifact,
    Completing,
    Finished,
}

/// The run of one speech task.
#[derive(Debug)]
pub struct SpeechRun {
    pub task_id: i64,
    pub task_no: String,
    pub tenant_id: i64,
    pub user_id: i64,
    pub provider_code: String,
    pub request: SpeechSynthesisRequest,
    pub stage: SpeechStage,
    /// The audio waiting to be uploaded.
    pub audio: Vec<u8>,
    /// What the engine said of the audio: its media type, duration, sample
    /// rate, channels and size in bytes.
    pub produced: Option<(String, u64, u32, u32, u64)>,
    pub upload: Option<DriveUpload>,
}

/// The event fits the stage: a failure may come at any stage between the start
/// and the end.
pub open spec fn speech_event_fits(stage: SpeechStage, e: RunEvent<SynthesisOutput>) -> bool {
    match stage {
        SpeechStage::Begin => e is Begin,
        SpeechStage::Synthesizing => e is Produced || e is Failed,
        SpeechStage::Uploading => e is Uploaded || e is Failed,
        SpeechStage::Finished => false,
        _ => e is Done || e is Failed,
    }
}

/// `c` is the engine call for `r`.
pub open spec fn is_speech_call(c: SpeechCall, r: SpeechSynthesisRequest) -> bool {
    &&& c.text@ == r.text@
    &&& c.text_format@ == r.text_format.text()
    &&& c.language == r.language
    &&& c.voice_id == r.voice_id
    &&& c.emotion == r.emotion
    &&& c.audio_format@ == r.audio_format.text()
    &&& c.sample_rate == r.sample_rate
}

/// `p` is the artifact of a finished synthesis of `run` stored at `u`.
pub open spec fn is_speech_artifact(p: ArtifactPlan, run: SpeechRun, mime: Seq<char>, duration_ms: u64, u: DriveUpload) -> bool {
    &&& p.task_id == run.task_id
    &&& p.kind == ArtifactKind::Audio
    &&& p.artifact_type@ == "speech"@
    &&& p.title@ == "Speech synthesis: "@ + title_head(run.request.text@)
    &&& p.voice_id == run.request.voice_id
    &&& p.provider_code@ == run.provider_code@
    &&& p.format@ == run.request.audio_format.text()
    &&& p.mime_type@ == mime
    &&& p.duration_seconds == Some(whole_seconds(duration_ms))
    &&& p.transcript_text is None
    &&& p.translation_text is None
    &&& p.media_resource.drive_space_id == u.drive_space_id
    &&& p.media_resource.drive_node_id == u.drive_node_id
    &&& p.media_resource.drive_resource_uri == u.drive_resource_uri
}

/// One step of a speech run: from the stage and the event, the next stage and
/// what to ask for. The run marks the task running at ten percent, calls the
/// engine, marks fifty percent, uploads the audio, marks eighty percent,
/// records the artifact, then completes the task; any failure on the way
/// records the failure and ends the run.
pub open spec fn speech_step(run: SpeechRun, e: RunEvent<SynthesisOutput>, next: SpeechRun, a: RunAction<SpeechCall, SpeechResultRecord>) -> bool {
    if e is Failed {
        next.stage == SpeechStage::Finished
            && a == RunAction::<SpeechCall, SpeechResultRecord>::RecordFailure { task_id: run.task_id, error: e->Failed_0 }
    } else {
        match run.stage {
            SpeechStage::Begin => next.stage == SpeechStage::MarkingRunning
                && a == RunAction::<SpeechCall, SpeechResultRecord>::Update {
                    task_id: run.task_id, update: status_and_progress(TaskStatus::Running, 10) },
            SpeechStage::MarkingRunning => next.stage == SpeechStage::Synthesizing
                && (a matches RunAction::Invoke(c) && is_speech_call(c, run.request)),
            SpeechStage::Synthesizing => next.stage == SpeechStage::MarkingSynthesized
                && a == RunAction::<SpeechCall, SpeechResultRecord>::Update {
                    task_id: run.task_id, update: progress_only(50) }
                && next.audio == e->Produced_0.audio_data
                && next.produced == Some((e->Produced_0.mime_type, e->Produced_0.duration_ms,
                    e->Produced_0.sample_rate, e->Produced_0.channels,
                    e->Produced_0.audio_data@.len() as u64)),
            SpeechStage::MarkingSynthesized => next.stage == SpeechStage::Uploading
                && (a matches RunAction::Upload(u)
                    && u.tenant_id == run.tenant_id
                    && u.user_id == run.user_id
                    && u.data == run.audio
                    && u.mime_type@ == run.produced.unwrap().0@
                    && u.filename@ == file_name("speech"@, run.task_no@, run.request.audio_format.text())),
            SpeechStage::Uploading => next.stage == SpeechStage::MarkingUploaded
                && a == RunAction::<SpeechCall, SpeechResultRecord>::Update {
                    task_id: run.task_id, update: progress_only(80) }
                && next.upload == Some(e->Uploaded_0),
            SpeechStage::MarkingUploaded => next.stage == SpeechStage::StoringArtifact
                && (a matches RunAction::StoreArtifact(p)
                    && is_speech_artifact(p, run, run.produced.unwrap().0@, run.produced.unwrap().1, run.upload.unwrap())),
            SpeechStage::StoringArtifact => next.stage == SpeechStage::Completing
                && (a matches RunAction::Complete { task_id, result }
                    && task_id == run.task_id
                    && result.duration_ms == run.produced.unwrap().1
                    && result.sample_rate == run.produced.unwrap().2
                    && result.channels == run.produced.unwrap().3
                    && result.file_size_bytes == run.produced.unwrap().4
                    && result.drive_space_id == run.upload.unwrap().drive_space_id
                    && result.drive_node_id == run.upload.unwrap().drive_node_id),
            SpeechStage::Completing => next.stage == SpeechStage::Finished
                && a == RunAction::<SpeechCall, SpeechResultRecord>::Finish,
            SpeechStage::Finished => false,
        }
    }
}

/// The run keeps what it was started with.
pub open spec fn speech_run_same(run: SpeechRun, next: SpeechRun) -> bool {
    &&& next.task_id == run.task_id
    &&& next.task_no == run.task_no
    &&& next.tenant_id == run.tenant_id
    &&& next.user_id == run.user_id
    &&& next.provider_code == run.provider_code
    &&& next.request == run.request
}

/// The progress a run has reported once it reaches a stage.
pub open spec fn speech_progress(stage: SpeechStage) -> int {
    match stage {
        SpeechStage::Begin => 0,
        SpeechStage::MarkingRunning => 10,
        SpeechStage::Synthesizing => 10,
        SpeechStage::MarkingSynthesized => 50,
        SpeechStage::Uploading => 50,
        SpeechStage::MarkingUploaded => 80,
        SpeechStage::StoringArtifact => 80,
        SpeechStage::Completing => 100,
        SpeechStage::Finished => 100,
    }
}

/// Over a run, every update reports more progress than the one before; the
/// task is completed only after its artifact was recorded with nothing
/// failing; a failure is recorded exactly when one is reported; and a run that
/// is over asks for nothing but that.
pub proof fn speech_run_law(run: SpeechRun, e: RunEvent<SynthesisOutput>, next: SpeechRun, a: RunAction<SpeechCall, SpeechResultRecord>)
    requires
        speech_event_fits(run.stage, e),
        speech_step(run, e, next, a),
    ensures
        a matches RunAction::Update { update, .. } ==> (update.progress matches Some(p)
            && p > speech_progress(run.stage) && p == speech_progress(next.stage)),
        a is Complete ==> (run.stage == SpeechStage::StoringArtifact && e is Done),
        a is RecordFailure <==> e is Failed,
        next.stage == SpeechStage::Finished ==> (a is Finish || a is RecordFailure),
{
}

/// What a run has gathered fits its stage: the engine's answer once it came,
/// and the upload once it was done.
pub open spec fn speech_run_wf(run: SpeechRun) -> bool {
    &&& (run.stage == SpeechStage::MarkingSynthesized || run.stage == SpeechStage::Uploading
        || run.stage == SpeechStage::MarkingUploaded || run.stage == SpeechStage::StoringArtifact
        || run.stage == SpeechStage::Completing) ==> run.produced is Some
    &&& (run.stage == SpeechStage::MarkingUploaded || run.stage == SpeechStage::StoringArtifact
        || run.stage == SpeechStage::Completing) ==> run.upload is Some
}

/// What a run has gathered stays as it was, except where the step takes it
/// in: the engine's answer when it comes, the upload when it is done, and (for
/// the audio) when it is handed to storage.
pub open spec fn speech_run_carries(run: SpeechRun, e: RunEvent<SynthesisOutput>, next: SpeechRun, a: RunAction<SpeechCall, SpeechResultRecord>) -> bool {
    &&& !(e is Produced) ==> next.produced == run.produced
    &&& !(e is Uploaded) ==> next.upload == run.upload
    &&& (!(e is Produced) && !(a is Upload)) ==> next.audio == run.audio
}

/// Across a run, the artifact recorded carries what the engine produced and
/// where storage put the file: its media type and duration, and the storage location.
pub proof fn speech_artifact_carries_answer(
    r0: SpeechRun, o: SynthesisOutput, r1: SpeechRun, a0: RunAction<SpeechCall, SpeechResultRecord>,
    r2: SpeechRun, a1: RunAction<SpeechCall, SpeechResultRecord>,
    u: DriveUpload, r3: SpeechRun, a2: RunAction<SpeechCall, SpeechResultRecord>,
    r4: SpeechRun, a3: RunAction<SpeechCall, SpeechResultRecord>,
)
    requires
        r0.stage == SpeechStage::Synthesizing,
        speech_step(r0, RunEvent::Produced(o), r1, a0),
        speech_run_carries(r0, RunEvent::Produced(o), r1, a0),
        speech_step(r1, RunEvent::Done, r2, a1),
        speech_run_carries(r1, RunEvent::Done, r2, a1),
        speech_run_same(r1, r2),
        speech_step(r2, RunEvent::Uploaded(u), r3, a2),
        speech_run_carries(r2, RunEvent::Uploaded(u), r3, a2),
        speech_run_same(r2, r3),
        speech_step(r3, RunEvent::Done, r4, a3),
    ensures
        a3 matches RunAction::StoreArtifact(p)
            && p.mime_type@ == o.mime_type@
            && p.duration_seconds == Some(whole_seconds(o.duration_ms))
            && p.media_resource.drive_space_id == u.drive_space_id
            && p.media_resource.drive_node_id == u.drive_node_id
            && p.media_resource.drive_resource_uri == u.drive_resource_uri,
{
}

impl SpeechRun {
    /// Takes one step of the run. Recording the artifact takes the head of the
    /// text for its title, which must be cut between two characters.
    pub fn step(self, event: RunEvent<SynthesisOutput>) -> (r: (SpeechRun, RunAction<SpeechCall, SpeechResultRecord>))
        requires
            speech_event_fits(self.stage, event),
            speech_run_wf(self),
            (self.stage == SpeechStage::MarkingUploaded && event is Done) ==> title_cut_ok(self.request.text@),
        ensures
            speech_step(self, event, r.0, r.1),
            speech_run_same(self, r.0),
            speech_run_carries(self, event, r.0, r.1),
            speech_run_wf(r.0),
    {
        let task_id = self.task_id;
        match event {
            RunEvent::Failed(error) => {
                return (SpeechRun { stage: SpeechStage::Finished, ..self }, RunAction::RecordFailure { task_id, error });
            },
            RunEvent::Produced(out) => {
                let size = out.audio_data.len() as u64;
                let produced = Some((out.mime_type, out.duration_ms, out.sample_rate, out.channels, size));
                let next = SpeechRun { stage: SpeechStage::MarkingSynthesized, audio: out.audio_data, produced, ..self };
                return (next, RunAction::Update { task_id, update: progress_update(50) });
            },
            RunEvent::Uploaded(u) => {
                let next = SpeechRun { stage: SpeechStage::MarkingUploaded, upload: Some(u), ..self };
                return (next, RunAction::Update { task_id, update: progress_update(80) });
            },
            _ => {},
        }
        match self.stage {
            SpeechStage::Begin => {
                let next = SpeechRun { stage: SpeechStage::MarkingRunning, ..self };
                (next, RunAction::Update { task_id, update: status_update(TaskStatus::Running, 10) })
            },
            SpeechStage::MarkingRunning => {
                let call = SpeechCall {
                    text: self.request.text.clone(),
                    text_format: String::from_str(self.request.text_format.as_str()),
                    language: clone_opt_string(&self.request.language),
                    voice_id: clone_opt_string(&self.request.voice_id),
                    emotion: clone_opt_string(&self.request.emotion),
                    audio_format: String::from_str(self.request.audio_format.as_str()),
                    sample_rate: self.request.sample_rate,
                };
                (SpeechRun { stage: SpeechStage::Synthesizing, ..self }, RunAction::Invoke(call))
            },
            SpeechStage::MarkingSynthesized => {
                let mime = match &self.produced {
                    Some(p) => p.0.clone(),
                    None => String::new(),
                };
                let filename = output_file_name("speech", self.task_no.as_str(), self.request.audio_format.as_str());
                let SpeechRun { task_id, task_no, tenant_id, user_id, provider_code, request, stage: _, audio, produced, upload } = self;
                let call = UploadCall { tenant_id, user_id, data: audio, mime_type: mime, filename };
                proof { reveal_strlit("speech"); }
                let next = SpeechRun {
                    task_id, task_no, tenant_id, user_id, provider_code, request,
                    stage: SpeechStage::Uploading,
                    audio: Vec::new(),
                    produced,
                    upload,
                };
                (next, RunAction::Upload(call))
            },
            SpeechStage::MarkingUploaded => {
                let (mime, duration_ms) = match &self.produced {
                    Some(p) => (p.0.clone(), p.1),
                    None => (String::new(), 0),
                };
                let media = match &self.upload {
                    Some(u) => MediaResource::of_upload(u),
                    None => MediaResource { drive_space_id: String::new(), drive_node_id: String::new(), drive_resource_uri: String::new() },
                };
                proof { reveal_strlit("speech"); }
                let plan = ArtifactPlan {
                    task_id,
                    kind: ArtifactKind::Audio,
                    artifact_type: String::from_str("speech"),
                    title: titled("Speech synthesis: ", self.request.text.as_str()),
                    voice_id: clone_opt_string(&self.request.voice_id),
                    provider_code: self.provider_code.clone(),
                    format: String::from_str(self.request.audio_format.as_str()),
                    mime_type: mime,
                    duration_seconds: Some(seconds_of(duration_ms)),
                    transcript_text: None,
                    translation_text: None,
                    media_resource: media,
                };
                (SpeechRun { stage: SpeechStage::StoringArtifact, ..self }, RunAction::StoreArtifact(plan))
            },
            SpeechStage::StoringArtifact => {
                let result = match (&self.produced, &self.upload) {
                    (Some(p), Some(u)) => SpeechResultRecord {
                        duration_ms: p.1,
                        sample_rate: p.2,
                        channels: p.3,
                        file_size_bytes: p.4,
                        drive_space_id: u.drive_space_id.clone(),
                        drive_node_id: u.drive_node_id.clone(),
                    },
                    _ => SpeechResultRecord {
                        duration_ms: 0, sample_rate: 0, channels: 0, file_size_bytes: 0,
                        drive_space_id: String::new(), drive_node_id: String::new(),
                    },
                };
                (SpeechRun { stage: SpeechStage::Completing, ..self }, RunAction::Complete { task_id, result })
            },
            _ => {
                (SpeechRun { stage: SpeechStage::Finished, ..self }, RunAction::Finish)
            },
        }
    }
}

/// What a reader gets for a speech task.
#[derive(Debug, Clone)]
pub struct SpeechSynthesisResult {
    pub task_id: String,
    pub task_no: String,
    pub status: String,
    pub audio_url: Option<String>,
    pub duration_ms: Option<u64>,
    pub file_size_bytes: Option<u64>,
    pub mime_type: Option<String>,
}

/// `r` is what a reader is shown for speech task `t`: its ticket, and the drive
/// URI, duration, file size and media type read from its stored result
/// document.
pub open spec fn is_speech_result_of(r: SpeechSynthesisResult, t: AudioGenerationTask) -> bool {
    &&& r.task_id@ == signed_decimal(t.id as int)
    &&& r.task_no == t.task_no
    &&& r.status == t.status
    &&& text_view(r.audio_url) == stored_text(t.result_json, "driveResourceUri"@)
    &&& r.duration_ms == stored_u64(t.result_json, "durationMs"@)
    &&& r.file_size_bytes == stored_u64(t.result_json, "fileSizeBytes"@)
    &&& text_view(r.mime_type) == stored_text(t.result_json, "mimeType"@)
}

/// The entries of the result document of a finished speech task.
pub open spec fn speech_document(r: SpeechResultRecord) -> Map<Seq<char>, JsonScalarView> {
    Map::empty()
        .insert("durationMs"@, JsonScalarView::Unsigned(r.duration_ms))
        .insert("sampleRate"@, JsonScalarView::Unsigned(r.sample_rate as u64))
        .insert("channels"@, JsonScalarView::Unsigned(r.channels as u64))
        .insert("fileSizeBytes"@, JsonScalarView::Unsigned(r.file_size_bytes))
        .insert("driveSpaceId"@, JsonScalarView::Text(r.drive_space_id@))
        .insert("driveNodeId"@, JsonScalarView::Text(r.drive_node_id@))
}

impl SpeechResultRecord {
    /// The result document stored with the finished task: duration, sample
    /// rate, channels, file size and the drive location, as compact JSON.
    pub fn to_document(&self) -> (r: String)
        ensures
            r@ == json_object_text(speech_document(*self)),
            reads_back(r@, speech_document(*self)),
    {
        let entries = vec![
            (String::from_str("durationMs"), JsonScalar::Unsigned(self.duration_ms)),
            (String::from_str("sampleRate"), JsonScalar::Unsigned(self.sample_rate as u64)),
            (String::from_str("channels"), JsonScalar::Unsigned(self.channels as u64)),
            (String::from_str("fileSizeBytes"), JsonScalar::Unsigned(self.file_size_bytes)),
            (String::from_str("driveSpaceId"), JsonScalar::Text(self.drive_space_id.clone())),
            (String::from_str("driveNodeId"), JsonScalar::Text(self.drive_node_id.clone())),
        ];
        proof {
            reveal_with_fuel(entries_of, 7);
            assert(entries_of(entries@) =~= speech_document(*self));
        }
        json_object(entries)
    }
}

/// What a completed speech run stored is what a reader is shown: once the task
/// store has applied the update that records the document of the completed
/// result, the task reads as succeeded, with the duration and the file size of
/// the audio the engine produced, and with neither drive URI nor media type,
/// which that document does not hold.
pub proof fn speech_result_reads_back(
    run: SpeechRun,
    next: SpeechRun,
    a: RunAction<SpeechCall, SpeechResultRecord>,
    doc: Seq<char>,
    now: Timestamp,
    u: UpdateTaskRequest,
    t: AudioGenerationTask,
    v: SpeechSynthesisResult,
)
    requires
        speech_run_wf(run),
        run.stage == SpeechStage::StoringArtifact,
        speech_step(run, RunEvent::Done, next, a),
        a matches RunAction::Complete { result, .. } && reads_back(doc, speech_document(result)),
        is_success_update(u, doc, now),
        u.status matches Some(st) && t.status@ == st.text(),
        t.result_json == u.result_json,
        is_speech_result_of(v, t),
    ensures
        v.status@ == TaskStatus::Succeeded.text(),
        v.duration_ms == Some(run.produced.unwrap().1),
        v.file_size_bytes == Some(run.produced.unwrap().4),
        v.audio_url is None,
        v.mime_type is None,
{
    let result = a->result;
    let m = speech_document(result);
    assert(t.result_json.unwrap()@ == doc);
    reveal_strlit("durationMs");
    reveal_strlit("sampleRate");
    reveal_strlit("channels");
    reveal_strlit("fileSizeBytes");
    reveal_strlit("driveSpaceId");
    reveal_strlit("driveNodeId");
    reveal_strlit("driveResourceUri");
    reveal_strlit("mimeType");
    assert(m["durationMs"@] == JsonScalarView::Unsigned(result.duration_ms)) by {
        assert("durationMs"@[0] != "sampleRate"@[0]);
        assert("durationMs"@[0] != "channels"@[0]);
        assert("durationMs"@[0] != "fileSizeBytes"@[0]);
        assert("durationMs"@[1] != "driveSpaceId"@[1]);
        assert("durationMs"@[1] != "driveNodeId"@[1]);
    }
    assert(m["fileSizeBytes"@] == JsonScalarView::Unsigned(result.file_size_bytes)) by {
        assert("fileSizeBytes"@[0] != "driveSpaceId"@[0]);
        assert("fileSizeBytes"@[0] != "driveNodeId"@[0]);
    }
    assert(!m.contains_key("driveResourceUri"@)) by {
        assert("driveResourceUri"@[0] != "sampleRate"@[0]);
        assert("driveResourceUri"@[0] != "channels"@[0]);
        assert("driveResourceUri"@[0] != "fileSizeBytes"@[0]);
        assert("driveResourceUri"@[1] != "durationMs"@[1]);
        assert("driveResourceUri"@[5] != "driveSpaceId"@[5]);
        assert("driveResourceUri"@[5] != "driveNodeId"@[5]);
    }
    assert(!m.contains_key("mimeType"@)) by {
        assert("mimeType"@[0] != "sampleRate"@[0]);
        assert("mimeType"@[0] != "channels"@[0]);
        assert("mimeType"@[0] != "fileSizeBytes"@[0]);
        assert("mimeType"@[0] != "durationMs"@[0]);
        assert("mimeType"@[0] != "driveSpaceId"@[0]);
        assert("mimeType"@[0] != "driveNodeId"@[0]);
    }
    assert(json_u64_field(doc, "durationMs"@) == unsigned_entry(m, "durationMs"@));
    assert(json_u64_field(doc, "fileSizeBytes"@) == unsigned_entry(m, "fileSizeBytes"@));
    assert(json_text_field(doc, "driveResourceUri"@) == text_entry(m, "driveResourceUri"@));
    assert(json_text_field(doc, "mimeType"@) == text_entry(m, "mimeType"@));
}

/// A request to list the voices of a tenant.
#[derive(Debug, Clone)]
pub struct VoiceListRequest {
    pub tenant_id: i64,
    pub user_id: Option<i64>,
    pub language: Option<String>,
    pub gender: Option<String>,
    pub voice_type: Option<String>,
    pub limit: i64,
    pub offset: i64,
}

/// A voice as listed to callers.
#[derive(Debug, Clone)]
pub struct VoiceInfo {
    pub voice_id: String,
    pub voice_no: String,
    pub name: String,
    pub description: Option<String>,
    pub language: String,
    pub gender: Option<String>,
    pub voice_type: String,
    pub preview_url: Option<String>,
}

/// A page of listed voices.
#[derive(Debug, Clone)]
pub struct VoiceListResponse {
    pub voices: Vec<VoiceInfo>,
    pub total: i64,
    pub has_more: bool,
    pub next_cursor: Option<String>,
}

/// `i` lists voice `v`.
pub open spec fn is_voice_info(i: VoiceInfo, v: AudioVoice) -> bool {
    &&& i.voice_id@ == signed_decimal(v.id as int)
    &&& i.voice_no == v.voice_no
    &&& i.name == v.name
    &&& i.description == v.description
    &&& i.language == v.language
    &&& i.gender == v.gender
    &&& i.voice_type == v.voice_type
    &&& i.preview_url is None
}

/// The speech service's own decisions; `provider_code` names the engine that
/// synthesizes.
#[derive(Debug, Clone)]
pub struct SpeechServiceImpl {
    pub provider_code: String,
}

impl SpeechServiceImpl {
    pub fn new(provider_code: String) -> (r: Self)
        ensures
            r.provider_code == provider_code,
    {
        SpeechServiceImpl { provider_code }
    }

    /// Digest of the request, for recognising repeated input.
    pub fn calculate_input_hash(request: &SpeechSynthesisRequest) -> (r: String)
        ensures
            r@ == text_digest(speech_digest_input(*request)),
            r@.len() == 64,
    {
        let mut m = String::new();
        m.append(request.text.as_str());
        m.append(request.text_format.as_str());
        push_opt(&mut m, &request.language);
        push_opt(&mut m, &request.voice_id);
        m.append(request.speed.as_str());
        m.append(request.pitch.as_str());
        m.append(request.volume.as_str());
        m.append(request.audio_format.as_str());
        push_decimal(&mut m, request.sample_rate as u64);
        assert(m@ =~= speech_digest_input(*request));
        hex_sha256(m.as_str())
    }

    /// The creation of a speech task for `request`, stored with
    /// `request_json`: nothing is refused, and an accepted task is expected to
    /// take two seconds.
    pub fn creation(&self, request: &SpeechSynthesisRequest, request_json: Result<String, String>) -> (f: CreateFlow)
        ensures
            f.operation == OperationType::Speech,
            f.estimated_duration_ms == 2000,
            f.stage == CreateStage::Begin,
            f.draft.tenant_id == request.tenant_id,
            f.draft.organization_id == request.organization_id,
            f.draft.user_id == request.user_id,
            f.draft.idempotency_key == request.idempotency_key,
            f.draft.provider_code@ == self.provider_code@,
            f.draft.checked is Ok,
            f.draft.request_json == request_json,
    {
        let draft = TaskDraft {
            tenant_id: request.tenant_id,
            organization_id: request.organization_id,
            user_id: request.user_id,
            idempotency_key: clone_opt_string(&request.idempotency_key),
            provider_code: self.provider_code.clone(),
            checked: Ok(()),
            request_json,
        };
        CreateFlow::new(OperationType::Speech, 2000, draft)
    }

    /// The run of `task` for `request`, not yet started.
    pub fn run(&self, task: &AudioGenerationTask, request: SpeechSynthesisRequest) -> (r: SpeechRun)
        ensures
            r.task_id == task.id,
            r.task_no == task.task_no,
            r.tenant_id == task.tenant_id,
            r.user_id == task.user_id,
            r.provider_code == self.provider_code,
            r.request == request,
            r.stage == SpeechStage::Begin,
            r.produced is None,
            r.upload is None,
    {
        SpeechRun {
            task_id: task.id,
            task_no: task.task_no.clone(),
            tenant_id: task.tenant_id,
            user_id: task.user_id,
            provider_code: self.provider_code.clone(),
            request,
            stage: SpeechStage::Begin,
            audio: Vec::new(),
            produced: None,
            upload: None,
        }
    }

    /// Cancelling a speech task: any task found under the number may be
    /// cancelled unless it has finished.
    pub fn cancellation(task_no: &str, found: Option<AudioGenerationTask>, now: Timestamp)
        -> (r: Result<(i64, UpdateTaskRequest), ServiceError>)
        ensures
            cancel_answer(task_no@, found, None, now, r),
    {
        plan_cancel(task_no, found, None, now)
    }

    /// The result shown for a speech task: its ticket, and the drive URI,
    /// duration, file size and media type read from its stored result
    /// document, where it has one and they are there.
    pub fn speech_result(task: AudioGenerationTask) -> (r: SpeechSynthesisResult)
        ensures
            is_speech_result_of(r, task),
    {
        let audio_url = stored_text_field(&task.result_json, "driveResourceUri");
        let duration_ms = stored_u64_field(&task.result_json, "durationMs");
        let file_size_bytes = stored_u64_field(&task.result_json, "fileSizeBytes");
        let mime_type = stored_text_field(&task.result_json, "mimeType");
        SpeechSynthesisResult {
            task_id: i64_text(task.id),
            task_no: task.task_no,
            status: task.status,
            audio_url,
            duration_ms,
            file_size_bytes,
            mime_type,
        }
    }

    /// The voices a listing asks for: the tenant's active voices, narrowed by
    /// user, language, gender and the voice type when it names one.
    pub fn voice_filter(request: &VoiceListRequest) -> (f: VoiceFilter)
        ensures
            f.tenant_id == Some(request.tenant_id),
            f.user_id == request.user_id,
            f.language == request.language,
            f.gender == request.gender,
            f.voice_type == (match request.voice_type {
                Some(t) => VoiceType::parse(t@),
                None => None,
            }),
            f.status == Some(VoiceStatus::Active),
            f.is_public is None,
            f.created_after is None,
            f.created_before is None,
    {
        let voice_type = match &request.voice_type {
            Some(t) => VoiceType::from_str(t.as_str()),
            None => None,
        };
        VoiceFilter {
            tenant_id: Some(request.tenant_id),
            user_id: request.user_id,
            language: clone_opt_string(&request.language),
            gender: clone_opt_string(&request.gender),
            voice_type,
            status: Some(VoiceStatus::Active),
            is_public: None,
            created_after: None,
            created_before: None,
        }
    }

    /// A page of voices as listed to callers, in the order found.
    pub fn voice_list(result: VoiceListResult) -> (r: VoiceListResponse)
        ensures
            r.voices@.len() == result.voices@.len(),
            forall|i: int| 0 <= i < r.voices@.len() ==> is_voice_info(#[trigger] r.voices@[i], result.voices@[i]),
            r.total == result.total,
            r.has_more == result.has_more,
            r.next_cursor == result.next_cursor,
    {
        let mut voices: Vec<VoiceInfo> = Vec::new();
        let n = result.voices.len();
        let mut i: usize = 0;
        while i < n
            invariant
                n == result.voices@.len(),
                i <= n,
                voices@.len() == i,
                forall|j: int| 0 <= j < i ==> is_voice_info(#[trigger] voices@[j], result.voices@[j]),
            decreases n - i,
        {
            let v = &result.voices[i];
            voices.push(VoiceInfo {
                voice_id: i64_text(v.id),
                voice_no: v.voice_no.clone(),
                name: v.name.clone(),
                description: clone_opt_string(&v.description),
                language: v.language.clone(),
                gender: clone_opt_string(&v.gender),
                voice_type: v.voice_type.clone(),
                preview_url: None,
            });
            i = i + 1;
        }
        VoiceListResponse {
            voices,
            total: result.total,
            has_more: result.has_more,
            next_cursor: result.next_cursor,
        }
    }
}

} // verus!
