//! Sound effects: the request, its digest, the creation of a task, the run that
//! generates, stores and records the sound, the reading of results and details,
//! listing and cancellation.

use vstd::prelude::*;
use vstd::string::StringExecFns;
use crate::text::{decimal, opt_text, push_decimal, push_opt, signed_decimal, i64_text};
use crate::digest::{hex_sha256, text_digest};
use crate::document::{
    entries_of, json_object, json_object_text, json_text_field, json_u64_field, reads_back, stored_text,
    stored_text_field, stored_u64, stored_u64_field, text_entry, text_view, unsigned_entry, JsonScalar,
    JsonScalarView,
};
use crate::clock::{instant_text, Timestamp};
use crate::formats::AudioFormat;
use crate::task::{AudioGenerationTask, OperationType, TaskFilter, TaskStatus, UpdateTaskRequest};
use crate::artifact::ArtifactKind;
use crate::lifecycle::{
    cancel_answer, clone_opt_string, invalid_request, is_invalid_request, is_success_update, is_ticket_for, plan_cancel,
    progress_only, progress_update, result_header, status_and_progress, status_update, summarize, task_filter,
    CreateFlow, CreateStage, ServiceError, TaskDraft, TaskTicket,
};
use crate::pipeline::{
    file_name, output_file_name, seconds_of, title_cut_ok, title_head, titled, whole_seconds,
    ArtifactPlan, DriveUpload, MediaResource, RunAction, RunEvent, UploadCall,
};

verus! {

broadcast use vstd::string::group_string_axioms;

/// The error of the sound-effect service.
pub type SoundEffectServiceError = ServiceError;

/// What a caller gets back for a sound-effect task.
pub type SoundEffectResponse = TaskTicket;

/// A request to generate a sound effect. The intensity is the text that
/// `f32`'s `Display` writes for the requested number; vendor parameters are
/// kept as their JSON text.
#[derive(Debug, Clone)]
pub struct SoundEffectRequest {
    pub tenant_id: i64,
    pub organization_id: i64,
    pub user_id: i64,
    pub vendor: Option<String>,
    pub model: Option<String>,
    pub description: String,
    pub duration_ms: Option<u64>,
    pub style: Option<String>,
    pub intensity: String,
    pub audio_format: AudioFormat,
    pub sample_rate: u32,
    pub idempotency_key: Option<String>,
    pub vendor_parameters: Option<String>,
}

/// The duration in decimal when given, or nothing.
pub open spec fn opt_decimal(d: Option<u64>) -> Seq<char> {
    match d {
        Some(n) => decimal(n as nat),
        None => Seq::empty(),
    }
}

/// What the digest of a sound-effect request covers, in this order: the
/// description, the duration when given, the style when given, the intensity,
/// the audio format and the sample rate in decimal.
pub open spec fn sound_effect_digest_input(r: SoundEffectRequest) -> Seq<char> {
    r.description@ + opt_decimal(r.duration_ms) + opt_text(r.style) + r.intensity@ + r.audio_format.text()
        + decimal(r.sample_rate as nat)
}

/// The vendor that generates a request's sound: the one asked for, or `custom`.
pub open spec fn vendor_of(r: SoundEffectRequest) -> Seq<char> {
    match r.vendor {
        Some(v) => v@,
        None => "custom"@,
    }
}

/// The generation command; the intensity is turned back into a number by the
/// caller.
#[derive(Debug, Clone)]
pub struct SoundEffectCommand {
    pub vendor: String,
    pub model: Option<String>,
    pub description: String,
    pub duration_ms: Option<u64>,
    pub style: Option<String>,
    pub intensity: String,
    pub format: String,
    pub sample_rate: u32,
    pub idempotency_key: Option<String>,
    pub vendor_parameters: Option<String>,
}

/// What a sound-effect run asks of the generation service.
#[derive(Debug, Clone)]
pub enum SoundEffectCall {
    /// Check that the vendor name is one the generation service accepts.
    CheckVendor(String),
    /// Generate the sound.
    Generate(SoundEffectCommand),
}

/// What the generation service produced, and the vendor that produced it.
#[derive(Debug, Clone)]
pub struct GeneratedSound {
    pub vendor: String,
    pub audio_data: Vec<u8>,
    pub duration_ms: u64,
    pub sample_rate: u32,
    pub channels: u32,
}

/// The result written with a finished sound-effect task.
#[derive(Debug, Clone)]
pub struct SoundEffectResultRecord {
    pub duration_ms: u64,
    pub sample_rate: u32,
    pub channels: u32,
    pub file_size_bytes: u64,
    pub format: String,
    pub mime_type: String,
    pub drive_space_id: String,
    pub drive_node_id: String,
    pub audio_url: String,
}

/// The entries of the result document of a finished sound-effect task.
pub open spec fn sound_effect_document(r: SoundEffectResultRecord) -> Map<Seq<char>, JsonScalarView> {
    Map::empty()
        .insert("durationMs"@, JsonScalarView::Unsigned(r.duration_ms))
        .insert("sampleRate"@, JsonScalarView::Unsigned(r.sample_rate as u64))
        .insert("channels"@, JsonScalarView::Unsigned(r.channels as u64))
        .insert("fileSizeBytes"@, JsonScalarView::Unsigned(r.file_size_bytes))
        .insert("format"@, JsonScalarView::Text(r.format@))
        .insert("mimeType"@, JsonScalarView::Text(r.mime_type@))
        .insert("driveSpaceId"@, JsonScalarView::Text(r.drive_space_id@))
        .insert("driveNodeId"@, JsonScalarView::Text(r.drive_node_id@))
        .insert("audioUrl"@, JsonScalarView::Text(r.audio_url@))
}

impl SoundEffectResultRecord {
    /// The result document stored with the finished task: duration, sample
    /// rate, channels, file size, format, media type, the drive location and
    /// the audio URL, as compact JSON.
    pub fn to_document(&self) -> (r: String)
        ensures
            r@ == json_object_text(sound_effect_document(*self)),
            reads_back(r@, sound_effect_document(*self)),
    {
        let entries = vec![
            (String::from_str("durationMs"), JsonScalar::Unsigned(self.duration_ms)),
            (String::from_str("sampleRate"), JsonScalar::Unsigned(self.sample_rate as u64)),
            (String::from_str("channels"), JsonScalar::Unsigned(self.channels as u64)),
            (String::from_str("fileSizeBytes"), JsonScalar::Unsigned(self.file_size_bytes)),
            (String::from_str("format"), JsonScalar::Text(self.format.clone())),
            (String::from_str("mimeType"), JsonScalar::Text(self.mime_type.clone())),
            (String::from_str("driveSpaceId"), JsonScalar::Text(self.drive_space_id.clone())),
            (String::from_str("driveNodeId"), JsonScalar::Text(self.drive_node_id.clone())),
            (String::from_str("audioUrl"), JsonScalar::Text(self.audio_url.clone())),
        ];
        proof {
            reveal_with_fuel(entries_of, 10);
            assert(entries_of(entries@) =~= sound_effect_document(*self));
        }
        json_object(entries)
    }
}

/// Where a sound-effect run stands.
#[derive(Debug, Clone, Copy, PartialEq, Eq, Structural)]
pub enum SoundEffectStage {
    Begin,
    MarkingRunning,
    CheckingVendor,
    MarkingPrepared,
    Generating,
    MarkingGenerated,
    Uploading,
    MarkingUploaded,
    StoringArtifact,
    Completing,
    Finished,
}

/// The run of one sound-effect task.
#[derive(Debug)]
pub struct SoundEffectRun {
    pub task_id: i64,
    pub task_no: String,
    pub tenant_id: i64,
    pub user_id: i64,
    pub request: SoundEffectRequest,
    pub stage: SoundEffectStage,
    /// The audio waiting to be uploaded.
    pub audio: Vec<u8>,
    /// What the service said of the sound: the vendor that made it, its
    /// duration, sample rate, channels and size in bytes.
    pub produced: Option<(String, u64, u32, u32, u64)>,
    pub upload: Option<DriveUpload>,
}

/// The event fits the stage.
pub open spec fn sound_effect_event_fits(stage: SoundEffectStage, e: RunEvent<GeneratedSound>) -> bool {
    match stage {
        SoundEffectStage::Begin => e is Begin,
        SoundEffectStage::Generating => e is Produced || e is Failed,
        SoundEffectStage::Uploading => e is Uploaded || e is Failed,
        SoundEffectStage::Finished => false,
        _ => e is Done || e is Failed,
    }
}

/// What a run has gathered fits its stage.
pub open spec fn sound_effect_run_wf(run: SoundEffectRun) -> bool {
    &&& (run.stage == SoundEffectStage::MarkingGenerated || run.stage == SoundEffectStage::Uploading
        || run.stage == SoundEffectStage::MarkingUploaded || run.stage == SoundEffectStage::StoringArtifact
        || run.stage == SoundEffectStage::Completing) ==> run.produced is Some
    &&& (run.stage == SoundEffectStage::MarkingUploaded || run.stage == SoundEffectStage::StoringArtifact
        || run.stage == SoundEffectStage::Completing) ==> run.upload is Some
}

/// The run keeps what it was started with.
pub open spec fn sound_effect_run_same(run: SoundEffectRun, next: SoundEffectRun) -> bool {
    &&& next.task_id == run.task_id
    &&& next.task_no == run.task_no
    &&& next.tenant_id == run.tenant_id
    &&& next.user_id == run.user_id
    &&& next.request == run.request
}

/// `c` is the generation command for `r`.
pub open spec fn is_sound_effect_command(c: SoundEffectCommand, r: SoundEffectRequest) -> bool {
    &&& c.vendor@ == vendor_of(r)
    &&& c.model == r.model
    &&& c.description@ == r.description@
    &&& c.duration_ms == r.duration_ms
    &&& c.style == r.style
    &&& c.intensity@ == r.intensity@
    &&& c.format@ == r.audio_format.text()
    &&& c.sample_rate == r.sample_rate
    &&& c.idempotency_key == r.idempotency_key
    &&& c.vendor_parameters == r.vendor_parameters
}

/// One step of a sound-effect run. The run marks the task running at ten
/// percent, has the vendor name checked, marks thirty percent, has the sound
/// generated, marks sixty percent, uploads the audio, marks eighty percent,
/// records the artifact, then completes the task; any failure on the way
/// records the failure and ends the run.
pub open spec fn sound_effect_step(
    run: SoundEffectRun,
    e: RunEvent<GeneratedSound>,
    next: SoundEffectRun,
    a: RunAction<SoundEffectCall, SoundEffectResultRecord>,
) -> bool {
    if e is Failed {
        next.stage == SoundEffectStage::Finished
            && a == RunAction::<SoundEffectCall, SoundEffectResultRecord>::RecordFailure { task_id: run.task_id, error: e->Failed_0 }
    } else {
        match run.stage {
            SoundEffectStage::Begin => next.stage == SoundEffectStage::MarkingRunning
                && a == RunAction::<SoundEffectCall, SoundEffectResultRecord>::Update {
                    task_id: run.task_id, update: status_and_progress(TaskStatus::Running, 10) },
            SoundEffectStage::MarkingRunning => next.stage == SoundEffectStage::CheckingVendor
                && (a matches RunAction::Invoke(SoundEffectCall::CheckVendor(v)) && v@ == vendor_of(run.request)),
            SoundEffectStage::CheckingVendor => next.stage == SoundEffectStage::MarkingPrepared
                && a == RunAction::<SoundEffectCall, SoundEffectResultRecord>::Update {
                    task_id: run.task_id, update: progress_only(30) },
            SoundEffectStage::MarkingPrepared => next.stage == SoundEffectStage::Generating
                && (a matches RunAction::Invoke(SoundEffectCall::Generate(c)) && is_sound_effect_command(c, run.request)),
            SoundEffectStage::Generating => next.stage == SoundEffectStage::MarkingGenerated
                && a == RunAction::<SoundEffectCall, SoundEffectResultRecord>::Update {
                    task_id: run.task_id, update: progress_only(60) }
                && next.audio == e->Produced_0.audio_data
                && next.produced == Some((e->Produced_0.vendor, e->Produced_0.duration_ms,
                    e->Produced_0.sample_rate, e->Produced_0.channels,
                    e->Produced_0.audio_data@.len() as u64)),
            SoundEffectStage::MarkingGenerated => next.stage == SoundEffectStage::Uploading
                && (a matches RunAction::Upload(u)
                    && u.tenant_id == run.tenant_id
                    && u.user_id == run.user_id
                    && u.data == run.audio
                    && u.mime_type@ == run.request.audio_format.mime()
                    && u.filename@ == file_name("sound_effect"@, run.task_no@, run.request.audio_format.text())),
            SoundEffectStage::Uploading => next.stage == SoundEffectStage::MarkingUploaded
                && a == RunAction::<SoundEffectCall, SoundEffectResultRecord>::Update {
                    task_id: run.task_id, update: progress_only(80) }
                && next.upload == Some(e->Uploaded_0),
            SoundEffectStage::MarkingUploaded => next.stage == SoundEffectStage::StoringArtifact
                && (a matches RunAction::StoreArtifact(p)
                    && p.task_id == run.task_id
                    && p.kind == ArtifactKind::Audio
                    && p.artifact_type@ == "sound_effect"@
                    && p.title@ == "Sound effect: "@ + title_head(run.request.description@)
                    && p.voice_id is None
                    && p.provider_code == run.produced.unwrap().0
                    && p.format@ == run.request.audio_format.text()
                    && p.mime_type@ == run.request.audio_format.mime()
                    && p.duration_seconds == Some(whole_seconds(run.produced.unwrap().1))
                    && p.transcript_text is None
                    && p.translation_text is None
                    && p.media_resource.drive_space_id == run.upload.unwrap().drive_space_id
                    && p.media_resource.drive_node_id == run.upload.unwrap().drive_node_id
                    && p.media_resource.drive_resource_uri == run.upload.unwrap().drive_resource_uri),
            SoundEffectStage::StoringArtifact => next.stage == SoundEffectStage::Completing
                && (a matches RunAction::Complete { task_id, result }
                    && task_id == run.task_id
                    && result.duration_ms == run.produced.unwrap().1
                    && result.sample_rate == run.produced.unwrap().2
                    && result.channels == run.produced.unwrap().3
                    && result.file_size_bytes == run.produced.unwrap().4
                    && result.format@ == run.request.audio_format.text()
                    && result.mime_type@ == run.request.audio_format.mime()
                    && result.drive_space_id == run.upload.unwrap().drive_space_id
                    && result.drive_node_id == run.upload.unwrap().drive_node_id
                    && result.audio_url == run.upload.unwrap().drive_resource_uri),
            SoundEffectStage::Completing => next.stage == SoundEffectStage::Finished
                && a == RunAction::<SoundEffectCall, SoundEffectResultRecord>::Finish,
            SoundEffectStage::Finished => false,
        }
    }
}

/// The progress a run has reported once it reaches a stage.
pub open spec fn sound_effect_progress(stage: SoundEffectStage) -> int {
    match stage {
        SoundEffectStage::Begin => 0,
        SoundEffectStage::MarkingRunning => 10,
        SoundEffectStage::CheckingVendor => 10,
        SoundEffectStage::MarkingPrepared => 30,
        SoundEffectStage::Generating => 30,
        SoundEffectStage::MarkingGenerated => 60,
        SoundEffectStage::Uploading => 60,
        SoundEffectStage::MarkingUploaded => 80,
        SoundEffectStage::StoringArtifact => 80,
        SoundEffectStage::Completing => 100,
        SoundEffectStage::Finished => 100,
    }
}

/// Over a run, every update reports more progress than the one before; the
/// task is completed only after its artifact was recorded with nothing
/// failing; a failure is recorded exactly when one is reported; and a run that
/// is over asks for nothing but that.
pub proof fn sound_effect_run_law(run: SoundEffectRun, e: RunEvent<GeneratedSound>, next: SoundEffectRun, a: RunAction<SoundEffectCall, SoundEffectResultRecord>)
    requires
        sound_effect_event_fits(run.stage, e),
        sound_effect_step(run, e, next, a),
    ensures
        a matches RunAction::Update { update, .. } ==> (update.progress matches Some(p)
            && p > sound_effect_progress(run.stage) && p == sound_effect_progress(next.stage)),
        a is Complete ==> (run.stage == SoundEffectStage::StoringArtifact && e is Done),
        a is RecordFailure <==> e is Failed,
        next.stage == SoundEffectStage::Finished ==> (a is Finish || a is RecordFailure),
{
}

/// The vendor name a request's sound is generated by.
pub fn vendor_name(request: &SoundEffectRequest) -> (r: String)
    ensures
        r@ == vendor_of(*request),
{
    match &request.vendor {
        Some(v) => v.clone(),
        None => String::from_str("custom"),
    }
}

/// What a run has gathered stays as it was, except where the step takes it
/// in: the engine's answer when it comes, the upload when it is done, and (for
/// the audio) when it is handed to storage.
pub open spec fn sound_effect_run_carries(run: SoundEffectRun, e: RunEvent<GeneratedSound>, next: SoundEffectRun, a: RunAction<SoundEffectCall, SoundEffectResultRecord>) -> bool {
    &&& !(e is Produced) ==> next.produced == run.produced
    &&& !(e is Uploaded) ==> next.upload == run.upload
    &&& (!(e is Produced) && !(a is Upload)) ==> next.audio == run.audio
}

/// Across a run, the artifact recorded carries what the engine produced and
/// where storage put the file: the vendor that made the sound, its duration, and the storage location.
pub proof fn sound_effect_artifact_carries_answer(
    r0: SoundEffectRun, o: GeneratedSound, r1: SoundEffectRun, a0: RunAction<SoundEffectCall, SoundEffectResultRecord>,
    r2: SoundEffectRun, a1: RunAction<SoundEffectCall, SoundEffectResultRecord>,
    u: DriveUpload, r3: SoundEffectRun, a2: RunAction<SoundEffectCall, SoundEffectResultRecord>,
    r4: SoundEffectRun, a3: RunAction<SoundEffectCall, SoundEffectResultRecord>,
)
    requires
        r0.stage == SoundEffectStage::Generating,
        sound_effect_step(r0, RunEvent::Produced(o), r1, a0),
        sound_effect_run_carries(r0, RunEvent::Produced(o), r1, a0),
        sound_effect_step(r1, RunEvent::Done, r2, a1),
        sound_effect_run_carries(r1, RunEvent::Done, r2, a1),
        sound_effect_run_same(r1, r2),
        sound_effect_step(r2, RunEvent::Uploaded(u), r3, a2),
        sound_effect_run_carries(r2, RunEvent::Uploaded(u), r3, a2),
        sound_effect_run_same(r2, r3),
        sound_effect_step(r3, RunEvent::Done, r4, a3),
    ensures
        a3 matches RunAction::StoreArtifact(p)
            && p.provider_code == o.vendor
            && p.duration_seconds == Some(whole_seconds(o.duration_ms))
            && p.media_resource.drive_space_id == u.drive_space_id
            && p.media_resource.drive_node_id == u.drive_node_id
            && p.media_resource.drive_resource_uri == u.drive_resource_uri,
{
}

/// What a completed sound-effect run stored is what a reader is shown: once the
/// task store has applied the update that records the document of the
/// completed result, the task reads as succeeded, with the drive URI of the
/// upload as its audio URL, the requested format and its media type, and the
/// duration, file size and sample rate of the sound the generator produced.
pub proof fn sound_effect_result_reads_back(
    run: SoundEffectRun,
    next: SoundEffectRun,
    a: RunAction<SoundEffectCall, SoundEffectResultRecord>,
    doc: Seq<char>,
    now: Timestamp,
    u: UpdateTaskRequest,
    t: AudioGenerationTask,
    v: SoundEffectResult,
)
    requires
        sound_effect_run_wf(run),
        run.stage == SoundEffectStage::StoringArtifact,
        sound_effect_step(run, RunEvent::Done, next, a),
        a matches RunAction::Complete { result, .. } && reads_back(doc, sound_effect_document(result)),
        is_success_update(u, doc, now),
        u.status matches Some(st) && t.status@ == st.text(),
        t.result_json == u.result_json,
        is_sound_effect_result_of(v, t),
    ensures
        v.status@ == TaskStatus::Succeeded.text(),
        text_view(v.audio_url) == Some(run.upload.unwrap().drive_resource_uri@),
        text_view(v.format) == Some(run.request.audio_format.text()),
        text_view(v.mime_type) == Some(run.request.audio_format.mime()),
        v.duration_ms == Some(run.produced.unwrap().1),
        v.file_size_bytes == Some(run.produced.unwrap().4),
        v.sample_rate == Some(run.produced.unwrap().2),
{
    let result = a->result;
    let m = sound_effect_document(result);
    assert(t.result_json.unwrap()@ == doc);
    reveal_strlit("durationMs");
    reveal_strlit("sampleRate");
    reveal_strlit("channels");
    reveal_strlit("fileSizeBytes");
    reveal_strlit("format");
    reveal_strlit("mimeType");
    reveal_strlit("driveSpaceId");
    reveal_strlit("driveNodeId");
    reveal_strlit("audioUrl");
    assert(m["durationMs"@] == JsonScalarView::Unsigned(result.duration_ms)) by {
        assert("durationMs"@[0] != "sampleRate"@[0]);
        assert("durationMs"@[0] != "channels"@[0]);
        assert("durationMs"@[0] != "fileSizeBytes"@[0]);
        assert("durationMs"@[0] != "format"@[0]);
        assert("durationMs"@[0] != "mimeType"@[0]);
        assert("durationMs"@[1] != "driveSpaceId"@[1]);
        assert("durationMs"@[1] != "driveNodeId"@[1]);
        assert("durationMs"@[0] != "audioUrl"@[0]);
    }
    assert(m["sampleRate"@] == JsonScalarView::Unsigned(result.sample_rate as u64)) by {
        assert("sampleRate"@[0] != "channels"@[0]);
        assert("sampleRate"@[0] != "fileSizeBytes"@[0]);
        assert("sampleRate"@[0] != "format"@[0]);
        assert("sampleRate"@[0] != "mimeType"@[0]);
        assert("sampleRate"@[0] != "driveSpaceId"@[0]);
        assert("sampleRate"@[0] != "driveNodeId"@[0]);
        assert("sampleRate"@[0] != "audioUrl"@[0]);
    }
    assert(m["fileSizeBytes"@] == JsonScalarView::Unsigned(result.file_size_bytes)) by {
        assert("fileSizeBytes"@[1] != "format"@[1]);
        assert("fileSizeBytes"@[0] != "mimeType"@[0]);
        assert("fileSizeBytes"@[0] != "driveSpaceId"@[0]);
        assert("fileSizeBytes"@[0] != "driveNodeId"@[0]);
        assert("fileSizeBytes"@[0] != "audioUrl"@[0]);
    }
    assert(m["format"@] == JsonScalarView::Text(result.format@)) by {
        assert("format"@[0] != "mimeType"@[0]);
        assert("format"@[0] != "driveSpaceId"@[0]);
        assert("format"@[0] != "driveNodeId"@[0]);
        assert("format"@[0] != "audioUrl"@[0]);
    }
    assert(m["mimeType"@] == JsonScalarView::Text(result.mime_type@)) by {
        assert("mimeType"@[0] != "driveSpaceId"@[0]);
        assert("mimeType"@[0] != "driveNodeId"@[0]);
        assert("mimeType"@[0] != "audioUrl"@[0]);
    }
    assert(json_u64_field(doc, "durationMs"@) == unsigned_entry(m, "durationMs"@));
    assert(json_u64_field(doc, "sampleRate"@) == unsigned_entry(m, "sampleRate"@));
    assert(json_u64_field(doc, "fileSizeBytes"@) == unsigned_entry(m, "fileSizeBytes"@));
    assert(json_text_field(doc, "format"@) == text_entry(m, "format"@));
    assert(json_text_field(doc, "mimeType"@) == text_entry(m, "mimeType"@));
    assert(json_text_field(doc, "audioUrl"@) == text_entry(m, "audioUrl"@));
}

impl SoundEffectRun {
    /// Takes one step of the run. Recording the artifact takes the head of the
    /// description for its title, which must be cut between two characters.
    pub fn step(self, event: RunEvent<GeneratedSound>) -> (r: (SoundEffectRun, RunAction<SoundEffectCall, SoundEffectResultRecord>))
        requires
            sound_effect_event_fits(self.stage, event),
            sound_effect_run_wf(self),
            (self.stage == SoundEffectStage::MarkingUploaded && event is Done) ==> title_cut_ok(self.request.description@),
        ensures
            sound_effect_step(self, event, r.0, r.1),
            sound_effect_run_same(self, r.0),
            sound_effect_run_carries(self, event, r.0, r.1),
            sound_effect_run_wf(r.0),
    {
        let task_id = self.task_id;
        match event {
            RunEvent::Failed(error) => {
                return (SoundEffectRun { stage: SoundEffectStage::Finished, ..self }, RunAction::RecordFailure { task_id, error });
            },
            RunEvent::Produced(out) => {
                let size = out.audio_data.len() as u64;
                let produced = Some((out.vendor, out.duration_ms, out.sample_rate, out.channels, size));
                let next = SoundEffectRun { stage: SoundEffectStage::MarkingGenerated, audio: out.audio_data, produced, ..self };
                return (next, RunAction::Update { task_id, update: progress_update(60) });
            },
            RunEvent::Uploaded(u) => {
                let next = SoundEffectRun { stage: SoundEffectStage::MarkingUploaded, upload: Some(u), ..self };
                return (next, RunAction::Update { task_id, update: progress_update(80) });
            },
            _ => {},
        }
        match self.stage {
            SoundEffectStage::Begin => {
                (SoundEffectRun { stage: SoundEffectStage::MarkingRunning, ..self },
                 RunAction::Update { task_id, update: status_update(TaskStatus::Running, 10) })
            },
            SoundEffectStage::MarkingRunning => {
                let v = vendor_name(&self.request);
                (SoundEffectRun { stage: SoundEffectStage::CheckingVendor, ..self },
                 RunAction::Invoke(SoundEffectCall::CheckVendor(v)))
            },
            SoundEffectStage::CheckingVendor => {
                (SoundEffectRun { stage: SoundEffectStage::MarkingPrepared, ..self },
                 RunAction::Update { task_id, update: progress_update(30) })
            },
            SoundEffectStage::MarkingPrepared => {
                let command = SoundEffectCommand {
                    vendor: vendor_name(&self.request),
                    model: clone_opt_string(&self.request.model),
                    description: self.request.description.clone(),
                    duration_ms: self.request.duration_ms,
                    style: clone_opt_string(&self.request.style),
                    intensity: self.request.intensity.clone(),
                    format: String::from_str(self.request.audio_format.as_str()),
                    sample_rate: self.request.sample_rate,
                    idempotency_key: clone_opt_string(&self.request.idempotency_key),
                    vendor_parameters: clone_opt_string(&self.request.vendor_parameters),
                };
                (SoundEffectRun { stage: SoundEffectStage::Generating, ..self },
                 RunAction::Invoke(SoundEffectCall::Generate(command)))
            },
            SoundEffectStage::MarkingGenerated => {
                let filename = output_file_name("sound_effect", self.task_no.as_str(), self.request.audio_format.as_str());
                let mime = String::from_str(self.request.audio_format.mime_type());
                let SoundEffectRun { task_id, task_no, tenant_id, user_id, request, stage: _, audio, produced, upload } = self;
                let call = UploadCall { tenant_id, user_id, data: audio, mime_type: mime, filename };
                proof { reveal_strlit("sound_effect"); }
                let next = SoundEffectRun {
                    task_id, task_no, tenant_id, user_id, request,
                    stage: SoundEffectStage::Uploading,
                    audio: Vec::new(),
                    produced,
                    upload,
                };
                (next, RunAction::Upload(call))
            },
            SoundEffectStage::MarkingUploaded => {
                let (vendor, duration_ms) = match &self.produced {
                    Some(p) => (p.0.clone(), p.1),
                    None => (String::new(), 0),
                };
                let media = match &self.upload {
                    Some(u) => MediaResource::of_upload(u),
                    None => MediaResource { drive_space_id: String::new(), drive_node_id: String::new(), drive_resource_uri: String::new() },
                };
                proof { reveal_strlit("sound_effect"); }
                let plan = ArtifactPlan {
                    task_id,
                    kind: ArtifactKind::Audio,
                    artifact_type: String::from_str("sound_effect"),
                    title: titled("Sound effect: ", self.request.description.as_str()),
                    voice_id: None,
                    provider_code: vendor,
                    format: String::from_str(self.request.audio_format.as_str()),
                    mime_type: String::from_str(self.request.audio_format.mime_type()),
                    duration_seconds: Some(seconds_of(duration_ms)),
                    transcript_text: None,
                    translation_text: None,
                    media_resource: media,
                };
                (SoundEffectRun { stage: SoundEffectStage::StoringArtifact, ..self }, RunAction::StoreArtifact(plan))
            },
            SoundEffectStage::StoringArtifact => {
                let format = String::from_str(self.request.audio_format.as_str());
                let mime_type = String::from_str(self.request.audio_format.mime_type());
                let result = match (&self.produced, &self.upload) {
                    (Some(p), Some(u)) => SoundEffectResultRecord {
                        duration_ms: p.1,
                        sample_rate: p.2,
                        channels: p.3,
                        file_size_bytes: p.4,
                        format,
                        mime_type,
                        drive_space_id: u.drive_space_id.clone(),
                        drive_node_id: u.drive_node_id.clone(),
                        audio_url: u.drive_resource_uri.clone(),
                    },
                    _ => SoundEffectResultRecord {
                        duration_ms: 0, sample_rate: 0, channels: 0, file_size_bytes: 0, format, mime_type,
                        drive_space_id: String::new(), drive_node_id: String::new(), audio_url: String::new(),
                    },
                };
                (SoundEffectRun { stage: SoundEffectStage::Completing, ..self }, RunAction::Complete { task_id, result })
            },
            _ => {
                (SoundEffectRun { stage: SoundEffectStage::Finished, ..self }, RunAction::Finish)
            },
        }
    }
}

/// What a reader gets for a sound-effect task.
#[derive(Debug, Clone)]
pub struct SoundEffectResult {
    pub task_id: String,
    pub task_no: String,
    pub status: String,
    pub audio_url: Option<String>,
    pub duration_ms: Option<u64>,
    pub file_size_bytes: Option<u64>,
    pub mime_type: Option<String>,
    pub format: Option<String>,
    pub sample_rate: Option<u32>,
}

/// `v` is what a reader is shown for sound-effect task `t`: its ticket, and the
/// audio URL, duration, file size, media type, format and sample rate read from
/// its stored result document (a sample rate kept to its low 32 bits).
pub open spec fn is_sound_effect_result_of(v: SoundEffectResult, t: AudioGenerationTask) -> bool {
    &&& v.task_id@ == signed_decimal(t.id as int)
    &&& v.task_no@ == t.task_no@
    &&& v.status@ == t.status@
    &&& text_view(v.audio_url) == stored_text(t.result_json, "audioUrl"@)
    &&& v.duration_ms == stored_u64(t.result_json, "durationMs"@)
    &&& v.file_size_bytes == stored_u64(t.result_json, "fileSizeBytes"@)
    &&& text_view(v.mime_type) == stored_text(t.result_json, "mimeType"@)
    &&& text_view(v.format) == stored_text(t.result_json, "format"@)
    &&& v.sample_rate == (match stored_u64(t.result_json, "sampleRate"@) {
        Some(s) => Some(s as u32),
        None => None,
    })
}

/// A sound-effect task as a detail view shows it: its ticket fields, the
/// request it was made with, and its result.
#[derive(Debug, Clone)]
pub struct SoundEffectTaskDetail {
    pub task_id: String,
    pub task_no: String,
    pub status: String,
    pub progress: i32,
    pub request_params: SoundEffectRequest,
    pub result: Option<SoundEffectResult>,
    pub created_at: String,
    pub completed_at: Option<String>,
}

/// The request shown for a task whose stored request cannot be read back.
pub open spec fn is_fallback_sound_effect(r: SoundEffectRequest, t: AudioGenerationTask) -> bool {
    &&& r.tenant_id == t.tenant_id
    &&& r.organization_id == t.organization_id
    &&& r.user_id == t.user_id
    &&& r.vendor is None
    &&& r.model is None
    &&& r.description@ == Seq::<char>::empty()
    &&& r.duration_ms is None
    &&& r.style is None
    &&& r.intensity@ == "0.5"@
    &&& r.audio_format == AudioFormat::WAV
    &&& r.sample_rate == 44100
    &&& r.idempotency_key is None
    &&& r.vendor_parameters is None
}

/// The sound-effect service's own decisions.
#[derive(Debug, Clone)]
pub struct SoundEffectServiceImpl {}

impl SoundEffectServiceImpl {
    pub fn new() -> (r: Self) {
        SoundEffectServiceImpl {}
    }

    /// Digest of the request, for recognising repeated input.
    pub fn calculate_input_hash(request: &SoundEffectRequest) -> (r: String)
        ensures
            r@ == text_digest(sound_effect_digest_input(*request)),
            r@.len() == 64,
    {
        let mut m = String::new();
        m.append(request.description.as_str());
        match request.duration_ms {
            Some(d) => push_decimal(&mut m, d),
            None => {},
        }
        push_opt(&mut m, &request.style);
        m.append(request.intensity.as_str());
        m.append(request.audio_format.as_str());
        push_decimal(&mut m, request.sample_rate as u64);
        assert(m@ =~= sound_effect_digest_input(*request));
        hex_sha256(m.as_str())
    }

    /// The checks of a sound-effect request: a description, then an intensity
    /// between zero and one (`intensity_in_range` tells whether the requested
    /// number is neither below 0.0 nor above 1.0).
    pub fn validate(request: &SoundEffectRequest, intensity_in_range: bool) -> (r: Result<(), ServiceError>)
        ensures
            r is Ok <==> (request.description@.len() != 0 && intensity_in_range),
            request.description@.len() == 0 ==> (r matches Err(e) && is_invalid_request(e, "Description is required"@)),
            (request.description@.len() != 0 && !intensity_in_range)
                ==> (r matches Err(e) && is_invalid_request(e, "Intensity must be between 0.0 and 1.0"@)),
    {
        if request.description.as_str().is_empty() {
            return Err(invalid_request("Description is required"));
        }
        if !intensity_in_range {
            return Err(invalid_request("Intensity must be between 0.0 and 1.0"));
        }
        Ok(())
    }

    /// The creation of a sound-effect task for `request`, stored with
    /// `request_json`: a request without description or with an intensity out
    /// of range is refused, the task is recorded under the requested vendor
    /// (or `custom`), and an accepted task is expected to take three seconds.
    pub fn creation(request: &SoundEffectRequest, intensity_in_range: bool, request_json: Result<String, String>) -> (f: CreateFlow)
        ensures
            f.operation == OperationType::SoundEffect,
            f.estimated_duration_ms == 3000,
            f.stage == CreateStage::Begin,
            f.draft.tenant_id == request.tenant_id,
            f.draft.organization_id == request.organization_id,
            f.draft.user_id == request.user_id,
            f.draft.idempotency_key == request.idempotency_key,
            f.draft.provider_code@ == vendor_of(*request),
            f.draft.checked is Ok <==> (request.description@.len() != 0 && intensity_in_range),
            request.description@.len() == 0 ==> (f.draft.checked matches Err(e) && is_invalid_request(e, "Description is required"@)),
            (request.description@.len() != 0 && !intensity_in_range)
                ==> (f.draft.checked matches Err(e) && is_invalid_request(e, "Intensity must be between 0.0 and 1.0"@)),
            f.draft.request_json == request_json,
    {
        let draft = TaskDraft {
            tenant_id: request.tenant_id,
            organization_id: request.organization_id,
            user_id: request.user_id,
            idempotency_key: clone_opt_string(&request.idempotency_key),
            provider_code: vendor_name(request),
            checked: Self::validate(request, intensity_in_range),
            request_json,
        };
        CreateFlow::new(OperationType::SoundEffect, 3000, draft)
    }

    /// The run of `task` for `request`, not yet started.
    pub fn run(task: &AudioGenerationTask, request: SoundEffectRequest) -> (r: SoundEffectRun)
        ensures
            r.task_id == task.id,
            r.task_no == task.task_no,
            r.tenant_id == task.tenant_id,
            r.user_id == task.user_id,
            r.request == request,
            r.stage == SoundEffectStage::Begin,
            r.produced is None,
            r.upload is None,
    {
        SoundEffectRun {
            task_id: task.id,
            task_no: task.task_no.clone(),
            tenant_id: task.tenant_id,
            user_id: task.user_id,
            request,
            stage: SoundEffectStage::Begin,
            audio: Vec::new(),
            produced: None,
            upload: None,
        }
    }

    /// Cancelling a sound-effect task: only a sound-effect task that has not
    /// finished may be cancelled.
    pub fn cancellation(task_no: &str, found: Option<AudioGenerationTask>, now: Timestamp)
        -> (r: Result<(i64, UpdateTaskRequest), ServiceError>)
        ensures
            cancel_answer(task_no@, found, Some((OperationType::SoundEffect, "Task is not a sound effect task"@)), now, r),
    {
        plan_cancel(task_no, found, Some((OperationType::SoundEffect, "Task is not a sound effect task")), now)
    }

    /// The result shown for `task`: refused unless it is a sound-effect task;
    /// otherwise its ticket, and the audio URL, duration, file size, media type,
    /// format and sample rate read from its stored result document, where it
    /// has one and they are there. A sample rate is kept to its low 32 bits.
    pub fn sound_effect_result(task: &AudioGenerationTask) -> (r: Result<SoundEffectResult, ServiceError>)
        ensures
            task.operation_type@ != OperationType::SoundEffect.text() ==> (r matches Err(e)
                && is_invalid_request(e, "Task is not a sound effect task"@)),
            task.operation_type@ == OperationType::SoundEffect.text() ==> (r matches Ok(v)
                && is_sound_effect_result_of(v, *task)),
    {
        let h = result_header(task, Some((OperationType::SoundEffect, "Task is not a sound effect task")));
        match h {
            Err(e) => Err(e),
            Ok(h) => {
                let sample_rate = match stored_u64_field(&task.result_json, "sampleRate") {
                    Some(s) => Some(s as u32),
                    None => None,
                };
                Ok(SoundEffectResult {
                    task_id: h.task_id,
                    task_no: h.task_no,
                    status: h.status,
                    audio_url: stored_text_field(&task.result_json, "audioUrl"),
                    duration_ms: stored_u64_field(&task.result_json, "durationMs"),
                    file_size_bytes: stored_u64_field(&task.result_json, "fileSizeBytes"),
                    mime_type: stored_text_field(&task.result_json, "mimeType"),
                    format: stored_text_field(&task.result_json, "format"),
                    sample_rate,
                })
            },
        }
    }

    /// The request shown with a task: the stored one when it could be read
    /// back, otherwise the defaults for the task's tenant, organization and user.
    pub fn request_params(task: &AudioGenerationTask, stored: Option<SoundEffectRequest>) -> (r: SoundEffectRequest)
        ensures
            match stored {
                Some(s) => r == s,
                None => is_fallback_sound_effect(r, *task),
            },
    {
        proof { reveal_strlit("0.5"); }
        match stored {
            Some(s) => s,
            None => SoundEffectRequest {
                tenant_id: task.tenant_id,
                organization_id: task.organization_id,
                user_id: task.user_id,
                vendor: None,
                model: None,
                description: String::new(),
                duration_ms: None,
                style: None,
                intensity: String::from_str("0.5"),
                audio_format: AudioFormat::WAV,
                sample_rate: 44100,
                idempotency_key: None,
                vendor_parameters: None,
            },
        }
    }

    /// The detail of `task`, given the request read back from its stored
    /// request document (`None` when that could not be read): refused unless it
    /// is a sound-effect task; otherwise its id, number, status, progress and
    /// times, the stored request or the defaults, and its result.
    pub fn sound_effect_detail(task: &AudioGenerationTask, stored: Option<SoundEffectRequest>)
        -> (r: Result<SoundEffectTaskDetail, ServiceError>)
        ensures
            task.operation_type@ != OperationType::SoundEffect.text() ==> (r matches Err(e)
                && is_invalid_request(e, "Task is not a sound effect task"@)),
            task.operation_type@ == OperationType::SoundEffect.text() ==> (r matches Ok(d)
                && d.task_id@ == signed_decimal(task.id as int)
                && d.task_no == task.task_no
                && d.status == task.status
                && d.progress == task.progress
                && d.created_at@ == instant_text(task.created_at)
                && (match task.completed_at {
                    Some(c) => d.completed_at matches Some(x) && x@ == instant_text(c),
                    None => d.completed_at is None,
                })
                && (match stored {
                    Some(s) => d.request_params == s,
                    None => is_fallback_sound_effect(d.request_params, *task),
                })
                && (d.result matches Some(v) && is_sound_effect_result_of(v, *task))),
    {
        let result = match Self::sound_effect_result(task) {
            Ok(v) => v,
            Err(e) => return Err(e),
        };
        let request_params = Self::request_params(task, stored);
        let s = summarize(task);
        Ok(SoundEffectTaskDetail {
            task_id: s.task_id,
            task_no: s.task_no,
            status: s.status,
            progress: s.progress,
            request_params,
            result: Some(result),
            created_at: s.created_at,
            completed_at: s.completed_at,
        })
    }

    /// The tasks a listing asks for.
    pub fn list_filter(tenant_id: i64, user_id: Option<i64>, status: &Option<String>) -> (f: TaskFilter)
        ensures
            f.tenant_id == Some(tenant_id),
            f.user_id == user_id,
            f.organization_id is None,
            f.operation_type == Some(OperationType::SoundEffect),
            f.status == (match status {
                Some(s) => TaskStatus::parse(s@),
                None => None,
            }),
            f.provider_code is None,
            f.created_after is None,
            f.created_before is None,
    {
        task_filter(OperationType::SoundEffect, tenant_id, user_id, status)
    }
}

} // verus!
