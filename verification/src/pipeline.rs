//! Pieces shared by the runs of the task services: what storage answers for an
//! upload, what is uploaded, the artifact to record, what a run asks for next
//! and what it is told back, and the cut of a long text for a title.

use vstd::prelude::*;
use vstd::utf8::{
    decode_utf8, decode_utf8_encode_utf8, decode_utf8_split, encode_utf8, encode_utf8_decode_utf8,
    encode_utf8_valid_utf8, is_char_boundary, valid_utf8_split,
};
use vstd::string::{StringExecFns, StringSliceAdditionalSpecFns};
use crate::task::UpdateTaskRequest;
use crate::artifact::{ArtifactKind, CreateArtifactRequest};
use crate::lifecycle::ServiceError;
use crate::document::{entries_of, json_object, json_object_text, reads_back, JsonScalar, JsonScalarView};

verus! {

broadcast use vstd::string::group_string_axioms;

/// Where storage put an uploaded file.
#[derive(Debug, Clone)]
pub struct DriveUpload {
    pub drive_space_id: String,
    pub drive_node_id: String,
    pub drive_resource_uri: String,
    pub upload_item_id: Option<String>,
    pub upload_session_id: Option<String>,
}

/// The storage location recorded on an artifact.
#[derive(Debug, Clone)]
pub struct MediaResource {
    pub drive_space_id: String,
    pub drive_node_id: String,
    pub drive_resource_uri: String,
}

impl MediaResource {
    /// The location of an upload.
    pub fn of_upload(u: &DriveUpload) -> (r: MediaResource)
        ensures
            r.drive_space_id == u.drive_space_id,
            r.drive_node_id == u.drive_node_id,
            r.drive_resource_uri == u.drive_resource_uri,
    {
        MediaResource {
            drive_space_id: u.drive_space_id.clone(),
            drive_node_id: u.drive_node_id.clone(),
            drive_resource_uri: u.drive_resource_uri.clone(),
        }
    }

    /// The JSON recorded on the artifact for this location: its source, the
    /// drive, and the space, node and resource URI, as compact JSON.
    pub fn to_document(&self) -> (r: String)
        ensures
            r@ == json_object_text(media_document(*self)),
            reads_back(r@, media_document(*self)),
    {
        let entries = vec![
            (String::from_str("source"), JsonScalar::Text(String::from_str("drive"))),
            (String::from_str("driveSpaceId"), JsonScalar::Text(self.drive_space_id.clone())),
            (String::from_str("driveNodeId"), JsonScalar::Text(self.drive_node_id.clone())),
            (String::from_str("driveResourceUri"), JsonScalar::Text(self.drive_resource_uri.clone())),
        ];
        proof {
            reveal_with_fuel(entries_of, 5);
            assert(entries_of(entries@) =~= media_document(*self));
        }
        json_object(entries)
    }
}

/// The entries of the JSON recorded on an artifact for its location.
pub open spec fn media_document(m: MediaResource) -> Map<Seq<char>, JsonScalarView> {
    Map::empty()
        .insert("source"@, JsonScalarView::Text("drive"@))
        .insert("driveSpaceId"@, JsonScalarView::Text(m.drive_space_id@))
        .insert("driveNodeId"@, JsonScalarView::Text(m.drive_node_id@))
        .insert("driveResourceUri"@, JsonScalarView::Text(m.drive_resource_uri@))
}

/// A file to hand to storage.
#[derive(Debug, Clone)]
pub struct UploadCall {
    pub tenant_id: i64,
    pub user_id: i64,
    pub data: Vec<u8>,
    pub mime_type: String,
    pub filename: String,
}

/// The artifact a run records; its storage location is written as JSON by the
/// caller before the artifact is stored.
#[derive(Debug, Clone)]
pub struct ArtifactPlan {
    pub task_id: i64,
    pub kind: ArtifactKind,
    pub artifact_type: String,
    pub title: String,
    pub voice_id: Option<String>,
    pub provider_code: String,
    pub format: String,
    pub mime_type: String,
    pub duration_seconds: Option<i32>,
    pub transcript_text: Option<String>,
    pub translation_text: Option<String>,
    pub media_resource: MediaResource,
}

impl ArtifactPlan {
    /// The request that stores the planned artifact, with its location written
    /// as `media_resource_json`.
    pub fn into_request(self, media_resource_json: String) -> (r: CreateArtifactRequest)
        ensures
            r.task_id == Some(self.task_id),
            r.request_id is None,
            r.kind == self.kind,
            r.artifact_type == Some(self.artifact_type),
            r.title == Some(self.title),
            r.voice_id == self.voice_id,
            r.provider_code == Some(self.provider_code),
            r.provider_asset_id is None,
            r.artifact_index == 0,
            r.format == Some(self.format),
            r.mime_type == Some(self.mime_type),
            r.duration_seconds == self.duration_seconds,
            r.transcript_text == self.transcript_text,
            r.translation_text == self.translation_text,
            r.media_resource_json == media_resource_json,
    {
        CreateArtifactRequest {
            task_id: Some(self.task_id),
            request_id: None,
            kind: self.kind,
            artifact_type: Some(self.artifact_type),
            title: Some(self.title),
            voice_id: self.voice_id,
            provider_code: Some(self.provider_code),
            provider_asset_id: None,
            artifact_index: 0,
            format: Some(self.format),
            mime_type: Some(self.mime_type),
            duration_seconds: self.duration_seconds,
            transcript_text: self.transcript_text,
            translation_text: self.translation_text,
            media_resource_json,
        }
    }
}

/// What a run asks for next. `C` is the call to the engine and `R` the record
/// of the result that is written with the finished task.
#[derive(Debug)]
pub enum RunAction<C, R> {
    /// Apply this update to the task.
    Update { task_id: i64, update: UpdateTaskRequest },
    /// Call the engine.
    Invoke(C),
    /// Hand a file to storage.
    Upload(UploadCall),
    /// Record the artifact.
    StoreArtifact(ArtifactPlan),
    /// Mark the task succeeded with this result, stamped with the time then.
    Complete { task_id: i64, result: R },
    /// Mark the task failed with this error, stamped with the time then; a
    /// failure of that update is ignored.
    RecordFailure { task_id: i64, error: ServiceError },
    /// The run is over.
    Finish,
}

/// What a run is told. `O` is what the engine produced.
#[derive(Debug)]
pub enum RunEvent<O> {
    /// The run is to start.
    Begin,
    /// The last update or store succeeded.
    Done,
    /// The engine produced this.
    Produced(O),
    /// Storage took the file.
    Uploaded(DriveUpload),
    /// The last request failed.
    Failed(ServiceError),
}

/// Where the run of a task that produces a document stands.
#[derive(Debug, Clone, Copy, PartialEq, Eq, Structural)]
pub enum DocumentStage {
    Begin,
    MarkingRunning,
    MarkingPrepared,
    Working,
    MarkingProduced,
    Uploading,
    MarkingUploaded,
    StoringArtifact,
    Completing,
    Finished,
}

/// The event fits the stage: a failure may come at any stage between the start
/// and the end.
pub open spec fn document_event_fits<O>(stage: DocumentStage, e: RunEvent<O>) -> bool {
    match stage {
        DocumentStage::Begin => e is Begin,
        DocumentStage::Working => e is Produced || e is Failed,
        DocumentStage::Uploading => e is Uploaded || e is Failed,
        DocumentStage::Finished => false,
        _ => e is Done || e is Failed,
    }
}

/// The number of bytes a title keeps of a text: fifty, or fewer when the text
/// is shorter.
pub open spec fn title_cut(text: Seq<char>) -> int {
    let len = (encode_utf8(text).len() as usize) as int;
    if len < 50 { len } else { 50 }
}

/// The cut falls between two characters, so that it can be taken.
pub open spec fn title_cut_ok(text: Seq<char>) -> bool {
    is_char_boundary(encode_utf8(text), title_cut(text))
}

/// The characters encoded in the first bytes of the text up to the cut.
pub open spec fn title_head(text: Seq<char>) -> Seq<char> {
    decode_utf8(encode_utf8(text).subrange(0, title_cut(text)))
}

/// A title keeps the beginning of the text, and no more than fifty bytes of it.
pub proof fn title_head_is_leading_text(text: Seq<char>)
    requires
        title_cut_ok(text),
    ensures
        encode_utf8(title_head(text)) == encode_utf8(text).subrange(0, title_cut(text)),
        encode_utf8(title_head(text)).len() <= 50,
        title_head(text) == text.subrange(0, title_head(text).len() as int),
{
    let bytes = encode_utf8(text);
    let k = title_cut(text);
    encode_utf8_valid_utf8(text);
    valid_utf8_split(bytes, k);
    decode_utf8_encode_utf8(bytes.subrange(0, k));
    decode_utf8_split(bytes, k);
    encode_utf8_decode_utf8(text);
    let head = title_head(text);
    let rest = decode_utf8(bytes.subrange(k, bytes.len() as int));
    assert(text == head + rest);
    assert(head =~= text.subrange(0, head.len() as int));
}

/// `label` followed by the head of `text`.
pub fn titled(label: &str, text: &str) -> (r: String)
    requires
        title_cut_ok(text@),
    ensures
        r@ == label@ + title_head(text@),
{
    let n: usize = if text.len() < 50 { text.len() } else { 50 };
    assert(text.spec_bytes() == encode_utf8(text@));
    assert(n as int == title_cut(text@));
    let (head, _rest) = text.split_at(n);
    proof {
        encode_utf8_decode_utf8(head@);
        assert(head.spec_bytes() == encode_utf8(head@));
    }
    String::from_str(label).concat(head)
}

/// `name` `_` `task_no` `.` `ext`.
pub open spec fn file_name(name: Seq<char>, task_no: Seq<char>, ext: Seq<char>) -> Seq<char> {
    name + seq!['_'] + task_no + seq!['.'] + ext
}

/// The name under which a run's output is uploaded.
pub fn output_file_name(name: &str, task_no: &str, ext: &str) -> (r: String)
    ensures
        r@ == file_name(name@, task_no@, ext@),
{
    proof {
        reveal_strlit("_");
        reveal_strlit(".");
    }
    let r = String::from_str(name).concat("_").concat(task_no).concat(".").concat(ext);
    assert(r@ =~= file_name(name@, task_no@, ext@));
    r
}

/// Whole seconds of a duration in milliseconds, as stored on an artifact.
pub open spec fn whole_seconds(ms: u64) -> i32 {
    (ms / 1000) as i32
}

pub fn seconds_of(ms: u64) -> (r: i32)
    ensures
        r == whole_seconds(ms),
{
    (ms / 1000) as i32
}

} // verus!
