//! Stored texts of the status, kind and type vocabularies.

use sdkwork_audio::artifact::{ArtifactKind, MediaKind};
use sdkwork_audio::task::{OperationType, TaskStatus, UpdateTaskRequest};
use sdkwork_audio::voice::{VoiceStatus, VoiceType};

#[test]
fn task_status_texts_round_trip() {
    let all = [
        (TaskStatus::Queued, "queued"),
        (TaskStatus::Routing, "routing"),
        (TaskStatus::Submitted, "submitted"),
        (TaskStatus::Running, "running"),
        (TaskStatus::Succeeded, "succeeded"),
        (TaskStatus::Failed, "failed"),
        (TaskStatus::Cancelled, "cancelled"),
        (TaskStatus::Expired, "expired"),
        (TaskStatus::NeedsReview, "needs_review"),
    ];
    for (k, s) in all {
        assert_eq!(k.as_str(), s);
        assert_eq!(TaskStatus::from_str(s), Some(k));
    }
    assert_eq!(TaskStatus::from_str("Queued"), None);
    assert_eq!(TaskStatus::from_str(""), None);
    assert_eq!(TaskStatus::from_str("needs-review"), None);
}

#[test]
fn operation_type_texts_round_trip() {
    let all = [
        (OperationType::Speech, "speech"),
        (OperationType::Transcription, "transcription"),
        (OperationType::Translation, "translation"),
        (OperationType::SoundEffect, "sound_effect"),
        (OperationType::Music, "music"),
    ];
    for (k, s) in all {
        assert_eq!(k.as_str(), s);
        assert_eq!(OperationType::from_str(s), Some(k));
    }
    assert_eq!(OperationType::from_str("sound-effect"), None);
}

#[test]
fn artifact_and_media_kind_texts_round_trip() {
    let kinds = [
        (ArtifactKind::Audio, "audio"),
        (ArtifactKind::Text, "text"),
        (ArtifactKind::Subtitle, "subtitle"),
        (ArtifactKind::Waveform, "waveform"),
        (ArtifactKind::Metadata, "metadata"),
    ];
    for (k, s) in kinds {
        assert_eq!(k.as_str(), s);
        assert_eq!(ArtifactKind::from_str(s), Some(k));
    }
    let media = [
        (MediaKind::Speech, "speech"),
        (MediaKind::Transcription, "transcription"),
        (MediaKind::Translation, "translation"),
        (MediaKind::SoundEffect, "sound_effect"),
        (MediaKind::Music, "music"),
    ];
    for (k, s) in media {
        assert_eq!(k.as_str(), s);
        assert_eq!(MediaKind::from_str(s), Some(k));
    }
    assert_eq!(ArtifactKind::from_str("video"), None);
    assert_eq!(MediaKind::from_str("Speech"), None);
}

#[test]
fn voice_vocabulary_texts_round_trip() {
    for (k, s) in [(VoiceType::Prebuilt, "prebuilt"), (VoiceType::Custom, "custom"), (VoiceType::Cloned, "cloned")] {
        assert_eq!(k.as_str(), s);
        assert_eq!(VoiceType::from_str(s), Some(k));
    }
    for (k, s) in [(VoiceStatus::Active, "active"), (VoiceStatus::Inactive, "inactive"), (VoiceStatus::Deprecated, "deprecated")] {
        assert_eq!(k.as_str(), s);
        assert_eq!(VoiceStatus::from_str(s), Some(k));
    }
    assert_eq!(VoiceType::from_str("clone"), None);
    assert_eq!(VoiceStatus::from_str(" active"), None);
}

#[test]
fn default_update_changes_nothing() {
    let u = UpdateTaskRequest::default();
    assert!(u.status.is_none());
    assert!(u.progress.is_none());
    assert!(u.result_json.is_none());
    assert!(u.completed_at.is_none());
    assert!(u.error_message.is_none());
}
