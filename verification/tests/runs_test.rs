//! Task runs stepped through with sample answers from the engine and storage.

use sdkwork_audio::artifact::ArtifactKind;
use sdkwork_audio::clock::Timestamp;
use sdkwork_audio::formats::{AudioFormat, OutputFormat, TextFormat};
use sdkwork_audio::lifecycle::ServiceError;
use sdkwork_audio::pipeline::{DriveUpload, RunAction, RunEvent};
use sdkwork_audio::sound_effect::{GeneratedSound, SoundEffectCall, SoundEffectRequest, SoundEffectServiceImpl};
use sdkwork_audio::speech::{SpeechServiceImpl, SpeechSynthesisRequest, SynthesisOutput};
use sdkwork_audio::subtitles::Segment;
use sdkwork_audio::task::{AudioGenerationTask, TaskStatus};
use sdkwork_audio::transcription::{TranscriptOutput, TranscriptionRequest, TranscriptionServiceImpl};
use sdkwork_audio::translation::{TranslationOutput, TranslationRequest, TranslationServiceImpl};

fn task(op: &str) -> AudioGenerationTask {
    let t = Timestamp { secs: 1_700_000_000, nanos: 0 };
    AudioGenerationTask {
        id: 7,
        task_no: "T7".to_string(),
        tenant_id: 11,
        organization_id: 12,
        user_id: 13,
        operation_type: op.to_string(),
        provider_code: "custom".to_string(),
        provider_route_id: None,
        model: None,
        provider_task_id: None,
        idempotency_key: None,
        input_hash: None,
        status: "queued".to_string(),
        progress: 0,
        request_json: "{}".to_string(),
        normalized_options_json: None,
        provider_request_json: None,
        provider_response_json: None,
        result_json: None,
        error_code: None,
        error_message: None,
        callback_url: None,
        callback_status: None,
        submitted_at: None,
        completed_at: None,
        expires_at: None,
        created_at: t,
        updated_at: t,
        deleted: false,
        version: 0,
    }
}

fn upload() -> DriveUpload {
    DriveUpload {
        drive_space_id: "space-123".to_string(),
        drive_node_id: "node-456".to_string(),
        drive_resource_uri: "drive://spaces/space-123/nodes/node-456".to_string(),
        upload_item_id: None,
        upload_session_id: None,
    }
}

fn speech_request(text: &str) -> SpeechSynthesisRequest {
    SpeechSynthesisRequest {
        tenant_id: 11,
        organization_id: 12,
        user_id: 13,
        text: text.to_string(),
        text_format: TextFormat::Plain,
        language: None,
        voice_id: Some("voice-1".to_string()),
        speed: 1.0f32.to_string(),
        pitch: 1.0f32.to_string(),
        volume: 1.0f32.to_string(),
        emotion: None,
        emotion_intensity: 0.5f32.to_string(),
        audio_format: AudioFormat::MP3,
        sample_rate: 24000,
        idempotency_key: None,
    }
}

fn progress_of<C, R>(a: &RunAction<C, R>) -> Option<i32> {
    match a {
        RunAction::Update { update, .. } => update.progress,
        _ => None,
    }
}

#[test]
fn speech_run_goes_through_every_stage() {
    let service = SpeechServiceImpl::new("custom".to_string());
    let run = service.run(&task("speech"), speech_request("Hello, world!"));

    let (run, a) = run.step(RunEvent::Begin);
    match &a {
        RunAction::Update { task_id, update } => {
            assert_eq!(*task_id, 7);
            assert_eq!(update.status, Some(TaskStatus::Running));
            assert_eq!(update.progress, Some(10));
        }
        _ => panic!("expected an update"),
    }
    let (run, a) = run.step(RunEvent::Done);
    match &a {
        RunAction::Invoke(call) => {
            assert_eq!(call.text, "Hello, world!");
            assert_eq!(call.text_format, "plain");
            assert_eq!(call.audio_format, "mp3");
            assert_eq!(call.sample_rate, 24000);
        }
        _ => panic!("expected the engine call"),
    }
    let out = SynthesisOutput {
        audio_data: vec![0; 1024],
        mime_type: "audio/mpeg".to_string(),
        duration_ms: 2500,
        sample_rate: 24000,
        channels: 1,
    };
    let (run, a) = run.step(RunEvent::Produced(out));
    assert_eq!(progress_of(&a), Some(50));
    let (run, a) = run.step(RunEvent::Done);
    match &a {
        RunAction::Upload(u) => {
            assert_eq!(u.tenant_id, 11);
            assert_eq!(u.user_id, 13);
            assert_eq!(u.data.len(), 1024);
            assert_eq!(u.mime_type, "audio/mpeg");
            assert_eq!(u.filename, "speech_T7.mp3");
        }
        _ => panic!("expected an upload"),
    }
    let (run, a) = run.step(RunEvent::Uploaded(upload()));
    assert_eq!(progress_of(&a), Some(80));
    let (run, a) = run.step(RunEvent::Done);
    match a {
        RunAction::StoreArtifact(plan) => {
            assert_eq!(plan.kind, ArtifactKind::Audio);
            assert_eq!(plan.title, "Speech synthesis: Hello, world!");
            assert_eq!(plan.duration_seconds, Some(2));
            assert_eq!(plan.provider_code, "custom");
            let req = plan.into_request("{}".to_string());
            assert_eq!(req.task_id, Some(7));
            assert_eq!(req.artifact_type.as_deref(), Some("speech"));
            assert_eq!(req.voice_id.as_deref(), Some("voice-1"));
            assert_eq!(req.format.as_deref(), Some("mp3"));
            assert_eq!(req.media_resource_json, "{}");
        }
        _ => panic!("expected the artifact"),
    }
    let (run, a) = run.step(RunEvent::Done);
    match a {
        RunAction::Complete { task_id, result } => {
            assert_eq!(task_id, 7);
            assert_eq!(result.duration_ms, 2500);
            assert_eq!(result.file_size_bytes, 1024);
            assert_eq!(result.channels, 1);
            assert_eq!(result.drive_node_id, "node-456");
        }
        _ => panic!("expected completion"),
    }
    let (_run, a) = run.step(RunEvent::Done);
    assert!(matches!(a, RunAction::Finish));
}

#[test]
fn speech_run_records_a_failure_and_ends() {
    let service = SpeechServiceImpl::new("custom".to_string());
    let run = service.run(&task("speech"), speech_request("x"));
    let (run, _) = run.step(RunEvent::Begin);
    let (run, _) = run.step(RunEvent::Done);
    let (_run, a) = run.step(RunEvent::Failed(ServiceError::AiEngine("boom".to_string())));
    match a {
        RunAction::RecordFailure { task_id, error } => {
            assert_eq!(task_id, 7);
            assert_eq!(error.message(), "AI engine error: boom");
        }
        _ => panic!("expected the failure to be recorded"),
    }
}

#[test]
fn speech_title_keeps_fifty_bytes() {
    let service = SpeechServiceImpl::new("custom".to_string());
    let long = "abcdefghij".repeat(7);
    let run = service.run(&task("speech"), speech_request(&long));
    let (run, _) = run.step(RunEvent::Begin);
    let (run, _) = run.step(RunEvent::Done);
    let out = SynthesisOutput { audio_data: vec![1, 2], mime_type: "audio/mpeg".to_string(), duration_ms: 999, sample_rate: 1, channels: 2 };
    let (run, _) = run.step(RunEvent::Produced(out));
    let (run, _) = run.step(RunEvent::Done);
    let (run, _) = run.step(RunEvent::Uploaded(upload()));
    let (_run, a) = run.step(RunEvent::Done);
    match a {
        RunAction::StoreArtifact(plan) => {
            assert_eq!(plan.title, format!("Speech synthesis: {}", &long[..50]));
            assert_eq!(plan.duration_seconds, Some(0));
        }
        _ => panic!("expected the artifact"),
    }
}

fn transcription_request(format: OutputFormat) -> TranscriptionRequest {
    TranscriptionRequest {
        tenant_id: 11,
        organization_id: 12,
        user_id: 13,
        audio_url: "https://example.com/a.wav".to_string(),
        language: Some("en".to_string()),
        detect_language: true,
        enable_timestamps: true,
        enable_speaker_diarization: false,
        max_speakers: None,
        output_format: format,
        include_confidence: true,
        include_words: true,
        idempotency_key: None,
    }
}

#[test]
fn transcription_run_uploads_the_srt_document() {
    let service = TranscriptionServiceImpl::new("whisper".to_string());
    let run = service.run(&task("transcription"), transcription_request(OutputFormat::SRT));
    let (run, a) = run.step(RunEvent::Begin);
    assert_eq!(progress_of(&a), Some(10));
    let (run, a) = run.step(RunEvent::Done);
    assert_eq!(progress_of(&a), Some(30));
    let (run, a) = run.step(RunEvent::Done);
    match &a {
        RunAction::Invoke(c) => {
            assert_eq!(c.output_format, "srt");
            assert_eq!(c.audio_url, "https://example.com/a.wav");
        }
        _ => panic!("expected the engine call"),
    }
    let out = TranscriptOutput {
        text: "Hi there".to_string(),
        segments: vec![Segment { start_ms: 0, end_ms: 1000, text: "Hi there".to_string() }],
        json_document: "{}".to_string(),
    };
    let (run, a) = run.step(RunEvent::Produced(out));
    assert_eq!(progress_of(&a), Some(60));
    let (run, a) = run.step(RunEvent::Done);
    match &a {
        RunAction::Upload(u) => {
            assert_eq!(String::from_utf8(u.data.clone()).unwrap(), "1\n00:00:00,000 --> 00:00:01,000\nHi there\n\n");
            assert_eq!(u.mime_type, "text/srt");
            assert_eq!(u.filename, "transcription_T7.srt");
        }
        _ => panic!("expected an upload"),
    }
    let (run, _) = run.step(RunEvent::Uploaded(upload()));
    let (run, a) = run.step(RunEvent::Done);
    match a {
        RunAction::StoreArtifact(plan) => {
            assert_eq!(plan.kind, ArtifactKind::Text);
            assert_eq!(plan.title, "Transcription: https://example.com/a.wav");
            assert_eq!(plan.transcript_text.as_deref(), Some("Hi there"));
            assert_eq!(plan.mime_type, "text/srt");
            assert_eq!(plan.provider_code, "whisper");
        }
        _ => panic!("expected the artifact"),
    }
    let (_run, a) = run.step(RunEvent::Done);
    match a {
        RunAction::Complete { result, .. } => {
            assert_eq!(result.text, "Hi there");
            assert_eq!(result.output_url, "drive://spaces/space-123/nodes/node-456");
        }
        _ => panic!("expected completion"),
    }
}

#[test]
fn translation_run_titles_the_language_pair() {
    let service = TranslationServiceImpl::new("custom".to_string());
    let req = TranslationRequest {
        tenant_id: 11,
        organization_id: 12,
        user_id: 13,
        audio_url: "a.wav".to_string(),
        source_language: None,
        target_language: "fr".to_string(),
        output_format: OutputFormat::VTT,
        include_timestamps: false,
        idempotency_key: None,
    };
    let run = service.run(&task("translation"), req);
    let (run, _) = run.step(RunEvent::Begin);
    let (run, _) = run.step(RunEvent::Done);
    let (run, _) = run.step(RunEvent::Done);
    let out = TranslationOutput { source_text: "hello".to_string(), translated_text: "bonjour".to_string(), json_document: String::new() };
    let (run, _) = run.step(RunEvent::Produced(out));
    let (run, a) = run.step(RunEvent::Done);
    match &a {
        RunAction::Upload(u) => {
            assert_eq!(String::from_utf8(u.data.clone()).unwrap(), "WEBVTT\n\n00:00:00.000 --> 00:00:10.000\nbonjour\n");
            assert_eq!(u.filename, "translation_T7.vtt");
        }
        _ => panic!("expected an upload"),
    }
    let (run, _) = run.step(RunEvent::Uploaded(upload()));
    let (_run, a) = run.step(RunEvent::Done);
    match a {
        RunAction::StoreArtifact(plan) => {
            assert_eq!(plan.title, "Translation: auto -> fr");
            assert_eq!(plan.transcript_text.as_deref(), Some("hello"));
            assert_eq!(plan.translation_text.as_deref(), Some("bonjour"));
        }
        _ => panic!("expected the artifact"),
    }
}

#[test]
fn sound_effect_run_checks_the_vendor_first() {
    let req = SoundEffectRequest {
        tenant_id: 11,
        organization_id: 12,
        user_id: 13,
        vendor: None,
        model: None,
        description: "Thunder".to_string(),
        duration_ms: Some(3000),
        style: None,
        intensity: 0.8f32.to_string(),
        audio_format: AudioFormat::WAV,
        sample_rate: 44100,
        idempotency_key: None,
        vendor_parameters: None,
    };
    let run = SoundEffectServiceImpl::run(&task("sound_effect"), req);
    let (run, _) = run.step(RunEvent::Begin);
    let (run, a) = run.step(RunEvent::Done);
    match &a {
        RunAction::Invoke(SoundEffectCall::CheckVendor(v)) => assert_eq!(v, "custom"),
        _ => panic!("expected the vendor check"),
    }
    let (run, a) = run.step(RunEvent::Done);
    assert_eq!(progress_of(&a), Some(30));
    let (run, a) = run.step(RunEvent::Done);
    match &a {
        RunAction::Invoke(SoundEffectCall::Generate(c)) => {
            assert_eq!(c.vendor, "custom");
            assert_eq!(c.format, "wav");
            assert_eq!(c.intensity, "0.8");
        }
        _ => panic!("expected generation"),
    }
    let sound = GeneratedSound { vendor: "acme".to_string(), audio_data: vec![9; 10], duration_ms: 3000, sample_rate: 44100, channels: 2 };
    let (run, a) = run.step(RunEvent::Produced(sound));
    assert_eq!(progress_of(&a), Some(60));
    let (run, a) = run.step(RunEvent::Done);
    match &a {
        RunAction::Upload(u) => {
            assert_eq!(u.mime_type, "audio/wav");
            assert_eq!(u.filename, "sound_effect_T7.wav");
        }
        _ => panic!("expected an upload"),
    }
    let (run, _) = run.step(RunEvent::Uploaded(upload()));
    let (run, a) = run.step(RunEvent::Done);
    match a {
        RunAction::StoreArtifact(plan) => {
            assert_eq!(plan.provider_code, "acme");
            assert_eq!(plan.title, "Sound effect: Thunder");
            assert_eq!(plan.duration_seconds, Some(3));
        }
        _ => panic!("expected the artifact"),
    }
    let (_run, a) = run.step(RunEvent::Done);
    match a {
        RunAction::Complete { result, .. } => {
            assert_eq!(result.audio_url, "drive://spaces/space-123/nodes/node-456");
            assert_eq!(result.format, "wav");
            assert_eq!(result.mime_type, "audio/wav");
            assert_eq!(result.file_size_bytes, 10);
        }
        _ => panic!("expected completion"),
    }
}
