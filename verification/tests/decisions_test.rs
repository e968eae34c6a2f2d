//! Creation, cancellation, reading and listing decisions of the services, and
//! the fixed catalogues.

use sdkwork_audio::clock::Timestamp;
use sdkwork_audio::formats::{AudioFormat, OutputFormat};
use sdkwork_audio::lifecycle::{list_page, summarize, CreateAction, CreateEvent, ServiceError};
use sdkwork_audio::document::{json_object, JsonScalar};
use sdkwork_audio::pipeline::MediaResource;
use sdkwork_audio::sound_effect::{SoundEffectRequest, SoundEffectResultRecord, SoundEffectServiceImpl};
use sdkwork_audio::speech::{SpeechResultRecord, SpeechServiceImpl, VoiceListRequest};
use sdkwork_audio::task::{AudioGenerationTask, OperationType, TaskStatus};
use sdkwork_audio::transcription::{TranscriptionRequest, TranscriptionServiceImpl};
use sdkwork_audio::translation::{TranslationRequest, TranslationServiceImpl};
use sdkwork_audio::voice::{AudioVoice, VoiceListResult, VoiceStatus, VoiceType};

fn task(op: &str, status: &str) -> AudioGenerationTask {
    let t = Timestamp { secs: 0, nanos: 0 };
    AudioGenerationTask {
        id: 42,
        task_no: "T42".to_string(),
        tenant_id: 1,
        organization_id: 2,
        user_id: 3,
        operation_type: op.to_string(),
        provider_code: "custom".to_string(),
        provider_route_id: None,
        model: None,
        provider_task_id: None,
        idempotency_key: None,
        input_hash: None,
        status: status.to_string(),
        progress: 55,
        request_json: "{}".to_string(),
        normalized_options_json: None,
        provider_request_json: None,
        provider_response_json: None,
        result_json: None,
        error_code: None,
        error_message: None,
        callback_url: None,
        callback_status: None,
        submitted_at: None,
        completed_at: Some(Timestamp { secs: 86_400, nanos: 0 }),
        expires_at: None,
        created_at: t,
        updated_at: t,
        deleted: false,
        version: 0,
    }
}

fn transcription_request(url: &str) -> TranscriptionRequest {
    TranscriptionRequest {
        tenant_id: 1,
        organization_id: 2,
        user_id: 3,
        audio_url: url.to_string(),
        language: None,
        detect_language: true,
        enable_timestamps: true,
        enable_speaker_diarization: false,
        max_speakers: None,
        output_format: OutputFormat::JSON,
        include_confidence: true,
        include_words: true,
        idempotency_key: None,
    }
}

fn message_of(e: ServiceError) -> String {
    match e {
        ServiceError::InvalidRequest { message } => message,
        other => panic!("unexpected error {:?}", other),
    }
}

#[test]
fn transcription_without_audio_url_is_refused_before_storing() {
    let service = TranscriptionServiceImpl::new("custom".to_string());
    let flow = service.creation(&transcription_request(""), Ok("{}".to_string()));
    let (_flow, a) = flow.step(CreateEvent::Start);
    match a {
        CreateAction::Respond(Err(e)) => assert_eq!(message_of(e), "Audio URL is required"),
        _ => panic!("expected a refusal"),
    }
}

#[test]
fn transcription_creation_stores_and_accepts() {
    let service = TranscriptionServiceImpl::new("custom".to_string());
    let flow = service.creation(&transcription_request("u"), Ok("{\"a\":1}".to_string()));
    let (flow, a) = flow.step(CreateEvent::Start);
    match a {
        CreateAction::CreateTask(r) => {
            assert_eq!(r.operation_type, OperationType::Transcription);
            assert_eq!(r.provider_code, "custom");
            assert_eq!(r.request_json, "{\"a\":1}");
            assert_eq!(r.tenant_id, 1);
        }
        _ => panic!("expected the task to be stored"),
    }
    let (_flow, a) = flow.step(CreateEvent::Created(task("transcription", "queued")));
    match a {
        CreateAction::Accept { task, ticket } => {
            assert_eq!(task.id, 42);
            assert_eq!(ticket.task_id, "42");
            assert_eq!(ticket.estimated_duration_ms, Some(5000));
        }
        _ => panic!("expected acceptance"),
    }
}

#[test]
fn store_failure_is_answered_as_database_error() {
    let service = TranscriptionServiceImpl::new("custom".to_string());
    let mut r = transcription_request("u");
    r.idempotency_key = Some("k".to_string());
    let flow = service.creation(&r, Ok("{}".to_string()));
    let (flow, a) = flow.step(CreateEvent::Start);
    match &a {
        CreateAction::FindByIdempotencyKey { tenant_id, operation_type, idempotency_key } => {
            assert_eq!(*tenant_id, 1);
            assert_eq!(operation_type, "transcription");
            assert_eq!(idempotency_key, "k");
        }
        _ => panic!("expected a lookup"),
    }
    let (_flow, a) = flow.step(CreateEvent::StoreFailed("connection reset".to_string()));
    match a {
        CreateAction::Respond(Err(ServiceError::Database(m))) => assert_eq!(m, "connection reset"),
        _ => panic!("expected a database error"),
    }
}

#[test]
fn unserializable_request_is_an_internal_error() {
    let service = TranscriptionServiceImpl::new("custom".to_string());
    let flow = service.creation(&transcription_request("u"), Err("bad".to_string()));
    let (_flow, a) = flow.step(CreateEvent::Start);
    match a {
        CreateAction::Respond(Err(e)) => assert_eq!(e.message(), "Internal error: bad"),
        _ => panic!("expected an internal error"),
    }
}

#[test]
fn translation_checks_audio_url_then_target_language() {
    let mut r = TranslationRequest {
        tenant_id: 1,
        organization_id: 2,
        user_id: 3,
        audio_url: String::new(),
        source_language: None,
        target_language: String::new(),
        output_format: OutputFormat::TXT,
        include_timestamps: true,
        idempotency_key: None,
    };
    assert_eq!(message_of(TranslationServiceImpl::validate(&r).unwrap_err()), "Audio URL is required");
    r.audio_url = "u".to_string();
    assert_eq!(message_of(TranslationServiceImpl::validate(&r).unwrap_err()), "Target language is required");
    r.target_language = "en".to_string();
    assert!(TranslationServiceImpl::validate(&r).is_ok());
}

fn sound_request(description: &str) -> SoundEffectRequest {
    SoundEffectRequest {
        tenant_id: 1,
        organization_id: 2,
        user_id: 3,
        vendor: Some("acme".to_string()),
        model: None,
        description: description.to_string(),
        duration_ms: None,
        style: None,
        intensity: 1.5f32.to_string(),
        audio_format: AudioFormat::MP3,
        sample_rate: 44100,
        idempotency_key: None,
        vendor_parameters: None,
    }
}

#[test]
fn sound_effect_checks_description_then_intensity() {
    assert_eq!(message_of(SoundEffectServiceImpl::validate(&sound_request(""), false).unwrap_err()), "Description is required");
    assert_eq!(
        message_of(SoundEffectServiceImpl::validate(&sound_request("boom"), false).unwrap_err()),
        "Intensity must be between 0.0 and 1.0"
    );
    assert!(SoundEffectServiceImpl::validate(&sound_request("boom"), true).is_ok());
    let flow = SoundEffectServiceImpl::creation(&sound_request("boom"), true, Ok("{}".to_string()));
    assert_eq!(flow.draft.provider_code, "acme");
    assert_eq!(flow.estimated_duration_ms, 3000);
}

#[test]
fn finished_tasks_cannot_be_cancelled() {
    let now = Timestamp { secs: 5, nanos: 0 };
    for status in ["succeeded", "failed"] {
        let r = TranscriptionServiceImpl::cancellation("T42", Some(task("transcription", status)), now);
        assert_eq!(message_of(r.unwrap_err()), "Cannot cancel completed task");
    }
    let (id, update) = TranscriptionServiceImpl::cancellation("T42", Some(task("transcription", "running")), now).unwrap();
    assert_eq!(id, 42);
    assert_eq!(update.status, Some(TaskStatus::Cancelled));
    assert_eq!(update.completed_at, Some(now));
    assert!(update.progress.is_none());
    let again = SpeechServiceImpl::cancellation("T42", Some(task("speech", "cancelled")), now);
    assert!(again.is_ok());
}

#[test]
fn cancelling_a_task_of_another_service_is_refused() {
    let now = Timestamp { secs: 5, nanos: 0 };
    let r = TranslationServiceImpl::cancellation("T42", Some(task("speech", "running")), now);
    assert_eq!(message_of(r.unwrap_err()), "Task is not a translation task");
    let r = SoundEffectServiceImpl::cancellation("T42", Some(task("speech", "running")), now);
    assert_eq!(message_of(r.unwrap_err()), "Task is not a sound effect task");
    let r = TranscriptionServiceImpl::cancellation("T42", None, now);
    assert!(matches!(r, Err(ServiceError::TaskNotFound { .. })));
}

#[test]
fn results_are_read_only_from_tasks_of_the_service() {
    let mut t = task("sound_effect", "succeeded");
    t.result_json = Some(
        "{\"audioUrl\":\"drive://x\",\"durationMs\":3000,\"fileSizeBytes\":10,\"format\":\"wav\",\"mimeType\":\"audio/wav\",\"sampleRate\":4294971396}"
            .to_string(),
    );
    let v = SoundEffectServiceImpl::sound_effect_result(&t).unwrap();
    assert_eq!(v.task_id, "42");
    assert_eq!(v.sample_rate, Some(4100));
    assert_eq!(v.audio_url.as_deref(), Some("drive://x"));
    assert_eq!(v.duration_ms, Some(3000));
    assert_eq!(v.file_size_bytes, Some(10));
    assert_eq!(v.mime_type.as_deref(), Some("audio/wav"));
    assert_eq!(v.format.as_deref(), Some("wav"));
    let refused = SoundEffectServiceImpl::sound_effect_result(&task("speech", "succeeded"));
    assert_eq!(message_of(refused.unwrap_err()), "Task is not a sound effect task");
    let h = TranscriptionServiceImpl::result_header(&task("speech", "queued"));
    assert_eq!(message_of(h.unwrap_err()), "Task is not a transcription task");
    let h = TranslationServiceImpl::result_header(&task("translation", "queued")).unwrap();
    assert_eq!(h.task_no, "T42");
    assert_eq!(h.estimated_duration_ms, None);
}

#[test]
fn speech_results_read_the_stored_document() {
    let mut t = task("speech", "succeeded");
    t.result_json = Some(
        "{\"channels\":1,\"driveNodeId\":\"n\",\"driveSpaceId\":\"s\",\"durationMs\":2500,\"fileSizeBytes\":1024,\"sampleRate\":24000}"
            .to_string(),
    );
    let s = SpeechServiceImpl::speech_result(t);
    assert_eq!(s.status, "succeeded");
    assert_eq!(s.duration_ms, Some(2500));
    assert_eq!(s.file_size_bytes, Some(1024));
    assert_eq!(s.audio_url, None);
    assert_eq!(s.mime_type, None);
    let mut bad = task("speech", "running");
    bad.result_json = Some("not json".to_string());
    let s = SpeechServiceImpl::speech_result(bad);
    assert_eq!(s.duration_ms, None);
    let s = SpeechServiceImpl::speech_result(task("speech", "queued"));
    assert_eq!(s.file_size_bytes, None);
}

#[test]
fn transcription_and_translation_results_read_the_stored_document() {
    let mut t = task("transcription", "succeeded");
    t.result_json = Some(
        "{\"text\":\"hi\",\"language\":\"en\",\"confidence\":0.9,\"outputUrl\":\"drive://o\",\"durationMs\":\"7\"}".to_string(),
    );
    let r = TranscriptionServiceImpl::transcription_result(&t).unwrap();
    assert_eq!(r.text.as_deref(), Some("hi"));
    assert_eq!(r.language.as_deref(), Some("en"));
    assert_eq!(r.output_url.as_deref(), Some("drive://o"));
    assert_eq!(r.duration_ms, None);
    let refused = TranscriptionServiceImpl::transcription_result(&task("translation", "queued"));
    assert_eq!(message_of(refused.unwrap_err()), "Task is not a transcription task");
    let mut u = task("translation", "succeeded");
    u.result_json = Some(
        "{\"sourceText\":\"hola\",\"translatedText\":\"hello\",\"sourceLanguage\":\"es\",\"targetLanguage\":\"en\",\"outputUrl\":\"d\"}"
            .to_string(),
    );
    let r = TranslationServiceImpl::translation_result(&u).unwrap();
    assert_eq!(r.source_text.as_deref(), Some("hola"));
    assert_eq!(r.translated_text.as_deref(), Some("hello"));
    assert_eq!(r.source_language.as_deref(), Some("es"));
    assert_eq!(r.target_language.as_deref(), Some("en"));
    assert_eq!(r.output_url.as_deref(), Some("d"));
}

#[test]
fn details_fall_back_to_default_requests() {
    let t = task("transcription", "queued");
    let r = TranscriptionServiceImpl::request_params(&t, None);
    assert_eq!(r.tenant_id, 1);
    assert_eq!(r.audio_url, "");
    assert_eq!(r.output_format, OutputFormat::JSON);
    assert!(r.detect_language && r.include_words);
    let s = SoundEffectServiceImpl::request_params(&t, None);
    assert_eq!(s.intensity, "0.5");
    assert_eq!(s.audio_format, AudioFormat::WAV);
    assert_eq!(s.sample_rate, 44100);
    let tr = TranslationServiceImpl::request_params(&t, None);
    assert_eq!(tr.target_language, "");
    assert!(tr.include_timestamps);
    let summary = summarize(&t);
    assert_eq!(summary.task_id, "42");
    assert_eq!(summary.progress, 55);
    assert_eq!(summary.created_at, "1970-01-01T00:00:00+00:00");
    assert_eq!(summary.completed_at.as_deref(), Some("1970-01-02T00:00:00+00:00"));
}

#[test]
fn sound_effect_detail_shows_task_request_and_result() {
    let mut t = task("sound_effect", "succeeded");
    t.result_json = Some("{\"audioUrl\":\"drive://fx\",\"durationMs\":1200}".to_string());
    let d = SoundEffectServiceImpl::sound_effect_detail(&t, Some(sound_request("rain"))).unwrap();
    assert_eq!(d.task_id, "42");
    assert_eq!(d.task_no, "T42");
    assert_eq!(d.status, "succeeded");
    assert_eq!(d.progress, 55);
    assert_eq!(d.created_at, "1970-01-01T00:00:00+00:00");
    assert_eq!(d.completed_at.as_deref(), Some("1970-01-02T00:00:00+00:00"));
    assert_eq!(d.request_params.description, "rain");
    let r = d.result.unwrap();
    assert_eq!(r.audio_url.as_deref(), Some("drive://fx"));
    assert_eq!(r.duration_ms, Some(1200));
    assert_eq!(r.sample_rate, None);
    let fallback = SoundEffectServiceImpl::sound_effect_detail(&task("sound_effect", "queued"), None).unwrap();
    assert_eq!(fallback.request_params.intensity, "0.5");
    assert_eq!(fallback.request_params.tenant_id, 1);
    let refused = SoundEffectServiceImpl::sound_effect_detail(&task("speech", "queued"), None);
    assert_eq!(message_of(refused.unwrap_err()), "Task is not a sound effect task");
}

#[test]
fn a_page_keeps_found_details_in_listing_order() {
    let page = list_page(vec![Some("a"), None, Some("c"), None, Some("e")], 7, true, Some("next".to_string()));
    assert_eq!(page.tasks, vec!["a", "c", "e"]);
    assert_eq!(page.total, 7);
    assert!(page.has_more);
    assert_eq!(page.next_cursor.as_deref(), Some("next"));
    let empty = list_page::<u8>(vec![None, None], 2, false, None);
    assert!(empty.tasks.is_empty());
    assert_eq!(empty.total, 2);
    assert!(!empty.has_more);
    assert_eq!(empty.next_cursor, None);
}

#[test]
fn listings_filter_by_operation_and_known_status() {
    let f = TranscriptionServiceImpl::list_filter(9, Some(3), &Some("running".to_string()));
    assert_eq!(f.operation_type, Some(OperationType::Transcription));
    assert_eq!(f.status, Some(TaskStatus::Running));
    let f = SoundEffectServiceImpl::list_filter(9, None, &Some("bogus".to_string()));
    assert_eq!(f.status, None);
    assert_eq!(f.tenant_id, Some(9));
    let f = TranslationServiceImpl::list_filter(9, None, &None);
    assert_eq!(f.operation_type, Some(OperationType::Translation));
}

#[test]
fn voice_listing_shows_active_voices_of_the_tenant() {
    let req = VoiceListRequest {
        tenant_id: 5,
        user_id: None,
        language: Some("en".to_string()),
        gender: None,
        voice_type: Some("cloned".to_string()),
        limit: 10,
        offset: 0,
    };
    let f = SpeechServiceImpl::voice_filter(&req);
    assert_eq!(f.status, Some(VoiceStatus::Active));
    assert_eq!(f.voice_type, Some(VoiceType::Cloned));
    assert_eq!(f.language.as_deref(), Some("en"));
    let t = Timestamp { secs: 0, nanos: 0 };
    let voice = AudioVoice {
        id: 77,
        voice_no: "V77".to_string(),
        tenant_id: 5,
        organization_id: 0,
        user_id: 1,
        name: "Nova".to_string(),
        description: None,
        language: "en".to_string(),
        gender: Some("female".to_string()),
        voice_type: "cloned".to_string(),
        provider_code: None,
        provider_voice_id: None,
        provider_config_json: None,
        clone_reference_url: None,
        clone_parameters_json: None,
        status: "active".to_string(),
        is_public: false,
        usage_count: 0,
        created_at: t,
        updated_at: t,
        deleted: false,
        version: 0,
    };
    let page = VoiceListResult { voices: vec![voice], total: 1, has_more: true, next_cursor: Some("1".to_string()) };
    let r = SpeechServiceImpl::voice_list(page);
    assert_eq!(r.voices.len(), 1);
    assert_eq!(r.voices[0].voice_id, "77");
    assert_eq!(r.voices[0].name, "Nova");
    assert!(r.voices[0].preview_url.is_none());
    assert!(r.has_more);
    assert_eq!(r.next_cursor.as_deref(), Some("1"));
}

#[test]
fn category_counts_agree_with_presets() {
    let presets = SoundEffectServiceImpl::get_presets().presets;
    let categories = SoundEffectServiceImpl::get_categories().categories;
    assert_eq!(presets.len(), 8);
    assert_eq!(categories.len(), 5);
    for c in &categories {
        let n = presets.iter().filter(|p| p.category == c.category_id).count();
        assert_eq!(n as u32, c.preset_count);
    }
    assert_eq!(presets[0].preset_id, "rain");
    assert_eq!(presets[0].tags, vec!["rain".to_string(), "weather".to_string(), "ambient".to_string()]);
    assert_eq!(presets[5].default_duration_ms, 100);
}

#[test]
fn supported_languages_are_listed_in_order() {
    let langs = TranslationServiceImpl::get_supported_languages().languages;
    assert_eq!(langs.len(), 12);
    assert_eq!(langs[0].code, "en");
    assert_eq!(langs[1].native_name, "\u{4e2d}\u{6587}");
    assert_eq!(langs[11].code, "hi");
}

#[test]
fn speech_result_document_reads_back() {
    let rec = SpeechResultRecord {
        duration_ms: 2500,
        sample_rate: 24000,
        channels: 1,
        file_size_bytes: 1024,
        drive_space_id: "s".to_string(),
        drive_node_id: "n\"q".to_string(),
    };
    let doc = rec.to_document();
    assert_eq!(
        doc,
        "{\"channels\":1,\"driveNodeId\":\"n\\\"q\",\"driveSpaceId\":\"s\",\"durationMs\":2500,\"fileSizeBytes\":1024,\"sampleRate\":24000}"
    );
    let mut t = task("speech", "succeeded");
    t.result_json = Some(doc);
    let v = SpeechServiceImpl::speech_result(t);
    assert_eq!(v.status, "succeeded");
    assert_eq!(v.duration_ms, Some(2500));
    assert_eq!(v.file_size_bytes, Some(1024));
    assert_eq!(v.audio_url, None);
    assert_eq!(v.mime_type, None);
}

#[test]
fn sound_effect_result_document_reads_back() {
    let rec = SoundEffectResultRecord {
        duration_ms: 3000,
        sample_rate: 48000,
        channels: 2,
        file_size_bytes: 77,
        format: "mp3".to_string(),
        mime_type: "audio/mpeg".to_string(),
        drive_space_id: "space".to_string(),
        drive_node_id: "node".to_string(),
        audio_url: "drive://fx/1".to_string(),
    };
    let doc = rec.to_document();
    assert_eq!(
        doc,
        "{\"audioUrl\":\"drive://fx/1\",\"channels\":2,\"driveNodeId\":\"node\",\"driveSpaceId\":\"space\",\"durationMs\":3000,\"fileSizeBytes\":77,\"format\":\"mp3\",\"mimeType\":\"audio/mpeg\",\"sampleRate\":48000}"
    );
    let mut t = task("sound_effect", "succeeded");
    t.result_json = Some(doc);
    let v = SoundEffectServiceImpl::sound_effect_result(&t).unwrap();
    assert_eq!(v.status, "succeeded");
    assert_eq!(v.audio_url.as_deref(), Some("drive://fx/1"));
    assert_eq!(v.format.as_deref(), Some("mp3"));
    assert_eq!(v.mime_type.as_deref(), Some("audio/mpeg"));
    assert_eq!(v.duration_ms, Some(3000));
    assert_eq!(v.file_size_bytes, Some(77));
    assert_eq!(v.sample_rate, Some(48000));
}

#[test]
fn media_resource_document_names_the_drive() {
    let m = MediaResource {
        drive_space_id: "s1".to_string(),
        drive_node_id: "n1".to_string(),
        drive_resource_uri: "drive://s1/n1".to_string(),
    };
    assert_eq!(
        m.to_document(),
        "{\"driveNodeId\":\"n1\",\"driveResourceUri\":\"drive://s1/n1\",\"driveSpaceId\":\"s1\",\"source\":\"drive\"}"
    );
}

#[test]
fn json_object_keeps_the_last_entry_per_key() {
    let doc = json_object(vec![
        ("a".to_string(), JsonScalar::Unsigned(1)),
        ("b".to_string(), JsonScalar::Text("x".to_string())),
        ("a".to_string(), JsonScalar::Text("y".to_string())),
    ]);
    assert_eq!(doc, "{\"a\":\"y\",\"b\":\"x\"}");
    assert_eq!(json_object(Vec::new()), "{}");
}
