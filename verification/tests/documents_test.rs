//! Clock times, subtitle documents, digests and instants.

use sdkwork_audio::clock::Timestamp;
use sdkwork_audio::formats::{AudioFormat, OutputFormat, TextFormat};
use sdkwork_audio::sound_effect::{SoundEffectRequest, SoundEffectServiceImpl};
use sdkwork_audio::speech::{SpeechServiceImpl, SpeechSynthesisRequest};
use sdkwork_audio::subtitles::{render_srt, render_vtt, Segment};
use sdkwork_audio::text::i64_text;
use sdkwork_audio::transcription::{TranscriptionRequest, TranscriptionServiceImpl};
use sdkwork_audio::translation::{render_translation, TranslationOutput, TranslationRequest, TranslationServiceImpl};

#[test]
fn srt_and_vtt_clock_times() {
    assert_eq!(TranscriptionServiceImpl::format_srt_time(0), "00:00:00,000");
    assert_eq!(TranscriptionServiceImpl::format_srt_time(3_723_004), "01:02:03,004");
    assert_eq!(TranscriptionServiceImpl::format_vtt_time(3_723_004), "01:02:03.004");
    assert_eq!(TranscriptionServiceImpl::format_vtt_time(59_999), "00:00:59.999");
    assert_eq!(TranscriptionServiceImpl::format_srt_time(360_000_000), "100:00:00,000");
}

#[test]
fn srt_document_numbers_cues_from_one() {
    let segs = vec![
        Segment { start_ms: 0, end_ms: 1500, text: "Hello".to_string() },
        Segment { start_ms: 1500, end_ms: 3000, text: "world".to_string() },
    ];
    assert_eq!(
        render_srt(&segs),
        "1\n00:00:00,000 --> 00:00:01,500\nHello\n\n2\n00:00:01,500 --> 00:00:03,000\nworld\n\n"
    );
    assert_eq!(render_srt(&Vec::new()), "");
}

#[test]
fn vtt_document_has_header_and_cues() {
    let segs = vec![Segment { start_ms: 61_000, end_ms: 62_250, text: "Hi".to_string() }];
    assert_eq!(render_vtt(&segs), "WEBVTT\n\n00:01:01.000 --> 00:01:02.250\nHi\n\n");
    assert_eq!(render_vtt(&Vec::new()), "WEBVTT\n\n");
}

#[test]
fn translation_documents_per_format() {
    let out = TranslationOutput {
        source_text: "hola".to_string(),
        translated_text: "hello".to_string(),
        json_document: "{\"x\": 1}".to_string(),
    };
    assert_eq!(render_translation(OutputFormat::SRT, &out), "1\n00:00:00,000 --> 00:00:10,000\nhello\n");
    assert_eq!(render_translation(OutputFormat::VTT, &out), "WEBVTT\n\n00:00:00.000 --> 00:00:10.000\nhello\n");
    assert_eq!(render_translation(OutputFormat::TXT, &out), "hello");
    assert_eq!(render_translation(OutputFormat::JSON, &out), "{\"x\": 1}");
}

#[test]
fn transcription_digest_is_sha256_hex_of_fields() {
    let r = TranscriptionRequest {
        tenant_id: 1,
        organization_id: 2,
        user_id: 3,
        audio_url: "a".to_string(),
        language: None,
        detect_language: false,
        enable_timestamps: false,
        enable_speaker_diarization: false,
        max_speakers: None,
        output_format: OutputFormat::TXT,
        include_confidence: false,
        include_words: false,
        idempotency_key: None,
    };
    assert_eq!(TranscriptionServiceImpl::calculate_input_hash(&r).len(), 64);
    assert_eq!(
        TranscriptionServiceImpl::calculate_input_hash(&r),
        "0901f48eaf242ce58d7773c0f099f34fe5d35f6193cf5996df5b7cf3043cd8a0"
    );
}

#[test]
fn speech_digest_is_sha256_hex_of_fields() {
    let r = SpeechSynthesisRequest {
        tenant_id: 100_001,
        organization_id: 0,
        user_id: 1,
        text: "Hello, world!".to_string(),
        text_format: TextFormat::Plain,
        language: Some("en".to_string()),
        voice_id: Some("voice-123".to_string()),
        speed: 1.0f32.to_string(),
        pitch: 1.0f32.to_string(),
        volume: 1.0f32.to_string(),
        emotion: Some("neutral".to_string()),
        emotion_intensity: 0.5f32.to_string(),
        audio_format: AudioFormat::MP3,
        sample_rate: 24000,
        idempotency_key: None,
    };
    assert_eq!(
        SpeechServiceImpl::calculate_input_hash(&r),
        "ee65eed8d7384f44da22c2fb4ec84937bdff42d953e85a8a6bac86371b12621a"
    );
}

#[test]
fn sound_effect_and_translation_digests() {
    let s = SoundEffectRequest {
        tenant_id: 1,
        organization_id: 0,
        user_id: 1,
        vendor: None,
        model: None,
        description: "rain".to_string(),
        duration_ms: Some(5000),
        style: Some("gentle".to_string()),
        intensity: 0.5f32.to_string(),
        audio_format: AudioFormat::WAV,
        sample_rate: 44100,
        idempotency_key: None,
        vendor_parameters: None,
    };
    assert_eq!(
        SoundEffectServiceImpl::calculate_input_hash(&s),
        "63d0b68701ac89f2d7d58a0c8a631c5a84d64d4cc4f5f4a8df5d334ee4495f78"
    );
    let t = TranslationRequest {
        tenant_id: 1,
        organization_id: 0,
        user_id: 1,
        audio_url: "http://x/a.wav".to_string(),
        source_language: Some("zh".to_string()),
        target_language: "en".to_string(),
        output_format: OutputFormat::JSON,
        include_timestamps: true,
        idempotency_key: None,
    };
    assert_eq!(
        TranslationServiceImpl::calculate_input_hash(&t),
        "59ec7f0ce65adb3f2290e435b563788cc8293df31953671d80c4a2335db8f6a8"
    );
}

#[test]
fn instants_are_written_in_rfc3339() {
    assert_eq!(Timestamp { secs: 0, nanos: 0 }.to_rfc3339(), "1970-01-01T00:00:00+00:00");
    assert_eq!(Timestamp { secs: 1_700_000_000, nanos: 500_000_000 }.to_rfc3339(), "2023-11-14T22:13:20.500+00:00");
    assert_eq!(Timestamp { secs: i64::MAX, nanos: 0 }.to_rfc3339(), "");
}

#[test]
fn integers_in_decimal() {
    assert_eq!(i64_text(0), "0");
    assert_eq!(i64_text(1234), "1234");
    assert_eq!(i64_text(-42), "-42");
    assert_eq!(i64_text(i64::MIN), "-9223372036854775808");
}
