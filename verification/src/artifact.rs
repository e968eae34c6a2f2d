//! Audio artifacts: their kind vocabularies, the stored record and the
//! requests that create and select artifacts.

use vstd::prelude::*;
use crate::text::str_eq;
use crate::clock::Timestamp;

verus! {

/// Artifact kind
#[derive(Debug, Clone, Copy, PartialEq, Eq, Structural)]
pub enum ArtifactKind {
    Audio,
    Text,
    Subtitle,
    Waveform,
    Metadata,
}

impl ArtifactKind {
    /// The stored text of the value.
    pub open spec fn text(self) -> Seq<char> {
        match self {
            ArtifactKind::Audio => "audio"@,
            ArtifactKind::Text => "text"@,
            ArtifactKind::Subtitle => "subtitle"@,
            ArtifactKind::Waveform => "waveform"@,
            ArtifactKind::Metadata => "metadata"@,
        }
    }

    /// The value whose stored text is `s`, if any.
    pub open spec fn parse(s: Seq<char>) -> Option<ArtifactKind> {
        if s == "audio"@ {
            Some(ArtifactKind::Audio)
        } else if s == "text"@ {
            Some(ArtifactKind::Text)
        } else if s == "subtitle"@ {
            Some(ArtifactKind::Subtitle)
        } else if s == "waveform"@ {
            Some(ArtifactKind::Waveform)
        } else if s == "metadata"@ {
            Some(ArtifactKind::Metadata)
        } else {
            None
        }
    }

    pub fn as_str(&self) -> (r: &'static str)
        ensures
            r@ == self.text(),
    {
        match self {
            ArtifactKind::Audio => "audio",
            ArtifactKind::Text => "text",
            ArtifactKind::Subtitle => "subtitle",
            ArtifactKind::Waveform => "waveform",
            ArtifactKind::Metadata => "metadata",
        }
    }

    pub fn from_str(s: &str) -> (r: Option<Self>)
        ensures
            r == Self::parse(s@),
    {
        if str_eq(s, "audio") {
            Some(ArtifactKind::Audio)
        } else if str_eq(s, "text") {
            Some(ArtifactKind::Text)
        } else if str_eq(s, "subtitle") {
            Some(ArtifactKind::Subtitle)
        } else if str_eq(s, "waveform") {
            Some(ArtifactKind::Waveform)
        } else if str_eq(s, "metadata") {
            Some(ArtifactKind::Metadata)
        } else {
            None
        }
    }
}

/// Parsing the stored text of a value gives that value back.
pub proof fn artifact_kind_round_trip(k: ArtifactKind)
    ensures
        ArtifactKind::parse(k.text()) == Some(k),
{
        reveal_strlit("audio");
        reveal_strlit("text");
        reveal_strlit("subtitle");
        reveal_strlit("waveform");
        reveal_strlit("metadata");
        assert("audio"@.len() != "text"@.len());
        assert("audio"@.len() != "subtitle"@.len());
        assert("audio"@.len() != "waveform"@.len());
        assert("audio"@.len() != "metadata"@.len());
        assert("text"@.len() != "subtitle"@.len());
        assert("text"@.len() != "waveform"@.len());
        assert("text"@.len() != "metadata"@.len());
        assert("subtitle"@[0] != "waveform"@[0]);
        assert("subtitle"@[0] != "metadata"@[0]);
        assert("waveform"@[0] != "metadata"@[0]);
}

/// Whatever parses to a value is exactly that value's stored text.
pub proof fn artifact_kind_parse_exact(s: Seq<char>)
    ensures
        ArtifactKind::parse(s) matches Some(k) ==> k.text() == s,
{
}

/// Distinct values are stored as distinct texts.
pub proof fn artifact_kind_text_injective(a: ArtifactKind, b: ArtifactKind)
    ensures
        a.text() == b.text() ==> a == b,
{
    artifact_kind_round_trip(a);
    artifact_kind_round_trip(b);
}

/// Media kind
#[derive(Debug, Clone, Copy, PartialEq, Eq, Structural)]
pub enum MediaKind {
    Speech,
    Transcription,
    Translation,
    SoundEffect,
    Music,
}

impl MediaKind {
    /// The stored text of the value.
    pub open spec fn text(self) -> Seq<char> {
        match self {
            MediaKind::Speech => "speech"@,
            MediaKind::Transcription => "transcription"@,
            MediaKind::Translation => "translation"@,
            MediaKind::SoundEffect => "sound_effect"@,
            MediaKind::Music => "music"@,
        }
    }

    /// The value whose stored text is `s`, if any.
    pub open spec fn parse(s: Seq<char>) -> Option<MediaKind> {
        if s == "speech"@ {
            Some(MediaKind::Speech)
        } else if s == "transcription"@ {
            Some(MediaKind::Transcription)
        } else if s == "translation"@ {
            Some(MediaKind::Translation)
        } else if s == "sound_effect"@ {
            Some(MediaKind::SoundEffect)
        } else if s == "music"@ {
            Some(MediaKind::Music)
        } else {
            None
        }
    }

    pub fn as_str(&self) -> (r: &'static str)
        ensures
            r@ == self.text(),
    {
        match self {
            MediaKind::Speech => "speech",
            MediaKind::Transcription => "transcription",
            MediaKind::Translation => "translation",
            MediaKind::SoundEffect => "sound_effect",
            MediaKind::Music => "music",
        }
    }

    pub fn from_str(s: &str) -> (r: Option<Self>)
        ensures
            r == Self::parse(s@),
    {
        if str_eq(s, "speech") {
            Some(MediaKind::Speech)
        } else if str_eq(s, "transcription") {
            Some(MediaKind::Transcription)
        } else if str_eq(s, "translation") {
            Some(MediaKind::Translation)
        } else if str_eq(s, "sound_effect") {
            Some(MediaKind::SoundEffect)
        } else if str_eq(s, "music") {
            Some(MediaKind::Music)
        } else {
            None
        }
    }
}

/// Parsing the stored text of a value gives that value back.
pub proof fn media_kind_round_trip(k: MediaKind)
    ensures
        MediaKind::parse(k.text()) == Some(k),
{
        reveal_strlit("speech");
        reveal_strlit("transcription");
        reveal_strlit("translation");
        reveal_strlit("sound_effect");
        reveal_strlit("music");
        assert("speech"@.len() != "transcription"@.len());
        assert("speech"@.len() != "translation"@.len());
        assert("speech"@.len() != "sound_effect"@.len());
        assert("speech"@.len() != "music"@.len());
        assert("transcription"@.len() != "translation"@.len());
        assert("transcription"@.len() != "sound_effect"@.len());
        assert("transcription"@.len() != "music"@.len());
        assert("translation"@.len() != "sound_effect"@.len());
        assert("translation"@.len() != "music"@.len());
        assert("sound_effect"@.len() != "music"@.len());
}

/// Whatever parses to a value is exactly that value's stored text.
pub proof fn media_kind_parse_exact(s: Seq<char>)
    ensures
        MediaKind::parse(s) matches Some(k) ==> k.text() == s,
{
}

/// Distinct values are stored as distinct texts.
pub proof fn media_kind_text_injective(a: MediaKind, b: MediaKind)
    ensures
        a.text() == b.text() ==> a == b,
{
    media_kind_round_trip(a);
    media_kind_round_trip(b);
}

/// Audio artifact entity
#[derive(Debug, Clone)]
pub struct AudioArtifact {
    pub id: i64,
    pub artifact_no: String,
    pub task_id: Option<i64>,
    pub request_id: Option<String>,
    pub kind: String,
    pub artifact_type: Option<String>,
    pub title: Option<String>,
    pub voice_id: Option<String>,
    pub provider_code: Option<String>,
    pub provider_asset_id: Option<String>,
    pub artifact_index: i32,
    pub format: Option<String>,
    pub mime_type: Option<String>,
    pub duration_seconds: Option<i32>,
    pub checksum_json: Option<String>,
    pub transcript_text: Option<String>,
    pub translation_text: Option<String>,
    pub media_resource_json: String,
    pub resource_snapshot_json: Option<String>,
    pub status: String,
    pub created_at: Timestamp,
    pub updated_at: Timestamp,
    pub deleted: bool,
    pub version: i64,
}

/// Create artifact request
#[derive(Debug, Clone)]
pub struct CreateArtifactRequest {
    pub task_id: Option<i64>,
    pub request_id: Option<String>,
    pub kind: ArtifactKind,
    pub artifact_type: Option<String>,
    pub title: Option<String>,
    pub voice_id: Option<String>,
    pub provider_code: Option<String>,
    pub provider_asset_id: Option<String>,
    pub artifact_index: i32,
    pub format: Option<String>,
    pub mime_type: Option<String>,
    pub duration_seconds: Option<i32>,
    pub transcript_text: Option<String>,
    pub translation_text: Option<String>,
    pub media_resource_json: String,
}

/// Artifact filter
#[derive(Debug, Clone)]
pub struct ArtifactFilter {
    pub task_id: Option<i64>,
    pub kind: Option<ArtifactKind>,
    pub media_kind: Option<MediaKind>,
    pub status: Option<String>,
    pub created_after: Option<Timestamp>,
    pub created_before: Option<Timestamp>,
}

/// Artifact list result
#[derive(Debug, Clone)]
pub struct ArtifactListResult {
    pub artifacts: Vec<AudioArtifact>,
    pub total: i64,
    pub has_more: bool,
    pub next_cursor: Option<String>,
}

/// The names under which each artifact kind is stored: `audio`, `text`, `subtitle`, `waveform`, `metadata`.
pub proof fn artifact_kind_names()
    ensures
        ArtifactKind::Audio.text() == "audio"@,
        ArtifactKind::Text.text() == "text"@,
        ArtifactKind::Subtitle.text() == "subtitle"@,
        ArtifactKind::Waveform.text() == "waveform"@,
        ArtifactKind::Metadata.text() == "metadata"@,
{
}

/// The names under which each media kind is stored: `speech`, `transcription`, `translation`, `sound_effect`, `music`.
pub proof fn media_kind_names()
    ensures
        MediaKind::Speech.text() == "speech"@,
        MediaKind::Transcription.text() == "transcription"@,
        MediaKind::Translation.text() == "translation"@,
        MediaKind::SoundEffect.text() == "sound_effect"@,
        MediaKind::Music.text() == "music"@,
{
}

} // verus!
