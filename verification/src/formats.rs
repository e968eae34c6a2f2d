//! Formats that requests name: of input text, of produced audio and of
//! produced documents.

use vstd::prelude::*;

verus! {

/// Format of the text to synthesize.
#[derive(Debug, Clone, Copy, PartialEq, Eq, Structural)]
pub enum TextFormat {
    Plain,
    Ssml,
}

impl TextFormat {
    pub open spec fn text(self) -> Seq<char> {
        match self {
            TextFormat::Plain => "plain"@,
            TextFormat::Ssml => "ssml"@,
        }
    }

    pub fn as_str(&self) -> (r: &'static str)
        ensures
            r@ == self.text(),
    {
        match self {
            TextFormat::Plain => "plain",
            TextFormat::Ssml => "ssml",
        }
    }
}

/// Encoding of produced audio.
#[derive(Debug, Clone, Copy, PartialEq, Eq, Structural)]
pub enum AudioFormat {
    MP3,
    WAV,
    OGG,
    FLAC,
}

impl AudioFormat {
    pub open spec fn text(self) -> Seq<char> {
        match self {
            AudioFormat::MP3 => "mp3"@,
            AudioFormat::WAV => "wav"@,
            AudioFormat::OGG => "ogg"@,
            AudioFormat::FLAC => "flac"@,
        }
    }

    pub open spec fn mime(self) -> Seq<char> {
        match self {
            AudioFormat::MP3 => "audio/mpeg"@,
            AudioFormat::WAV => "audio/wav"@,
            AudioFormat::OGG => "audio/ogg"@,
            AudioFormat::FLAC => "audio/flac"@,
        }
    }

    pub fn as_str(&self) -> (r: &'static str)
        ensures
            r@ == self.text(),
    {
        match self {
            AudioFormat::MP3 => "mp3",
            AudioFormat::WAV => "wav",
            AudioFormat::OGG => "ogg",
            AudioFormat::FLAC => "flac",
        }
    }

    pub fn mime_type(&self) -> (r: &'static str)
        ensures
            r@ == self.mime(),
    {
        match self {
            AudioFormat::MP3 => "audio/mpeg",
            AudioFormat::WAV => "audio/wav",
            AudioFormat::OGG => "audio/ogg",
            AudioFormat::FLAC => "audio/flac",
        }
    }
}

/// Format of a produced transcript or translation document.
#[derive(Debug, Clone, Copy, PartialEq, Eq, Structural)]
pub enum OutputFormat {
    JSON,
    SRT,
    VTT,
    TXT,
}

impl OutputFormat {
    pub open spec fn text(self) -> Seq<char> {
        match self {
            OutputFormat::JSON => "json"@,
            OutputFormat::SRT => "srt"@,
            OutputFormat::VTT => "vtt"@,
            OutputFormat::TXT => "txt"@,
        }
    }

    /// The media type under which a document of this format is stored.
    pub open spec fn mime(self) -> Seq<char> {
        match self {
            OutputFormat::JSON => "application/json"@,
            OutputFormat::SRT => "text/srt"@,
            OutputFormat::VTT => "text/vtt"@,
            OutputFormat::TXT => "text/plain"@,
        }
    }

    pub fn as_str(&self) -> (r: &'static str)
        ensures
            r@ == self.text(),
    {
        match self {
            OutputFormat::JSON => "json",
            OutputFormat::SRT => "srt",
            OutputFormat::VTT => "vtt",
            OutputFormat::TXT => "txt",
        }
    }

    pub fn mime_type(&self) -> (r: &'static str)
        ensures
            r@ == self.mime(),
    {
        match self {
            OutputFormat::JSON => "application/json",
            OutputFormat::SRT => "text/srt",
            OutputFormat::VTT => "text/vtt",
            OutputFormat::TXT => "text/plain",
        }
    }
}

/// Each document format is stored under its own media type and extension:
/// JSON as `application/json`, SRT as `text/srt`, WebVTT as `text/vtt` and
/// plain text as `text/plain`, with the extensions `json`, `srt`, `vtt` and
/// `txt`; two different formats never share a media type.
pub proof fn output_format_media_types(f: OutputFormat, g: OutputFormat)
    ensures
        f == OutputFormat::JSON ==> f.mime() == "application/json"@ && f.text() == "json"@,
        f == OutputFormat::SRT ==> f.mime() == "text/srt"@ && f.text() == "srt"@,
        f == OutputFormat::VTT ==> f.mime() == "text/vtt"@ && f.text() == "vtt"@,
        f == OutputFormat::TXT ==> f.mime() == "text/plain"@ && f.text() == "txt"@,
        f != g ==> f.mime() != g.mime(),
{
    reveal_strlit("application/json");
    reveal_strlit("text/srt");
    reveal_strlit("text/vtt");
    reveal_strlit("text/plain");
    assert("application/json"@[0] != "text/srt"@[0]);
    assert("application/json"@[0] != "text/vtt"@[0]);
    assert("application/json"@[0] != "text/plain"@[0]);
    assert("text/srt"@[5] != "text/vtt"@[5]);
    assert("text/srt"@.len() != "text/plain"@.len());
    assert("text/vtt"@.len() != "text/plain"@.len());
}

/// The names under which each text format is stored: `plain`, `ssml`.
pub proof fn text_format_names()
    ensures
        TextFormat::Plain.text() == "plain"@,
        TextFormat::Ssml.text() == "ssml"@,
{
}

/// The names under which each audio format is stored: `mp3`, `wav`, `ogg`, `flac`,
/// each with its media type: `audio/mpeg`, `audio/wav`, `audio/ogg`, `audio/flac`.
pub proof fn audio_format_names()
    ensures
        AudioFormat::MP3.text() == "mp3"@ && AudioFormat::MP3.mime() == "audio/mpeg"@,
        AudioFormat::WAV.text() == "wav"@ && AudioFormat::WAV.mime() == "audio/wav"@,
        AudioFormat::OGG.text() == "ogg"@ && AudioFormat::OGG.mime() == "audio/ogg"@,
        AudioFormat::FLAC.text() == "flac"@ && AudioFormat::FLAC.mime() == "audio/flac"@,
{
}

} // verus!
