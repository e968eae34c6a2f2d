//! Task, artifact and voice model of the audio generation services, with the
//! decisions that the speech, transcription, translation and sound-effect
//! services take around their repositories, engines and storage.

pub mod text;
pub mod clock;
pub mod digest;
pub mod document;
pub mod formats;
pub mod task;
pub mod artifact;
pub mod voice;
pub mod lifecycle;
pub mod pipeline;
pub mod speech;
pub mod subtitles;
pub mod transcription;
pub mod translation;
pub mod sound_effect;
pub mod catalog;
