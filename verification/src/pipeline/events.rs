//! The events the pipeline emits.
use vstd::prelude::*;

verus! {

/// A language code, such as `zh`, or `auto` for detection.
pub struct LanguageTag(pub String);

/// A transcribed (and possibly translated) piece of speech.
pub struct TranscriptEvent {
    pub source_text: String,
    pub translated_text: Option<String>,
    pub source_language: Option<LanguageTag>,
    pub target_language: Option<LanguageTag>,
    pub start_ms: u64,
    pub end_ms: u64,
    pub is_final: bool,
}

/// What the daemon streams to overlay clients, each with the time it was emitted
/// (milliseconds since the Unix epoch).
pub enum DaemonEvent {
    Status { message: String, emitted_at_ms: u64 },
    Transcript { payload: TranscriptEvent, emitted_at_ms: u64 },
    Error { message: String, emitted_at_ms: u64 },
}

} // verus!
