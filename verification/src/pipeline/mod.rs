//! The subtitle pipeline: recognition and translation engines, their registry, and the
//! events the pipeline emits.
pub mod engines;
pub mod events;

pub use engines::{
    AsrEngine, MockAsrEngine, MockAsrProvider, MockTranslator, MockTranslatorProvider,
    PassthroughTranslator, PassthroughTranslatorProvider, Translator,
};
pub use events::{DaemonEvent, LanguageTag, TranscriptEvent};
pub mod online;
pub mod providers;
pub mod vibevoice;

pub use online::{DeepLTranslatorProvider, HttpReply, LibreTranslateProvider};
pub use providers::{
    asr_file_providers, asr_text_providers, build_file_asr, build_file_asr_vibevoice,
    build_text_asr, build_translator, translator_providers, FileAsrBuildContext, FileAsrProvider,
    ProviderDescriptor, ProviderMode, TextAsrProvider, TranslatorBuildContext, TranslatorProvider,
};
pub use vibevoice::VibeVoiceFileAsrProvider;
pub mod service;

pub use service::{assemble_transcript, PipelineService, ProcessedText};
