//! The pipeline service: text goes through recognition, then translation, and comes out
//! as a transcript event.
use vstd::prelude::*;

use crate::pipeline::engines::{AsrEngine, Translator};
use crate::pipeline::events::{LanguageTag, TranscriptEvent};
use crate::text::{concat3, push_str, to_owned_string};

verus! {

/// A processed piece of text: the transcript event, and the message of the error event
/// to emit first when translation failed.
pub struct ProcessedText {
    pub event: TranscriptEvent,
    pub error_message: Option<String>,
}

/// The event's fixed parts: final, spanning 0 to 1200 ms, tagged with both languages.
pub open spec fn event_frame(e: TranscriptEvent, source_lang: Seq<char>, target_lang: Seq<char>) -> bool {
    &&& e.source_language matches Some(LanguageTag(s)) && s@ == source_lang
    &&& e.target_language matches Some(LanguageTag(t)) && t@ == target_lang
    &&& e.start_ms == 0
    &&& e.end_ms == 1200
    &&& e.is_final
}

/// The processed text carries the translator's answer: the translation when there is
/// one, and no error message; otherwise no translation, and the message
/// `translator <name> failed: <error>`.
pub open spec fn translated_as(r: ProcessedText, translation: Result<String, String>, name: Seq<char>) -> bool {
    match translation {
        Ok(t) => r.event.translated_text == Some(t) && r.error_message is None,
        Err(e) => r.event.translated_text is None && (r.error_message matches Some(m) && m@
            == "translator "@ + name + " failed: "@ + e@),
    }
}

/// A processed text carries exactly one of a translation and an error message: the
/// translation is the translator's own text when it answered, and it is missing exactly
/// when the translator failed.
pub proof fn law_translation_or_error(r: ProcessedText, translation: Result<String, String>, name: Seq<char>)
    requires
        translated_as(r, translation, name),
    ensures
        r.event.translated_text is Some <==> r.error_message is None,
        r.event.translated_text is Some <==> translation is Ok,
        translation matches Ok(t) ==> r.event.translated_text == Some(t),
{
}

/// Builds the result of processing from the transcript and the translator's answer: the
/// translation when there is one; otherwise none, and the message
/// `translator <name> failed: <error>`.
pub fn assemble_transcript(
    transcribed: String,
    translation: Result<String, String>,
    translator_name: &str,
    source_lang: &str,
    target_lang: &str,
) -> (r: ProcessedText)
    ensures
        r.event.source_text == transcribed,
        event_frame(r.event, source_lang@, target_lang@),
        translated_as(r, translation, translator_name@),
{
    let (translated_text, error_message) = match translation {
        Ok(t) => (Some(t), None),
        Err(e) => {
            let mut m = concat3("translator ", translator_name, " failed: ");
            push_str(&mut m, e.as_str());
            (None, Some(m))
        },
    };
    ProcessedText {
        event: TranscriptEvent {
            source_text: transcribed,
            translated_text,
            source_language: Some(LanguageTag(to_owned_string(source_lang))),
            target_language: Some(LanguageTag(to_owned_string(target_lang))),
            start_ms: 0,
            end_ms: 1200,
            is_final: true,
        },
        error_message,
    }
}

/// Recognition and translation engines working together.
pub struct PipelineService<A, T> {
    pub asr: A,
    pub translator: T,
}

impl<A: AsrEngine, T: Translator> PipelineService<A, T> {
    /// A service with the given engines.
    pub fn new(asr: A, translator: T) -> (r: Self)
        ensures
            r.asr == asr,
            r.translator == translator,
    {
        PipelineService { asr, translator }
    }

    /// Transcribes the text, translates the transcript into `target_lang`, and builds the
    /// transcript event; a failed translation leaves the event untranslated and gives the
    /// error event's message.
    pub fn process_text(&self, text: &str, source_lang: &str, target_lang: &str) -> (r: ProcessedText)
        ensures
            event_frame(r.event, source_lang@, target_lang@),
            call_ensures(A::transcribe_text, (&self.asr, text), r.event.source_text),
            exists|input: &str, translation: Result<String, String>, name: &'static str|
                #![trigger call_ensures(T::translate, (&self.translator, input, target_lang), translation), call_ensures(T::name, (&self.translator,), name)]
                {
                    &&& input@ == r.event.source_text@
                    &&& call_ensures(T::translate, (&self.translator, input, target_lang), translation)
                    &&& call_ensures(T::name, (&self.translator,), name)
                    &&& translated_as(r, translation, name@)
                },
    {
        let transcribed = self.asr.transcribe_text(text);
        let translation = self.translator.translate(transcribed.as_str(), target_lang);
        let name = self.translator.name();
        assemble_transcript(transcribed, translation, name, source_lang, target_lang)
    }
}

} // verus!
