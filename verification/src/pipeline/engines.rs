//! The engine interfaces of the pipeline (speech recognition on text, translation) and
//! the built-in engines that need no outside service.
use vstd::prelude::*;

use crate::text::{concat3, push_str, to_owned_string, trim, trim_ws};

verus! {

/// Recognition that turns input text into transcript text.
pub trait AsrEngine {
    /// The engine's identifier.
    fn name(&self) -> &'static str;

    /// The transcript of the input.
    fn transcribe_text(&self, input: &str) -> String;
}

/// Translation into a target language.
pub trait Translator {
    /// The translator's identifier.
    fn name(&self) -> &'static str;

    /// The input translated into `target_lang`, or why that failed.
    fn translate(&self, input: &str, target_lang: &str) -> Result<String, String>;
}

/// What the mock translators return: the input behind the target language in brackets.
pub open spec fn mock_translation(input: Seq<char>, target_lang: Seq<char>) -> Seq<char> {
    "["@ + target_lang + "] "@ + input
}

/// Builds the mock translation.
fn mock_translate(input: &str, target_lang: &str) -> (r: String)
    ensures
        r@ == mock_translation(input@, target_lang@),
{
    let mut r = concat3("[", target_lang, "] ");
    push_str(&mut r, input);
    r
}

/// A recognition engine for tests: the transcript is the input without surrounding
/// whitespace.
pub struct MockAsrEngine;

impl AsrEngine for MockAsrEngine {
    fn name(&self) -> (r: &'static str)
        ensures
            r@ == "mock-asr"@,
    {
        "mock-asr"
    }

    fn transcribe_text(&self, input: &str) -> (r: String)
        ensures
            r@ == trim_ws(input@),
    {
        trim(input)
    }
}

/// A translator for tests: `[<target>] <input>`.
pub struct MockTranslator;

impl Translator for MockTranslator {
    fn name(&self) -> (r: &'static str)
        ensures
            r@ == "mock-translator"@,
    {
        "mock-translator"
    }

    fn translate(&self, input: &str, target_lang: &str) -> (r: Result<String, String>)
        ensures
            r matches Ok(t) && t@ == mock_translation(input@, target_lang@),
    {
        Ok(mock_translate(input, target_lang))
    }
}

/// A translator that returns its input unchanged.
pub struct PassthroughTranslator;

impl Translator for PassthroughTranslator {
    fn name(&self) -> (r: &'static str)
        ensures
            r@ == "passthrough"@,
    {
        "passthrough"
    }

    fn translate(&self, input: &str, target_lang: &str) -> (r: Result<String, String>)
        ensures
            r matches Ok(t) && t@ == input@,
    {
        Ok(to_owned_string(input))
    }
}

/// The mock recognition provider of the provider registry: the input without
/// surrounding whitespace.
pub struct MockAsrProvider;

impl AsrEngine for MockAsrProvider {
    fn name(&self) -> (r: &'static str)
        ensures
            r@ == "mock-asr"@,
    {
        "mock-asr"
    }

    fn transcribe_text(&self, input: &str) -> (r: String)
        ensures
            r@ == trim_ws(input@),
    {
        trim(input)
    }
}

/// The mock translation provider of the provider registry: `[<target>] <input>`.
pub struct MockTranslatorProvider;

impl Translator for MockTranslatorProvider {
    fn name(&self) -> (r: &'static str)
        ensures
            r@ == "mock-translator"@,
    {
        "mock-translator"
    }

    fn translate(&self, input: &str, target_lang: &str) -> (r: Result<String, String>)
        ensures
            r matches Ok(t) && t@ == mock_translation(input@, target_lang@),
    {
        Ok(mock_translate(input, target_lang))
    }
}

/// The pass-through provider of the provider registry: the input unchanged.
pub struct PassthroughTranslatorProvider;

impl Translator for PassthroughTranslatorProvider {
    fn name(&self) -> (r: &'static str)
        ensures
            r@ == "passthrough"@,
    {
        "passthrough"
    }

    fn translate(&self, input: &str, target_lang: &str) -> (r: Result<String, String>)
        ensures
            r matches Ok(t) && t@ == input@,
    {
        Ok(to_owned_string(input))
    }
}

} // verus!
