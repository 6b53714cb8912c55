use lyricwave::pipeline::engines::{
    AsrEngine, MockAsrEngine, MockAsrProvider, MockTranslator, MockTranslatorProvider,
    PassthroughTranslator, PassthroughTranslatorProvider, Translator,
};
use lyricwave::pipeline::online::{DeepLTranslatorProvider, HttpReply, LibreTranslateProvider};
use lyricwave::pipeline::providers::{
    asr_file_providers, asr_text_providers, build_file_asr, build_file_asr_vibevoice,
    build_text_asr, build_translator, translator_providers, FileAsrBuildContext, FileAsrProvider,
    ProviderMode, TranslatorBuildContext, TranslatorProvider,
};
use lyricwave::pipeline::service::{assemble_transcript, PipelineService};
use lyricwave::pipeline::vibevoice::{ProcessOutput, VibeVoiceFileAsrProvider};
use lyricwave::pipeline::LanguageTag;

fn no_settings() -> TranslatorBuildContext {
    TranslatorBuildContext {
        deepl_api_key: None,
        deepl_base_url: None,
        libretranslate_base_url: None,
        libretranslate_api_key: None,
    }
}

#[test]
fn mock_and_passthrough_engines() {
    assert_eq!(MockAsrEngine.transcribe_text("  hello \n"), "hello");
    assert_eq!(MockAsrProvider.name(), "mock-asr");
    assert_eq!(MockTranslator.translate("hello", "zh").unwrap(), "[zh] hello");
    assert_eq!(MockTranslatorProvider.translate("x", "ja").unwrap(), "[ja] x");
    assert_eq!(PassthroughTranslator.translate("same", "zh").unwrap(), "same");
    assert_eq!(PassthroughTranslatorProvider.name(), "passthrough");
}

#[test]
fn provider_catalogs() {
    let text = asr_text_providers();
    assert_eq!(text.len(), 1);
    assert_eq!(text[0].id, "mock");
    let files = asr_file_providers();
    let ids: Vec<&str> = files.iter().map(|p| p.id).collect();
    assert_eq!(ids, vec!["vibevoice", "openai", "deepgram"]);
    assert!(files[0].mode == ProviderMode::LocalOffline && files[0].requires_setup);
    let translators = translator_providers();
    let ids: Vec<&str> = translators.iter().map(|p| p.id).collect();
    assert_eq!(ids, vec!["mock", "passthrough", "deepl", "libretranslate"]);
    assert_eq!(translators[2].note, "DeepL API translation (requires DEEPL_API_KEY).");
    assert!(translators[3].mode == ProviderMode::OnlineApi && !translators[3].requires_setup);
}

#[test]
fn building_text_asr() {
    assert_eq!(build_text_asr("mock").ok().unwrap().transcribe_text(" a "), "a");
    match build_text_asr("whisper") {
        Err(m) => assert_eq!(m, "unknown text ASR provider: whisper"),
        Ok(_) => panic!("expected unknown provider"),
    }
}

#[test]
fn building_translators() {
    let mock = build_translator("mock", no_settings()).ok().unwrap();
    assert_eq!(mock.name(), "mock-translator");
    assert_eq!(mock.translate_local("hi", "zh").unwrap().unwrap(), "[zh] hi");
    let pass = build_translator("passthrough", no_settings()).ok().unwrap();
    assert_eq!(pass.translate_local("hi", "zh").unwrap().unwrap(), "hi");
    match build_translator("deepl", no_settings()) {
        Err(m) => assert_eq!(m, "missing DEEPL_API_KEY for deepl provider"),
        Ok(_) => panic!("expected missing key"),
    }
    let mut ctx = no_settings();
    ctx.deepl_api_key = Some("k".into());
    match build_translator("deepl", ctx).ok().unwrap() {
        TranslatorProvider::DeepL(p) => {
            assert_eq!(p.api_key, "k");
            assert_eq!(p.base_url, "https://api-free.deepl.com");
        }
        _ => panic!("expected deepl"),
    }
    match build_translator("libretranslate", no_settings()).ok().unwrap() {
        TranslatorProvider::LibreTranslate(p) => {
            assert_eq!(p.base_url, "http://127.0.0.1:5000");
            assert!(p.api_key.is_none());
        }
        _ => panic!("expected libretranslate"),
    }
    let mut ctx = no_settings();
    ctx.libretranslate_base_url = Some("https://lt.example/".into());
    ctx.libretranslate_api_key = Some("s".into());
    let lt = build_translator("libretranslate", ctx).ok().unwrap();
    assert_eq!(lt.name(), "libretranslate");
    assert!(lt.translate_local("x", "y").is_none());
    match build_translator("google", no_settings()) {
        Err(m) => assert_eq!(m, "unknown translator provider: google"),
        Ok(_) => panic!("expected unknown provider"),
    }
}

#[test]
fn building_file_asr() {
    let ctx = || FileAsrBuildContext { python_bin: "python3".into(), vibevoice_dir: None, model_path: "m".into() };
    match build_file_asr("vibevoice", ctx()) {
        Err(m) => assert_eq!(m, "--vibevoice-dir is required when --asr-provider vibevoice"),
        Ok(_) => panic!("expected missing dir"),
    }
    let mut with_dir = ctx();
    with_dir.vibevoice_dir = Some("/opt/VibeVoice".into());
    let FileAsrProvider::VibeVoice(p) = build_file_asr("vibevoice", with_dir).ok().unwrap();
    assert_eq!(p.repo_dir, "/opt/VibeVoice");
    assert_eq!(p.python_bin, "python3");
    match build_file_asr("openai", ctx()) {
        Err(m) => assert_eq!(m, "unknown file ASR provider: openai"),
        Ok(_) => panic!("expected unknown provider"),
    }
    let FileAsrProvider::VibeVoice(p) = build_file_asr_vibevoice("py".into(), "/r".into(), "mm".into());
    assert_eq!((p.python_bin.as_str(), p.repo_dir.as_str(), p.model_path.as_str()), ("py", "/r", "mm"));
}

#[test]
fn deepl_requests_and_replies() {
    let p = DeepLTranslatorProvider { api_key: "secret".into(), base_url: "https://api.deepl.com//".into() };
    assert_eq!(p.endpoint(), "https://api.deepl.com/v2/translate");
    assert_eq!(p.authorization(), "DeepL-Auth-Key secret");
    assert_eq!(
        DeepLTranslatorProvider::form("hello", "DE"),
        vec![("text".to_string(), "hello".to_string()), ("target_lang".to_string(), "DE".to_string())]
    );
    let ok = DeepLTranslatorProvider::translation(HttpReply::Parsed(Ok(vec!["hallo".into(), "x".into()])));
    assert_eq!(ok.unwrap(), "hallo");
    let empty = DeepLTranslatorProvider::translation(HttpReply::Parsed(Ok(Vec::new())));
    assert_eq!(empty.unwrap_err(), "DeepL response missing translations");
    let rejected = DeepLTranslatorProvider::translation(HttpReply::Rejected {
        status: "403 Forbidden".into(),
        body: "bad key".into(),
    });
    assert_eq!(rejected.unwrap_err(), "DeepL returned 403 Forbidden: bad key");
    let failed = DeepLTranslatorProvider::translation(HttpReply::RequestFailed("timeout".into()));
    assert_eq!(failed.unwrap_err(), "DeepL request failed: timeout");
    let unreadable = DeepLTranslatorProvider::translation(HttpReply::Parsed(Err("eof".into())));
    assert_eq!(unreadable.unwrap_err(), "failed to parse DeepL response: eof");
}

#[test]
fn libretranslate_requests_and_replies() {
    let p = LibreTranslateProvider { base_url: "http://localhost:5000/".into(), api_key: Some("k".into()) };
    assert_eq!(p.endpoint(), "http://localhost:5000/translate");
    let body = p.request_body("hola", "en");
    assert_eq!((body.q.as_str(), body.source.as_str(), body.target.as_str(), body.format.as_str()), ("hola", "auto", "en", "text"));
    assert_eq!(body.api_key.as_deref(), Some("k"));
    assert_eq!(LibreTranslateProvider::translation(HttpReply::Parsed(Ok("hello".into()))).unwrap(), "hello");
    assert_eq!(
        LibreTranslateProvider::translation(HttpReply::Rejected { status: "500".into(), body: "".into() }).unwrap_err(),
        "LibreTranslate returned 500: "
    );
}

fn vibevoice() -> VibeVoiceFileAsrProvider {
    VibeVoiceFileAsrProvider { python_bin: "python".into(), repo_dir: "/vv".into(), model_path: "microsoft/VibeVoice-ASR".into() }
}

#[test]
fn vibevoice_command_and_outcomes() {
    let p = vibevoice();
    assert_eq!(p.name(), "vibevoice-asr");
    let cmd = p.command("clip.wav");
    assert_eq!(cmd.program, "python");
    assert_eq!(
        cmd.args,
        vec!["demo/vibevoice_asr_inference_from_file.py", "--model_path", "microsoft/VibeVoice-ASR", "--audio_files", "clip.wav"]
    );
    let out = |success: bool, stdout: &[u8], stderr: &[u8]| ProcessOutput {
        success,
        status: "exit status: 1".into(),
        stdout: stdout.to_vec(),
        stderr: stderr.to_vec(),
    };
    assert_eq!(VibeVoiceFileAsrProvider::transcription(Ok(out(true, b"  hello world \n", b""))).unwrap(), "hello world");
    assert_eq!(
        VibeVoiceFileAsrProvider::transcription(Ok(out(true, b" \n", b""))).unwrap_err(),
        "VibeVoice ASR returned empty output"
    );
    assert_eq!(
        VibeVoiceFileAsrProvider::transcription(Ok(out(false, b"", b" CUDA missing \n"))).unwrap_err(),
        "CUDA missing"
    );
    assert_eq!(
        VibeVoiceFileAsrProvider::transcription(Ok(out(false, b"", b""))).unwrap_err(),
        "VibeVoice ASR exited with status exit status: 1"
    );
    assert_eq!(
        VibeVoiceFileAsrProvider::transcription(Err("No such file".into())).unwrap_err(),
        "failed to spawn VibeVoice ASR command: No such file"
    );
    assert_eq!(
        VibeVoiceFileAsrProvider::transcription(Ok(out(true, &[b'o', b'k', 0xff], b""))).unwrap(),
        "ok\u{fffd}"
    );
}

#[test]
fn processing_text_builds_the_transcript_event() {
    let service = PipelineService::new(MockAsrEngine, MockTranslator);
    let processed = service.process_text("  sample line 1 ", "auto", "zh");
    let evt = processed.event;
    assert_eq!(evt.source_text, "sample line 1");
    assert_eq!(evt.translated_text.as_deref(), Some("[zh] sample line 1"));
    assert!(matches!(&evt.source_language, Some(LanguageTag(s)) if s == "auto"));
    assert!(matches!(&evt.target_language, Some(LanguageTag(t)) if t == "zh"));
    assert_eq!((evt.start_ms, evt.end_ms, evt.is_final), (0, 1200, true));
    assert!(processed.error_message.is_none());
}

#[test]
fn a_failed_translation_leaves_an_error_message() {
    let processed = assemble_transcript("text".into(), Err("quota exceeded".into()), "deepl", "en", "de");
    assert!(processed.event.translated_text.is_none());
    assert_eq!(processed.event.source_text, "text");
    assert_eq!(processed.error_message.as_deref(), Some("translator deepl failed: quota exceeded"));
}
