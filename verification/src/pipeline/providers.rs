//! The provider registry: the catalog of recognition and translation providers, and the
//! construction of a provider from its identifier and settings.
use vstd::prelude::*;

use crate::pipeline::engines::{
    mock_translation, AsrEngine, MockAsrProvider, MockTranslatorProvider,
    PassthroughTranslatorProvider, Translator,
};
use crate::pipeline::online::{DeepLTranslatorProvider, LibreTranslateProvider};
use crate::pipeline::vibevoice::VibeVoiceFileAsrProvider;
use crate::text::{concat2, str_eq, to_owned_string, trim_ws};

verus! {

/// Where a provider runs.
#[derive(Clone, Copy, PartialEq, Eq, Structural)]
pub enum ProviderMode {
    LocalOffline,
    OnlineApi,
    Hybrid,
}

/// A provider in the catalog.
pub struct ProviderDescriptor {
    pub id: &'static str,
    pub capability: &'static str,
    pub mode: ProviderMode,
    pub requires_setup: bool,
    pub note: &'static str,
}

/// The descriptor has exactly these fields.
pub open spec fn describes(
    d: ProviderDescriptor,
    id: Seq<char>,
    capability: Seq<char>,
    mode: ProviderMode,
    requires_setup: bool,
    note: Seq<char>,
) -> bool {
    &&& d.id@ == id
    &&& d.capability@ == capability
    &&& d.mode == mode
    &&& d.requires_setup == requires_setup
    &&& d.note@ == note
}

/// The text recognition providers: the built-in mock.
pub fn asr_text_providers() -> (r: Vec<ProviderDescriptor>)
    ensures
        r@.len() == 1,
        describes(
            r@[0],
            "mock"@,
            "text->text"@,
            ProviderMode::LocalOffline,
            false,
            "Built-in testing provider."@,
        ),
{
    let mut v = Vec::new();
    v.push(
        ProviderDescriptor {
            id: "mock",
            capability: "text->text",
            mode: ProviderMode::LocalOffline,
            requires_setup: false,
            note: "Built-in testing provider.",
        },
    );
    v
}

/// The audio-file recognition providers: VibeVoice (local), then the planned online
/// OpenAI and Deepgram providers.
pub fn asr_file_providers() -> (r: Vec<ProviderDescriptor>)
    ensures
        r@.len() == 3,
        describes(
            r@[0],
            "vibevoice"@,
            "audio-file->text"@,
            ProviderMode::LocalOffline,
            true,
            "External microsoft/VibeVoice checkout and model environment required."@,
        ),
        describes(
            r@[1],
            "openai"@,
            "audio-file->text"@,
            ProviderMode::OnlineApi,
            true,
            "Planned provider (API key based)."@,
        ),
        describes(
            r@[2],
            "deepgram"@,
            "audio-file->text"@,
            ProviderMode::OnlineApi,
            true,
            "Planned provider (API key based)."@,
        ),
{
    let mut v = Vec::new();
    v.push(
        ProviderDescriptor {
            id: "vibevoice",
            capability: "audio-file->text",
            mode: ProviderMode::LocalOffline,
            requires_setup: true,
            note: "External microsoft/VibeVoice checkout and model environment required.",
        },
    );
    v.push(
        ProviderDescriptor {
            id: "openai",
            capability: "audio-file->text",
            mode: ProviderMode::OnlineApi,
            requires_setup: true,
            note: "Planned provider (API key based).",
        },
    );
    v.push(
        ProviderDescriptor {
            id: "deepgram",
            capability: "audio-file->text",
            mode: ProviderMode::OnlineApi,
            requires_setup: true,
            note: "Planned provider (API key based).",
        },
    );
    v
}

/// The translation providers: mock, passthrough, DeepL and LibreTranslate.
pub fn translator_providers() -> (r: Vec<ProviderDescriptor>)
    ensures
        r@.len() == 4,
        describes(
            r@[0],
            "mock"@,
            "text->text"@,
            ProviderMode::LocalOffline,
            false,
            "Built-in testing translator."@,
        ),
        describes(
            r@[1],
            "passthrough"@,
            "text->text"@,
            ProviderMode::LocalOffline,
            false,
            "Returns source text without translation."@,
        ),
        describes(
            r@[2],
            "deepl"@,
            "text->text"@,
            ProviderMode::OnlineApi,
            true,
            "DeepL API translation (requires DEEPL_API_KEY)."@,
        ),
        describes(
            r@[3],
            "libretranslate"@,
            "text->text"@,
            ProviderMode::OnlineApi,
            false,
            "LibreTranslate HTTP translation (self-hosted recommended)."@,
        ),
{
    let mut v = Vec::new();
    v.push(
        ProviderDescriptor {
            id: "mock",
            capability: "text->text",
            mode: ProviderMode::LocalOffline,
            requires_setup: false,
            note: "Built-in testing translator.",
        },
    );
    v.push(
        ProviderDescriptor {
            id: "passthrough",
            capability: "text->text",
            mode: ProviderMode::LocalOffline,
            requires_setup: false,
            note: "Returns source text without translation.",
        },
    );
    v.push(
        ProviderDescriptor {
            id: "deepl",
            capability: "text->text",
            mode: ProviderMode::OnlineApi,
            requires_setup: true,
            note: "DeepL API translation (requires DEEPL_API_KEY).",
        },
    );
    v.push(
        ProviderDescriptor {
            id: "libretranslate",
            capability: "text->text",
            mode: ProviderMode::OnlineApi,
            requires_setup: false,
            note: "LibreTranslate HTTP translation (self-hosted recommended).",
        },
    );
    v
}

/// The settings a file recognition provider is built from.
pub struct FileAsrBuildContext {
    pub python_bin: String,
    pub vibevoice_dir: Option<String>,
    pub model_path: String,
}

/// The settings a translation provider is built from (read from the environment by the
/// program: `DEEPL_API_KEY`, `DEEPL_BASE_URL`, `LIBRETRANSLATE_BASE_URL`,
/// `LIBRETRANSLATE_API_KEY`).
pub struct TranslatorBuildContext {
    pub deepl_api_key: Option<String>,
    pub deepl_base_url: Option<String>,
    pub libretranslate_base_url: Option<String>,
    pub libretranslate_api_key: Option<String>,
}

/// A built text recognition provider.
pub enum TextAsrProvider {
    Mock(MockAsrProvider),
}

impl TextAsrProvider {
    /// The provider's engine name.
    pub fn name(&self) -> (r: &'static str)
        ensures
            r@ == "mock-asr"@,
    {
        match self {
            TextAsrProvider::Mock(p) => p.name(),
        }
    }

    /// The transcript of the input.
    pub fn transcribe_text(&self, input: &str) -> (r: String)
        ensures
            r@ == trim_ws(input@),
    {
        match self {
            TextAsrProvider::Mock(p) => p.transcribe_text(input),
        }
    }
}

/// A built translation provider.
pub enum TranslatorProvider {
    Mock(MockTranslatorProvider),
    Passthrough(PassthroughTranslatorProvider),
    DeepL(DeepLTranslatorProvider),
    LibreTranslate(LibreTranslateProvider),
}

impl TranslatorProvider {
    /// The provider's translator name.
    pub open spec fn name_text(self) -> Seq<char> {
        match self {
            TranslatorProvider::Mock(_) => "mock-translator"@,
            TranslatorProvider::Passthrough(_) => "passthrough"@,
            TranslatorProvider::DeepL(_) => "deepl"@,
            TranslatorProvider::LibreTranslate(_) => "libretranslate"@,
        }
    }

    /// The provider's translator name.
    pub fn name(&self) -> (r: &'static str)
        ensures
            r@ == self.name_text(),
    {
        match self {
            TranslatorProvider::Mock(p) => p.name(),
            TranslatorProvider::Passthrough(p) => p.name(),
            TranslatorProvider::DeepL(_) => "deepl",
            TranslatorProvider::LibreTranslate(_) => "libretranslate",
        }
    }

    /// Translates with a provider that runs locally; `None` for an online provider,
    /// whose translation is a request to its service.
    pub fn translate_local(&self, input: &str, target_lang: &str) -> (r: Option<Result<String, String>>)
        ensures
            match self {
                TranslatorProvider::Mock(_) => (r matches Some(Ok(t)) && t@ == mock_translation(
                    input@,
                    target_lang@,
                )),
                TranslatorProvider::Passthrough(_) => (r matches Some(Ok(t)) && t@ == input@),
                _ => r is None,
            },
    {
        match self {
            TranslatorProvider::Mock(p) => Some(p.translate(input, target_lang)),
            TranslatorProvider::Passthrough(p) => Some(p.translate(input, target_lang)),
            _ => None,
        }
    }
}

/// A built file recognition provider.
pub enum FileAsrProvider {
    VibeVoice(VibeVoiceFileAsrProvider),
}

/// Builds the text recognition provider `provider_id`: only `mock` is known.
pub fn build_text_asr(provider_id: &str) -> (r: Result<TextAsrProvider, String>)
    ensures
        provider_id@ == "mock"@ ==> r is Ok,
        provider_id@ != "mock"@ ==> (r matches Err(m) && m@ == "unknown text ASR provider: "@
            + provider_id@),
{
    if str_eq(provider_id, "mock") {
        Ok(TextAsrProvider::Mock(MockAsrProvider))
    } else {
        Err(concat2("unknown text ASR provider: ", provider_id))
    }
}

/// Builds the translation provider `provider_id` from the settings: `mock` and
/// `passthrough` need none; `deepl` needs an API key and defaults its base URL to the
/// free API; `libretranslate` defaults its base URL to a local server.
pub fn build_translator(provider_id: &str, ctx: TranslatorBuildContext) -> (r: Result<TranslatorProvider, String>)
    ensures
        provider_id@ == "mock"@ ==> r is Ok && r->Ok_0 is Mock,
        provider_id@ == "passthrough"@ ==> r is Ok && r->Ok_0 is Passthrough,
        provider_id@ == "deepl"@ ==> match ctx.deepl_api_key {
            None => (r matches Err(m) && m@ == "missing DEEPL_API_KEY for deepl provider"@),
            Some(key) => (r matches Ok(TranslatorProvider::DeepL(p)) && p.api_key == key
                && p.base_url@ == match ctx.deepl_base_url {
                Some(u) => u@,
                None => "https://api-free.deepl.com"@,
            }),
        },
        provider_id@ == "libretranslate"@ ==> (r matches Ok(TranslatorProvider::LibreTranslate(p))
            && p.api_key == ctx.libretranslate_api_key && p.base_url@
            == match ctx.libretranslate_base_url {
            Some(u) => u@,
            None => "http://127.0.0.1:5000"@,
        }),
        provider_id@ != "mock"@ && provider_id@ != "passthrough"@ && provider_id@ != "deepl"@
            && provider_id@ != "libretranslate"@ ==> (r matches Err(m) && m@
            == "unknown translator provider: "@ + provider_id@),
{
    proof {
        reveal_strlit("mock");
        reveal_strlit("passthrough");
        reveal_strlit("deepl");
        reveal_strlit("libretranslate");
        assert("mock"@.len() == 4 && "passthrough"@.len() == 11);
        assert("deepl"@.len() == 5 && "libretranslate"@.len() == 14);
    }
    if str_eq(provider_id, "mock") {
        Ok(TranslatorProvider::Mock(MockTranslatorProvider))
    } else if str_eq(provider_id, "passthrough") {
        Ok(TranslatorProvider::Passthrough(PassthroughTranslatorProvider))
    } else if str_eq(provider_id, "deepl") {
        match ctx.deepl_api_key {
            None => Err(to_owned_string("missing DEEPL_API_KEY for deepl provider")),
            Some(api_key) => {
                let base_url = match ctx.deepl_base_url {
                    Some(u) => u,
                    None => to_owned_string("https://api-free.deepl.com"),
                };
                Ok(TranslatorProvider::DeepL(DeepLTranslatorProvider { api_key, base_url }))
            },
        }
    } else if str_eq(provider_id, "libretranslate") {
        let base_url = match ctx.libretranslate_base_url {
            Some(u) => u,
            None => to_owned_string("http://127.0.0.1:5000"),
        };
        Ok(
            TranslatorProvider::LibreTranslate(
                LibreTranslateProvider { base_url, api_key: ctx.libretranslate_api_key },
            ),
        )
    } else {
        Err(concat2("unknown translator provider: ", provider_id))
    }
}

/// Builds the file recognition provider `provider_id`: only `vibevoice`, which needs the
/// directory of a VibeVoice checkout.
pub fn build_file_asr(provider_id: &str, ctx: FileAsrBuildContext) -> (r: Result<FileAsrProvider, String>)
    ensures
        provider_id@ == "vibevoice"@ ==> match ctx.vibevoice_dir {
            None => (r matches Err(m) && m@
                == "--vibevoice-dir is required when --asr-provider vibevoice"@),
            Some(dir) => (r matches Ok(FileAsrProvider::VibeVoice(p)) && p.python_bin
                == ctx.python_bin && p.repo_dir == dir && p.model_path == ctx.model_path),
        },
        provider_id@ != "vibevoice"@ ==> (r matches Err(m) && m@
            == "unknown file ASR provider: "@ + provider_id@),
{
    if str_eq(provider_id, "vibevoice") {
        match ctx.vibevoice_dir {
            None => Err(to_owned_string("--vibevoice-dir is required when --asr-provider vibevoice")),
            Some(repo_dir) => Ok(
                FileAsrProvider::VibeVoice(
                    VibeVoiceFileAsrProvider {
                        python_bin: ctx.python_bin,
                        repo_dir,
                        model_path: ctx.model_path,
                    },
                ),
            ),
        }
    } else {
        Err(concat2("unknown file ASR provider: ", provider_id))
    }
}

/// The VibeVoice file recognition provider with the given interpreter, checkout and
/// model.
pub fn build_file_asr_vibevoice(python_bin: String, repo_dir: String, model_path: String) -> (r: FileAsrProvider)
    ensures
        r matches FileAsrProvider::VibeVoice(p) && p.python_bin == python_bin && p.repo_dir
            == repo_dir && p.model_path == model_path,
{
    FileAsrProvider::VibeVoice(VibeVoiceFileAsrProvider { python_bin, repo_dir, model_path })
}

} // verus!
