//! The command model of the command-line program: each command with the values its
//! options carry (file paths as text). The program parses its arguments into these.
use vstd::prelude::*;

use crate::audio::backend::CaptureFormat;

verus! {

/// The parsed command line: the audio backend for capture and device commands (by
/// default `cpal-native`), and the command.
pub struct Cli {
    pub audio_backend: String,
    pub command: Commands,
}

/// The top-level commands.
pub enum Commands {
    /// List available audio backends.
    Backends { command: BackendCommands },
    /// List available recognition and translation providers.
    Providers { command: ProviderCommands },
    /// Inspect audio devices and backend capability.
    Devices { command: DeviceCommands },
    /// Capture system output or applications.
    Capture { command: CaptureCommands },
    /// Run the subtitle and translation pipeline.
    Pipeline { command: PipelineCommands },
    /// Emit daemon events as JSON lines for overlays.
    Daemon { command: DaemonCommands },
}

/// The `providers` subcommands.
pub enum ProviderCommands {
    /// List the provider catalog and setup requirements.
    List,
}

/// The `backends` subcommands.
pub enum BackendCommands {
    /// List the audio backend catalog.
    List,
}

/// The `devices` subcommands.
pub enum DeviceCommands {
    /// List output and input devices.
    List,
}

/// The `capture` subcommands.
pub enum CaptureCommands {
    /// Capture the system mix to a file or to stdout.
    System {
        out: Option<String>,
        stdout: bool,
        seconds: Option<u32>,
        sample_rate: Option<u32>,
        channels: Option<u16>,
        format: FileFormatArg,
        input_device: Option<String>,
        no_prefer_loopback: bool,
    },
    /// Capture audio of selected application processes.
    App {
        out: String,
        seconds: Option<u32>,
        sample_rate: Option<u32>,
        channels: Option<u16>,
        format: FileFormatArg,
        pid: Vec<u32>,
        name: Vec<String>,
    },
    /// List the processes that currently play audio.
    AppsList,
    /// Capture several processes into files of their own, with an optional mix.
    AppsSplit {
        out_dir: String,
        seconds: u32,
        sample_rate: Option<u32>,
        channels: Option<u16>,
        format: FileFormatArg,
        pid: Vec<u32>,
        name: Vec<String>,
        all_active: bool,
        mix_out: Option<String>,
    },
}

/// The `pipeline` subcommands.
pub enum PipelineCommands {
    /// Translate a text with the selected providers.
    Demo {
        text: String,
        source_lang: String,
        target_lang: String,
        asr_provider: String,
        translator_provider: String,
    },
    /// Transcribe an audio file, then translate it unless told not to.
    AsrFile {
        audio: String,
        asr_provider: String,
        vibevoice_dir: Option<String>,
        model_path: String,
        python_bin: String,
        source_lang: String,
        target_lang: String,
        translator_provider: String,
        no_translate: bool,
    },
    /// Capture system audio, transcribe it, then translate it.
    RunOnce {
        seconds: u32,
        audio_out: Option<String>,
        keep_temp_audio: bool,
        asr_provider: String,
        vibevoice_dir: Option<String>,
        model_path: String,
        python_bin: String,
        source_lang: String,
        target_lang: String,
        translator_provider: String,
        input_device: Option<String>,
        no_prefer_loopback: bool,
        sample_rate: Option<u32>,
        channels: Option<u16>,
    },
}

/// The `daemon` subcommands.
pub enum DaemonCommands {
    /// Print a finite stream of mock events.
    Run { source_lang: String, target_lang: String, interval_ms: u64, count: u32 },
    /// Serve an endless stream of mock events over TCP.
    Serve {
        host: String,
        port: u16,
        source_lang: String,
        target_lang: String,
        interval_ms: u64,
    },
}

/// The file format option: WAV.
#[derive(Clone, Copy, PartialEq, Eq, Structural)]
pub enum FileFormatArg {
    Wav,
}

impl From<FileFormatArg> for CaptureFormat {
    fn from(value: FileFormatArg) -> (r: CaptureFormat) {
        match value {
            FileFormatArg::Wav => CaptureFormat::Wav,
        }
    }
}

impl vstd::std_specs::convert::FromSpecImpl<FileFormatArg> for CaptureFormat {
    open spec fn obeys_from_spec() -> bool {
        true
    }

    open spec fn from_spec(value: FileFormatArg) -> CaptureFormat {
        match value {
            FileFormatArg::Wav => CaptureFormat::Wav,
        }
    }
}

} // verus!
