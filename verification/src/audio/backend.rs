//! The data that audio backends take and give back.
use vstd::prelude::*;

use crate::text::{concat2, concat3, decimal, push_decimal, push_str, to_owned_string};

verus! {

/// An output (playback) device as a backend lists it.
pub struct DeviceInfo {
    pub id: String,
    pub name: String,
    pub is_default_output: bool,
}

impl DeviceInfo {
    /// The one-line text shown for the device: `name [id]`, then ` (default)` for the
    /// default output device.
    pub open spec fn display_text(self) -> Seq<char> {
        self.name@ + " ["@ + self.id@ + "]"@ + if self.is_default_output {
            " (default)"@
        } else {
            ""@
        }
    }

    /// Renders the device for listings.
    pub fn to_display_string(&self) -> (r: String)
        ensures
            r@ == self.display_text(),
    {
        let mut r = concat3(self.name.as_str(), " [", self.id.as_str());
        push_str(&mut r, "]");
        if self.is_default_output {
            push_str(&mut r, " (default)");
        } else {
            push_str(&mut r, "");
        }
        r
    }
}

/// Stream settings for a system capture.
pub struct CaptureConfig {
    pub sample_rate: Option<u32>,
    pub channels: Option<u16>,
    pub output_device_id: Option<String>,
}

/// A capture stream that a backend started.
pub struct CaptureStream {
    pub backend_name: &'static str,
}

/// What can go wrong in an audio backend.
pub enum AudioError {
    /// A failure described in words.
    Message(String),
    /// The backend does not offer the feature.
    NotImplemented { feature: &'static str },
}

impl AudioError {
    /// The text that describes the error: the message itself, or that the feature is not
    /// implemented on this backend.
    pub open spec fn message_text(self) -> Seq<char> {
        match self {
            AudioError::Message(m) => m@,
            AudioError::NotImplemented { feature } => "feature not yet implemented on this backend: "@
                + feature@,
        }
    }

    /// Renders the error.
    pub fn message(&self) -> (r: String)
        ensures
            r@ == self.message_text(),
    {
        match self {
            AudioError::Message(m) => m.clone(),
            AudioError::NotImplemented { feature } => concat2(
                "feature not yet implemented on this backend: ",
                feature,
            ),
        }
    }

    /// A copy with the same content.
    pub fn duplicate(&self) -> (r: Self)
        ensures
            r == *self,
    {
        match self {
            AudioError::Message(m) => AudioError::Message(m.clone()),
            AudioError::NotImplemented { feature } => AudioError::NotImplemented { feature },
        }
    }
}

/// What a backend can capture, and a note on how.
pub struct BackendCapabilities {
    pub system_loopback_capture: bool,
    pub per_app_capture: bool,
    pub note: &'static str,
}

/// The container written to a capture file.
#[derive(Clone, Copy, PartialEq, Eq, Structural)]
pub enum CaptureFormat {
    Wav,
    Flac,
}

impl CaptureFormat {
    /// The name that ffmpeg's `-f` option takes for the format.
    pub open spec fn ffmpeg_name_spec(self) -> Seq<char> {
        match self {
            CaptureFormat::Wav => "wav"@,
            CaptureFormat::Flac => "flac"@,
        }
    }

    /// The name that ffmpeg's `-f` option takes for the format.
    pub fn ffmpeg_name(&self) -> (r: &'static str)
        ensures
            r@ == self.ffmpeg_name_spec(),
    {
        match self {
            CaptureFormat::Wav => "wav",
            CaptureFormat::Flac => "flac",
        }
    }
}

/// Where captured audio goes: a file (by its path) or raw PCM on stdout.
pub enum CaptureTarget {
    File(String),
    StdoutPcm,
}

/// Picks the processes of a per-application capture.
pub enum ProcessSelector {
    /// The process with this id.
    Pid(u32),
    /// Processes whose name contains this text, ignoring case.
    NameContains(String),
}

impl ProcessSelector {
    /// The text that stands for a selector in messages: `pid=<id>` or `name=<text>`.
    pub open spec fn display_text(self) -> Seq<char> {
        match self {
            ProcessSelector::Pid(pid) => "pid="@ + decimal(pid as nat),
            ProcessSelector::NameContains(name) => "name="@ + name@,
        }
    }

    /// Renders the selector for messages.
    pub fn to_display_string(&self) -> (r: String)
        ensures
            r@ == self.display_text(),
    {
        match self {
            ProcessSelector::Pid(pid) => {
                let mut r = to_owned_string("pid=");
                push_decimal(&mut r, *pid as u64);
                r
            },
            ProcessSelector::NameContains(name) => {
                let mut r = to_owned_string("name=");
                push_str(&mut r, name.as_str());
                r
            },
        }
    }
}

/// What a capture records: the whole system mix or selected processes.
pub enum CaptureScope {
    System,
    Processes(Vec<ProcessSelector>),
}

/// A request for an audio capture.
pub struct CaptureRequest {
    pub scope: CaptureScope,
    pub target: CaptureTarget,
    pub duration_secs: Option<u32>,
    pub sample_rate: Option<u32>,
    pub channels: Option<u16>,
    pub format: CaptureFormat,
    pub input_device_hint: Option<String>,
    pub prefer_loopback: bool,
    /// The ffmpeg executable that command-line backends run.
    pub ffmpeg_bin: String,
}

/// Why a per-application capture request is refused, if it is: it needs a process scope
/// with at least one selector, a file target (else `file_only`) and WAV format (else
/// `wav_only`).
pub open spec fn process_request_rejection(request: CaptureRequest, file_only: Seq<char>, wav_only: Seq<char>) -> Option<Seq<char>> {
    match request.scope {
        CaptureScope::System => Some("internal error: process capture called with system scope"@),
        CaptureScope::Processes(sel) => if sel@.len() == 0 {
            Some("process capture requires at least one selector"@)
        } else if request.target is StdoutPcm {
            Some(file_only)
        } else if request.format != CaptureFormat::Wav {
            Some(wav_only)
        } else {
            None
        },
    }
}

/// A per-application capture request is accepted exactly when it selects at least one
/// process, writes to a file and asks for WAV; a refusal names the first of those that
/// fails.
pub proof fn law_process_request_accepted(request: CaptureRequest, file_only: Seq<char>, wav_only: Seq<char>)
    ensures
        process_request_rejection(request, file_only, wav_only) is None <==> (request.scope matches CaptureScope::Processes(
            sel,
        ) && sel@.len() > 0 && request.target is File && request.format == CaptureFormat::Wav),
        request.scope matches CaptureScope::Processes(sel) && sel@.len() > 0 && request.target is StdoutPcm
            ==> process_request_rejection(request, file_only, wav_only) == Some(file_only),
        request.scope matches CaptureScope::Processes(sel) && sel@.len() > 0 && request.target is File
            && request.format != CaptureFormat::Wav ==> process_request_rejection(request, file_only, wav_only)
            == Some(wav_only),
{
}

/// An input device as the selection strategy sees it.
pub struct InputDeviceInfo {
    pub id: String,
    pub name: String,
    pub is_default: bool,
    pub loopback_score: i32,
    pub is_loopback_candidate: bool,
}

impl InputDeviceInfo {
    /// A copy with the same fields.
    pub fn duplicate(&self) -> (r: Self)
        ensures
            r == *self,
    {
        InputDeviceInfo {
            id: self.id.clone(),
            name: self.name.clone(),
            is_default: self.is_default,
            loopback_score: self.loopback_score,
            is_loopback_candidate: self.is_loopback_candidate,
        }
    }
}

/// The outcome of a finished capture.
pub struct CaptureReport {
    pub captured_samples: usize,
    pub sample_rate: u32,
    pub channels: u16,
    pub started_at_ms: u64,
    pub ended_at_ms: u64,
    pub selected_input_device: InputDeviceInfo,
    pub selection_reason: String,
    pub matched_processes: Vec<String>,
}

/// A process that currently plays audio.
pub struct ActiveAudioProcessInfo {
    pub pid: u32,
    pub name: String,
}

/// A program to run and its arguments.
pub struct CommandSpec {
    pub program: String,
    pub args: Vec<String>,
}

/// The interface that every audio backend offers.
pub trait AudioBackend {
    /// The backend's identifier.
    fn backend_name(&self) -> &'static str;

    /// Starts a system capture; backends that cannot say so.
    fn start_system_capture(&self, config: CaptureConfig) -> (r: Result<CaptureStream, AudioError>)
        default_ensures
            r matches Err(AudioError::NotImplemented { feature }) && feature@ == "system loopback capture"@,
    {
        Err(AudioError::NotImplemented { feature: "system loopback capture" })
    }
}

} // verus!
