//! Chooses the platform-specific audio behaviour for an operating system.
pub mod common;
pub mod linux;
pub mod macos;
pub mod unsupported;
pub mod windows;

pub use common::append_common_ffmpeg_args;

use vstd::prelude::*;

use crate::audio::backend::{process_request_rejection, AudioError, CaptureRequest};
use crate::audio::platform::linux::LinuxCaptureSession;
use crate::audio::platform::windows::WindowsCaptureSettings;
use crate::os::TargetOs;

verus! {

/// The audio capability note for an operating system.
pub open spec fn capability_note_for(os: TargetOs) -> Seq<char> {
    match os {
        TargetOs::Linux => linux::capability_note_text(),
        TargetOs::MacOs => macos::capability_note_text(),
        TargetOs::Windows => windows::capability_note_text(),
        TargetOs::Other => unsupported::capability_note_text(),
    }
}

/// Describes audio capture on `os`.
pub fn capability_note(os: TargetOs) -> (r: &'static str)
    ensures
        r@ == capability_note_for(os),
{
    match os {
        TargetOs::Linux => linux::capability_note(),
        TargetOs::MacOs => macos::capability_note(),
        TargetOs::Windows => windows::capability_note(),
        TargetOs::Other => unsupported::capability_note(),
    }
}

/// Whether `os` offers per-application capture: Linux, macOS and Windows do.
pub fn supports_per_app_capture(os: TargetOs) -> (r: bool)
    ensures
        r == (os == TargetOs::Linux || os == TargetOs::MacOs || os == TargetOs::Windows),
{
    match os {
        TargetOs::Linux => linux::supports_per_app_capture(),
        TargetOs::MacOs => macos::supports_per_app_capture(),
        TargetOs::Windows => windows::supports_per_app_capture(),
        TargetOs::Other => unsupported::supports_per_app_capture(),
    }
}

/// A per-application capture that passed its checks, in the form its platform runs it.
pub enum ProcessCapture {
    /// A Linux capture session, driven step by step.
    Linux(LinuxCaptureSession),
    /// The settings of a Windows WASAPI process-loopback capture.
    Windows(WindowsCaptureSettings),
}

/// Starts a per-application capture on `os`: Linux and Windows check the request and
/// begin; macOS and other systems refuse it as not implemented.
pub fn capture_processes(os: TargetOs, request: &CaptureRequest, now_ms: u64) -> (r: Result<ProcessCapture, AudioError>)
    ensures
        os == TargetOs::MacOs ==> (r matches Err(AudioError::NotImplemented { feature }) && feature@
            == macos::per_app_feature_text()),
        os == TargetOs::Other ==> (r matches Err(AudioError::NotImplemented { feature }) && feature@
            == unsupported::per_app_feature_text()),
        os == TargetOs::Linux ==> match process_request_rejection(
            *request,
            linux::linux_file_only(),
            linux::linux_wav_only(),
        ) {
            Some(m) => r matches Err(AudioError::Message(x)) && x@ == m,
            None => r matches Ok(ProcessCapture::Linux(s)) && linux::fresh_session(*request, now_ms, s),
        },
        os == TargetOs::Windows ==> match process_request_rejection(
            *request,
            windows::windows_file_only(),
            windows::windows_wav_only(),
        ) {
            Some(m) => r matches Err(AudioError::Message(x)) && x@ == m,
            None => r matches Ok(ProcessCapture::Windows(settings)) && windows::settings_for(
                *request,
                settings,
            ),
        },
{
    match os {
        TargetOs::Linux => match linux::capture_processes(request, now_ms) {
            Ok(s) => Ok(ProcessCapture::Linux(s)),
            Err(e) => Err(e),
        },
        TargetOs::Windows => match windows::check_capture_request(request) {
            Ok(s) => Ok(ProcessCapture::Windows(s)),
            Err(e) => Err(e),
        },
        TargetOs::MacOs => match macos::capture_processes(request) {
            Ok(_) => Err(AudioError::NotImplemented { feature: "per-app capture on macOS backend" }),
            Err(e) => Err(e),
        },
        TargetOs::Other => match unsupported::capture_processes(request) {
            Ok(_) => Err(AudioError::NotImplemented { feature: "per-app capture on this OS backend" }),
            Err(e) => Err(e),
        },
    }
}

} // verus!
