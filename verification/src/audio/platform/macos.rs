//! Audio capture on macOS.
use vstd::prelude::*;

use crate::audio::backend::{AudioError, CaptureReport, CaptureRequest};

verus! {

/// The note that describes audio capture on this platform.
pub open spec fn capability_note_text() -> Seq<char> {
    "macOS native capture uses CoreAudio through CPAL input stream; configure a loopback-capable input (e.g. BlackHole)."@
}

/// Describes audio capture on this platform.
pub fn capability_note() -> (r: &'static str)
    ensures
        r@ == capability_note_text(),
{
    "macOS native capture uses CoreAudio through CPAL input stream; configure a loopback-capable input (e.g. BlackHole)."
}

/// Per-application capture is offered on this platform, through ScreenCaptureKit.
pub fn supports_per_app_capture() -> (r: bool)
    ensures
        r,
{
    true
}

/// The feature named when per-application capture is refused.
pub open spec fn per_app_feature_text() -> Seq<char> {
    "per-app capture on macOS backend"@
}

/// Per-application capture on this platform: refused, whatever the request.
pub fn capture_processes(request: &CaptureRequest) -> (r: Result<CaptureReport, AudioError>)
    ensures
        r matches Err(AudioError::NotImplemented { feature }) && feature@ == per_app_feature_text(),
{
    Err(AudioError::NotImplemented { feature: "per-app capture on macOS backend" })
}

} // verus!
