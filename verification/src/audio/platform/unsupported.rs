//! Audio capture on operating systems without a native implementation.
use vstd::prelude::*;

use crate::audio::backend::{AudioError, CaptureReport, CaptureRequest};

verus! {

/// The note that describes audio capture on this platform.
pub open spec fn capability_note_text() -> Seq<char> {
    "Unsupported OS for native loopback defaults; provide an explicit input device that carries mixed audio."@
}

/// Describes audio capture on this platform.
pub fn capability_note() -> (r: &'static str)
    ensures
        r@ == capability_note_text(),
{
    "Unsupported OS for native loopback defaults; provide an explicit input device that carries mixed audio."
}

/// Per-application capture is not offered on this platform.
pub fn supports_per_app_capture() -> (r: bool)
    ensures
        !r,
{
    false
}

/// The feature named when per-application capture is refused.
pub open spec fn per_app_feature_text() -> Seq<char> {
    "per-app capture on this OS backend"@
}

/// Per-application capture on this platform: refused, whatever the request.
pub fn capture_processes(request: &CaptureRequest) -> (r: Result<CaptureReport, AudioError>)
    ensures
        r matches Err(AudioError::NotImplemented { feature }) && feature@ == per_app_feature_text(),
{
    Err(AudioError::NotImplemented { feature: "per-app capture on this OS backend" })
}

} // verus!
