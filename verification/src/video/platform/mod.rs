//! Chooses the platform-specific video behaviour for an operating system. Windows has no
//! native video implementation and gets the behaviour of other operating systems.
pub mod linux;
pub mod macos;
pub mod unsupported;

use vstd::prelude::*;

use crate::os::TargetOs;
use crate::video::backend::{DisplayInfo, VideoCaptureReport, VideoCaptureRequest, VideoError};

verus! {

/// The capability note for an operating system.
pub open spec fn capability_note_for(os: TargetOs) -> Seq<char> {
    match os {
        TargetOs::Linux => linux::capability_note_text(),
        TargetOs::MacOs => macos::capability_note_text(),
        _ => unsupported::capability_note_text(),
    }
}

/// The feature named when screen capture is refused on an operating system.
pub open spec fn capture_feature_for(os: TargetOs) -> Seq<char> {
    match os {
        TargetOs::Linux => linux::capture_feature_text(),
        TargetOs::MacOs => macos::capture_feature_text(),
        _ => unsupported::capture_feature_text(),
    }
}

/// Describes the video backend on `os`.
pub fn capability_note(os: TargetOs) -> (r: &'static str)
    ensures
        r@ == capability_note_for(os),
{
    match os {
        TargetOs::Linux => linux::capability_note(),
        TargetOs::MacOs => macos::capability_note(),
        _ => unsupported::capability_note(),
    }
}

/// Lists the displays on `os`: the main display on Linux and macOS, none elsewhere.
pub fn list_displays(os: TargetOs) -> (r: Result<Vec<DisplayInfo>, VideoError>)
    ensures
        os == TargetOs::Linux ==> linux::listed_displays(r),
        os == TargetOs::MacOs ==> macos::listed_displays(r),
        os != TargetOs::Linux && os != TargetOs::MacOs ==> (r matches Ok(v) && v@.len() == 0),
{
    match os {
        TargetOs::Linux => linux::list_displays(),
        TargetOs::MacOs => macos::list_displays(),
        _ => unsupported::list_displays(),
    }
}

/// Screen capture on `os`: refused as not implemented, naming the platform's feature.
pub fn capture_screen(os: TargetOs, request: &VideoCaptureRequest) -> (r: Result<VideoCaptureReport, VideoError>)
    ensures
        r matches Err(VideoError::NotImplemented { feature }) && feature@ == capture_feature_for(os),
{
    match os {
        TargetOs::Linux => linux::capture_screen(request),
        TargetOs::MacOs => macos::capture_screen(request),
        _ => unsupported::capture_screen(request),
    }
}

} // verus!
