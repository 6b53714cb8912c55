//! Video capture on operating systems without a native implementation.
use vstd::prelude::*;

use crate::video::backend::{DisplayInfo, VideoCaptureReport, VideoCaptureRequest, VideoError};

verus! {

/// The note that describes the backend on this platform.
pub open spec fn capability_note_text() -> Seq<char> {
    "Unsupported OS for native video capture backend scaffold."@
}

/// Describes the backend on this platform.
pub fn capability_note() -> (r: &'static str)
    ensures
        r@ == capability_note_text(),
{
    "Unsupported OS for native video capture backend scaffold."
}

/// Lists the displays of this platform: none.
pub fn list_displays() -> (r: Result<Vec<DisplayInfo>, VideoError>)
    ensures
        r matches Ok(v) && v@.len() == 0,
{
    Ok(Vec::new())
}

/// The feature named when screen capture is refused on this platform.
pub open spec fn capture_feature_text() -> Seq<char> {
    "native screen recording on this OS"@
}

/// Screen capture on this platform: not offered, whatever the request.
pub fn capture_screen(request: &VideoCaptureRequest) -> (r: Result<VideoCaptureReport, VideoError>)
    ensures
        r matches Err(VideoError::NotImplemented { feature }) && feature@ == capture_feature_text(),
{
    Err(VideoError::NotImplemented { feature: "native screen recording on this OS" })
}

} // verus!
