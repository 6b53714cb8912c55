//! Video capture on macOS.
use vstd::prelude::*;

use crate::text::to_owned_string;
use crate::video::backend::{DisplayInfo, VideoCaptureReport, VideoCaptureRequest, VideoError};

verus! {

/// The note that describes the backend on this platform.
pub open spec fn capability_note_text() -> Seq<char> {
    "macOS video backend scaffold is ready; ScreenCaptureKit recorder integration is the next step."@
}

/// Describes the backend on this platform.
pub fn capability_note() -> (r: &'static str)
    ensures
        r@ == capability_note_text(),
{
    "macOS video backend scaffold is ready; ScreenCaptureKit recorder integration is the next step."
}

/// The displays listed on this platform: the main display, taken as 1920x1080.
pub open spec fn listed_displays(r: Result<Vec<DisplayInfo>, VideoError>) -> bool {
    &&& r is Ok
    &&& r->Ok_0@.len() == 1
    &&& r->Ok_0@[0].id@ == "macos-main"@
    &&& r->Ok_0@[0].name@ == "Main Display"@
    &&& r->Ok_0@[0].is_primary
    &&& r->Ok_0@[0].width == 1920
    &&& r->Ok_0@[0].height == 1080
}

/// Lists the displays of this platform.
pub fn list_displays() -> (r: Result<Vec<DisplayInfo>, VideoError>)
    ensures
        listed_displays(r),
{
    let mut v: Vec<DisplayInfo> = Vec::new();
    v.push(
        DisplayInfo {
            id: to_owned_string("macos-main"),
            name: to_owned_string("Main Display"),
            is_primary: true,
            width: 1920,
            height: 1080,
        },
    );
    Ok(v)
}

/// The feature named when screen capture is refused on this platform.
pub open spec fn capture_feature_text() -> Seq<char> {
    "macOS ScreenCaptureKit screen recording"@
}

/// Screen capture on this platform: not offered yet, whatever the request.
pub fn capture_screen(request: &VideoCaptureRequest) -> (r: Result<VideoCaptureReport, VideoError>)
    ensures
        r matches Err(VideoError::NotImplemented { feature }) && feature@ == capture_feature_text(),
{
    Err(VideoError::NotImplemented { feature: "macOS ScreenCaptureKit screen recording" })
}

} // verus!
