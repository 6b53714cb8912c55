//! The `video` commands: building the backend, the screen capture request, and the line
//! that reports a capture.
use vstd::prelude::*;

use crate::os::TargetOs;
use crate::text::{concat3, decimal, push_decimal, push_str, to_owned_string};
use crate::video::backend::{VideoCaptureReport, VideoCaptureRequest, VideoScope, VideoTarget};
use crate::video::native_platform::NativePlatformVideoBackend;
use crate::video::registry::build_video_backend;

verus! {

/// Builds the video backend with this identifier, with the reason when it is unknown.
pub fn build_backend(backend_id: &str, os: TargetOs) -> (r: Result<NativePlatformVideoBackend, String>)
    ensures
        backend_id@ == "platform-native"@ ==> (r matches Ok(b) && b.os == os),
        backend_id@ != "platform-native"@ ==> (r matches Err(msg) && msg@
            == "failed to initialize video backend '"@ + backend_id@ + "': "@
            + "unknown video backend: "@ + backend_id@),
{
    match build_video_backend(backend_id, os) {
        Ok(b) => Ok(b),
        Err(e) => {
            let mut msg = concat3("failed to initialize video backend '", backend_id, "': ");
            push_str(&mut msg, e.as_str());
            Err(msg)
        },
    }
}

/// The request of a screen capture into the file `out`.
pub fn screen_capture_request(out: String, seconds: Option<u32>, fps: Option<u32>, display: Option<String>) -> (r: VideoCaptureRequest)
    ensures
        r.scope is Display,
        r.target == VideoTarget::File(out),
        r.duration_secs == seconds,
        r.fps == fps,
        r.display_hint == display,
{
    VideoCaptureRequest {
        scope: VideoScope::Display,
        target: VideoTarget::File(out),
        duration_secs: seconds,
        fps,
        display_hint: display,
    }
}

/// The line that reports a finished screen capture.
pub open spec fn capture_summary_text(v: VideoCaptureReport) -> Seq<char> {
    "captured "@ + decimal(v.frames_captured as nat) + " frames @ "@ + decimal(v.fps as nat)
        + "fps from '"@ + v.selected_display.name@ + "', out="@ + v.output_path@ + ", note="@
        + v.backend_note@
}

/// Renders the line that reports a finished screen capture.
pub fn capture_summary(v: &VideoCaptureReport) -> (r: String)
    ensures
        r@ == capture_summary_text(*v),
{
    let mut r = to_owned_string("captured ");
    push_decimal(&mut r, v.frames_captured as u64);
    push_str(&mut r, " frames @ ");
    push_decimal(&mut r, v.fps as u64);
    push_str(&mut r, "fps from '");
    push_str(&mut r, v.selected_display.name.as_str());
    push_str(&mut r, "', out=");
    push_str(&mut r, v.output_path.as_str());
    push_str(&mut r, ", note=");
    push_str(&mut r, v.backend_note.as_str());
    r
}

} // verus!
