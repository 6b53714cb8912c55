//! The video backend of the operating system the program runs on.
use vstd::prelude::*;

use crate::os::TargetOs;
use crate::video::backend::{
    DisplayInfo, VideoBackend, VideoBackendCapabilities, VideoCaptureReport, VideoCaptureRequest,
    VideoError,
};
use crate::video::platform;

verus! {

/// The native video backend for one operating system.
pub struct NativePlatformVideoBackend {
    pub os: TargetOs,
}

impl NativePlatformVideoBackend {
    /// The native backend for `os`.
    pub fn new(os: TargetOs) -> (r: Self)
        ensures
            r.os == os,
    {
        NativePlatformVideoBackend { os }
    }
}

impl VideoBackend for NativePlatformVideoBackend {
    fn backend_name(&self) -> (r: &'static str)
        ensures
            r@ == "platform-native"@,
    {
        "platform-native"
    }

    fn capabilities(&self) -> (r: VideoBackendCapabilities)
        ensures
            r.screen_capture,
            !r.window_capture,
            !r.per_app_capture,
            r.note@ == platform::capability_note_for(self.os),
    {
        VideoBackendCapabilities {
            screen_capture: true,
            window_capture: false,
            per_app_capture: false,
            note: platform::capability_note(self.os),
        }
    }

    fn list_displays(&self) -> (r: Result<Vec<DisplayInfo>, VideoError>)
        ensures
            self.os == TargetOs::Linux ==> platform::linux::listed_displays(r),
            self.os == TargetOs::MacOs ==> platform::macos::listed_displays(r),
            self.os != TargetOs::Linux && self.os != TargetOs::MacOs ==> (r matches Ok(v)
                && v@.len() == 0),
    {
        platform::list_displays(self.os)
    }

    fn capture_blocking(&self, request: &VideoCaptureRequest) -> (r: Result<VideoCaptureReport, VideoError>)
        ensures
            r matches Err(VideoError::NotImplemented { feature }) && feature@
                == platform::capture_feature_for(self.os),
    {
        platform::capture_screen(self.os, request)
    }
}

} // verus!
