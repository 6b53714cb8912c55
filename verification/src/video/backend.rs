//! The data that video backends take and give back.
use vstd::prelude::*;

use crate::text::{concat2, concat3, decimal, push_decimal, push_str};

verus! {

/// A display that can be captured.
pub struct DisplayInfo {
    pub id: String,
    pub name: String,
    pub is_primary: bool,
    pub width: u32,
    pub height: u32,
}

impl DisplayInfo {
    /// The one-line text shown for a display: `name [id] WxH`, then ` (primary)` for the
    /// primary display.
    pub open spec fn display_text(self) -> Seq<char> {
        self.name@ + " ["@ + self.id@ + "] "@ + decimal(self.width as nat) + "x"@ + decimal(
            self.height as nat,
        ) + if self.is_primary {
            " (primary)"@
        } else {
            ""@
        }
    }

    /// Renders the display for listings.
    pub fn to_display_string(&self) -> (r: String)
        ensures
            r@ == self.display_text(),
    {
        let mut r = concat3(self.name.as_str(), " [", self.id.as_str());
        push_str(&mut r, "] ");
        push_decimal(&mut r, self.width as u64);
        push_str(&mut r, "x");
        push_decimal(&mut r, self.height as u64);
        if self.is_primary {
            push_str(&mut r, " (primary)");
        } else {
            push_str(&mut r, "");
        }
        r
    }
}

/// What a video backend can capture, and a note on how.
pub struct VideoBackendCapabilities {
    pub screen_capture: bool,
    pub window_capture: bool,
    pub per_app_capture: bool,
    pub note: &'static str,
}

/// Where captured video goes.
pub enum VideoTarget {
    File(String),
}

/// Picks the processes of a per-application visual capture.
pub enum VisualProcessSelector {
    Pid(u32),
    NameContains(String),
}

/// What a video capture records.
pub enum VideoScope {
    /// A whole display.
    Display,
    /// The windows of selected processes.
    Processes(Vec<VisualProcessSelector>),
}

/// A request for a video capture.
pub struct VideoCaptureRequest {
    pub scope: VideoScope,
    pub target: VideoTarget,
    pub duration_secs: Option<u32>,
    pub fps: Option<u32>,
    pub display_hint: Option<String>,
}

/// The outcome of a finished video capture.
pub struct VideoCaptureReport {
    pub frames_captured: usize,
    pub fps: u32,
    pub selected_display: DisplayInfo,
    pub output_path: String,
    pub backend_note: String,
    pub matched_processes: Vec<String>,
}

/// What can go wrong in a video backend.
pub enum VideoError {
    Message(String),
    NotImplemented { feature: &'static str },
}

impl VideoError {
    /// The text that describes the error: the message itself, or that the feature is not
    /// implemented on this backend.
    pub open spec fn message_text(self) -> Seq<char> {
        match self {
            VideoError::Message(m) => m@,
            VideoError::NotImplemented { feature } => "feature not yet implemented on this backend: "@
                + feature@,
        }
    }

    /// Renders the error.
    pub fn message(&self) -> (r: String)
        ensures
            r@ == self.message_text(),
    {
        match self {
            VideoError::Message(m) => m.clone(),
            VideoError::NotImplemented { feature } => concat2(
                "feature not yet implemented on this backend: ",
                feature,
            ),
        }
    }
}

/// A process that currently shows windows.
pub struct ActiveVisualProcessInfo {
    pub pid: u32,
    pub name: String,
}

/// The interface that every video backend offers.
pub trait VideoBackend {
    /// The backend's identifier.
    fn backend_name(&self) -> &'static str;

    /// What the backend can capture.
    fn capabilities(&self) -> VideoBackendCapabilities;

    /// The displays that can be captured.
    fn list_displays(&self) -> Result<Vec<DisplayInfo>, VideoError>;

    /// Captures according to the request.
    fn capture_blocking(&self, request: &VideoCaptureRequest) -> Result<VideoCaptureReport, VideoError>;
}

} // verus!
