//! Joining a captured audio track and a captured screen track into one container file.
use vstd::prelude::*;

use crate::text::concat2;

verus! {

/// The container of a joined file.
#[derive(Clone, Copy, PartialEq, Eq, Structural)]
pub enum MuxContainer {
    Mp4,
    Mkv,
}

/// The tracks to join and where the result goes.
pub struct MuxRequest {
    pub audio_path: Option<String>,
    pub visual_path: Option<String>,
    pub output_path: String,
    pub container: MuxContainer,
}

/// A joined file.
pub struct MuxReport {
    pub output_path: String,
    pub container: MuxContainer,
}

/// Why joining failed.
pub enum MuxError {
    Message(String),
    NotImplemented { feature: &'static str },
}

impl MuxError {
    /// The text that describes the error.
    pub open spec fn message_text(self) -> Seq<char> {
        match self {
            MuxError::Message(m) => m@,
            MuxError::NotImplemented { feature } => "feature not yet implemented: "@ + feature@,
        }
    }

    /// Renders the error.
    pub fn message(&self) -> (r: String)
        ensures
            r@ == self.message_text(),
    {
        match self {
            MuxError::Message(m) => m.clone(),
            MuxError::NotImplemented { feature } => concat2("feature not yet implemented: ", feature),
        }
    }
}

/// Something that joins tracks.
pub trait Muxer {
    /// Joins the tracks of the request.
    fn mux(&self, request: &MuxRequest) -> Result<MuxReport, MuxError>;
}

/// The built-in muxer, which cannot join tracks yet.
#[derive(Default)]
pub struct NativeMuxer;

impl Muxer for NativeMuxer {
    fn mux(&self, request: &MuxRequest) -> (r: Result<MuxReport, MuxError>)
        ensures
            r matches Err(MuxError::NotImplemented { feature }) && feature@
                == "native A/V mux (mp4/mkv)"@,
    {
        Err(MuxError::NotImplemented { feature: "native A/V mux (mp4/mkv)" })
    }
}

} // verus!
