//! The `record run` command: the session request it builds and the lines it reports.
use vstd::prelude::*;

use crate::audio::backend::{CaptureFormat, CaptureReport, CaptureRequest, CaptureScope, CaptureTarget};
use crate::recording::{RecordingError, RecordingRequest};
use crate::text::{concat3, decimal, push_decimal, push_str, to_owned_string};
use crate::video::backend::{VideoCaptureReport, VideoCaptureRequest, VideoScope, VideoTarget};

verus! {

/// The request of a recording session: a system audio capture to WAV when `audio_out` is
/// given, a display capture when `video_out` is given; at least one of them is required.
pub fn recording_request(
    audio_out: Option<String>,
    video_out: Option<String>,
    seconds: Option<u32>,
    sample_rate: Option<u32>,
    channels: Option<u16>,
    input_device: Option<String>,
    no_prefer_loopback: bool,
    fps: Option<u32>,
    display: Option<String>,
    ffmpeg_bin: String,
) -> (r: Result<RecordingRequest, String>)
    ensures
        audio_out is None && video_out is None <==> (r matches Err(m) && m@
            == "record run requires at least one output: --audio-out and/or --video-out"@),
        r matches Ok(req) ==> {
            &&& match audio_out {
                None => req.audio is None,
                Some(path) => req.audio matches Some(a) && a.scope is System && a.target
                    == CaptureTarget::File(path) && a.duration_secs == seconds && a.sample_rate
                    == sample_rate && a.channels == channels && a.format == CaptureFormat::Wav
                    && a.input_device_hint == input_device && a.prefer_loopback
                    == !no_prefer_loopback && a.ffmpeg_bin == ffmpeg_bin,
            }
            &&& match video_out {
                None => req.video is None,
                Some(path) => req.video matches Some(v) && v.scope is Display && v.target
                    == VideoTarget::File(path) && v.duration_secs == seconds && v.fps == fps
                    && v.display_hint == display,
            }
        },
{
    if audio_out.is_none() && video_out.is_none() {
        return Err(
            to_owned_string("record run requires at least one output: --audio-out and/or --video-out"),
        );
    }
    let audio = match audio_out {
        None => None,
        Some(path) => Some(
            CaptureRequest {
                scope: CaptureScope::System,
                target: CaptureTarget::File(path),
                duration_secs: seconds,
                sample_rate,
                channels,
                format: CaptureFormat::Wav,
                input_device_hint: input_device,
                prefer_loopback: !no_prefer_loopback,
                ffmpeg_bin,
            },
        ),
    };
    let video = match video_out {
        None => None,
        Some(path) => Some(
            VideoCaptureRequest {
                scope: VideoScope::Display,
                target: VideoTarget::File(path),
                duration_secs: seconds,
                fps,
                display_hint: display,
            },
        ),
    };
    Ok(RecordingRequest { audio, video })
}

/// The error shown when a backend cannot be built: `failed to init <kind> backend
/// '<id>': <error>`.
pub fn init_failure(kind: &str, backend_id: &str, error: &str) -> (r: String)
    ensures
        r@ == "failed to init "@ + kind@ + " backend '"@ + backend_id@ + "': "@ + error@,
{
    let mut r = concat3("failed to init ", kind, " backend '");
    push_str(&mut r, backend_id);
    push_str(&mut r, "': ");
    push_str(&mut r, error);
    r
}

/// The error shown when the session failed.
pub fn session_failure(error: &RecordingError) -> (r: String)
    ensures
        r@ == "record session failed: "@ + error.message_text(),
{
    let mut r = to_owned_string("record session failed: ");
    let m = error.message();
    push_str(&mut r, m.as_str());
    r
}

/// The line that reports a finished audio capture.
pub open spec fn audio_summary_text(a: CaptureReport) -> Seq<char> {
    "audio done: "@ + decimal(a.captured_samples as nat) + " samples @ "@ + decimal(
        a.sample_rate as nat,
    ) + "Hz "@ + decimal(a.channels as nat) + "ch, input='"@ + a.selected_input_device.name@
        + "', reason="@ + a.selection_reason@
}

/// Renders the line that reports a finished audio capture.
pub fn audio_summary(a: &CaptureReport) -> (r: String)
    ensures
        r@ == audio_summary_text(*a),
{
    let mut r = to_owned_string("audio done: ");
    push_decimal(&mut r, a.captured_samples as u64);
    push_str(&mut r, " samples @ ");
    push_decimal(&mut r, a.sample_rate as u64);
    push_str(&mut r, "Hz ");
    push_decimal(&mut r, a.channels as u64);
    push_str(&mut r, "ch, input='");
    push_str(&mut r, a.selected_input_device.name.as_str());
    push_str(&mut r, "', reason=");
    push_str(&mut r, a.selection_reason.as_str());
    r
}

/// The line that reports a finished video capture.
pub open spec fn video_summary_text(v: VideoCaptureReport) -> Seq<char> {
    "video done: "@ + decimal(v.frames_captured as nat) + " frames @ "@ + decimal(v.fps as nat)
        + "fps, display='"@ + v.selected_display.name@ + "', out="@ + v.output_path@
}

/// Renders the line that reports a finished video capture.
pub fn video_summary(v: &VideoCaptureReport) -> (r: String)
    ensures
        r@ == video_summary_text(*v),
{
    let mut r = to_owned_string("video done: ");
    push_decimal(&mut r, v.frames_captured as u64);
    push_str(&mut r, " frames @ ");
    push_decimal(&mut r, v.fps as u64);
    push_str(&mut r, "fps, display='");
    push_str(&mut r, v.selected_display.name.as_str());
    push_str(&mut r, "', out=");
    push_str(&mut r, v.output_path.as_str());
    r
}

} // verus!
