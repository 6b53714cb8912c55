//! A recording session: audio, video or both, each captured by its own backend. The
//! coordinator decides which captures run and what the session reports once they end.
use vstd::prelude::*;

use crate::audio::backend::{AudioError, CaptureReport, CaptureRequest};
use crate::text::{concat2, to_owned_string};
use crate::video::backend::{VideoCaptureReport, VideoCaptureRequest, VideoError};

verus! {

/// What to record: audio, video, or both.
pub struct RecordingRequest {
    pub audio: Option<CaptureRequest>,
    pub video: Option<VideoCaptureRequest>,
}

/// What a session recorded.
pub struct RecordingReport {
    pub audio: Option<CaptureReport>,
    pub video: Option<VideoCaptureReport>,
}

/// Why a session failed.
pub enum RecordingError {
    /// The request cannot be served.
    InvalidRequest(String),
    /// The audio capture failed.
    Audio(AudioError),
    /// The video capture failed.
    Video(VideoError),
    /// A capture thread did not finish.
    Thread(String),
}

impl RecordingError {
    /// The text that describes the error.
    pub open spec fn message_text(self) -> Seq<char> {
        match self {
            RecordingError::InvalidRequest(m) => "invalid request: "@ + m@,
            RecordingError::Audio(e) => "audio capture failed: "@ + e.message_text(),
            RecordingError::Video(e) => "video capture failed: "@ + e.message_text(),
            RecordingError::Thread(m) => "recording thread failed: "@ + m@,
        }
    }

    /// Renders the error.
    pub fn message(&self) -> (r: String)
        ensures
            r@ == self.message_text(),
    {
        match self {
            RecordingError::InvalidRequest(m) => concat2("invalid request: ", m),
            RecordingError::Audio(e) => {
                let t = e.message();
                concat2("audio capture failed: ", &t)
            },
            RecordingError::Video(e) => {
                let t = e.message();
                concat2("video capture failed: ", &t)
            },
            RecordingError::Thread(m) => concat2("recording thread failed: ", m),
        }
    }
}

/// The captures a session runs, each with the backend that runs it. When both run, they
/// run at the same time.
pub enum RecordingJobs<'a, A, V> {
    Audio(&'a A, CaptureRequest),
    Video(&'a V, VideoCaptureRequest),
    Both(&'a A, CaptureRequest, &'a V, VideoCaptureRequest),
}

/// How a capture that ran on a thread of its own ended.
pub enum Joined<T, E> {
    /// The capture returned this.
    Returned(Result<T, E>),
    /// The thread panicked.
    Panicked,
}

/// How the captures of a session ended.
pub enum RecordingOutcome {
    Audio(Result<CaptureReport, AudioError>),
    Video(Result<VideoCaptureReport, VideoError>),
    Both(Joined<CaptureReport, AudioError>, Joined<VideoCaptureReport, VideoError>),
}

/// Runs recording sessions with the backends it was given.
pub struct RecordingCoordinator<'a, A, V> {
    pub audio_backend: Option<&'a A>,
    pub video_backend: Option<&'a V>,
}

/// The session's request is refused with the `InvalidRequest` message `msg`.
pub open spec fn refused_with<'a, A, V>(r: Result<RecordingJobs<'a, A, V>, RecordingError>, msg: Seq<char>) -> bool {
    r matches Err(RecordingError::InvalidRequest(m)) && m@ == msg
}

impl<'a, A, V> RecordingCoordinator<'a, A, V> {
    /// A coordinator with the given backends; a missing one cannot serve its kind of
    /// capture.
    pub fn new(audio_backend: Option<&'a A>, video_backend: Option<&'a V>) -> (r: Self)
        ensures
            r.audio_backend == audio_backend,
            r.video_backend == video_backend,
    {
        RecordingCoordinator { audio_backend, video_backend }
    }

    /// Decides which captures the request needs: refused when it asks for nothing, or
    /// for a kind of capture whose backend is missing (audio is checked first);
    /// otherwise each requested capture with its backend.
    pub fn plan(&self, request: RecordingRequest) -> (r: Result<RecordingJobs<'a, A, V>, RecordingError>)
        ensures
            request.audio is None && request.video is None ==> refused_with(
                r,
                "at least one of audio/video must be requested"@,
            ),
            request.audio is Some && self.audio_backend is None ==> refused_with(
                r,
                "audio backend is not configured"@,
            ),
            request.video is Some && self.video_backend is None && !(request.audio is Some
                && self.audio_backend is None) ==> refused_with(
                r,
                "video backend is not configured"@,
            ),
            (request.audio is Some ==> self.audio_backend is Some) && (request.video is Some
                ==> self.video_backend is Some) && (request.audio is Some || request.video is Some)
                ==> r is Ok,
            r matches Ok(jobs) ==> match jobs {
                RecordingJobs::Audio(b, a) => self.audio_backend == Some(b) && request.audio
                    == Some(a) && request.video is None,
                RecordingJobs::Video(b, v) => self.video_backend == Some(b) && request.video
                    == Some(v) && request.audio is None,
                RecordingJobs::Both(ab, a, vb, v) => self.audio_backend == Some(ab)
                    && self.video_backend == Some(vb) && request.audio == Some(a)
                    && request.video == Some(v),
            },
    {
        match (request.audio, request.video) {
            (Some(audio_req), Some(video_req)) => {
                match self.audio_backend {
                    None => Err(
                        RecordingError::InvalidRequest(
                            to_owned_string("audio backend is not configured"),
                        ),
                    ),
                    Some(ab) => match self.video_backend {
                        None => Err(
                            RecordingError::InvalidRequest(
                                to_owned_string("video backend is not configured"),
                            ),
                        ),
                        Some(vb) => Ok(RecordingJobs::Both(ab, audio_req, vb, video_req)),
                    },
                }
            },
            (Some(audio_req), None) => match self.audio_backend {
                None => Err(
                    RecordingError::InvalidRequest(
                        to_owned_string("audio backend is not configured"),
                    ),
                ),
                Some(ab) => Ok(RecordingJobs::Audio(ab, audio_req)),
            },
            (None, Some(video_req)) => match self.video_backend {
                None => Err(
                    RecordingError::InvalidRequest(
                        to_owned_string("video backend is not configured"),
                    ),
                ),
                Some(vb) => Ok(RecordingJobs::Video(vb, video_req)),
            },
            (None, None) => Err(
                RecordingError::InvalidRequest(
                    to_owned_string("at least one of audio/video must be requested"),
                ),
            ),
        }
    }
}

/// The captures ran together and the video thread panicked without being waited for,
/// because the audio capture had already failed or panicked: the session itself panics
/// then, and has no outcome to report.
pub open spec fn unjoined_panic(outcome: RecordingOutcome) -> bool {
    outcome matches RecordingOutcome::Both(audio, Joined::Panicked) && !(audio matches Joined::Returned(Ok(_)))
}

/// What a session reports once its captures ended: each capture's report, or the first
/// failure, the audio capture's before the video capture's.
pub fn finish_recording(outcome: RecordingOutcome) -> (r: Result<RecordingReport, RecordingError>)
    requires
        !unjoined_panic(outcome),
    ensures
        match outcome {
            RecordingOutcome::Audio(Ok(a)) => r == Ok::<RecordingReport, RecordingError>(
                RecordingReport { audio: Some(a), video: None },
            ),
            RecordingOutcome::Audio(Err(e)) => r == Err::<RecordingReport, RecordingError>(
                RecordingError::Audio(e),
            ),
            RecordingOutcome::Video(Ok(v)) => r == Ok::<RecordingReport, RecordingError>(
                RecordingReport { audio: None, video: Some(v) },
            ),
            RecordingOutcome::Video(Err(e)) => r == Err::<RecordingReport, RecordingError>(
                RecordingError::Video(e),
            ),
            RecordingOutcome::Both(Joined::Panicked, _) => (r matches Err(
                RecordingError::Thread(m),
            ) && m@ == "audio thread panicked"@),
            RecordingOutcome::Both(Joined::Returned(Err(e)), _) => r == Err::<
                RecordingReport,
                RecordingError,
            >(RecordingError::Audio(e)),
            RecordingOutcome::Both(Joined::Returned(Ok(_)), Joined::Panicked) => (r matches Err(
                RecordingError::Thread(m),
            ) && m@ == "video thread panicked"@),
            RecordingOutcome::Both(Joined::Returned(Ok(_)), Joined::Returned(Err(e))) => r
                == Err::<RecordingReport, RecordingError>(RecordingError::Video(e)),
            RecordingOutcome::Both(Joined::Returned(Ok(a)), Joined::Returned(Ok(v))) => r == Ok::<
                RecordingReport,
                RecordingError,
            >(RecordingReport { audio: Some(a), video: Some(v) }),
        },
{
    match outcome {
        RecordingOutcome::Audio(Ok(a)) => Ok(RecordingReport { audio: Some(a), video: None }),
        RecordingOutcome::Audio(Err(e)) => Err(RecordingError::Audio(e)),
        RecordingOutcome::Video(Ok(v)) => Ok(RecordingReport { audio: None, video: Some(v) }),
        RecordingOutcome::Video(Err(e)) => Err(RecordingError::Video(e)),
        RecordingOutcome::Both(audio, video) => {
            let a = match audio {
                Joined::Panicked => {
                    return Err(RecordingError::Thread(to_owned_string("audio thread panicked")));
                },
                Joined::Returned(Err(e)) => {
                    return Err(RecordingError::Audio(e));
                },
                Joined::Returned(Ok(a)) => a,
            };
            let v = match video {
                Joined::Panicked => {
                    return Err(RecordingError::Thread(to_owned_string("video thread panicked")));
                },
                Joined::Returned(Err(e)) => {
                    return Err(RecordingError::Video(e));
                },
                Joined::Returned(Ok(v)) => v,
            };
            Ok(RecordingReport { audio: Some(a), video: Some(v) })
        },
    }
}

} // verus!
