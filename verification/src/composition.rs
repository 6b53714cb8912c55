//! A composition session: audio, visual (screen) capture or both, each captured by its own
//! backend. The coordinator decides which captures run and what the session reports once
//! they end.
use vstd::prelude::*;

use crate::audio::backend::{AudioError, CaptureReport, CaptureRequest};
use crate::text::{concat2, to_owned_string};
use crate::recording::Joined;
use crate::video::backend::{VideoCaptureReport, VideoCaptureRequest, VideoError};

verus! {

/// What to capture: audio, the screen, or both.
pub struct CompositionRequest {
    pub audio: Option<CaptureRequest>,
    pub visual: Option<VideoCaptureRequest>,
}

/// What a session captured.
pub struct CompositionReport {
    pub audio: Option<CaptureReport>,
    pub visual: Option<VideoCaptureReport>,
}

/// Why a session failed.
pub enum CompositionError {
    /// The request cannot be served.
    InvalidRequest(String),
    /// The audio capture failed.
    Audio(AudioError),
    /// The visual capture failed.
    Visual(VideoError),
    /// A capture thread did not finish.
    Thread(String),
}

impl CompositionError {
    /// The text that describes the error.
    pub open spec fn message_text(self) -> Seq<char> {
        match self {
            CompositionError::InvalidRequest(m) => "invalid request: "@ + m@,
            CompositionError::Audio(e) => "audio capture failed: "@ + e.message_text(),
            CompositionError::Visual(e) => "visual capture failed: "@ + e.message_text(),
            CompositionError::Thread(m) => "composition thread failed: "@ + m@,
        }
    }

    /// Renders the error.
    pub fn message(&self) -> (r: String)
        ensures
            r@ == self.message_text(),
    {
        match self {
            CompositionError::InvalidRequest(m) => concat2("invalid request: ", m),
            CompositionError::Audio(e) => {
                let t = e.message();
                concat2("audio capture failed: ", &t)
            },
            CompositionError::Visual(e) => {
                let t = e.message();
                concat2("visual capture failed: ", &t)
            },
            CompositionError::Thread(m) => concat2("composition thread failed: ", m),
        }
    }
}

/// The captures a session runs, each with the backend that runs it. When both run, they
/// run at the same time.
pub enum CompositionJobs<'a, A, V> {
    Audio(&'a A, CaptureRequest),
    Visual(&'a V, VideoCaptureRequest),
    Both(&'a A, CaptureRequest, &'a V, VideoCaptureRequest),
}

/// How the captures of a session ended.
pub enum CompositionOutcome {
    Audio(Result<CaptureReport, AudioError>),
    Visual(Result<VideoCaptureReport, VideoError>),
    Both(Joined<CaptureReport, AudioError>, Joined<VideoCaptureReport, VideoError>),
}

/// Runs recording sessions with the backends it was given.
pub struct CompositionCoordinator<'a, A, V> {
    pub audio_backend: Option<&'a A>,
    pub visual_backend: Option<&'a V>,
}

/// The session's request is refused with the `InvalidRequest` message `msg`.
pub open spec fn refused_with<'a, A, V>(r: Result<CompositionJobs<'a, A, V>, CompositionError>, msg: Seq<char>) -> bool {
    r matches Err(CompositionError::InvalidRequest(m)) && m@ == msg
}

impl<'a, A, V> CompositionCoordinator<'a, A, V> {
    /// A coordinator with the given backends; a missing one cannot serve its kind of
    /// capture.
    pub fn new(audio_backend: Option<&'a A>, visual_backend: Option<&'a V>) -> (r: Self)
        ensures
            r.audio_backend == audio_backend,
            r.visual_backend == visual_backend,
    {
        CompositionCoordinator { audio_backend, visual_backend }
    }

    /// Decides which captures the request needs: refused when it asks for nothing, or
    /// for a kind of capture whose backend is missing (audio is checked first);
    /// otherwise each requested capture with its backend.
    pub fn plan(&self, request: CompositionRequest) -> (r: Result<CompositionJobs<'a, A, V>, CompositionError>)
        ensures
            request.audio is None && request.visual is None ==> refused_with(
                r,
                "at least one of audio/visual must be requested"@,
            ),
            request.audio is Some && self.audio_backend is None ==> refused_with(
                r,
                "audio backend is not configured"@,
            ),
            request.visual is Some && self.visual_backend is None && !(request.audio is Some
                && self.audio_backend is None) ==> refused_with(
                r,
                "visual backend is not configured"@,
            ),
            (request.audio is Some ==> self.audio_backend is Some) && (request.visual is Some
                ==> self.visual_backend is Some) && (request.audio is Some || request.visual is Some)
                ==> r is Ok,
            r matches Ok(jobs) ==> match jobs {
                CompositionJobs::Audio(b, a) => self.audio_backend == Some(b) && request.audio
                    == Some(a) && request.visual is None,
                CompositionJobs::Visual(b, v) => self.visual_backend == Some(b) && request.visual
                    == Some(v) && request.audio is None,
                CompositionJobs::Both(ab, a, vb, v) => self.audio_backend == Some(ab)
                    && self.visual_backend == Some(vb) && request.audio == Some(a)
                    && request.visual == Some(v),
            },
    {
        match (request.audio, request.visual) {
            (Some(audio_req), Some(visual_req)) => {
                match self.audio_backend {
                    None => Err(
                        CompositionError::InvalidRequest(
                            to_owned_string("audio backend is not configured"),
                        ),
                    ),
                    Some(ab) => match self.visual_backend {
                        None => Err(
                            CompositionError::InvalidRequest(
                                to_owned_string("visual backend is not configured"),
                            ),
                        ),
                        Some(vb) => Ok(CompositionJobs::Both(ab, audio_req, vb, visual_req)),
                    },
                }
            },
            (Some(audio_req), None) => match self.audio_backend {
                None => Err(
                    CompositionError::InvalidRequest(
                        to_owned_string("audio backend is not configured"),
                    ),
                ),
                Some(ab) => Ok(CompositionJobs::Audio(ab, audio_req)),
            },
            (None, Some(visual_req)) => match self.visual_backend {
                None => Err(
                    CompositionError::InvalidRequest(
                        to_owned_string("visual backend is not configured"),
                    ),
                ),
                Some(vb) => Ok(CompositionJobs::Visual(vb, visual_req)),
            },
            (None, None) => Err(
                CompositionError::InvalidRequest(
                    to_owned_string("at least one of audio/visual must be requested"),
                ),
            ),
        }
    }
}

/// The captures ran together and the visual thread panicked without being waited for,
/// because the audio capture had already failed or panicked: the session itself panics
/// then, and has no outcome to report.
pub open spec fn unjoined_panic(outcome: CompositionOutcome) -> bool {
    outcome matches CompositionOutcome::Both(audio, Joined::Panicked) && !(audio matches Joined::Returned(Ok(_)))
}

/// What a session reports once its captures ended: each capture's report, or the first
/// failure, the audio capture's before the visual capture's.
pub fn finish_composition(outcome: CompositionOutcome) -> (r: Result<CompositionReport, CompositionError>)
    requires
        !unjoined_panic(outcome),
    ensures
        match outcome {
            CompositionOutcome::Audio(Ok(a)) => r == Ok::<CompositionReport, CompositionError>(
                CompositionReport { audio: Some(a), visual: None },
            ),
            CompositionOutcome::Audio(Err(e)) => r == Err::<CompositionReport, CompositionError>(
                CompositionError::Audio(e),
            ),
            CompositionOutcome::Visual(Ok(v)) => r == Ok::<CompositionReport, CompositionError>(
                CompositionReport { audio: None, visual: Some(v) },
            ),
            CompositionOutcome::Visual(Err(e)) => r == Err::<CompositionReport, CompositionError>(
                CompositionError::Visual(e),
            ),
            CompositionOutcome::Both(Joined::Panicked, _) => (r matches Err(
                CompositionError::Thread(m),
            ) && m@ == "audio thread panicked"@),
            CompositionOutcome::Both(Joined::Returned(Err(e)), _) => r == Err::<
                CompositionReport,
                CompositionError,
            >(CompositionError::Audio(e)),
            CompositionOutcome::Both(Joined::Returned(Ok(_)), Joined::Panicked) => (r matches Err(
                CompositionError::Thread(m),
            ) && m@ == "visual thread panicked"@),
            CompositionOutcome::Both(Joined::Returned(Ok(_)), Joined::Returned(Err(e))) => r
                == Err::<CompositionReport, CompositionError>(CompositionError::Visual(e)),
            CompositionOutcome::Both(Joined::Returned(Ok(a)), Joined::Returned(Ok(v))) => r == Ok::<
                CompositionReport,
                CompositionError,
            >(CompositionReport { audio: Some(a), visual: Some(v) }),
        },
{
    match outcome {
        CompositionOutcome::Audio(Ok(a)) => Ok(CompositionReport { audio: Some(a), visual: None }),
        CompositionOutcome::Audio(Err(e)) => Err(CompositionError::Audio(e)),
        CompositionOutcome::Visual(Ok(v)) => Ok(CompositionReport { audio: None, visual: Some(v) }),
        CompositionOutcome::Visual(Err(e)) => Err(CompositionError::Visual(e)),
        CompositionOutcome::Both(audio, video) => {
            let a = match audio {
                Joined::Panicked => {
                    return Err(CompositionError::Thread(to_owned_string("audio thread panicked")));
                },
                Joined::Returned(Err(e)) => {
                    return Err(CompositionError::Audio(e));
                },
                Joined::Returned(Ok(a)) => a,
            };
            let v = match video {
                Joined::Panicked => {
                    return Err(CompositionError::Thread(to_owned_string("visual thread panicked")));
                },
                Joined::Returned(Err(e)) => {
                    return Err(CompositionError::Visual(e));
                },
                Joined::Returned(Ok(v)) => v,
            };
            Ok(CompositionReport { audio: Some(a), visual: Some(v) })
        },
    }
}

} // verus!
