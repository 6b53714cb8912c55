use lyricwave::audio::{AudioError, CaptureFormat, CaptureReport, CaptureRequest, CaptureScope, CaptureTarget, InputDeviceInfo};
use lyricwave::composition::{finish_composition, CompositionCoordinator, CompositionError, CompositionJobs, CompositionOutcome, CompositionRequest};
use lyricwave::mux::{MuxContainer, MuxError, MuxRequest, Muxer, NativeMuxer};
use lyricwave::recording::{finish_recording, Joined, RecordingCoordinator, RecordingError, RecordingJobs, RecordingOutcome, RecordingRequest};
use lyricwave::video::{DisplayInfo, VideoCaptureReport, VideoCaptureRequest, VideoError, VideoScope, VideoTarget};

struct AudioSide;
struct VideoSide;

fn audio_request() -> CaptureRequest {
    CaptureRequest {
        scope: CaptureScope::System,
        target: CaptureTarget::File("a.wav".into()),
        duration_secs: Some(1),
        sample_rate: None,
        channels: None,
        format: CaptureFormat::Wav,
        input_device_hint: None,
        prefer_loopback: true,
        ffmpeg_bin: "ffmpeg".into(),
    }
}

fn video_request() -> VideoCaptureRequest {
    VideoCaptureRequest {
        scope: VideoScope::Display,
        target: VideoTarget::File("v.mp4".into()),
        duration_secs: Some(1),
        fps: None,
        display_hint: None,
    }
}

fn audio_report() -> CaptureReport {
    CaptureReport {
        captured_samples: 10,
        sample_rate: 48000,
        channels: 2,
        started_at_ms: 0,
        ended_at_ms: 1000,
        selected_input_device: InputDeviceInfo {
            id: "i".into(),
            name: "Mic".into(),
            is_default: true,
            loopback_score: 0,
            is_loopback_candidate: false,
        },
        selection_reason: "r".into(),
        matched_processes: Vec::new(),
    }
}

fn video_report() -> VideoCaptureReport {
    VideoCaptureReport {
        frames_captured: 30,
        fps: 30,
        selected_display: DisplayInfo { id: "d".into(), name: "Main".into(), is_primary: true, width: 1, height: 1 },
        output_path: "v.mp4".into(),
        backend_note: String::new(),
        matched_processes: Vec::new(),
    }
}

fn invalid(r: Result<RecordingJobs<'_, AudioSide, VideoSide>, RecordingError>) -> String {
    match r {
        Err(RecordingError::InvalidRequest(m)) => m,
        _ => panic!("expected an invalid request"),
    }
}

#[test]
fn an_empty_recording_request_is_refused() {
    let c = RecordingCoordinator::new(Some(&AudioSide), Some(&VideoSide));
    let m = invalid(c.plan(RecordingRequest { audio: None, video: None }));
    assert_eq!(m, "at least one of audio/video must be requested");
    let e = RecordingError::InvalidRequest(m);
    assert_eq!(e.message(), "invalid request: at least one of audio/video must be requested");
}

#[test]
fn missing_backends_are_refused_audio_first() {
    let none: RecordingCoordinator<'_, AudioSide, VideoSide> = RecordingCoordinator::new(None, None);
    let both = RecordingRequest { audio: Some(audio_request()), video: Some(video_request()) };
    assert_eq!(invalid(none.plan(both)), "audio backend is not configured");
    let audio_only = RecordingCoordinator::new(Some(&AudioSide), None::<&VideoSide>);
    let both = RecordingRequest { audio: Some(audio_request()), video: Some(video_request()) };
    assert_eq!(invalid(audio_only.plan(both)), "video backend is not configured");
    let video = RecordingRequest { audio: None, video: Some(video_request()) };
    assert_eq!(invalid(audio_only.plan(video)), "video backend is not configured");
}

#[test]
fn plans_pair_each_capture_with_its_backend() {
    let c = RecordingCoordinator::new(Some(&AudioSide), Some(&VideoSide));
    let both = RecordingRequest { audio: Some(audio_request()), video: Some(video_request()) };
    assert!(matches!(c.plan(both), Ok(RecordingJobs::Both(_, _, _, _))));
    let audio = RecordingRequest { audio: Some(audio_request()), video: None };
    assert!(matches!(c.plan(audio), Ok(RecordingJobs::Audio(_, _))));
    let video = RecordingRequest { audio: None, video: Some(video_request()) };
    assert!(matches!(c.plan(video), Ok(RecordingJobs::Video(_, _))));
}

#[test]
fn finished_sessions_report_or_fail_audio_first() {
    let ok = finish_recording(RecordingOutcome::Both(
        Joined::Returned(Ok(audio_report())),
        Joined::Returned(Ok(video_report())),
    ))
    .ok()
    .unwrap();
    assert_eq!(ok.audio.unwrap().captured_samples, 10);
    assert_eq!(ok.video.unwrap().frames_captured, 30);

    let both_failed = finish_recording(RecordingOutcome::Both(
        Joined::Returned(Err(AudioError::Message("a".into()))),
        Joined::Returned(Err(VideoError::Message("v".into()))),
    ));
    match both_failed {
        Err(e) => assert_eq!(e.message(), "audio capture failed: a"),
        Ok(_) => panic!("expected failure"),
    }
    match finish_recording(RecordingOutcome::Both(Joined::Panicked, Joined::Returned(Ok(video_report())))) {
        Err(e) => assert_eq!(e.message(), "recording thread failed: audio thread panicked"),
        Ok(_) => panic!("expected failure"),
    }
    match finish_recording(RecordingOutcome::Both(Joined::Returned(Ok(audio_report())), Joined::Panicked)) {
        Err(e) => assert_eq!(e.message(), "recording thread failed: video thread panicked"),
        Ok(_) => panic!("expected failure"),
    }
    match finish_recording(RecordingOutcome::Video(Err(VideoError::NotImplemented { feature: "x" }))) {
        Err(e) => assert_eq!(e.message(), "video capture failed: feature not yet implemented on this backend: x"),
        Ok(_) => panic!("expected failure"),
    }
    let audio_only = finish_recording(RecordingOutcome::Audio(Ok(audio_report()))).ok().unwrap();
    assert!(audio_only.video.is_none());
}

#[test]
fn compositions_follow_the_same_rules() {
    let c = CompositionCoordinator::new(Some(&AudioSide), None::<&VideoSide>);
    match c.plan(CompositionRequest { audio: None, visual: None }) {
        Err(CompositionError::InvalidRequest(m)) => assert_eq!(m, "at least one of audio/visual must be requested"),
        _ => panic!("expected refusal"),
    }
    match c.plan(CompositionRequest { audio: None, visual: Some(video_request()) }) {
        Err(CompositionError::InvalidRequest(m)) => assert_eq!(m, "visual backend is not configured"),
        _ => panic!("expected refusal"),
    }
    assert!(matches!(
        c.plan(CompositionRequest { audio: Some(audio_request()), visual: None }),
        Ok(CompositionJobs::Audio(_, _))
    ));
    match finish_composition(CompositionOutcome::Both(Joined::Returned(Ok(audio_report())), Joined::Panicked)) {
        Err(e) => assert_eq!(e.message(), "composition thread failed: visual thread panicked"),
        Ok(_) => panic!("expected failure"),
    }
    match finish_composition(CompositionOutcome::Visual(Err(VideoError::Message("no screen".into())))) {
        Err(e) => assert_eq!(e.message(), "visual capture failed: no screen"),
        Ok(_) => panic!("expected failure"),
    }
    let done = finish_composition(CompositionOutcome::Visual(Ok(video_report()))).ok().unwrap();
    assert!(done.audio.is_none() && done.visual.is_some());
}

#[test]
fn native_muxing_is_not_implemented() {
    let req = MuxRequest {
        audio_path: Some("a.wav".into()),
        visual_path: Some("v.mp4".into()),
        output_path: "out.mkv".into(),
        container: MuxContainer::Mkv,
    };
    match NativeMuxer::default().mux(&req) {
        Err(e) => {
            assert!(matches!(&e, MuxError::NotImplemented { feature } if *feature == "native A/V mux (mp4/mkv)"));
            assert_eq!(e.message(), "feature not yet implemented: native A/V mux (mp4/mkv)");
        }
        Ok(_) => panic!("expected not implemented"),
    }
    assert_eq!(MuxError::Message("x".into()).message(), "x");
}
