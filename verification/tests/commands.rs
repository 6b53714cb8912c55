use lyricwave::audio::{CaptureFormat, CaptureReport, CaptureTarget, CommandSpec, InputDeviceInfo};
use lyricwave::commands::capture::{command_line, system_request};
use lyricwave::commands::daemon::{live_text, next_line_index, sample_text};
use lyricwave::commands::pipeline::{recognition_failure_context, temp_capture_file_name};
use lyricwave::commands::record::{audio_summary, init_failure, recording_request, session_failure, video_summary};
use lyricwave::commands::visual::{
    apps_split_plan, build_backend, sanitize_name, select_processes, split_file_name,
    visual_app_selectors, visual_summary,
};
use lyricwave::os::TargetOs;
use lyricwave::recording::RecordingError;
use lyricwave::video::{ActiveVisualProcessInfo, DisplayInfo, VideoCaptureReport, VideoTarget, VisualProcessSelector};

#[test]
fn sanitized_names_are_safe_file_stems() {
    assert_eq!(sanitize_name("Google Chrome"), "Google_Chrome");
    assert_eq!(sanitize_name("  spaced  out  "), "spaced__out");
    assert_eq!(sanitize_name("a/b\\c:d"), "abcd");
    assert_eq!(sanitize_name("__x__"), "x");
    assert_eq!(sanitize_name("★★★"), "app");
    assert_eq!(sanitize_name(""), "app");
    for name in ["Google Chrome", "  spaced  out  ", "★★★", "__x__", "a-b_c"] {
        let once = sanitize_name(name);
        assert_eq!(sanitize_name(&once), once);
    }
    assert_eq!(split_file_name("Google Chrome", 42), "Google_Chrome-42.mp4");
}

#[test]
fn different_pids_get_different_files() {
    assert_eq!(split_file_name("a-1", 2), "a-1-2.mp4");
    assert_eq!(split_file_name("a", 12), "a-12.mp4");
    assert_ne!(split_file_name("a-1", 2), split_file_name("a-12", 2 + 1));
    assert_ne!(split_file_name("x", 1), split_file_name("x", 10));
}

fn active() -> Vec<ActiveVisualProcessInfo> {
    vec![
        ActiveVisualProcessInfo { pid: 30, name: "Google Chrome".into() },
        ActiveVisualProcessInfo { pid: 10, name: "Terminal".into() },
        ActiveVisualProcessInfo { pid: 20, name: "chrome helper".into() },
    ]
}

#[test]
fn split_selection_by_pid_name_and_all() {
    let by_pid = select_processes(&active(), vec![10, 99], Vec::new(), false);
    assert_eq!(by_pid, vec![(10, "Terminal".to_string()), (99, "pid-99".to_string())]);
    let by_name = select_processes(&active(), Vec::new(), vec!["CHROME".into()], false);
    assert_eq!(by_name, vec![(20, "chrome helper".to_string()), (30, "Google Chrome".to_string())]);
    let all = select_processes(&active(), Vec::new(), Vec::new(), true);
    let pids: Vec<u32> = all.iter().map(|p| p.0).collect();
    assert_eq!(pids, vec![10, 20, 30]);
    assert!(select_processes(&active(), Vec::new(), Vec::new(), false).is_empty());
}

#[test]
fn split_plan_names_files() {
    let plan = apps_split_plan(&active(), vec![30], Vec::new(), false).ok().unwrap();
    assert_eq!(plan.len(), 1);
    assert_eq!(plan[0].pid, 30);
    assert_eq!(plan[0].name, "Google Chrome");
    assert_eq!(plan[0].file_name, "Google_Chrome-30.mp4");
    match apps_split_plan(&active(), Vec::new(), vec!["nothing".into()], false) {
        Err(m) => assert_eq!(m, "no target processes selected; use --all-active or --pid/--name"),
        Ok(_) => panic!("expected refusal"),
    }
}

#[test]
fn visual_app_selectors_need_one() {
    let sel = visual_app_selectors(vec![5], vec!["vlc".into()]).ok().unwrap();
    assert!(matches!(sel[0], VisualProcessSelector::Pid(5)));
    assert!(matches!(&sel[1], VisualProcessSelector::NameContains(n) if n == "vlc"));
    match visual_app_selectors(Vec::new(), Vec::new()) {
        Err(m) => assert_eq!(m, "visual app requires at least one selector: --pid or --name"),
        Ok(_) => panic!("expected refusal"),
    }
    match build_backend("nope", TargetOs::Linux) {
        Err(m) => assert_eq!(m, "failed to initialize visual backend 'nope': unknown video backend: nope"),
        Ok(_) => panic!("expected failure"),
    }
}

#[test]
fn system_capture_requests() {
    let req = system_request(Some("a.wav".into()), false, Some(3), None, Some(2), CaptureFormat::Wav, "ffmpeg".into(), None, true)
        .ok()
        .unwrap();
    assert!(matches!(&req.target, CaptureTarget::File(p) if p == "a.wav"));
    assert_eq!(req.duration_secs, Some(3));
    assert_eq!(req.channels, Some(2));
    assert!(req.prefer_loopback);
    let req = system_request(None, true, None, None, None, CaptureFormat::Wav, "ffmpeg".into(), None, false)
        .ok()
        .unwrap();
    assert!(matches!(req.target, CaptureTarget::StdoutPcm));
    match system_request(None, false, None, None, None, CaptureFormat::Wav, "ffmpeg".into(), None, true) {
        Err(m) => assert_eq!(m, "--out is required when --stdout is not set"),
        Ok(_) => panic!("expected refusal"),
    }
    let spec = CommandSpec { program: "ffmpeg".into(), args: vec!["-y".into(), "out.wav".into()] };
    assert_eq!(command_line(&spec), "ffmpeg -y out.wav");
}

#[test]
fn recording_requests() {
    match recording_request(None, None, None, None, None, None, false, None, None, "ffmpeg".into()) {
        Err(m) => assert_eq!(m, "record run requires at least one output: --audio-out and/or --video-out"),
        Ok(_) => panic!("expected refusal"),
    }
    let req = recording_request(Some("a.wav".into()), None, Some(5), None, None, None, true, None, None, "ffmpeg".into())
        .ok()
        .unwrap();
    let audio = req.audio.unwrap();
    assert!(!audio.prefer_loopback);
    assert!(audio.format == CaptureFormat::Wav);
    assert!(req.video.is_none());
    let req = recording_request(None, Some("v.mp4".into()), None, None, None, None, false, Some(24), Some("main".into()), "ffmpeg".into())
        .ok()
        .unwrap();
    assert!(req.audio.is_none());
    let video = req.video.unwrap();
    assert!(matches!(&video.target, VideoTarget::File(p) if p == "v.mp4"));
    assert_eq!(video.fps, Some(24));
    assert_eq!(video.display_hint.as_deref(), Some("main"));
}

#[test]
fn recording_messages() {
    assert_eq!(init_failure("audio", "x", "boom"), "failed to init audio backend 'x': boom");
    let e = RecordingError::InvalidRequest("audio backend is not configured".into());
    assert_eq!(session_failure(&e), "record session failed: invalid request: audio backend is not configured");
    let audio = CaptureReport {
        captured_samples: 480,
        sample_rate: 48000,
        channels: 2,
        started_at_ms: 0,
        ended_at_ms: 1,
        selected_input_device: InputDeviceInfo {
            id: "i".into(),
            name: "Mic".into(),
            is_default: true,
            loopback_score: 0,
            is_loopback_candidate: false,
        },
        selection_reason: "selected default input device".into(),
        matched_processes: Vec::new(),
    };
    assert_eq!(
        audio_summary(&audio),
        "audio done: 480 samples @ 48000Hz 2ch, input='Mic', reason=selected default input device"
    );
    let video = VideoCaptureReport {
        frames_captured: 60,
        fps: 30,
        selected_display: DisplayInfo { id: "d".into(), name: "Main".into(), is_primary: true, width: 1, height: 1 },
        output_path: "v.mp4".into(),
        backend_note: String::new(),
        matched_processes: Vec::new(),
    };
    assert_eq!(video_summary(&video), "video done: 60 frames @ 30fps, display='Main', out=v.mp4");
}

#[test]
fn pipeline_and_daemon_texts() {
    assert_eq!(temp_capture_file_name(1700000000123), "lyricwave-capture-1700000000123.wav");
    assert_eq!(recognition_failure_context("vibevoice-asr", "a.wav"), "vibevoice-asr failed for a.wav");
    assert_eq!(sample_text(3), "sample line 3");
    assert_eq!(live_text(12), "live line 12");
    assert_eq!(next_line_index(1), 2);
    assert_eq!(next_line_index(u64::MAX), u64::MAX);
}

#[test]
fn visual_summary_line() {
    let report = VideoCaptureReport {
        frames_captured: 90,
        fps: 30,
        selected_display: DisplayInfo { id: "d".into(), name: "Main".into(), is_primary: true, width: 1, height: 1 },
        output_path: "apps.mp4".into(),
        backend_note: String::new(),
        matched_processes: vec!["pid=1".into(), "pid=2".into()],
    };
    assert_eq!(visual_summary(&report), "captured 90 frames @ 30fps from 'Main' out=apps.mp4, matched=pid=1; pid=2");
}
