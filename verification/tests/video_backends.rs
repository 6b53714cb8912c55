use lyricwave::commands::video::{build_backend, capture_summary, screen_capture_request};
use lyricwave::os::TargetOs;
use lyricwave::video::{
    build_video_backend, default_video_backend, video_backends, DisplayInfo, NativePlatformVideoBackend,
    VideoBackend, VideoCaptureReport, VideoError, VideoScope, VideoTarget,
};

#[test]
fn display_text() {
    let d = DisplayInfo { id: "linux-main".into(), name: "Main Display".into(), is_primary: true, width: 1920, height: 1080 };
    assert_eq!(d.to_display_string(), "Main Display [linux-main] 1920x1080 (primary)");
    let d = DisplayInfo { id: "x".into(), name: "Side".into(), is_primary: false, width: 800, height: 600 };
    assert_eq!(d.to_display_string(), "Side [x] 800x600");
}

#[test]
fn native_backend_by_platform() {
    let linux = NativePlatformVideoBackend::new(TargetOs::Linux);
    assert_eq!(linux.backend_name(), "platform-native");
    let displays = linux.list_displays().ok().unwrap();
    assert_eq!(displays.len(), 1);
    assert_eq!(displays[0].id, "linux-main");
    assert_eq!((displays[0].width, displays[0].height), (1920, 1080));
    let caps = linux.capabilities();
    assert!(caps.screen_capture && !caps.window_capture && !caps.per_app_capture);
    assert_eq!(
        caps.note,
        "Linux video backend scaffold is ready; screen capture implementation will be added via native pipeline (PipeWire/X11/Wayland)."
    );
    let mac = NativePlatformVideoBackend::new(TargetOs::MacOs);
    assert_eq!(mac.list_displays().ok().unwrap()[0].id, "macos-main");
    let other = NativePlatformVideoBackend::new(TargetOs::Windows);
    assert!(other.list_displays().ok().unwrap().is_empty());
    assert_eq!(other.capabilities().note, "Unsupported OS for native video capture backend scaffold.");
}

#[test]
fn screen_capture_is_not_offered_yet() {
    let req = screen_capture_request("screen.mp4".into(), Some(10), Some(30), None);
    assert!(matches!(req.scope, VideoScope::Display));
    assert!(matches!(&req.target, VideoTarget::File(p) if p == "screen.mp4"));
    assert_eq!((req.duration_secs, req.fps), (Some(10), Some(30)));
    let expected = [
        (TargetOs::Linux, "linux native screen capture"),
        (TargetOs::MacOs, "macOS ScreenCaptureKit screen recording"),
        (TargetOs::Other, "native screen recording on this OS"),
    ];
    for (os, feature_text) in expected {
        match NativePlatformVideoBackend::new(os).capture_blocking(&req) {
            Err(VideoError::NotImplemented { feature }) => assert_eq!(feature, feature_text),
            _ => panic!("expected not implemented"),
        }
    }
    assert_eq!(
        VideoError::NotImplemented { feature: "x" }.message(),
        "feature not yet implemented on this backend: x"
    );
}

#[test]
fn registry() {
    assert!(default_video_backend(TargetOs::Linux).os == TargetOs::Linux);
    assert!(build_video_backend("platform-native", TargetOs::MacOs).is_ok());
    match build_video_backend("gstreamer", TargetOs::MacOs) {
        Err(m) => assert_eq!(m, "unknown video backend: gstreamer"),
        Ok(_) => panic!("expected unknown backend"),
    }
    let catalog = video_backends();
    assert_eq!(catalog.len(), 1);
    assert_eq!(catalog[0].id, "platform-native");
    match build_backend("x", TargetOs::Linux) {
        Err(m) => assert_eq!(m, "failed to initialize video backend 'x': unknown video backend: x"),
        Ok(_) => panic!("expected failure"),
    }
}

#[test]
fn capture_summary_line() {
    let report = VideoCaptureReport {
        frames_captured: 300,
        fps: 30,
        selected_display: DisplayInfo { id: "d".into(), name: "Main".into(), is_primary: true, width: 1, height: 1 },
        output_path: "s.mp4".into(),
        backend_note: "n".into(),
        matched_processes: Vec::new(),
    };
    assert_eq!(capture_summary(&report), "captured 300 frames @ 30fps from 'Main', out=s.mp4, note=n");
}
