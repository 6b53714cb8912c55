use lyricwave::audio::backends::output_devices_from_names;
use lyricwave::audio::platform::{capability_note, capture_processes, supports_per_app_capture, ProcessCapture};
use lyricwave::audio::{
    audio_backend_names, default_audio_backend, AudioBackend, AudioError, CaptureConfig,
    CaptureFormat, CaptureRequest, CaptureScope, CaptureTarget, CpalBackend, CpalFfmpegBackend,
    CpalNativeBackend, DeviceInfo, InputDeviceInfo, ProcessSelector,
};
use lyricwave::os::TargetOs;

fn request(target: CaptureTarget, format: CaptureFormat) -> CaptureRequest {
    CaptureRequest {
        scope: CaptureScope::System,
        target,
        duration_secs: Some(10),
        sample_rate: Some(48000),
        channels: None,
        format,
        input_device_hint: None,
        prefer_loopback: true,
        ffmpeg_bin: "ffmpeg".to_string(),
    }
}

#[test]
fn device_listing_text() {
    let d = DeviceInfo { id: "cpal-output-0".into(), name: "Speakers".into(), is_default_output: true };
    assert_eq!(d.to_display_string(), "Speakers [cpal-output-0] (default)");
    let d = DeviceInfo { id: "cpal-output-1".into(), name: "HDMI".into(), is_default_output: false };
    assert_eq!(d.to_display_string(), "HDMI [cpal-output-1]");
}

#[test]
fn audio_error_messages() {
    assert_eq!(AudioError::Message("boom".into()).message(), "boom");
    assert_eq!(
        AudioError::NotImplemented { feature: "system loopback capture" }.message(),
        "feature not yet implemented on this backend: system loopback capture"
    );
}

#[test]
fn ffmpeg_command_for_a_file() {
    let backend = CpalFfmpegBackend::new(TargetOs::Linux);
    let req = request(CaptureTarget::File("out.wav".into()), CaptureFormat::Wav);
    let input = vec!["-f".to_string(), "pulse".to_string(), "-i".to_string(), "default".to_string()];
    let spec = backend.build_capture_command(&req, &input).ok().unwrap();
    assert_eq!(spec.program, "ffmpeg");
    assert_eq!(
        spec.args,
        vec![
            "-hide_banner", "-loglevel", "warning", "-y", "-f", "pulse", "-i", "default", "-ar",
            "48000", "-t", "10", "-f", "wav", "out.wav"
        ]
    );
}

#[test]
fn ffmpeg_command_for_stdout() {
    let backend = CpalFfmpegBackend::new(TargetOs::MacOs);
    let mut req = request(CaptureTarget::StdoutPcm, CaptureFormat::Flac);
    req.sample_rate = None;
    req.channels = Some(2);
    req.duration_secs = None;
    let spec = backend.build_capture_command(&req, &Vec::new()).ok().unwrap();
    assert_eq!(
        spec.args,
        vec!["-hide_banner", "-loglevel", "warning", "-y", "-ac", "2", "-f", "s16le", "-"]
    );
}

#[test]
fn output_devices_are_numbered_and_default_marked() {
    let names = vec![Some("Speakers".to_string()), None, Some("HDMI".to_string())];
    let devices = output_devices_from_names("HDMI", &names);
    assert_eq!(devices.len(), 3);
    assert_eq!(devices[0].id, "cpal-output-0");
    assert_eq!(devices[0].name, "Speakers");
    assert!(!devices[0].is_default_output);
    assert_eq!(devices[1].name, "unknown-device-1");
    assert_eq!(devices[2].id, "cpal-output-2");
    assert!(devices[2].is_default_output);
}

#[test]
fn native_backend_hint_and_checks() {
    let names = vec![Some("Built-in Mic".to_string()), None, Some("BlackHole 2ch".to_string())];
    assert_eq!(CpalNativeBackend::hinted_input(&names, Some("blackHOLE")), Some(2));
    assert_eq!(CpalNativeBackend::hinted_input(&names, Some("usb")), None);
    assert_eq!(CpalNativeBackend::hinted_input(&names, None), None);

    let flac = request(CaptureTarget::File("a.flac".into()), CaptureFormat::Flac);
    match CpalNativeBackend::check_output(&flac) {
        Err(AudioError::Message(m)) => {
            assert_eq!(m, "native backend currently supports file output in WAV format only")
        }
        _ => panic!("expected refusal"),
    }
    let pcm = request(CaptureTarget::StdoutPcm, CaptureFormat::Flac);
    assert!(CpalNativeBackend::check_output(&pcm).is_ok());

    let mut r = request(CaptureTarget::StdoutPcm, CaptureFormat::Wav);
    assert_eq!(CpalNativeBackend::capture_duration_secs(&r), 10);
    r.duration_secs = None;
    assert_eq!(CpalNativeBackend::capture_duration_secs(&r), 5);
}

fn mic() -> InputDeviceInfo {
    InputDeviceInfo {
        id: "in".into(),
        name: "Mic".into(),
        is_default: true,
        loopback_score: 0,
        is_loopback_candidate: false,
    }
}

#[test]
fn native_capture_report() {
    match CpalNativeBackend::capture_report(0, 48000, 2, 1, 2, mic(), "r".into()) {
        Err(AudioError::Message(m)) => {
            assert_eq!(m, "captured audio is empty; check input routing or loopback device")
        }
        _ => panic!("expected empty capture error"),
    }
    let rep = CpalNativeBackend::capture_report(960, 48000, 2, 100, 200, mic(), "why".into())
        .ok()
        .unwrap();
    assert_eq!(rep.captured_samples, 960);
    assert_eq!(rep.sample_rate, 48000);
    assert_eq!(rep.channels, 2);
    assert_eq!(rep.started_at_ms, 100);
    assert_eq!(rep.ended_at_ms, 200);
    assert_eq!(rep.selection_reason, "why");
    assert!(rep.matched_processes.is_empty());
}

#[test]
fn backends_names_and_capabilities() {
    assert_eq!(audio_backend_names(), vec!["cpal+ffmpeg"]);
    assert_eq!(default_audio_backend(TargetOs::Windows).backend_name(), "cpal+ffmpeg");
    assert_eq!(CpalNativeBackend::new(TargetOs::Linux).backend_name(), "cpal-native");
    assert_eq!(CpalBackend::new().backend_name(), "cpal");
    let caps = CpalNativeBackend::new(TargetOs::MacOs).capabilities();
    assert!(caps.system_loopback_capture);
    assert!(!caps.per_app_capture);
    assert_eq!(
        caps.note,
        "macOS native capture uses CoreAudio through CPAL input stream; configure a loopback-capable input (e.g. BlackHole)."
    );
    let config = CaptureConfig { sample_rate: None, channels: None, output_device_id: None };
    match CpalBackend::new().start_system_capture(config) {
        Err(AudioError::NotImplemented { feature }) => assert_eq!(feature, "system loopback capture"),
        _ => panic!("expected not implemented"),
    }
}

#[test]
fn platform_notes_and_per_app_support() {
    assert!(supports_per_app_capture(TargetOs::Linux));
    assert!(supports_per_app_capture(TargetOs::Windows));
    assert!(supports_per_app_capture(TargetOs::MacOs));
    assert!(!supports_per_app_capture(TargetOs::Other));
    assert_eq!(
        capability_note(TargetOs::Other),
        "Unsupported OS for native loopback defaults; provide an explicit input device that carries mixed audio."
    );
}

#[test]
fn per_app_capture_by_platform() {
    let mut req = request(CaptureTarget::File("apps.wav".into()), CaptureFormat::Wav);
    req.scope = CaptureScope::Processes(vec![ProcessSelector::Pid(42)]);
    match capture_processes(TargetOs::Linux, &req, 5) {
        Ok(ProcessCapture::Linux(s)) => {
            assert_eq!(s.out_path, "apps.wav");
            assert_eq!(s.capture_sink, "lyricwave_capture_5");
            assert_eq!(s.sample_rate, Some(48000));
            assert_eq!(s.channels, None);
            assert_eq!(s.started_at_ms, 5);
            assert!(s.matched.is_empty() && s.default_sink.is_empty() && s.module_id.is_empty());
            assert!(matches!(s.selectors.as_slice(), [ProcessSelector::Pid(42)]));
        }
        _ => panic!("expected a Linux session"),
    }
    match capture_processes(TargetOs::Windows, &req, 5) {
        Ok(ProcessCapture::Windows(settings)) => {
            assert_eq!(settings.out_path, "apps.wav");
            assert_eq!(settings.sample_rate, 48000);
            assert_eq!(settings.channels, 2);
        }
        _ => panic!("expected Windows settings"),
    }
    match capture_processes(TargetOs::MacOs, &req, 5) {
        Err(AudioError::NotImplemented { feature }) => {
            assert_eq!(feature, "per-app capture on macOS backend")
        }
        _ => panic!("expected not implemented"),
    }
    match capture_processes(TargetOs::Other, &req, 5) {
        Err(AudioError::NotImplemented { feature }) => {
            assert_eq!(feature, "per-app capture on this OS backend")
        }
        _ => panic!("expected not implemented"),
    }
    req.scope = CaptureScope::Processes(Vec::new());
    match capture_processes(TargetOs::Linux, &req, 5) {
        Err(AudioError::Message(m)) => assert_eq!(m, "process capture requires at least one selector"),
        _ => panic!("expected refusal"),
    }
    req.scope = CaptureScope::System;
    match capture_processes(TargetOs::Windows, &req, 5) {
        Err(AudioError::Message(m)) => {
            assert_eq!(m, "internal error: process capture called with system scope")
        }
        _ => panic!("expected refusal"),
    }
}

#[test]
fn process_selector_text() {
    assert_eq!(ProcessSelector::Pid(7).to_display_string(), "pid=7");
    assert_eq!(ProcessSelector::NameContains("Chrome".into()).to_display_string(), "name=Chrome");
}
