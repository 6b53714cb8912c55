use lyricwave::audio::platform::windows::{
    active_audio_processes, capture_failure, capture_report, check_capture_request,
    manual_capture_over, needs_process_table, parse_simple_csv_line, parse_tasklist_rows,
    raw_capture_file_name, require_target_pids, resolve_target_pids, worker_failures,
};
use lyricwave::recording::Joined;
use lyricwave::audio::{AudioError, CaptureFormat, CaptureRequest, CaptureScope, CaptureTarget, ProcessSelector};

#[test]
fn csv_lines_split_on_commas_outside_quotes() {
    assert_eq!(
        parse_simple_csv_line("\"chrome.exe\",\"1,234\",\"Console\""),
        vec!["chrome.exe", "1,234", "Console"]
    );
    assert_eq!(parse_simple_csv_line(" a , b ,"), vec!["a", "b", ""]);
    assert_eq!(parse_simple_csv_line(""), vec![""]);
}

#[test]
fn tasklist_rows_keep_named_positive_pids() {
    let text = "\"System Idle Process\",\"0\",\"Services\"\r\n\"chrome.exe\",\"1,234\",\"Console\"\r\n\r\n\"bad\"\r\n\"Spotify.exe\",\"88\",\"Console\"\r\n";
    let rows = parse_tasklist_rows(text);
    assert_eq!(rows, vec![("chrome.exe".to_string(), 1234), ("Spotify.exe".to_string(), 88)]);
}

#[test]
fn target_pids_are_sorted_and_unique() {
    let rows = vec![("Chrome.exe".to_string(), 30), ("chrome.exe".to_string(), 10), ("vlc.exe".to_string(), 20)];
    let selectors = vec![
        ProcessSelector::Pid(20),
        ProcessSelector::NameContains("CHROME".into()),
        ProcessSelector::Pid(5),
    ];
    assert!(needs_process_table(&selectors));
    assert!(!needs_process_table(&[ProcessSelector::Pid(1)]));
    assert_eq!(resolve_target_pids(&selectors, &rows), vec![5, 10, 20, 30]);
    assert_eq!(resolve_target_pids(&[], &rows), Vec::<u32>::new());
}

#[test]
fn active_processes_take_the_first_name_per_pid() {
    let rows = vec![
        ("first.exe".to_string(), 7),
        ("second.exe".to_string(), 7),
        ("idle.exe".to_string(), 9),
        ("audio.exe".to_string(), 3),
    ];
    let active = active_audio_processes(&[7, 3, 7, 100], &rows);
    let seen: Vec<(u32, String)> = active.into_iter().map(|p| (p.pid, p.name)).collect();
    assert_eq!(seen, vec![(3, "audio.exe".to_string()), (7, "first.exe".to_string())]);
}

fn request() -> CaptureRequest {
    CaptureRequest {
        scope: CaptureScope::Processes(vec![ProcessSelector::Pid(1)]),
        target: CaptureTarget::File("apps.wav".into()),
        duration_secs: None,
        sample_rate: None,
        channels: None,
        format: CaptureFormat::Wav,
        input_device_hint: None,
        prefer_loopback: false,
        ffmpeg_bin: "ffmpeg".into(),
    }
}

#[test]
fn requests_default_to_48k_stereo() {
    let settings = check_capture_request(&request()).ok().unwrap();
    assert_eq!(settings.out_path, "apps.wav");
    assert_eq!(settings.sample_rate, 48000);
    assert_eq!(settings.channels, 2);
    let mut req = request();
    req.sample_rate = Some(16000);
    req.channels = Some(1);
    let settings = check_capture_request(&req).ok().unwrap();
    assert_eq!((settings.sample_rate, settings.channels), (16000, 1));
}

#[test]
fn requests_are_refused_for_stdout_and_flac() {
    let mut req = request();
    req.format = CaptureFormat::Flac;
    match check_capture_request(&req) {
        Err(e) => assert_eq!(e.message(), "windows process capture currently supports WAV output only"),
        _ => panic!("expected refusal"),
    }
    req.target = CaptureTarget::StdoutPcm;
    match check_capture_request(&req) {
        Err(e) => assert_eq!(e.message(), "windows process capture currently supports file target only"),
        _ => panic!("expected refusal"),
    }
}

#[test]
fn failures_and_reports() {
    match capture_failure(&vec!["pid 1: gone".to_string(), "pid 2: muted".to_string()]) {
        AudioError::Message(m) => assert_eq!(m, "windows process capture failed: pid 1: gone; pid 2: muted"),
        _ => panic!("expected message"),
    }
    let settings = check_capture_request(&request()).ok().unwrap();
    let report = capture_report(&vec![4, 9], 4800, &settings, 10, 20);
    assert_eq!(report.captured_samples, 4800);
    assert_eq!(report.sample_rate, 48000);
    assert_eq!(report.selected_input_device.id, "wasapi-process-loopback");
    assert_eq!(report.selected_input_device.name, "WASAPI Process Loopback");
    assert_eq!(report.selection_reason, "selected Windows native WASAPI process loopback");
    assert_eq!(report.matched_processes, vec!["pid=4", "pid=9"]);
}

#[test]
fn manual_captures_stop_on_a_signal_or_after_a_day() {
    assert!(!manual_capture_over(false, None, 1000));
    assert!(manual_capture_over(true, None, 0));
    assert!(manual_capture_over(false, Some(true), 0));
    assert!(!manual_capture_over(false, Some(false), 86_400_000));
    assert!(manual_capture_over(false, Some(false), 86_400_001));
}

#[test]
fn workers_and_raw_files() {
    match require_target_pids(&Vec::new()) {
        Err(e) => assert_eq!(e.message(), "no processes matched selectors"),
        Ok(()) => panic!("expected refusal"),
    }
    assert!(require_target_pids(&vec![3]).is_ok());
    assert_eq!(raw_capture_file_name(42, 1700), "lyricwave-win-pid-42-1700.raw");
    let outcomes = vec![
        Joined::Returned(Ok(())),
        Joined::Returned(Err(AudioError::Message("start stream pid 4 failed".into()))),
        Joined::Panicked,
    ];
    assert_eq!(worker_failures(&outcomes), vec!["start stream pid 4 failed", "capture thread panicked"]);
    assert!(worker_failures(&vec![Joined::Returned(Ok(()))]).is_empty());
}
