use lyricwave::audio::platform::linux::{
    capture_processes, default_sink_from_output, list_sink_inputs_from_output, match_sink_inputs,
    module_id_from_output, move_sink_input_args, null_sink_args, parecord_args,
    parecord_exit_result, wait_plan, LinuxCaptureAction, LinuxCaptureEvent, LinuxCaptureSession,
    SinkInput, WaitPlan,
};
use lyricwave::audio::{AudioError, CaptureFormat, CaptureRequest, CaptureScope, CaptureTarget, ProcessSelector};

fn app_request(selectors: Vec<ProcessSelector>) -> CaptureRequest {
    CaptureRequest {
        scope: CaptureScope::Processes(selectors),
        target: CaptureTarget::File("out.wav".into()),
        duration_secs: Some(3),
        sample_rate: Some(44100),
        channels: None,
        format: CaptureFormat::Wav,
        input_device_hint: None,
        prefer_loopback: true,
        ffmpeg_bin: "ffmpeg".into(),
    }
}

const LISTING: &str = r#"[
  {"index": 12, "properties": {"application.process.id": "4242", "application.name": "Firefox"}},
  {"index": 13, "properties": {"media.name": "Music"}},
  {"properties": {"application.name": "NoIndex"}}
]"#;

fn message(e: &AudioError) -> String {
    e.message()
}

fn session() -> LinuxCaptureSession {
    capture_processes(&app_request(vec![ProcessSelector::NameContains("FIREFOX".into())]), 1700)
        .ok()
        .unwrap()
}

fn advance_to_recording(s: &mut LinuxCaptureSession) {
    assert!(matches!(s.next_action(), LinuxCaptureAction::CheckCommand(c) if c == "pactl"));
    s.step(LinuxCaptureEvent::CommandChecked(Ok(())));
    assert!(matches!(s.next_action(), LinuxCaptureAction::CheckCommand(c) if c == "parecord"));
    s.step(LinuxCaptureEvent::CommandChecked(Ok(())));
    assert!(matches!(s.next_action(), LinuxCaptureAction::ListSinkInputs));
    s.step(LinuxCaptureEvent::SinkInputsListed(Ok(LISTING.as_bytes().to_vec())));
    assert!(matches!(s.next_action(), LinuxCaptureAction::GetDefaultSink));
    s.step(LinuxCaptureEvent::DefaultSinkPrinted(Ok(b"alsa_output.pci\n".to_vec())));
    match s.next_action() {
        LinuxCaptureAction::LoadNullSink(args) => assert_eq!(
            args,
            vec![
                "load-module",
                "module-null-sink",
                "sink_name=lyricwave_capture_1700",
                "sink_properties=device.description=LyricwaveCapture"
            ]
        ),
        _ => panic!("expected null sink load"),
    }
    s.step(LinuxCaptureEvent::NullSinkLoaded(Ok(b" 536870913 \n".to_vec())));
    match s.next_action() {
        LinuxCaptureAction::MoveSinkInputs(moves) => {
            assert_eq!(moves, vec![vec!["move-sink-input", "12", "lyricwave_capture_1700"]])
        }
        _ => panic!("expected move to capture"),
    }
    s.step(LinuxCaptureEvent::SinkInputsMoved(Ok(())));
    match s.next_action() {
        LinuxCaptureAction::Record(args) => assert_eq!(
            args,
            vec!["-d", "lyricwave_capture_1700.monitor", "--file-format=wav", "out.wav", "--rate", "44100"]
        ),
        _ => panic!("expected recording"),
    }
}

#[test]
fn a_capture_runs_to_its_report() {
    let mut s = session();
    advance_to_recording(&mut s);
    s.step(LinuxCaptureEvent::Recorded(Ok(())));
    match s.next_action() {
        LinuxCaptureAction::MoveSinkInputs(moves) => {
            assert_eq!(moves, vec![vec!["move-sink-input", "12", "alsa_output.pci"]])
        }
        _ => panic!("expected move back"),
    }
    s.step(LinuxCaptureEvent::SinkInputsMoved(Ok(())));
    assert!(matches!(s.next_action(), LinuxCaptureAction::Unload(id) if id == "536870913"));
    s.step(LinuxCaptureEvent::ModuleUnloaded(Ok(())));
    assert!(matches!(s.next_action(), LinuxCaptureAction::ReadWavMeta(p) if p == "out.wav"));
    s.step(LinuxCaptureEvent::WavMetaRead(Ok((1000, 44100, 2)), 2000));
    assert!(s.is_done());
    assert!(matches!(s.next_action(), LinuxCaptureAction::Finish));
    let report = s.into_outcome().unwrap().ok().unwrap();
    assert_eq!(report.captured_samples, 1000);
    assert_eq!(report.sample_rate, 44100);
    assert_eq!(report.channels, 2);
    assert_eq!(report.started_at_ms, 1700);
    assert_eq!(report.ended_at_ms, 2000);
    assert_eq!(report.selected_input_device.id, "pulse-monitor:lyricwave_capture_1700.monitor");
    assert_eq!(report.selected_input_device.name, "lyricwave_capture_1700 monitor");
    assert_eq!(report.selected_input_device.loopback_score, 100);
    assert_eq!(report.selection_reason, "selected linux per-app monitor sink");
    assert_eq!(report.matched_processes, vec!["pid=4242 name=Firefox sink_input=12"]);
}

#[test]
fn a_failed_recording_still_restores_and_unloads() {
    let mut s = session();
    advance_to_recording(&mut s);
    s.step(LinuxCaptureEvent::Recorded(Err(AudioError::Message("parecord exited with code 1".into()))));
    assert!(matches!(s.next_action(), LinuxCaptureAction::MoveSinkInputs(_)));
    assert!(!s.is_done());
    s.step(LinuxCaptureEvent::SinkInputsMoved(Ok(())));
    assert!(matches!(s.next_action(), LinuxCaptureAction::Unload(_)));
    s.step(LinuxCaptureEvent::ModuleUnloaded(Ok(())));
    assert!(s.is_done());
    match s.into_outcome() {
        Some(Err(e)) => assert_eq!(message(&e), "parecord exited with code 1"),
        _ => panic!("expected the recording error"),
    }
}

#[test]
fn a_failed_move_retries_the_restore_then_unloads() {
    let mut s = session();
    advance_to_recording(&mut s);
    s.step(LinuxCaptureEvent::Recorded(Ok(())));
    s.step(LinuxCaptureEvent::SinkInputsMoved(Err(AudioError::Message("move failed".into()))));
    assert!(matches!(s.next_action(), LinuxCaptureAction::MoveSinkInputs(_)));
    s.step(LinuxCaptureEvent::SinkInputsMoved(Err(AudioError::Message("again".into()))));
    assert!(matches!(s.next_action(), LinuxCaptureAction::Unload(_)));
    s.step(LinuxCaptureEvent::ModuleUnloaded(Err(AudioError::Message("ignored".into()))));
    match s.into_outcome() {
        Some(Err(e)) => assert_eq!(message(&e), "move failed"),
        _ => panic!("expected the move error"),
    }
}

#[test]
fn unexpected_events_change_nothing_and_done_is_final() {
    let mut s = session();
    s.step(LinuxCaptureEvent::Recorded(Ok(())));
    assert!(matches!(s.next_action(), LinuxCaptureAction::CheckCommand(c) if c == "pactl"));
    s.step(LinuxCaptureEvent::CommandChecked(Err(AudioError::Message("pactl not found".into()))));
    assert!(s.is_done());
    s.step(LinuxCaptureEvent::CommandChecked(Ok(())));
    assert!(s.is_done());
    match s.into_outcome() {
        Some(Err(e)) => assert_eq!(message(&e), "pactl not found"),
        _ => panic!("expected the check error"),
    }
}

#[test]
fn no_matching_sink_input_ends_the_capture() {
    let mut s = capture_processes(
        &app_request(vec![ProcessSelector::Pid(1), ProcessSelector::NameContains("vlc".into())]),
        5,
    )
    .ok()
    .unwrap();
    s.step(LinuxCaptureEvent::CommandChecked(Ok(())));
    s.step(LinuxCaptureEvent::CommandChecked(Ok(())));
    s.step(LinuxCaptureEvent::SinkInputsListed(Ok(LISTING.as_bytes().to_vec())));
    match s.into_outcome() {
        Some(Err(e)) => {
            assert_eq!(message(&e), "no playing sink-inputs matched selectors: pid=1, name=vlc")
        }
        _ => panic!("expected no match"),
    }
}

#[test]
fn listing_parse_and_errors() {
    let inputs = list_sink_inputs_from_output(LISTING.as_bytes()).ok().unwrap();
    assert_eq!(inputs.len(), 2);
    assert_eq!((inputs[0].index, inputs[0].pid, inputs[0].name.as_str()), (12, 4242, "Firefox"));
    assert_eq!((inputs[1].index, inputs[1].pid, inputs[1].name.as_str()), (13, 0, "Music"));
    match list_sink_inputs_from_output(b"{}") {
        Err(e) => assert_eq!(message(&e), "unexpected pactl sink-input json shape"),
        _ => panic!("expected shape error"),
    }
    match list_sink_inputs_from_output(b"not json") {
        Err(e) => assert!(message(&e).starts_with("invalid pactl sink-input json: ")),
        _ => panic!("expected parse error"),
    }
}

#[test]
fn matching_by_pid_or_name() {
    let inputs = vec![
        SinkInput { index: 1, pid: 10, name: "Spotify".into() },
        SinkInput { index: 2, pid: 20, name: "Google Chrome".into() },
        SinkInput { index: 3, pid: 30, name: "mpv".into() },
    ];
    let picked = match_sink_inputs(
        &inputs,
        &[ProcessSelector::Pid(30), ProcessSelector::NameContains("chrome".into())],
    );
    let indexes: Vec<u32> = picked.iter().map(|s| s.index).collect();
    assert_eq!(indexes, vec![2, 3]);
}

#[test]
fn pactl_output_texts() {
    assert_eq!(default_sink_from_output(b"  sink0\n".to_vec()).ok().unwrap(), "sink0");
    match default_sink_from_output(b" \n".to_vec()) {
        Err(e) => assert_eq!(message(&e), "default sink is empty; Pulse/PipeWire may be unavailable"),
        _ => panic!("expected empty error"),
    }
    match module_id_from_output(vec![0xff]) {
        Err(e) => assert!(message(&e).starts_with("invalid module id output: ")),
        _ => panic!("expected utf8 error"),
    }
    match module_id_from_output(Vec::new()) {
        Err(e) => assert_eq!(message(&e), "pactl returned empty module id for null sink"),
        _ => panic!("expected empty error"),
    }
}

#[test]
fn command_arguments() {
    assert_eq!(
        null_sink_args("s"),
        vec!["load-module", "module-null-sink", "sink_name=s", "sink_properties=device.description=LyricwaveCapture"]
    );
    assert_eq!(move_sink_input_args(7, "s"), vec!["move-sink-input", "7", "s"]);
    let mut req = app_request(vec![ProcessSelector::Pid(1)]);
    req.channels = Some(1);
    assert_eq!(
        parecord_args(&req, "s").ok().unwrap(),
        vec!["-d", "s.monitor", "--file-format=wav", "out.wav", "--rate", "44100", "--channels", "1"]
    );
    req.target = CaptureTarget::StdoutPcm;
    match parecord_args(&req, "s") {
        Err(e) => assert_eq!(message(&e), "process capture only supports file target"),
        _ => panic!("expected refusal"),
    }
}

#[test]
fn waiting_and_exit_codes() {
    assert!(matches!(wait_plan(Some(4), false), Ok(WaitPlan::Duration(4))));
    assert!(matches!(wait_plan(None, true), Ok(WaitPlan::UntilStopped)));
    match wait_plan(None, false) {
        Err(e) => assert_eq!(message(&e), "manual capture requires stop flag when duration is not set"),
        _ => panic!("expected refusal"),
    }
    assert!(parecord_exit_result(true, Some(1)).is_ok());
    assert!(parecord_exit_result(false, None).is_ok());
    assert!(parecord_exit_result(false, Some(143)).is_ok());
    assert!(parecord_exit_result(false, Some(130)).is_ok());
    match parecord_exit_result(false, Some(2)) {
        Err(e) => assert_eq!(message(&e), "parecord exited with code 2"),
        _ => panic!("expected failure"),
    }
}

#[test]
fn linux_requests_are_checked() {
    let mut req = app_request(vec![ProcessSelector::Pid(1)]);
    req.format = CaptureFormat::Flac;
    match capture_processes(&req, 0) {
        Err(e) => assert_eq!(message(&e), "process capture currently supports WAV output only"),
        _ => panic!("expected refusal"),
    }
    req.target = CaptureTarget::StdoutPcm;
    match capture_processes(&req, 0) {
        Err(e) => assert_eq!(message(&e), "process capture currently supports file target only"),
        _ => panic!("expected refusal"),
    }
}
