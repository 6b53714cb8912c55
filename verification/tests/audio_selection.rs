use lyricwave::audio::{loopback_score, select_input_device, InputDeviceInfo};

fn device(id: &str, name: &str, is_default: bool, candidate: bool) -> InputDeviceInfo {
    InputDeviceInfo {
        id: id.to_string(),
        name: name.to_string(),
        is_default,
        loopback_score: loopback_score(name),
        is_loopback_candidate: candidate,
    }
}

#[test]
fn loopback_scores_add_strong_and_weak_keywords() {
    assert_eq!(loopback_score("BlackHole 2ch"), 10);
    assert_eq!(loopback_score("Monitor of Built-in Audio"), 10);
    assert_eq!(loopback_score("Stereo Mix (Realtek)"), 13);
    assert_eq!(loopback_score("VB-Cable Virtual Capture"), 16);
    assert_eq!(loopback_score("Microphone"), 0);
    assert_eq!(loopback_score(""), 0);
}

fn sample_devices() -> Vec<InputDeviceInfo> {
    vec![
        device("in-0", "Microphone", true, false),
        device("in-1", "Stereo Mix (Realtek)", false, true),
        device("in-2", "BlackHole 2ch", false, true),
    ]
}

#[test]
fn hint_wins_over_everything() {
    let sel = select_input_device(&sample_devices(), Some("BLACK"), true).unwrap();
    assert_eq!(sel.info.id, "in-2");
    assert_eq!(sel.reason, "selected by explicit input hint 'BLACK'");
}

#[test]
fn hint_matches_ids_too() {
    let sel = select_input_device(&sample_devices(), Some("IN-1"), false).unwrap();
    assert_eq!(sel.info.id, "in-1");
}

#[test]
fn loopback_wins_when_hint_misses() {
    let sel = select_input_device(&sample_devices(), Some("nothing"), true).unwrap();
    assert_eq!(sel.info.id, "in-1");
    assert_eq!(sel.reason, "selected best loopback candidate (score=13)");
}

#[test]
fn default_wins_without_loopback_preference() {
    let sel = select_input_device(&sample_devices(), None, false).unwrap();
    assert_eq!(sel.info.id, "in-0");
    assert_eq!(sel.reason, "selected default input device");
}

#[test]
fn first_device_is_the_last_resort() {
    let devices = vec![device("a", "Mic A", false, false), device("b", "Mic B", false, false)];
    let sel = select_input_device(&devices, None, true).unwrap();
    assert_eq!(sel.info.id, "a");
    assert_eq!(sel.reason, "selected first available input device");
}

#[test]
fn equal_loopback_scores_pick_the_last() {
    let devices = vec![
        device("a", "BlackHole 2ch", false, true),
        device("b", "BlackHole 16ch", false, true),
    ];
    let sel = select_input_device(&devices, None, true).unwrap();
    assert_eq!(sel.info.id, "b");
}

#[test]
fn negative_scores_are_shown_with_a_sign() {
    let mut d = device("a", "odd", false, true);
    d.loopback_score = -4;
    let sel = select_input_device(&[d], None, true).unwrap();
    assert_eq!(sel.reason, "selected best loopback candidate (score=-4)");
}

#[test]
fn no_devices_no_selection() {
    assert!(select_input_device(&[], Some("x"), true).is_none());
}

#[test]
fn scores_ignore_case_and_grow_with_containment() {
    assert_eq!(loopback_score("STEREO MIX"), loopback_score("stereo mix"));
    assert_eq!(loopback_score("BlackHole"), loopback_score("blackhole"));
    assert!(loopback_score("Monitor of Stereo Mix") >= loopback_score("Stereo Mix"));
    assert!(loopback_score("Virtual Cable Output Capture") >= loopback_score("Cable Output"));
    assert!(loopback_score("blackhole stereo mix what u hear monitoring vb-cable cable output soundflower loopback snd-aloop virtual wave out capture") <= 105);
}
