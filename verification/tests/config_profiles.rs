use lyricwave::config::{merge_profile, FileConfig, ProfileConfig, ResolvedConfig};

fn profile(rate: Option<u32>, target: Option<&str>) -> ProfileConfig {
    let mut p = ProfileConfig::empty();
    p.sample_rate = rate;
    p.target_lang = target.map(|t| t.to_string());
    p
}

#[test]
fn selected_values_win_and_gaps_fall_back() {
    let defaults = profile(Some(48000), Some("zh"));
    let mut selected = profile(None, Some("ja"));
    selected.fps = Some(30);
    let m = merge_profile(&defaults, &selected);
    assert_eq!(m.sample_rate, Some(48000));
    assert_eq!(m.target_lang.as_deref(), Some("ja"));
    assert_eq!(m.fps, Some(30));
    assert_eq!(m.python_bin, None);
}

#[test]
fn merging_with_an_empty_profile_keeps_the_defaults() {
    let defaults = profile(Some(16000), Some("en"));
    let m = merge_profile(&defaults, &ProfileConfig::empty());
    assert_eq!(m.sample_rate, Some(16000));
    assert_eq!(m.target_lang.as_deref(), Some("en"));
    let twice = merge_profile(&m, &m);
    assert_eq!(twice.sample_rate, m.sample_rate);
    assert_eq!(twice.target_lang, m.target_lang);
}

#[test]
fn merging_is_associative_on_an_example() {
    let a = profile(Some(1), None);
    let b = profile(None, Some("b"));
    let c = profile(Some(3), None);
    let left = merge_profile(&merge_profile(&a, &b), &c);
    let right = merge_profile(&a, &merge_profile(&b, &c));
    assert_eq!(left.sample_rate, right.sample_rate);
    assert_eq!(left.target_lang, right.target_lang);
    assert_eq!(left.sample_rate, Some(3));
}

#[test]
fn profiles_resolve_over_the_defaults() {
    let file = FileConfig {
        default: profile(Some(48000), Some("zh")),
        profiles: vec![
            ("meeting".to_string(), profile(Some(16000), None)),
            ("meeting".to_string(), profile(Some(8000), None)),
        ],
    };
    let r = ResolvedConfig::resolve("meeting", Some("/tmp/c.toml".into()), Some(file));
    assert_eq!(r.profile_name, "meeting");
    assert_eq!(r.source_path.as_deref(), Some("/tmp/c.toml"));
    assert_eq!(r.values.sample_rate, Some(16000));
    assert_eq!(r.values.target_lang.as_deref(), Some("zh"));
}

#[test]
fn an_unknown_profile_gives_the_defaults_and_no_file_gives_nothing() {
    let file = FileConfig { default: profile(Some(48000), None), profiles: Vec::new() };
    let r = ResolvedConfig::resolve("other", None, Some(file));
    assert_eq!(r.values.sample_rate, Some(48000));
    let r = ResolvedConfig::resolve("default", None, None);
    assert_eq!(r.values.sample_rate, None);
    assert_eq!(r.values.target_lang, None);
    assert!(r.source_path.is_none());
}
