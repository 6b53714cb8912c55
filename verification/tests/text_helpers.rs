use lyricwave::audio::platform::linux::module_id_from_output;
use lyricwave::audio::CpalNativeBackend;
use lyricwave::text::{
    decimal_string, join_strings, parse_u32, split_lines, str_contains, str_eq, trim, trim_char,
    trim_end_char, without_char,
};

#[test]
fn lowercasing_maps_every_character() {
    let names = vec![Some("ÀÉÎ Loopback".to_string()), Some("BlackHole 2CH".to_string())];
    assert_eq!(CpalNativeBackend::hinted_input(&names, Some("àéî")), Some(0));
    assert_eq!(CpalNativeBackend::hinted_input(&names, Some("blackhole 2ch")), Some(1));
}

#[test]
fn trimming_removes_whitespace_at_both_ends() {
    assert_eq!(trim("  hello world \n\t"), "hello world");
    assert_eq!(trim("   "), "");
    assert_eq!(trim_char("__a_b__", '_'), "a_b");
    assert_eq!(trim_end_char("http://host:5000///", '/'), "http://host:5000");
    assert_eq!(without_char("a\"b\"c", '"'), "abc");
}

#[test]
fn parsing_u32_follows_str_parse() {
    assert_eq!(parse_u32("42"), Some(42));
    assert_eq!(parse_u32("+7"), Some(7));
    assert_eq!(parse_u32("4294967295"), Some(u32::MAX));
    assert_eq!(parse_u32("4294967296"), None);
    assert_eq!(parse_u32(""), None);
    assert_eq!(parse_u32("+"), None);
    assert_eq!(parse_u32(" 1"), None);
    assert_eq!(parse_u32("12a"), None);
}

#[test]
fn lines_split_like_str_lines() {
    assert_eq!(split_lines("a\r\nb\n\nc"), vec!["a", "b", "", "c"]);
    assert_eq!(split_lines("x\n"), vec!["x"]);
    assert!(split_lines("").is_empty());
}

#[test]
fn joining_and_numbers() {
    let items = vec!["a".to_string(), "b".to_string(), "c".to_string()];
    assert_eq!(join_strings(&items, ", "), "a, b, c");
    assert_eq!(join_strings(&Vec::new(), ", "), "");
    assert_eq!(decimal_string(0), "0");
    assert_eq!(decimal_string(1234567890123), "1234567890123");
}

#[test]
fn containment_and_equality() {
    assert!(str_contains("stereo mix (realtek)", "mix"));
    assert!(!str_contains("mic", "mix"));
    assert!(str_contains("anything", ""));
    assert!(str_eq("abc", "abc"));
    assert!(!str_eq("abc", "abd"));
}

#[test]
fn utf8_decoding_of_valid_and_invalid_bytes() {
    assert_eq!(module_id_from_output(b"42\n".to_vec()).ok().unwrap(), "42");
    match module_id_from_output(vec![0xff, 0xfe]) {
        Err(e) => {
            let m = e.message();
            assert!(m.starts_with("invalid module id output: "));
            assert!(m.len() > "invalid module id output: ".len());
        }
        Ok(_) => panic!("expected a UTF-8 error"),
    }
}
