use ext_whisper::text::{decimal_string, trim_str};

#[test]
fn decimal_rendering() {
    assert_eq!(decimal_string(0), "0");
    assert_eq!(decimal_string(7), "7");
    assert_eq!(decimal_string(16000), "16000");
    assert_eq!(decimal_string(u64::MAX), u64::MAX.to_string());
}

#[test]
fn trimming_matches_std() {
    for s in ["", "   ", " a ", "\u{85}x y\u{2029}", "\u{200b}z", "abc", "\t\n mid dle \r\n"] {
        assert_eq!(trim_str(s), s.trim(), "input {s:?}");
    }
}
