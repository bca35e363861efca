use voxtype::text::{
    char_is_white_space, decimal_string, str_contains, str_eq, str_eq_ignore_ascii_case, trim,
};

#[test]
fn white_space_matches_std_for_every_char() {
    for u in 0u32..=0x10FFFF {
        if let Some(c) = char::from_u32(u) {
            assert_eq!(char_is_white_space(c), c.is_whitespace(), "U+{u:04X}");
        }
    }
}

#[test]
fn trim_matches_std() {
    for s in ["", "  ", " a ", "\t\nF9\r\n", "\u{3000}全角\u{3000}", "a b", "\u{85}x\u{a0}"] {
        assert_eq!(trim(s), s.trim());
    }
}

#[test]
fn ascii_case_insensitive_equality() {
    assert!(str_eq_ignore_ascii_case("ModelScope", "modelscope"));
    assert!(str_eq_ignore_ascii_case("GITHUB", "github"));
    assert!(!str_eq_ignore_ascii_case("githu", "github"));
    assert!(!str_eq_ignore_ascii_case("ÄRCHIVE", "ärchive"));
    assert!(str_eq_ignore_ascii_case("", ""));
}

#[test]
fn substring_search() {
    assert!(str_contains("下载停滞超过 120s", "停滞"));
    assert!(str_contains("abc", ""));
    assert!(!str_contains("ab", "abc"));
    assert!(str_contains("xxHTTP 404", "HTTP"));
}

#[test]
fn exact_equality() {
    assert!(str_eq("auto", "auto"));
    assert!(!str_eq("auto", "Auto"));
}

#[test]
fn decimal_rendering() {
    assert_eq!(decimal_string(0), "0");
    assert_eq!(decimal_string(6016), "6016");
    assert_eq!(decimal_string(u64::MAX), u64::MAX.to_string());
}
