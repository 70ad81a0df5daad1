use grugu::db::sqlite_url;
use grugu::text::{after_bearer_prefix, char_is_white_space, is_blank, starts_with_bearer};

#[test]
fn blank_names_are_only_white_space() {
    assert!(is_blank(""));
    assert!(is_blank("   "));
    assert!(is_blank("\t\n\r "));
    assert!(is_blank("\u{3000}\u{00a0}\u{2028}"));
    assert!(!is_blank(" Ana "));
    assert!(!is_blank("x"));
}

#[test]
fn white_space_agrees_with_std() {
    for u in 0u32..0x3100 {
        if let Some(c) = char::from_u32(u) {
            assert_eq!(char_is_white_space(c), c.is_whitespace(), "code point {:x}", u);
        }
    }
    assert!(!char_is_white_space('\u{200b}'));
}

#[test]
fn bearer_prefix_detection() {
    assert!(starts_with_bearer("Bearer abc"));
    assert!(starts_with_bearer("Bearer "));
    assert!(!starts_with_bearer("Bearer"));
    assert!(!starts_with_bearer("bearer abc"));
    assert!(!starts_with_bearer("Basic abc"));
}

#[test]
fn exactly_one_bearer_prefix_is_removed() {
    assert_eq!(after_bearer_prefix("Bearer abc"), "abc");
    assert_eq!(after_bearer_prefix("Bearer Bearer abc"), "Bearer abc");
    assert_eq!(after_bearer_prefix("Bearer abc Bearer "), "abc Bearer ");
    assert_eq!(after_bearer_prefix("Bearer "), "");
    assert_eq!(after_bearer_prefix("Bearer ñandú"), "ñandú");
}

#[test]
fn sqlite_url_uses_forward_slashes() {
    assert_eq!(sqlite_url("/home/ana/.local/share/grugu/grugu.db"), "sqlite:/home/ana/.local/share/grugu/grugu.db?mode=rwc");
    assert_eq!(sqlite_url("C:\\Users\\ana\\grugu\\grugu.db"), "sqlite:C:/Users/ana/grugu/grugu.db?mode=rwc");
    assert_eq!(sqlite_url(""), "sqlite:?mode=rwc");
    assert_eq!(sqlite_url("ñ\\é"), "sqlite:ñ/é?mode=rwc");
}
