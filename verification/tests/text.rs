use synoplayer::text::{is_whitespace, trim};

#[test]
fn whitespace_agrees_with_std() {
    for n in 0u32..=0x10FFFF {
        if let Some(c) = char::from_u32(n) {
            assert_eq!(is_whitespace(c), c.is_whitespace(), "U+{n:04X}");
        }
    }
}

#[test]
fn trim_drops_unicode_white_space() {
    assert_eq!(trim("\u{3000} a b\u{2028}\t"), "a b");
    assert_eq!(trim("\u{200B}a"), "\u{200B}a");
    assert_eq!(trim("   "), "");
}
