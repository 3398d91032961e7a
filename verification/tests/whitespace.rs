use linesh::whitespace::is_whitespace;

#[test]
fn whitespace_is_what_unicode_says() {
    for n in 0..=0x10FFFFu32 {
        if let Some(c) = char::from_u32(n) {
            assert_eq!(is_whitespace(c), c.is_whitespace(), "U+{:04X}", n);
        }
    }
}

#[test]
fn ascii_whitespace_and_neighbours() {
    for c in ['\t', '\n', '\u{b}', '\u{c}', '\r', ' '] {
        assert!(is_whitespace(c));
    }
    for c in ['\u{8}', '\u{e}', '\u{1f}', '!', 'a', '$', '0', '\u{0}'] {
        assert!(!is_whitespace(c));
    }
}

#[test]
fn whitespace_beyond_ascii() {
    for c in ['\u{85}', '\u{a0}', '\u{1680}', '\u{2000}', '\u{200a}', '\u{2028}', '\u{2029}',
        '\u{202f}', '\u{205f}', '\u{3000}']
    {
        assert!(is_whitespace(c));
    }
    for c in ['\u{84}', '\u{86}', '\u{1fff}', '\u{200b}', '\u{2027}', '\u{202a}', '\u{2060}',
        '\u{3001}', '\u{feff}']
    {
        assert!(!is_whitespace(c));
    }
}
