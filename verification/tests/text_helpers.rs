use onedrive_driver_rs::utils::port_or_default;
use onedrive_driver_rs::text::{
    contains_text_exec, parse_u16, is_blank_text, is_white_space_char, push_decimal, push_signed_decimal,
    split_slash_segments, strip_prefixes_text, to_chars, trim_text, TrimClass,
};

#[test]
fn trims_like_std() {
    for s in ["", "  ", " a b ", "\u{3000}x\u{2029}", "\u{85}y\t", "z"] {
        assert_eq!(trim_text(s, TrimClass::WhiteSpace), s.trim());
    }
    for s in ["", "/", "//a/b//", "a", "/ a /"] {
        assert_eq!(trim_text(s, TrimClass::Slash), s.trim_matches('/'));
    }
}

#[test]
fn white_space_matches_std() {
    for c in ['\t', '\n', '\u{b}', '\u{c}', '\r', ' ', '\u{85}', '\u{a0}', '\u{1680}', '\u{2000}',
              '\u{200a}', '\u{2028}', '\u{2029}', '\u{202f}', '\u{205f}', '\u{3000}', 'a', '\u{200b}',
              '\u{feff}', '0', '\u{1f600}'] {
        assert_eq!(is_white_space_char(c), c.is_whitespace(), "{c:?}");
    }
    assert!(is_blank_text(" \u{2003}\n"));
    assert!(!is_blank_text(" . "));
}

#[test]
fn splits_like_std_without_empty_pieces() {
    for s in ["", "/", "a", "a//b/", "//x/y/z//", "ä/ö"] {
        let expected: Vec<String> =
            s.split('/').filter(|p| !p.is_empty()).map(|p| p.to_string()).collect();
        assert_eq!(split_slash_segments(s), expected);
    }
}

#[test]
fn strips_prefixes_like_std() {
    for (s, p) in [("/api/list/api/list/x", "/api/list"), ("abc", ""), ("aaa", "a"), ("ab", "abc"), ("xab", "ab")] {
        assert_eq!(strip_prefixes_text(s, p), s.trim_start_matches(p));
    }
}

#[test]
fn finds_substrings_like_std() {
    for (s, p) in [("UNIQUE constraint failed: x", "UNIQUE constraint failed"), ("abc", ""), ("", ""), ("", "a"), ("abcabd", "abd"), ("ab", "abc")] {
        assert_eq!(contains_text_exec(s, p), s.contains(p));
    }
}

#[test]
fn formats_decimals_like_display() {
    for n in [0u64, 9, 10, 404, u64::MAX] {
        let mut s = String::from("#");
        push_decimal(&mut s, n);
        assert_eq!(s, format!("#{n}"));
    }
    for n in [0i64, -1, 42, i64::MIN, i64::MAX] {
        let mut s = String::new();
        push_signed_decimal(&mut s, n);
        assert_eq!(s, n.to_string());
    }
}

#[test]
fn characters_of_text() {
    assert_eq!(to_chars("añ/"), vec!['a', 'ñ', '/']);
}

#[test]
fn parses_ports_like_std() {
    use_parse_u16();
}

fn use_parse_u16() {
    for s in ["", "+", "0", "80", "+443", "0080", "65535", "65536", "-1", " 1", "1x", "99999999999999999999"] {
        assert_eq!(parse_u16(s), s.parse::<u16>().ok(), "{s:?}");
    }
    assert_eq!(port_or_default(None, 3000), 3000);
    assert_eq!(port_or_default(Some("8080".to_string()), 3000), 8080);
    assert_eq!(port_or_default(Some("http".to_string()), 3000), 3000);
    assert_eq!(port_or_default(Some("70000".to_string()), 3000), 3000);
}
