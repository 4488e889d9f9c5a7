use clipboard_cleaner::charset::{decode, resolve_target_encoding};
use clipboard_cleaner::display::{contains_control_chars, sanitize_control_chars};

#[test]
fn resolve_mime_with_charset_parameter() {
    assert_eq!(
        resolve_target_encoding("text/plain;charset=utf-16le"),
        Some("utf-16le")
    );
    assert_eq!(
        resolve_target_encoding("text/plain;charset=utf-16be"),
        Some("utf-16be")
    );
    assert_eq!(
        resolve_target_encoding("text/plain;charset=utf-8"),
        Some("utf-8")
    );
    assert_eq!(
        resolve_target_encoding("text/plain;charset=unicode"),
        Some("utf-16")
    );
    assert_eq!(
        resolve_target_encoding("text/html;charset=iso-8859-15"),
        Some("iso-8859-15")
    );
    assert_eq!(
        resolve_target_encoding("text/plain;charset=us-ascii"),
        Some("us-ascii")
    );
}

#[test]
fn resolve_special_targets() {
    assert_eq!(resolve_target_encoding("UTF8_STRING"), Some("utf-8"));
    assert_eq!(resolve_target_encoding("STRING"), Some("iso-8859-1"));
    assert_eq!(resolve_target_encoding("TEXT"), Some("iso-8859-1"));
}

#[test]
fn resolve_is_case_insensitive() {
    assert_eq!(
        resolve_target_encoding("TEXT/PLAIN;CHARSET=UTF-16LE"),
        Some("utf-16le")
    );
    assert_eq!(resolve_target_encoding("utf8_string"), Some("utf-8"));
}

#[test]
fn resolve_text_without_charset_defaults_to_utf8() {
    assert_eq!(resolve_target_encoding("text/plain"), Some("utf-8"));
    assert_eq!(resolve_target_encoding("text/html"), Some("utf-8"));
}

#[test]
fn resolve_non_text_without_charset_is_none() {
    assert_eq!(resolve_target_encoding("application/octet-stream"), None);
    assert_eq!(resolve_target_encoding("image/png"), None);
}

#[test]
fn resolve_unknown_charset_parameter_is_none() {
    assert_eq!(resolve_target_encoding("text/plain;charset=koi8-r"), None);
}

#[test]
fn resolve_unparseable_target_defaults_to_utf8() {
    assert_eq!(resolve_target_encoding("TIMESTAMP"), Some("utf-8"));
    assert_eq!(resolve_target_encoding("not a mime type"), Some("utf-8"));
}

#[test]
fn decode_utf8_strict() {
    let ok = vec![0x61, 0xc3, 0xa4, 0x62];
    assert_eq!(decode("utf-8", &ok), Some("a\u{e4}b".to_string()));
    let bad = vec![0x61, 0xff];
    assert_eq!(decode("utf-8", &bad), None);
}

#[test]
fn decode_utf16_bom_big_endian() {
    let bytes = vec![0xFE, 0xFF, 0x00, 0x41];
    assert_eq!(decode("utf-16", &bytes), Some("A".to_string()));
}

#[test]
fn decode_utf16_bom_little_endian() {
    let bytes = vec![0xFF, 0xFE, 0x41, 0x00];
    assert_eq!(decode("utf-16", &bytes), Some("A".to_string()));
}

#[test]
fn decode_utf16_without_bom_uses_host_order() {
    let bytes = vec![0x00, 0x41];
    let host = decode("utf-16", &bytes).unwrap();
    let le = decode("utf-16le", &bytes).unwrap();
    let be = decode("utf-16be", &bytes).unwrap();
    assert!(host == le || host == be);
    let host_is_little = u16::from_ne_bytes([1, 0]) == 1;
    if host_is_little {
        assert_eq!(host, le);
    } else {
        assert_eq!(host, be);
    }
}

#[test]
fn decode_utf16_too_short_is_none() {
    assert_eq!(decode("utf-16", &vec![0x41]), None);
    assert_eq!(decode("unicode", &vec![]), None);
}

#[test]
fn decode_fixed_endianness() {
    assert_eq!(decode("utf-16le", &vec![0x41, 0x00]), Some("A".to_string()));
    assert_eq!(decode("utf-16be", &vec![0x00, 0x41]), Some("A".to_string()));
}

#[test]
fn decode_latin1_maps_bytes_to_code_points() {
    let bytes = vec![0x61, 0xE4, 0xFF];
    assert_eq!(decode("iso-8859-1", &bytes), Some("a\u{e4}\u{ff}".to_string()));
}

#[test]
fn decode_latin9_revised_positions() {
    let bytes = vec![0xA4, 0xA6, 0xA8, 0xB4, 0xB8, 0xBC, 0xBD, 0xBE];
    assert_eq!(
        decode("iso-8859-15", &bytes),
        Some("\u{20ac}\u{160}\u{161}\u{17d}\u{17e}\u{152}\u{153}\u{178}".to_string())
    );
    assert_eq!(decode("iso-8859-15", &vec![0x61, 0xE4]), Some("a\u{e4}".to_string()));
}

#[test]
fn decode_ascii_replaces_high_bytes() {
    let bytes = vec![0x61, 0x80, 0x62];
    assert_eq!(
        decode("us-ascii", &bytes),
        Some("a\u{fffd}b".to_string())
    );
    assert_eq!(decode("ascii", &vec![0x41]), Some("A".to_string()));
}

#[test]
fn decode_unknown_label_is_none() {
    assert_eq!(decode("koi8-r", &vec![0x41]), None);
    assert_eq!(decode("", &vec![0x41]), None);
}

#[test]
fn decode_label_is_case_insensitive() {
    assert_eq!(decode("UTF-8", &vec![0x41]), Some("A".to_string()));
    assert_eq!(decode("ISO-8859-1", &vec![0xE4]), Some("\u{e4}".to_string()));
}

#[test]
fn control_chars_are_detected() {
    assert!(contains_control_chars("a\u{0001}b"));
    assert!(contains_control_chars("\u{001f}"));
    assert!(!contains_control_chars("plain text"));
    assert!(!contains_control_chars("tabs\tand\nnewlines\r"));
    assert!(!contains_control_chars(""));
}

#[test]
fn control_chars_are_sanitized() {
    assert_eq!(
        sanitize_control_chars("a\u{0001}b\u{0002}"),
        "a\u{fffd}b\u{fffd}"
    );
    assert_eq!(sanitize_control_chars("a\tb\nc\rd"), "a\tb\nc\rd");
    assert_eq!(sanitize_control_chars(""), "");
}
