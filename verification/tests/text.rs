use zmouse::text::{
    blank, decimal_text, has_run, hex_id_text, joined, lower_chars, padded_left, padded_right,
    signed_text, spells, trimmed,
};

#[test]
fn numbers_render_as_usual() {
    for n in [0u64, 7, 10, 99, 100, 4295298668, u64::MAX] {
        assert_eq!(decimal_text(n), n.to_string());
    }
    for n in [0i64, -1, 12, -305, i64::MIN, i64::MAX] {
        assert_eq!(signed_text(n), n.to_string());
        assert_eq!(hex_id_text(n), format!("{n:04x}"));
    }
    assert_eq!(hex_id_text(0xb7), "00b7");
    assert_eq!(hex_id_text(0x1_532a), "1532a");
}

#[test]
fn trimming_agrees_with_the_standard_library() {
    for s in ["", " ", "\t a b\u{3000}\n", "x", "\u{a0}y\u{2009}z\u{85}", "\u{200b}k"] {
        assert_eq!(trimmed(s), s.trim());
        assert_eq!(blank(s), s.trim().is_empty());
        assert_eq!(trimmed(trimmed(s)), trimmed(s));
    }
}

#[test]
fn white_space_agrees_with_the_standard_library() {
    for code in 0u32..0x11_0000 {
        if let Some(c) = char::from_u32(code) {
            let s = String::from(c);
            assert_eq!(blank(&s), c.is_whitespace(), "{code:x}");
        }
    }
}

#[test]
fn lower_case_is_ascii_only() {
    let s = "AZaz09[É]";
    let lower: String = lower_chars(s).iter().collect();
    assert_eq!(lower, s.to_ascii_lowercase());
    assert!(spells(&lower_chars("CMD"), "cmd"));
    assert!(!spells(&lower_chars("CMD"), "cm"));
    assert!(!spells(&lower_chars("CMD"), "cmf"));
}

#[test]
fn runs_are_found_anywhere() {
    let v = lower_chars("Magic Trackpad 2");
    assert!(has_run(&v, "trackpad"));
    assert!(has_run(&v, "magic"));
    assert!(has_run(&v, "2"));
    assert!(has_run(&v, ""));
    assert!(!has_run(&v, "mouse"));
    assert!(!has_run(&v, "trackpad 2 and more"));
}

#[test]
fn joining_and_padding() {
    let parts: Vec<String> = ["a", "b", "c"].iter().map(|s| s.to_string()).collect();
    assert_eq!(joined(&parts, ", "), "a, b, c");
    assert_eq!(joined(&vec!["a".to_string()], ", "), "a");
    assert_eq!(joined(&vec![], ", "), "");
    assert_eq!(padded_left("42", 5), format!("{:>5}", 42));
    assert_eq!(padded_right("é", 3), format!("{:<3}", "é"));
    assert_eq!(padded_right("long", 2), "long");
    assert_eq!(padded_left("long", 2), "long");
}
