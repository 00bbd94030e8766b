use mymonitor::text::{chars_of, contains, starts_with, to_ascii_lowercase, trim, white_space};

#[test]
fn trim_removes_unicode_whitespace_at_both_ends() {
    assert_eq!(trim("  host \n"), "host");
    assert_eq!(trim("\u{3000}a b\u{a0}"), "a b");
    assert_eq!(trim(" \t\r\n "), "");
    assert_eq!(trim("plain"), "plain");
    for s in ["", " x ", "\u{2028}y\u{85}", "a\u{200b}"] {
        assert_eq!(trim(s), s.trim());
    }
}

#[test]
fn whitespace_matches_std() {
    for c in ['\t', '\n', '\u{b}', '\u{c}', '\r', ' ', '\u{85}', '\u{a0}', '\u{1680}', '\u{2000}', '\u{200a}', '\u{2028}', '\u{2029}', '\u{202f}', '\u{205f}', '\u{3000}', 'a', '\u{200b}', '\u{180e}', '\u{feff}'] {
        assert_eq!(white_space(c), c.is_whitespace(), "{:?}", c);
    }
}

#[test]
fn lowercase_touches_ascii_only() {
    let lower: String = to_ascii_lowercase(&chars_of("x86_PKG_TEMP Ä")).into_iter().collect();
    assert_eq!(lower, "x86_pkg_temp Ä");
}

#[test]
fn prefix_and_infix() {
    assert!(starts_with(&chars_of("thermal_zone3"), &chars_of("thermal_zone")));
    assert!(!starts_with(&chars_of("cooling_device0"), &chars_of("thermal_zone")));
    assert!(!starts_with(&chars_of("therm"), &chars_of("thermal_zone")));
    assert!(contains(&chars_of("x86_pkg_temp"), &chars_of("pkg")));
    assert!(contains(&chars_of("cpu"), &chars_of("cpu")));
    assert!(!contains(&chars_of("acpitz"), &chars_of("cpu")));
    assert!(contains(&chars_of("abc"), &chars_of("")));
}
