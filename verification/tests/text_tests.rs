use iroh_transfer::text::{append_decimal, chars_of, text_begins_with, text_contains, trim_text, white_space};

#[test]
fn trim_removes_surrounding_white_space() {
    assert_eq!(trim_text("  /usr/local/bin/iroh\n"), "/usr/local/bin/iroh");
    assert_eq!(trim_text("\u{3000}\tiroh-cli 0.28.1\u{a0}\r\n"), "iroh-cli 0.28.1");
    assert_eq!(trim_text("a b"), "a b");
}

#[test]
fn trim_of_blank_text_is_empty() {
    assert_eq!(trim_text(""), "");
    assert_eq!(trim_text(" \n\t "), "");
}

#[test]
fn white_space_matches_std() {
    for c in ['\t', '\n', ' ', '\u{85}', '\u{a0}', '\u{1680}', '\u{2000}', '\u{200a}', '\u{2028}', '\u{3000}', 'a', '\u{200b}', '_'] {
        assert_eq!(white_space(c), c.is_whitespace());
    }
}

#[test]
fn contains_finds_patterns() {
    assert!(text_contains("error: rpc.lock is held", "rpc.lock"));
    assert!(text_contains("node already running", "already running"));
    assert!(!text_contains("address in use", "rpc.lock"));
    assert!(text_contains("abc", ""));
    assert!(!text_contains("ab", "abc"));
}

#[test]
fn begins_with_checks_prefix() {
    assert!(text_begins_with("iroh://x|y", "iroh://"));
    assert!(!text_begins_with("blobabc", "iroh://"));
    assert!(!text_begins_with("iroh:", "iroh://"));
}

#[test]
fn decimal_rendering() {
    let mut s = String::from("n=");
    append_decimal(&mut s, 0);
    assert_eq!(s, "n=0");
    let mut s = String::new();
    append_decimal(&mut s, 2147483647);
    assert_eq!(s, "2147483647");
    let mut s = String::new();
    append_decimal(&mut s, 10);
    assert_eq!(s, "10");
}

#[test]
fn chars_of_keeps_order() {
    assert_eq!(chars_of("下载ab"), vec!['下', '载', 'a', 'b']);
}
