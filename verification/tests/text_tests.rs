use secops_endpoint_ui::text::{
    avatar_initial, eq_ignore_ascii_case, escape_json, is_whitespace, parse_u64, str_equal,
    strip_prefix, trim,
};

#[test]
fn trim_removes_outer_white_space() {
    assert_eq!(trim("  hello world \t\n"), "hello world");
    assert_eq!(trim("\u{3000}x\u{2028}"), "x");
    assert_eq!(trim("   "), "");
    assert_eq!(trim(""), "");
    assert_eq!(trim("a b"), "a b");
}

#[test]
fn trim_twice_is_trim_once() {
    for s in ["  a  ", "\t\tb", "c\n", "", "  ", "d"] {
        assert_eq!(trim(trim(s)), trim(s));
    }
}

#[test]
fn whitespace_matches_std() {
    for c in ['\t', '\n', ' ', '\u{85}', '\u{a0}', '\u{1680}', '\u{2000}', '\u{200a}', '\u{3000}', 'a', '\u{200b}', '0'] {
        assert_eq!(is_whitespace(c), c.is_whitespace(), "{:?}", c);
    }
}

#[test]
fn ascii_case_insensitive_equality() {
    assert!(eq_ignore_ascii_case("User", "user"));
    assert!(eq_ignore_ascii_case("ADMIN", "admin"));
    assert!(!eq_ignore_ascii_case("user", "users"));
    assert!(!eq_ignore_ascii_case("É", "é"));
    assert!(eq_ignore_ascii_case("", ""));
    assert_eq!(eq_ignore_ascii_case("aB", "Ab"), eq_ignore_ascii_case("Ab", "aB"));
}

#[test]
fn escape_json_doubles_backslashes_and_escapes_quotes() {
    assert_eq!(escape_json(r#"a"b\c"#), r#"a\"b\\c"#);
    assert_eq!(escape_json("plain"), "plain");
    assert_eq!(escape_json(""), "");
    assert_eq!(escape_json("\\\""), "\\\\\\\"");
}

#[test]
fn escape_json_matches_two_replacements() {
    for s in ["x\"y", "\\\\", "\"\\\"", "ünï\"cødé\\"] {
        assert_eq!(escape_json(s), s.replace('\\', "\\\\").replace('"', "\\\""));
    }
}

#[test]
fn string_equality_and_prefixes() {
    assert!(str_equal("consent", "consent"));
    assert!(!str_equal("consent", "Consent"));
    assert_eq!(strip_prefix("--mode=session", "--mode="), Some("session"));
    assert_eq!(strip_prefix("--mode=", "--mode="), Some(""));
    assert_eq!(strip_prefix("--mod", "--mode="), None);
    assert_eq!(strip_prefix("x--mode=a", "--mode="), None);
}

#[test]
fn parse_u64_follows_std() {
    for s in ["42", "+7", "", "+", "-1", "-0", "007", "18446744073709551615", "18446744073709551616", "12a", " 1", "99999999999999999999999"] {
        assert_eq!(parse_u64(s), s.parse::<u64>().ok(), "{:?}", s);
    }
}

#[test]
fn avatar_initial_is_upper_case_first_letter() {
    assert_eq!(avatar_initial("  alice smith "), 'A');
    assert_eq!(avatar_initial("IT Support"), 'I');
    assert_eq!(avatar_initial("émile"), 'É');
    assert_eq!(avatar_initial("9lives"), '9');
    assert_eq!(avatar_initial("   "), '?');
    assert_eq!(avatar_initial(""), '?');
}

fn unescape(s: &str) -> String {
    let decoded: String = serde_json::from_str(&format!("\"{}\"", s)).unwrap();
    decoded
}

#[test]
fn escaped_text_reads_back() {
    for s in ["", "plain", "a\"b", "\\", "\\\"\\\"", "tail\\", "two\nlines\r\n", "tab\there", "bell\u{7}nul\u{0}esc\u{1b}"] {
        assert_eq!(unescape(&escape_json(s)), s);
    }
}

#[test]
fn every_text_matches_itself_ignoring_case() {
    for s in ["", "MiXeD", "ünï"] {
        assert!(eq_ignore_ascii_case(s, s));
    }
}

#[test]
fn escape_json_writes_control_characters_as_escapes() {
    assert_eq!(escape_json("a\nb"), "a\\nb");
    assert_eq!(escape_json("\r\t"), "\\r\\t");
    assert_eq!(escape_json("\u{0}\u{1f}"), "\\u0000\\u001f");
    assert_eq!(escape_json("\u{7f}é"), "\u{7f}é");
    assert!(!escape_json("x\ny\u{1}").chars().any(|c| (c as u32) < 0x20));
}
