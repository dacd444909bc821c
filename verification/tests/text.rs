use irkki::text::{
    char_is_whitespace, join, split_whitespace, starts_with, str_eq, trim, trim_start_matches,
};

fn strings(items: &[&str]) -> Vec<String> {
    items.iter().map(|s| s.to_string()).collect()
}

#[test]
fn whitespace_is_the_unicode_property() {
    for c in ['\t', '\n', '\u{b}', '\u{c}', '\r', ' ', '\u{85}', '\u{a0}', '\u{1680}', '\u{2000}',
        '\u{200a}', '\u{2028}', '\u{2029}', '\u{202f}', '\u{205f}', '\u{3000}']
    {
        assert!(char_is_whitespace(c));
    }
    for c in ['a', '0', '\0', '\u{8}', '\u{e}', '\u{200b}', '\u{feff}', '\u{180e}', '_'] {
        assert!(!char_is_whitespace(c));
    }
}

#[test]
fn whitespace_agrees_with_the_standard_library() {
    for n in 0..0x3100u32 {
        if let Some(c) = char::from_u32(n) {
            assert_eq!(char_is_whitespace(c), c.is_whitespace());
        }
    }
}

#[test]
fn trim_cuts_both_ends() {
    assert_eq!(trim("  hello  "), "hello");
    assert_eq!(trim("\t a b \r\n"), "a b");
    assert_eq!(trim("hello"), "hello");
    assert_eq!(trim(""), "");
    assert_eq!(trim("   "), "");
    assert_eq!(trim("\u{3000}grüß\u{a0}"), "grüß");
}

#[test]
fn trim_agrees_with_the_standard_library() {
    for s in ["", " ", "a", " a", "a ", "  a  b  ", "\n\tx\u{2003}", "🦀 ", " é"] {
        assert_eq!(trim(s), s.trim());
    }
}

#[test]
fn comparing_strings() {
    assert!(str_eq("", ""));
    assert!(str_eq("PING", "PING"));
    assert!(!str_eq("PING", "PONG"));
    assert!(!str_eq("PING", "PIN"));
    assert!(!str_eq("é", "e"));
}

#[test]
fn prefixes() {
    assert!(starts_with("/whois bob", "/whois"));
    assert!(starts_with("abc", ""));
    assert!(starts_with("abc", "abc"));
    assert!(!starts_with("ab", "abc"));
    assert!(!starts_with("/nick", "/whois"));
}

#[test]
fn repeated_prefix_is_taken_off() {
    assert_eq!(trim_start_matches("/whois bob", "/whois"), " bob");
    assert_eq!(trim_start_matches("ababab_ab", "ab"), "_ab");
    assert_eq!(trim_start_matches("abc", ""), "abc");
    assert_eq!(trim_start_matches("aaa", "a"), "");
    assert_eq!(trim_start_matches("xaaa", "a"), "xaaa");
    for (s, p) in [("/nick/nickx", "/nick"), ("", "a"), ("ééa", "é")] {
        assert_eq!(trim_start_matches(s, p), s.trim_start_matches(p));
    }
}

#[test]
fn splitting_on_whitespace() {
    assert_eq!(split_whitespace("alice bob charlie"), strings(&["alice", "bob", "charlie"]));
    assert_eq!(split_whitespace("  alice \t\n bob  "), strings(&["alice", "bob"]));
    assert_eq!(split_whitespace(""), Vec::<String>::new());
    assert_eq!(split_whitespace(" \t "), Vec::<String>::new());
    assert_eq!(split_whitespace("@op\u{3000}+voiced"), strings(&["@op", "+voiced"]));
}

#[test]
fn splitting_agrees_with_the_standard_library() {
    for s in ["", " ", "a", " a b ", "a\u{a0}b", "x  y\tz\n", "🦀 é  ü"] {
        let expected: Vec<String> = s.split_whitespace().map(|f| f.to_string()).collect();
        assert_eq!(split_whitespace(s), expected);
    }
}

#[test]
fn split_fields_are_never_empty() {
    for s in ["  a   b  ", "\t\t", "x", " \u{2028} y "] {
        for field in split_whitespace(s) {
            assert!(!field.is_empty());
            assert!(!field.chars().any(|c| c.is_whitespace()));
        }
    }
}

#[test]
fn joining() {
    assert_eq!(join(&strings(&["alice", "bob"]), ", "), "alice, bob");
    assert_eq!(join(&strings(&["alone"]), ", "), "alone");
    assert_eq!(join(&Vec::new(), ", "), "");
    assert_eq!(join(&strings(&["", ""]), "-"), "-");
    assert_eq!(join(&strings(&["a", "b", "c"]), ""), "abc");
}
