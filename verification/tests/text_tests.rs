use jira_proxy::text::{
    begins_with, chars_of, has_at, includes, is_space, joined, replaced, same_chars, string_of,
    trim, with_leading_slash, without_trailing,
};

fn cs(s: &str) -> Vec<char> {
    chars_of(s)
}

#[test]
fn chars_and_back() {
    assert_eq!(chars_of("aż🙂"), vec!['a', 'ż', '🙂']);
    assert_eq!(string_of(&vec!['a', 'ż', '🙂']), "aż🙂");
    assert_eq!(string_of(&Vec::new()), "");
}

#[test]
fn occurrence_at_a_position() {
    assert!(has_at(&cs("abcabc"), &cs("bc"), 1));
    assert!(has_at(&cs("abcabc"), &cs("bc"), 4));
    assert!(!has_at(&cs("abcabc"), &cs("bc"), 5));
    assert!(!has_at(&cs("abcabc"), &cs("bc"), 0));
    assert!(has_at(&cs("abc"), &cs(""), 3));
    assert!(!has_at(&cs("abc"), &cs(""), 4));
    assert!(!has_at(&cs("ab"), &cs("abc"), 0));
    assert!(!has_at(&cs("ab"), &cs("b"), usize::MAX));
}

#[test]
fn prefix_and_equality() {
    assert!(begins_with(&cs("https://x"), &cs("http")));
    assert!(!begins_with(&cs("htt"), &cs("http")));
    assert!(begins_with(&cs(""), &cs("")));
    assert!(same_chars(&cs("basic"), &cs("basic")));
    assert!(!same_chars(&cs("basic"), &cs("basi")));
    assert!(!same_chars(&cs("basic"), &cs("basic ")));
}

#[test]
fn containment() {
    assert!(includes(&cs("a.atlassian.net"), &cs(".atlassian.net")));
    assert!(includes(&cs("abc"), &cs("c")));
    assert!(includes(&cs("abc"), &cs("")));
    assert!(includes(&cs(""), &cs("")));
    assert!(!includes(&cs(""), &cs("a")));
    assert!(!includes(&cs("abc"), &cs("abcd")));
    assert!(!includes(&cs("ababab"), &cs("abb")));
}

#[test]
fn trailing_run() {
    assert_eq!(without_trailing(&cs("a/b///"), '/'), cs("a/b"));
    assert_eq!(without_trailing(&cs("///"), '/'), cs(""));
    assert_eq!(without_trailing(&cs("abc"), '/'), cs("abc"));
    assert_eq!(without_trailing(&cs(""), '/'), cs(""));
}

#[test]
fn joining_and_leading_slash() {
    assert_eq!(joined(&cs("ab"), &cs("cd")), cs("abcd"));
    assert_eq!(joined(&cs(""), &cs("")), cs(""));
    assert_eq!(with_leading_slash(&cs("a/b")), cs("/a/b"));
    assert_eq!(with_leading_slash(&cs("/a/b")), cs("/a/b"));
    assert_eq!(with_leading_slash(&cs("")), cs("/"));
}

#[test]
fn replacement() {
    assert_eq!(replaced(&cs("aXbXc"), &cs("X"), &cs("--")), cs("a--b--c"));
    assert_eq!(replaced(&cs("aaa"), &cs("aa"), &cs("b")), cs("ba"));
    assert_eq!(replaced(&cs("abc"), &cs("abc"), &cs("")), cs(""));
    assert_eq!(replaced(&cs("abc"), &cs("abcd"), &cs("x")), cs("abc"));
    assert_eq!(replaced(&cs("abab"), &cs("ab"), &cs("ab")), cs("abab"));
    assert_eq!(replaced(&cs("abc"), &cs(""), &cs("x")), cs("abc"));
}

#[test]
fn trimming() {
    assert_eq!(trim(&cs("  tok \t\n")), cs("tok"));
    assert_eq!(trim(&cs("a b")), cs("a b"));
    assert_eq!(trim(&cs(" \u{a0}\u{3000} ")), cs(""));
    assert_eq!(trim(&cs("\u{2003}x\u{85}")), cs("x"));
    assert_eq!(trim(&cs("")), cs(""));
    for s in ["  a  ", "\u{feff}a", "\u{200b}a ", "\r\n Bearer x \u{b}"] {
        assert_eq!(string_of(&trim(&cs(s))), s.trim());
    }
}

#[test]
fn whitespace_is_what_std_calls_whitespace() {
    for n in 0..=0x10ffffu32 {
        if let Some(c) = char::from_u32(n) {
            assert_eq!(is_space(c), c.is_whitespace(), "U+{:04X}", n);
        }
    }
}

#[test]
fn whitespace_samples() {
    for c in [' ', '\t', '\n', '\u{b}', '\u{c}', '\r', '\u{85}', '\u{a0}', '\u{1680}', '\u{2000}',
        '\u{200a}', '\u{2028}', '\u{2029}', '\u{202f}', '\u{205f}', '\u{3000}']
    {
        assert!(is_space(c));
    }
    for c in ['a', '0', '/', '\u{8}', '\u{e}', '\u{1f}', '\u{180e}', '\u{200b}', '\u{feff}'] {
        assert!(!is_space(c));
    }
}
