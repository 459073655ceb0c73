use tasklist::text::chars_to_string;
use tasklist::text::is_whitespace_char;
use tasklist::text::trim_chars;

fn chars(s: &str) -> Vec<char> {
    s.chars().collect()
}

#[test]
fn whitespace_classification_matches_std() {
    for c in [' ', '\t', '\n', '\r', '\u{000B}', '\u{00A0}', '\u{2003}', '\u{3000}'] {
        assert!(is_whitespace_char(c));
        assert!(c.is_whitespace());
    }
    for c in ['a', '0', '_', '-', '\u{200B}'] {
        assert!(!is_whitespace_char(c));
        assert!(!c.is_whitespace());
    }
}

#[test]
fn trim_strips_both_ends_only() {
    assert_eq!(trim_chars(&chars("  Buy milk  ")), chars("Buy milk"));
    assert_eq!(trim_chars(&chars("\t mid dle \n")), chars("mid dle"));
    assert_eq!(trim_chars(&chars("no-trim")), chars("no-trim"));
}

#[test]
fn trim_of_blank_or_empty_is_empty() {
    assert_eq!(trim_chars(&chars("   ")), chars(""));
    assert_eq!(trim_chars(&chars("")), chars(""));
    assert_eq!(trim_chars(&chars("\u{3000}\t\n")), chars(""));
}

#[test]
fn trim_agrees_with_std_trim() {
    for s in ["  a b  ", "x", " \u{00A0}y\u{2000} ", "", "  "] {
        let ours: String = trim_chars(&chars(s)).into_iter().collect();
        assert_eq!(ours, s.trim());
    }
}

#[test]
fn chars_collect_into_exact_string() {
    assert_eq!(chars_to_string(&chars("Buy milk")), "Buy milk");
    assert_eq!(chars_to_string(&chars("")), "");
    assert_eq!(chars_to_string(&vec!['\u{00E9}', 'x']), "\u{00E9}x");
}
