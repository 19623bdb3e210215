use agent_core::search::{
    find_last, has_prefix, has_suffix, matches_at, piece_end, replaced, without_suffixes,
};
use agent_core::text::{
    char_is_space, chars_of, copy_range, is_text, join2, join3, push_all, push_decimal, push_text,
    same_chars, string_of, trim_end_index, trim_start_index, trimmed, trimmed_end, CharClass,
};

fn c(s: &str) -> Vec<char> {
    s.chars().collect()
}

fn s(v: Vec<char>) -> String {
    v.into_iter().collect()
}

#[test]
fn texts_and_characters_convert_both_ways() {
    for sample in ["", "abc", "sí señor", "日本語", "a\u{1F600}b"] {
        assert_eq!(chars_of(sample), c(sample));
        assert_eq!(string_of(&c(sample)), sample);
    }
}

#[test]
fn white_space_is_what_trimming_removes() {
    for ch in ['\u{0}', 'a', '\u{8}', '\u{e}', '\u{200b}', '\u{2060}', '\u{feff}', '_', '\u{180e}'] {
        assert_eq!(char_is_space(ch), ch.is_whitespace());
        assert!(!char_is_space(ch));
    }
    for code in 0u32..0x3100 {
        if let Some(ch) = char::from_u32(code) {
            assert_eq!(char_is_space(ch), ch.is_whitespace(), "U+{:04X}", code);
        }
    }
}

#[test]
fn trimming_agrees_with_the_standard_library() {
    for sample in ["", "  ", " a ", "\n\ta b\r\n", "a", "\u{3000}x\u{a0}", " ` x ` "] {
        assert_eq!(s(trimmed(&c(sample), CharClass::Space)), sample.trim());
        assert_eq!(s(trimmed_end(&c(sample), CharClass::Space)), sample.trim_end());
        assert_eq!(s(trimmed(&c(sample), CharClass::Only('`'))), sample.trim_matches('`'));
        assert_eq!(s(trimmed_end(&c(sample), CharClass::Only('/'))), sample.trim_end_matches('/'));
    }
    assert_eq!(s(trimmed(&c("**`x`**"), CharClass::Markup)), "x");
    assert_eq!(s(trimmed(&c("*a*b*"), CharClass::Markup)), "a*b");
    assert_eq!(trim_start_index(&c("  a "), CharClass::Space), 2);
    assert_eq!(trim_end_index(&c("  a "), CharClass::Space), 3);
    assert_eq!(trim_start_index(&c("   "), CharClass::Space), 3);
    assert_eq!(trim_end_index(&c("   "), CharClass::Space), 0);
}

#[test]
fn ranges_and_appending() {
    assert_eq!(s(copy_range(&c("abcdef"), 2, 4)), "cd");
    assert_eq!(s(copy_range(&c("abc"), 3, 3)), "");
    let mut out = c("ab");
    push_all(&mut out, &c("cd"));
    push_text(&mut out, "éf");
    push_decimal(&mut out, 0);
    push_decimal(&mut out, 907);
    assert_eq!(s(out), "abcdéf0907");
    let mut out = vec![];
    push_decimal(&mut out, usize::MAX);
    assert_eq!(s(out), usize::MAX.to_string());
    assert_eq!(join2("a", "b"), "ab");
    assert_eq!(join3("a", "", "c"), "ac");
}

#[test]
fn comparing_texts() {
    assert!(same_chars(&c("abc"), &c("abc")));
    assert!(!same_chars(&c("abc"), &c("abd")));
    assert!(!same_chars(&c("abc"), &c("ab")));
    assert!(same_chars(&c(""), &c("")));
    assert!(is_text(&c("POST"), "POST"));
    assert!(!is_text(&c("POST"), "post"));
}

#[test]
fn finding_patterns() {
    assert!(matches_at(&c("hello"), &c("ll"), 2));
    assert!(!matches_at(&c("hello"), &c("ll"), 3));
    assert!(!matches_at(&c("hello"), &c("lo"), 4));
    assert!(matches_at(&c("hello"), &c(""), 5));
    assert!(!matches_at(&c("hello"), &c(""), 6));
    assert!(!matches_at(&c("a"), &c("ab"), 0));
    assert_eq!(find_last(&c("abcabc"), &c("bc")), Some(4));
    assert_eq!(find_last(&c("abcabc"), &c("a")), Some(3));
    assert_eq!(find_last(&c("abcabc"), &c("x")), None);
    assert_eq!(find_last(&c("aaa"), &c("aa")), Some(1));
    assert_eq!(find_last(&c("abc"), &c("")), Some(3));
    assert_eq!(find_last(&c(""), &c("a")), None);
    assert_eq!(find_last(&c("ab"), &c("abc")), None);
    for (hay, pat) in [("abcabc", "bc"), ("xyz", "q"), ("ñandú ñ", "ñ"), ("", ""), ("aaaa", "aa")] {
        let by_chars = hay.rfind(pat).map(|i| hay[..i].chars().count());
        assert_eq!(find_last(&c(hay), &c(pat)), by_chars);
    }
    assert!(has_prefix(&c("image/png"), &c("image/")));
    assert!(!has_prefix(&c("imag"), &c("image/")));
    assert!(has_suffix(&c("a/v1"), &c("/v1")));
    assert!(!has_suffix(&c("v1"), &c("/v1")));
    assert_eq!(piece_end(&c("a;b;c"), 0, ';'), 1);
    assert_eq!(piece_end(&c("a;b;c"), 2, ';'), 3);
    assert_eq!(piece_end(&c("a;b;c"), 4, ';'), 5);
    assert_eq!(piece_end(&c(""), 0, ';'), 0);
}

#[test]
fn replacing_agrees_with_the_standard_library() {
    for (text, pat, rep) in [
        ("a b c", " ", "_"),
        ("aaaa", "aa", "b"),
        ("aaa", "aa", "b"),
        ("abc", "x", "y"),
        ("", "a", "b"),
        ("{{input.a}}/{{input.a}}", "{{input.a}}", "1"),
        ("abab", "ab", ""),
        ("ñandú", "ñ", "n"),
        ("x", "xyz", "q"),
    ] {
        assert_eq!(s(replaced(&c(text), &c(pat), &c(rep))), text.replace(pat, rep));
    }
    assert_eq!(s(replaced(&c("abc"), &c(""), &c("-"))), "abc");
}

#[test]
fn stripping_suffixes_agrees_with_the_standard_library() {
    for (text, pat) in [("a/v1", "/v1"), ("a/v1/v1", "/v1"), ("a/v1/", "/v1"), ("/v1", "/v1"), ("", "/v1"), ("aaa", "a")] {
        assert_eq!(s(without_suffixes(&c(text), &c(pat))), text.trim_end_matches(pat));
    }
    assert_eq!(s(without_suffixes(&c("abc"), &c(""))), "abc");
}
