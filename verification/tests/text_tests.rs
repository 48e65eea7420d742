use logixa_brain_core::text::{
    chars_of, concat_str, contains_chars, is_blank, is_whitespace, join_strings, push_decimal,
    remove_all_chars, split_words, str_eq, string_of, to_lowercase, trim_str,
};

#[test]
fn whitespace_agrees_with_std_on_every_char() {
    for u in 0u32..0x11_0000 {
        if let Some(c) = char::from_u32(u) {
            assert_eq!(is_whitespace(c), c.is_whitespace(), "code point {:#x}", u);
        }
    }
}

#[test]
fn trim_agrees_with_std() {
    let samples = [
        "",
        "   ",
        "  hello  ",
        "\t\n mixed \u{3000}",
        "\u{a0}no-break\u{a0}",
        "inner  space",
        "مرحبا ",
    ];
    for s in samples {
        assert_eq!(trim_str(s), s.trim());
        assert_eq!(is_blank(s), s.trim().is_empty());
    }
}

#[test]
fn substring_search_and_removal() {
    let s = chars_of("run git status now");
    assert!(contains_chars(&s, &chars_of("git status")));
    assert!(!contains_chars(&s, &chars_of("git diff")));
    assert!(contains_chars(&s, &chars_of("")));
    let cases = ["a<|end|>b<|end|>", "<|e<|end|>nd|>", "none", "<|end|><|end|>"];
    for c in cases {
        let removed = remove_all_chars(&chars_of(c), &chars_of("<|end|>"));
        assert_eq!(string_of(&removed), c.replace("<|end|>", ""));
    }
}

#[test]
fn words_agree_with_split_whitespace() {
    let s = "  one two\tthree\n\nfour  ";
    let ws = split_words(s, 24);
    let got: Vec<String> = ws.iter().map(|w| w.iter().collect()).collect();
    let want: Vec<String> = s.split_whitespace().map(|w| w.to_string()).collect();
    assert_eq!(got, want);
    assert_eq!(split_words(s, 2).len(), 2);
    assert!(split_words("   ", 24).is_empty());
}

#[test]
fn joining_and_concatenation() {
    let parts = vec!["a".to_string(), "b".to_string(), "c".to_string()];
    assert_eq!(join_strings(&parts, " OR "), "a OR b OR c");
    assert_eq!(join_strings(&vec![], ","), "");
    assert_eq!(concat_str("ab", "cd"), "abcd");
    assert!(str_eq("same", "same"));
    assert!(!str_eq("same", "Same"));
}

#[test]
fn decimal_digits() {
    for n in [0u64, 7, 10, 8787, 65535, u64::MAX] {
        let mut s = String::from("x");
        push_decimal(&mut s, n);
        assert_eq!(s, format!("x{}", n));
    }
}

#[test]
fn lowercase_uses_unicode_rules() {
    assert_eq!(to_lowercase("PLAN"), "plan");
    assert_eq!(to_lowercase(""), "");
    assert_eq!(to_lowercase("Git-Status_2 @Z"), "git-status_2 @z");
    assert_eq!(to_lowercase("ÀÉ"), "àé");
    assert_eq!(to_lowercase("كود"), "كود");
}
