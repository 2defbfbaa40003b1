use audetic::text::{
    chars_of, comes_before, contains, decimal, insert_sorted, is_blank, join, lines, lowercase,
    same, split_after, starts_with, strip_prefix, text_of, trim, trim_both, trim_head, trim_tail,
    words, CharClass,
};

#[test]
fn white_space_is_that_of_unicode() {
    for n in 0..=0x10ffffu32 {
        if let Some(c) = char::from_u32(n) {
            assert_eq!(CharClass::WhiteSpace.test(c), c.is_whitespace(), "{:x}", n);
        }
    }
}

#[test]
fn lower_case_is_that_of_ascii() {
    let s = "AZaz019 ÄÉ[\\]^_`{|}~@";
    assert_eq!(lowercase(s), s.to_ascii_lowercase());
}

#[test]
fn trimming() {
    for s in ["", " ", " a", "a ", "\t a b \u{3000}\n", "\u{a0}x\u{2028}"] {
        assert_eq!(trim(s), s.trim());
        assert_eq!(trim_head(s, CharClass::WhiteSpace), s.trim_start());
        assert_eq!(trim_tail(s, CharClass::WhiteSpace), s.trim_end());
        assert_eq!(is_blank(s), s.trim().is_empty());
    }
    assert_eq!(trim_tail("http://x//", CharClass::Slash), "http://x");
    assert_eq!(trim_both("\"\"a\"b\"", CharClass::Quote), "a\"b");
    assert_eq!(trim_both("x1.5%", CharClass::NotInDecimal), "1.5");
}

#[test]
fn searching() {
    for (s, pat) in [("", ""), ("abc", ""), ("abc", "bc"), ("abc", "abd"), ("ab", "abc")] {
        assert_eq!(contains(s, pat), s.contains(pat));
        assert_eq!(starts_with(s, pat), s.starts_with(pat));
    }
    assert!(same("äb", "äb"));
    assert!(!same("ab", "abc"));
    assert_eq!(strip_prefix("data: x", "data:").as_deref(), Some(" x"));
    assert_eq!(strip_prefix("dat", "data:"), None);
    assert_eq!(
        split_after("a = b = c", CharClass::Equals).as_deref(),
        Some(" b = c")
    );
    assert_eq!(split_after("a", CharClass::Colon), None);
}

#[test]
fn splitting() {
    for s in ["", "\n", "a", "a\n", "a\nb", "a\r\nb\r", "\n\na\r\n\r\n"] {
        let expected: Vec<&str> = s.lines().collect();
        assert_eq!(lines(s), expected, "{:?}", s);
    }
    for s in ["", "  ", "a", " a\tb\u{2003}c\n"] {
        let expected: Vec<&str> = s.split_whitespace().collect();
        assert_eq!(words(s), expected, "{:?}", s);
    }
}

#[test]
fn numbers_are_written_in_decimal() {
    for n in [0u64, 7, 10, 3737, u64::MAX] {
        assert_eq!(decimal(n), n.to_string());
    }
}

#[test]
fn characters_and_back() {
    let v = chars_of("aäb");
    assert_eq!(v, vec!['a', 'ä', 'b']);
    assert_eq!(text_of(&v, 1, 3), "äb");
    assert_eq!(join("a", "ä"), "aä");
}

#[test]
fn order_of_texts_is_that_of_std() {
    let texts = ["", "a", "ab", "b", "B", "ä", "a\u{10ffff}", "a\u{ffff}"];
    for a in texts {
        for b in texts {
            assert_eq!(comes_before(a, b), a < b, "{:?} {:?}", a, b);
        }
    }
}

#[test]
fn sorted_insertion_keeps_each_text_once() {
    let mut v: Vec<String> = Vec::new();
    for s in ["b", "a", "c", "b", "a"] {
        insert_sorted(&mut v, s.to_string());
    }
    assert_eq!(v, vec!["a", "b", "c"]);
}
