use cleanup::text::{
    char_is_white_space, chars_of, chars_start_with, joined, push_text, texts_equal, trim_bounds,
    trim_str,
};

#[test]
fn white_space_matches_std() {
    for v in 0u32..0x3100 {
        if let Some(c) = char::from_u32(v) {
            assert_eq!(char_is_white_space(c), c.is_whitespace(), "code point {:#x}", v);
        }
    }
    assert!(!char_is_white_space('a'));
    assert!(char_is_white_space('\u{3000}'));
}

#[test]
fn trimming_matches_std() {
    for s in ["", "   ", " a ", "\t\r\nx y\u{a0}", "\u{2003}ab\u{205f}", "abc", "a\u{200b}"] {
        assert_eq!(trim_str(s), s.trim());
    }
}

#[test]
fn trim_bounds_within_a_range() {
    let chars = chars_of("xx  ab c  yy");
    assert_eq!(trim_bounds(&chars, 2, 10), (4, 8));
    assert_eq!(trim_bounds(&chars, 2, 4), (4, 4));
}

#[test]
fn chars_and_prefixes() {
    let s = chars_of("Olá!");
    assert_eq!(s, vec!['O', 'l', 'á', '!']);
    assert!(chars_start_with(&s, &chars_of("Ol")));
    assert!(chars_start_with(&s, &chars_of("")));
    assert!(!chars_start_with(&s, &chars_of("Olá!!")));
    assert!(!chars_start_with(&s, &chars_of("ol")));
}

#[test]
fn equality_and_joining() {
    assert!(texts_equal("ação", "ação"));
    assert!(!texts_equal("acao", "ação"));
    assert!(!texts_equal("a", "ab"));
    assert_eq!(joined("C:\\x", "\\y"), "C:\\x\\y");
    let mut v = Vec::new();
    push_text(&mut v, "a");
    push_text(&mut v, "b");
    assert_eq!(v, vec!["a", "b"]);
}
