use caddy_dev::text::{is_blank, is_whitespace, str_equal, to_chars};

#[test]
fn whitespace_agrees_with_the_standard_library_on_every_char() {
    let mut code: u32 = 0;
    while code <= 0x10FFFF {
        if let Some(c) = char::from_u32(code) {
            assert_eq!(is_whitespace(c), c.is_whitespace());
        }
        code += 1;
    }
}

#[test]
fn blank_is_what_trims_to_nothing() {
    for s in ["", " ", "\t \n", "\u{3000}\u{a0}", " a ", "x", "  /srv  ", "\u{200b}"] {
        assert_eq!(is_blank(s), s.trim().is_empty());
    }
}

#[test]
fn chars_come_in_order() {
    let s = "h\u{e9}llo {{w\u{f6}rld}} \u{1f600}";
    assert_eq!(to_chars(s), s.chars().collect::<Vec<char>>());
    assert_eq!(to_chars(""), Vec::<char>::new());
}

#[test]
fn equal_strings_are_told_from_others() {
    assert!(str_equal("", ""));
    assert!(str_equal("k\u{e9}y", "k\u{e9}y"));
    assert!(!str_equal("key", "kex"));
    assert!(!str_equal("key", "keys"));
    assert!(!str_equal("keys", "key"));
}
