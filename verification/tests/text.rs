use dobby::text::{
    char_is_whitespace, chars_of, contains, eq_ignore_ascii_case, split_once, trim,
};

#[test]
fn whitespace_is_what_the_standard_library_says() {
    let mut n: u32 = 0;
    while n <= 0x10FFFF {
        if let Some(c) = char::from_u32(n) {
            assert_eq!(char_is_whitespace(c), c.is_whitespace(), "U+{:04X}", n);
        }
        n += 1;
    }
}

#[test]
fn chars_of_keeps_every_character() {
    assert_eq!(chars_of(""), Vec::<char>::new());
    assert_eq!(chars_of("a/ü💡"), vec!['a', '/', 'ü', '💡']);
}

#[test]
fn trim_removes_surrounding_whitespace_only() {
    assert_eq!(trim("  status \t\r\n"), "status");
    assert_eq!(trim("set  x  1"), "set  x  1");
    assert_eq!(trim("\u{3000}a b\u{a0}"), "a b");
    assert_eq!(trim(""), "");
    assert_eq!(trim(" \t\n"), "");
    assert_eq!(trim("x"), "x");
}

#[test]
fn trim_agrees_with_the_standard_library() {
    let samples = [
        "", " ", "a", " a", "a ", " a ", "\n\na\tb\n", "\u{2003}é \u{2028}", "💡 x 🥾 ",
        "\u{200b}a\u{200b}", "\u{feff}x",
    ];
    for s in samples {
        assert_eq!(trim(s), s.trim(), "{:?}", s);
    }
}

#[test]
fn ascii_case_is_ignored_letter_by_letter() {
    assert!(eq_ignore_ascii_case("exit", "exit"));
    assert!(eq_ignore_ascii_case("EXIT", "exit"));
    assert!(eq_ignore_ascii_case("eXiT", "ExIt"));
    assert!(eq_ignore_ascii_case("", ""));
    assert!(!eq_ignore_ascii_case("exit", "exi"));
    assert!(!eq_ignore_ascii_case("exit", "exit "));
    assert!(!eq_ignore_ascii_case("exit", "exiu"));
    // '@' and '`' are 32 apart, as are '[' and '{', but neither is a letter
    assert!(!eq_ignore_ascii_case("@", "`"));
    assert!(!eq_ignore_ascii_case("[", "{"));
    // only ASCII letters lose their case
    assert!(!eq_ignore_ascii_case("É", "é"));
    assert!(eq_ignore_ascii_case("é", "é"));
}

#[test]
fn ascii_case_agrees_with_the_standard_library() {
    let samples = ["", "a", "A", "z", "Z", "@", "`", "[", "{", "help", "HELP", "HeLp ", "é", "É", "k", "K"];
    for a in samples {
        for b in samples {
            assert_eq!(eq_ignore_ascii_case(a, b), a.eq_ignore_ascii_case(b), "{:?} {:?}", a, b);
        }
    }
}

#[test]
fn contains_finds_a_pattern_anywhere() {
    assert!(contains("RESPONSE", "RESPONSE"));
    assert!(contains("[1] RESPONSE ok", "RESPONSE"));
    assert!(contains("xRESPONSE", "RESPONSE"));
    assert!(contains("RESPONSEx", "RESPONSE"));
    assert!(contains("RESPRESPONSE", "RESPONSE"));
    assert!(contains("anything", ""));
    assert!(contains("", ""));
    assert!(!contains("", "RESPONSE"));
    assert!(!contains("RESPONS", "RESPONSE"));
    assert!(!contains("response", "RESPONSE"));
    assert!(!contains("RESPON SE", "RESPONSE"));
}

#[test]
fn split_once_splits_at_the_first_delimiter() {
    assert_eq!(split_once("[abc] hello world", ']'), Some(("[abc", " hello world")));
    assert_eq!(split_once("a]b]c", ']'), Some(("a", "b]c")));
    assert_eq!(split_once("]", ']'), Some(("", "")));
    assert_eq!(split_once("]x", ']'), Some(("", "x")));
    assert_eq!(split_once("x]", ']'), Some(("x", "")));
    assert_eq!(split_once("no bracket", ']'), None);
    assert_eq!(split_once("", ']'), None);
    assert_eq!(split_once("é]ü", ']'), Some(("é", "ü")));
}
