use monarch_ascend::text::{
    contains, eq_ignoring_case, first_word, first_word_of_bytes, hex_preview, parse_i32,
    push_address, push_decimal, push_signed, same_text, starts_with,
};

#[test]
fn numbers_print_like_the_standard_library() {
    for n in [0u64, 7, 10, 42, 999, 1_000_000, u64::MAX] {
        let mut out = String::from("n=");
        push_decimal(&mut out, n);
        assert_eq!(out, format!("n={}", n));
    }
    for n in [0i32, -1, 15, i32::MIN, i32::MAX] {
        let mut out = String::new();
        push_signed(&mut out, n);
        assert_eq!(out, format!("{}", n));
    }
    for n in [0usize, 15, 16, 0x20_0000, usize::MAX] {
        let mut out = String::new();
        push_address(&mut out, n);
        assert_eq!(out, format!("{:#x}", n));
    }
}

#[test]
fn bytes_print_as_two_digits() {
    assert_eq!(hex_preview(&[0, 1, 15, 16, -1, -128], 32), "00010f10ff80");
    assert_eq!(hex_preview(&[0, 1, 15, 16, -1, -128], 2), "0001");
    assert_eq!(hex_preview(&[], 2), "");
}

#[test]
fn numbers_parse_like_the_standard_library() {
    let texts = [
        "0",
        "7",
        "007",
        "+5",
        "-5",
        "-0",
        "2147483647",
        "2147483648",
        "-2147483648",
        "-2147483649",
        "99999999999999999999",
        "",
        "+",
        "-",
        " 1",
        "1 ",
        "1.0",
        "0x1",
        "--1",
        "一",
    ];
    for text in texts {
        assert_eq!(parse_i32(text), text.parse::<i32>().ok(), "{}", text);
    }
}

#[test]
fn texts_compare() {
    assert!(same_text("roce", "roce"));
    assert!(!same_text("roce", "RoCE"));
    assert!(!same_text("roce", "roce "));
    assert!(eq_ignoring_case("RoCE", "roce"));
    assert!(!eq_ignoring_case("roc", "roce"));
    assert!(!eq_ignoring_case("rocé", "roce"));
    assert!(eq_ignoring_case("", ""));
}

#[test]
fn texts_are_searched() {
    assert!(contains("one two", "e t"));
    assert!(contains("aab", "ab"));
    assert!(contains("abc", ""));
    assert!(!contains("abc", "abcd"));
    assert!(!contains("abc", "ac"));
    assert!(starts_with("127.0.0.1", "127."));
    assert!(!starts_with("10.127.0.1", "127."));
    assert!(!starts_with("12", "127."));
}

#[test]
fn first_words_are_found() {
    assert_eq!(first_word("10.0.0.1 10.0.0.2 \n"), Some(String::from("10.0.0.1")));
    assert_eq!(first_word(" \t x\u{3000}y"), Some(String::from("x")));
    assert_eq!(first_word(" \n"), None);
    assert_eq!(first_word(""), None);
    for text in ["a b", "\u{85}z", "\u{2003}é\u{a0}", "one", "  "] {
        assert_eq!(first_word(text).as_deref(), text.split_whitespace().next());
    }
}

#[test]
fn first_words_need_utf8() {
    assert_eq!(first_word_of_bytes(b" abc def"), Some(String::from("abc")));
    assert_eq!(first_word_of_bytes("é x".as_bytes()), Some(String::from("é")));
    assert_eq!(first_word_of_bytes(&[0xff, 0x20, 0x41]), None);
    assert_eq!(first_word_of_bytes(&[]), None);
}
