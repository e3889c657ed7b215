use bmp180_bridge::json::scan::{chars_of, is_number_str, is_plain_str};
use bmp180_bridge::json::writer::{push_line, push_member_head, push_quoted, push_spaces};

#[test]
fn numbers() {
    for text in [
        "0", "-0", "7", "10", "-12.25", "0.5", "101.325", "1e5", "1E5", "1e+5", "2.5e-3", "-0.0",
        "340282350000000000000000000000000000000", "0.0000001",
    ] {
        assert!(is_number_str(text), "{} is a number", text);
        assert!(serde_json::from_str::<serde_json::Value>(text).is_ok());
    }
}

#[test]
fn what_is_no_number() {
    for text in [
        "", "-", "+1", "01", "-01", "1.", ".5", "1.e5", "1e", "1e+", "1e5.0", "NaN", "inf", "-inf",
        " 1", "1 ", "1,5", "0x10", "1.2.3", "--1", "1e5e5", "٣",
    ] {
        assert!(!is_number_str(text), "{:?} is no number", text);
    }
}

#[test]
fn plain_strings() {
    for text in ["", "kitchen", "Living Room", "k\u{fc}che", "a/b", "{{ x }}", "\u{7f}", "'"] {
        assert!(is_plain_str(text), "{:?} is plain", text);
    }
}

#[test]
fn strings_that_need_escaping() {
    for text in ["\"", "a\"b", "\\", "a\\b", "\n", "a\tb", "\u{0}", "\u{1f}", "x\r"] {
        assert!(!is_plain_str(text), "{:?} is not plain", text);
    }
}

#[test]
fn characters_of_a_string() {
    assert_eq!(chars_of(""), Vec::<char>::new());
    assert_eq!(chars_of("a\u{b0}C"), vec!['a', '\u{b0}', 'C']);
}

#[test]
fn writing_blanks_and_names() {
    let mut out = String::from("x");
    push_spaces(&mut out, 0);
    assert_eq!(out, "x");
    push_spaces(&mut out, 3);
    assert_eq!(out, "x   ");
    push_line(&mut out, 2);
    assert_eq!(out, "x   \n  ");
    push_line(&mut out, 0);
    assert_eq!(out, "x   \n  \n");
    push_quoted(&mut out, "a b");
    assert_eq!(out, "x   \n  \n\"a b\"");
    let mut head = String::new();
    push_member_head(&mut head, 3, "name");
    assert_eq!(head, "\n   \"name\":");
}
