use grok_oauth::text::{
    copy_text, decimal_text, joined, same_ignoring_ascii_case, same_text, text_precedes, trim,
    trim_end_slashes,
};

#[test]
fn trim_takes_off_white_space_of_every_kind() {
    let mut point: u32 = 0;
    while point <= 0x10ffff {
        if let Some(c) = char::from_u32(point) {
            let mut text = String::new();
            text.push(c);
            text.push('x');
            text.push(c);
            assert_eq!(trim(&text), text.trim());
        }
        point += 1;
    }
}

#[test]
fn trim_keeps_white_space_inside() {
    assert_eq!(trim(" \t a b\u{3000}c \r\n"), "a b\u{3000}c");
    assert_eq!(trim("\u{a0}\u{2028} "), "");
    assert_eq!(trim(""), "");
    assert_eq!(trim("认证"), "认证");
}

#[test]
fn trim_end_slashes_takes_all_of_them() {
    assert_eq!(trim_end_slashes("/v1///"), "/v1");
    assert_eq!(trim_end_slashes("///"), "");
    assert_eq!(trim_end_slashes("//a"), "//a");
    assert_eq!(trim_end_slashes(""), "");
}

#[test]
fn decimal_has_no_leading_zeros() {
    assert_eq!(decimal_text(0), "0");
    assert_eq!(decimal_text(9), "9");
    assert_eq!(decimal_text(10), "10");
    assert_eq!(decimal_text(503), "503");
    assert_eq!(decimal_text(1_800_000_000), "1800000000");
    assert_eq!(decimal_text(u64::MAX), "18446744073709551615");
}

#[test]
fn order_of_names_is_that_of_strings() {
    let names = ["", "a", "aa", "ab", "b", "Z", "é", "中", "\u{ffff}", "\u{10000}", "a-", "a_"];
    for a in names {
        for b in names {
            assert_eq!(text_precedes(a, b), a < b, "{a} {b}");
            assert_eq!(same_text(a, b), a == b);
        }
    }
}

#[test]
fn only_ascii_letters_lose_their_case() {
    assert!(same_ignoring_ascii_case("X-XAI-Token-Auth", "x-xai-token-auth"));
    assert!(!same_ignoring_ascii_case("É", "é"));
    assert!(!same_ignoring_ascii_case("[", "{"));
    assert!(!same_ignoring_ascii_case("a", "ab"));
}

#[test]
fn joined_and_copied_texts_hold_the_same() {
    assert_eq!(joined("已处理 ", "2"), "已处理 2");
    assert_eq!(copy_text(&Some("a".to_string())), Some("a".to_string()));
    assert_eq!(copy_text(&None), None);
}
