use native_events::platform::windows::wide::encode_wide;
use native_events::text::{join, push_decimal};

fn decimal(value: i32) -> String {
    let mut text = String::new();
    push_decimal(&mut text, value);
    text
}

#[test]
fn wide_text_ends_in_a_zero() {
    assert_eq!(encode_wide(""), vec![0]);
    assert_eq!(encode_wide("A"), vec![0x41, 0]);
    assert_eq!(
        encode_wide("Window Class"),
        vec![0x57, 0x69, 0x6e, 0x64, 0x6f, 0x77, 0x20, 0x43, 0x6c, 0x61, 0x73, 0x73, 0]
    );
}

#[test]
fn wide_text_has_one_unit_per_scalar_of_the_basic_plane() {
    assert_eq!(encode_wide("\u{e9}\u{4e2d}\u{ffff}"), vec![0xe9, 0x4e2d, 0xffff, 0]);
    assert_eq!(encode_wide("\u{d7ff}\u{e000}"), vec![0xd7ff, 0xe000, 0]);
}

#[test]
fn wide_text_has_a_surrogate_pair_for_a_scalar_beyond() {
    assert_eq!(encode_wide("\u{10000}"), vec![0xd800, 0xdc00, 0]);
    assert_eq!(encode_wide("\u{1f600}"), vec![0xd83d, 0xde00, 0]);
    assert_eq!(encode_wide("\u{10ffff}"), vec![0xdbff, 0xdfff, 0]);
    assert_eq!(encode_wide("a\u{1d11e}b"), vec![0x61, 0xd834, 0xdd1e, 0x62, 0]);
}

#[test]
fn wide_text_agrees_with_the_standard_encoding() {
    for text in ["", "plain", "Gr\u{fc}\u{df}e", "\u{1f600}\u{1f601}", "mixed \u{10348} text"] {
        let mut expected: Vec<u16> = text.encode_utf16().collect();
        expected.push(0);
        assert_eq!(encode_wide(text), expected);
    }
}

#[test]
fn decimal_text_of_small_numbers() {
    assert_eq!(decimal(0), "0");
    assert_eq!(decimal(7), "7");
    assert_eq!(decimal(10), "10");
    assert_eq!(decimal(-1), "-1");
    assert_eq!(decimal(-10), "-10");
    assert_eq!(decimal(1234567890), "1234567890");
}

#[test]
fn decimal_text_of_the_extremes() {
    assert_eq!(decimal(i32::MAX), "2147483647");
    assert_eq!(decimal(i32::MIN), "-2147483648");
}

#[test]
fn decimal_text_is_appended() {
    let mut text = "code ".to_string();
    push_decimal(&mut text, -42);
    push_decimal(&mut text, 0);
    assert_eq!(text, "code -420");
}

#[test]
fn join_puts_the_tail_behind_the_head() {
    assert_eq!(join("head: ", "tail"), "head: tail");
    assert_eq!(join("", "tail"), "tail");
    assert_eq!(join("head", ""), "head");
}
