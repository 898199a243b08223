//! Decimal numbers and copies of lists.

use maily::text::copy_texts;
use maily::text::push_decimal;
use maily::text::push_signed_decimal;

fn decimal(n: u64) -> String {
    let mut out = String::new();
    push_decimal(&mut out, n);
    out
}

fn signed(i: i32) -> String {
    let mut out = String::new();
    push_signed_decimal(&mut out, i);
    out
}

#[test]
fn naturals_are_written_without_leading_zeros() {
    assert_eq!(decimal(0), "0");
    assert_eq!(decimal(7), "7");
    assert_eq!(decimal(10), "10");
    assert_eq!(decimal(1024), "1024");
    assert_eq!(decimal(u64::MAX), "18446744073709551615");
}

#[test]
fn integers_carry_their_sign() {
    assert_eq!(signed(0), "0");
    assert_eq!(signed(1), "1");
    assert_eq!(signed(-1), "-1");
    assert_eq!(signed(127), "127");
    assert_eq!(signed(i32::MAX), "2147483647");
    assert_eq!(signed(i32::MIN), "-2147483648");
}

#[test]
fn digits_go_behind_what_is_there() {
    let mut out = "exit ".to_string();
    push_signed_decimal(&mut out, -15);
    assert_eq!(out, "exit -15");
}

#[test]
fn a_copy_holds_the_same_strings() {
    let list = vec!["a".to_string(), String::new(), "b c".to_string()];
    assert_eq!(copy_texts(&list), list);
    assert_eq!(copy_texts(&Vec::new()), Vec::<String>::new());
}
